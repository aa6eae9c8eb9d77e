//! DORAM configuration: level count, amplification factor and CHT bounds.
use vstd::prelude::*;
use vstd::arithmetic::power2::pow2;
use vstd::bits::lemma_usize_shl_is_mul;
use vstd::bits::lemma_usize_pow2_no_overflow;

verus! {

/// Stash size when the empirical cuckoo-hashing analysis is used.
pub const EMPIRICAL_CHT_STASH_SIZE: usize = 8;

/// Stash size when the proven cuckoo-hashing bound is used.
pub const PROVEN_CHT_STASH_SIZE: usize = 50;

/// Width in bits of a DORAM address word; the top half of the address space
/// `[2^N, 2^(N+1))` is reserved for dummy labels.
pub const ADDRESS_BITS: usize = 32;

/// Number of alibi bits a stored record carries (one per level).
pub const ALIBI_BITS: usize = 8;

/// Which cuckoo-hash-table analysis the stash size and column lengths are
/// based on.
#[derive(Clone, Copy, Debug, PartialEq, Eq, Structural)]
pub enum ChtBounds {
    /// Empirically chosen stash size with column load factor 1.2.
    Empirical,
    /// Proven stash bound with column load factor 2.0.
    Proven,
}

impl ChtBounds {
    pub open spec fn spec_stash_size(self) -> usize {
        match self {
            ChtBounds::Empirical => EMPIRICAL_CHT_STASH_SIZE,
            ChtBounds::Proven => PROVEN_CHT_STASH_SIZE,
        }
    }

    /// The stash size that goes with this analysis.
    pub fn stash_size(self) -> (s: usize)
        ensures
            s == self.spec_stash_size(),
    {
        match self {
            ChtBounds::Empirical => EMPIRICAL_CHT_STASH_SIZE,
            ChtBounds::Proven => PROVEN_CHT_STASH_SIZE,
        }
    }

    /// `floor(d * n)` for the column load factor `d` of this analysis
    /// (`d = 1.2` for the empirical bound, `d = 2` for the proven one).
    pub open spec fn spec_scaled_count(self, n: int) -> int {
        match self {
            ChtBounds::Empirical => (12 * n) / 10,
            ChtBounds::Proven => 2 * n,
        }
    }

    /// `floor(d * n)` for the column load factor `d` of this analysis.
    pub fn scaled_count(self, n: usize) -> (r: usize)
        requires
            n <= usize::MAX / 2,
        ensures
            r == self.spec_scaled_count(n as int),
    {
        match self {
            ChtBounds::Empirical => {
                assert((12 * n) / 10 == n + n / 5) by (nonlinear_arith);
                n + n / 5
            },
            ChtBounds::Proven => 2 * n,
        }
    }
}

/// Why a configuration is rejected.
#[derive(Clone, Copy, Debug, PartialEq, Eq, Structural)]
pub enum ConfigError {
    /// `num_levels` is zero.
    NoLevels,
    /// The address space does not leave room for the dummy labels.
    AddressSpaceTooLarge,
    /// `2^log_speed_cache_size` does not fit a `usize`.
    SpeedCacheTooLarge,
    /// `2^log_amp_factor` does not fit a `usize`.
    AmpFactorTooLarge,
    /// The stash does not fit in the speed cache.
    StashTooLarge,
    /// More levels than alibi bits.
    TooManyLevels,
    /// The address-space size does not match the bottom-level capacity.
    ShapeMismatch,
}

#[derive(Clone, Copy, Debug, PartialEq, Eq, Structural)]
pub struct GigaDoramConfig {
    pub log_address_space_size: usize,
    pub num_levels: usize,
    pub log_speed_cache_size: usize,
    pub log_amp_factor: usize,
    pub stash_size: usize,
    pub cht_bounds: ChtBounds,
}

/// Whether the constructor arguments describe a valid configuration: at
/// least one level, the speed cache and the `num_levels - 1` amplified levels
/// exactly spanning the address space, and every validity check passing.
pub open spec fn valid_shape(
    log_address_space_size: int,
    num_levels: int,
    log_amp_factor: int,
    stash_size: int,
) -> bool {
    &&& num_levels > 0
    &&& (num_levels - 1) * log_amp_factor <= log_address_space_size
    &&& log_address_space_size < ADDRESS_BITS
    &&& log_address_space_size - (num_levels - 1) * log_amp_factor < usize::BITS
    &&& log_amp_factor < usize::BITS
    &&& stash_size < pow2((log_address_space_size - (num_levels - 1) * log_amp_factor) as nat)
    &&& num_levels <= ALIBI_BITS
}

impl GigaDoramConfig {
    /// All the checks of `validate` pass.
    pub open spec fn is_valid(self) -> bool {
        &&& self.num_levels > 0
        &&& self.log_address_space_size < ADDRESS_BITS
        &&& self.log_speed_cache_size < usize::BITS
        &&& self.log_amp_factor < usize::BITS
        &&& self.stash_size < pow2(self.log_speed_cache_size as nat)
        &&& self.num_levels <= ALIBI_BITS
        &&& self.log_address_space_size == self.log_speed_cache_size + (self.num_levels - 1)
            * self.log_amp_factor
    }

    /// The first check of `validate` that fails, if any.
    pub open spec fn spec_validate(self) -> Result<(), ConfigError> {
        if self.num_levels == 0 {
            Err(ConfigError::NoLevels)
        } else if self.log_address_space_size >= ADDRESS_BITS {
            Err(ConfigError::AddressSpaceTooLarge)
        } else if self.log_speed_cache_size >= usize::BITS {
            Err(ConfigError::SpeedCacheTooLarge)
        } else if self.log_amp_factor >= usize::BITS {
            Err(ConfigError::AmpFactorTooLarge)
        } else if self.stash_size >= pow2(self.log_speed_cache_size as nat) {
            Err(ConfigError::StashTooLarge)
        } else if self.num_levels > ALIBI_BITS {
            Err(ConfigError::TooManyLevels)
        } else if self.log_address_space_size != self.log_speed_cache_size + (self.num_levels - 1)
            * self.log_amp_factor {
            Err(ConfigError::ShapeMismatch)
        } else {
            Ok(())
        }
    }

    /// The configuration with the empirical CHT bounds.
    pub fn new(log_address_space_size: usize, num_levels: usize, log_amp_factor: usize) -> (c:
        Self)
        requires
            valid_shape(
                log_address_space_size as int,
                num_levels as int,
                log_amp_factor as int,
                EMPIRICAL_CHT_STASH_SIZE as int,
            ),
        ensures
            c == Self::spec_with_stash_size(
                log_address_space_size,
                num_levels,
                log_amp_factor,
                EMPIRICAL_CHT_STASH_SIZE,
                ChtBounds::Empirical,
            ),
            c.is_valid(),
    {
        Self::with_cht_bounds(log_address_space_size, num_levels, log_amp_factor, ChtBounds::Empirical)
    }

    /// The configuration with the proven CHT bounds.
    pub fn with_proven_cht_bounds(
        log_address_space_size: usize,
        num_levels: usize,
        log_amp_factor: usize,
    ) -> (c: Self)
        requires
            valid_shape(
                log_address_space_size as int,
                num_levels as int,
                log_amp_factor as int,
                PROVEN_CHT_STASH_SIZE as int,
            ),
        ensures
            c == Self::spec_with_stash_size(
                log_address_space_size,
                num_levels,
                log_amp_factor,
                PROVEN_CHT_STASH_SIZE,
                ChtBounds::Proven,
            ),
            c.is_valid(),
    {
        Self::with_cht_bounds(log_address_space_size, num_levels, log_amp_factor, ChtBounds::Proven)
    }

    /// The configuration with the stash size of `cht_bounds`.
    pub fn with_cht_bounds(
        log_address_space_size: usize,
        num_levels: usize,
        log_amp_factor: usize,
        cht_bounds: ChtBounds,
    ) -> (c: Self)
        requires
            valid_shape(
                log_address_space_size as int,
                num_levels as int,
                log_amp_factor as int,
                cht_bounds.spec_stash_size() as int,
            ),
        ensures
            c == Self::spec_with_stash_size(
                log_address_space_size,
                num_levels,
                log_amp_factor,
                cht_bounds.spec_stash_size(),
                cht_bounds,
            ),
            c.is_valid(),
    {
        Self::with_stash_size(
            log_address_space_size,
            num_levels,
            log_amp_factor,
            cht_bounds.stash_size(),
            cht_bounds,
        )
    }

    pub open spec fn spec_with_stash_size(
        log_address_space_size: usize,
        num_levels: usize,
        log_amp_factor: usize,
        stash_size: usize,
        cht_bounds: ChtBounds,
    ) -> Self {
        GigaDoramConfig {
            log_address_space_size,
            num_levels,
            log_speed_cache_size: (log_address_space_size - (num_levels - 1) * log_amp_factor) as usize,
            log_amp_factor,
            stash_size,
            cht_bounds,
        }
    }

    /// The configuration whose speed cache takes whatever the
    /// `num_levels - 1` amplified levels leave of the address space.
    pub fn with_stash_size(
        log_address_space_size: usize,
        num_levels: usize,
        log_amp_factor: usize,
        stash_size: usize,
        cht_bounds: ChtBounds,
    ) -> (c: Self)
        requires
            valid_shape(
                log_address_space_size as int,
                num_levels as int,
                log_amp_factor as int,
                stash_size as int,
            ),
        ensures
            c == Self::spec_with_stash_size(
                log_address_space_size,
                num_levels,
                log_amp_factor,
                stash_size,
                cht_bounds,
            ),
            c.is_valid(),
    {
        assert((num_levels - 1) * log_amp_factor <= log_address_space_size);
        let x = (num_levels - 1) * log_amp_factor;
        let log_speed_cache_size = log_address_space_size - x;
        GigaDoramConfig {
            log_address_space_size,
            num_levels,
            log_speed_cache_size,
            log_amp_factor,
            stash_size,
            cht_bounds,
        }
    }

    /// The number of speed-cache slots, `2^log_speed_cache_size`.
    pub fn speed_cache_size(&self) -> (n: usize)
        requires
            self.log_speed_cache_size < usize::BITS,
        ensures
            n == pow2(self.log_speed_cache_size as nat),
    {
        proof {
            lemma_usize_pow2_no_overflow(self.log_speed_cache_size as nat);
            lemma_usize_shl_is_mul(1, self.log_speed_cache_size);
        }
        1usize << self.log_speed_cache_size
    }

    /// The number of queries between two rebuilds: the speed-cache slots
    /// that the stash does not occupy.
    pub fn fill_time(&self) -> (n: usize)
        requires
            self.log_speed_cache_size < usize::BITS,
            self.stash_size <= pow2(self.log_speed_cache_size as nat),
        ensures
            n == pow2(self.log_speed_cache_size as nat) - self.stash_size,
    {
        self.speed_cache_size() - self.stash_size
    }

    /// The amplification factor, `2^log_amp_factor`.
    pub fn amp_factor(&self) -> (n: usize)
        requires
            self.log_amp_factor < usize::BITS,
        ensures
            n == pow2(self.log_amp_factor as nat),
    {
        proof {
            lemma_usize_pow2_no_overflow(self.log_amp_factor as nat);
            lemma_usize_shl_is_mul(1, self.log_amp_factor);
        }
        1usize << self.log_amp_factor
    }

    /// Check the configuration; the error names the first check that fails.
    pub fn validate(&self) -> (r: Result<(), ConfigError>)
        ensures
            r == self.spec_validate(),
    {
        if self.num_levels == 0 {
            return Err(ConfigError::NoLevels);
        }
        if self.log_address_space_size >= ADDRESS_BITS {
            return Err(ConfigError::AddressSpaceTooLarge);
        }
        if self.log_speed_cache_size >= usize::BITS as usize {
            return Err(ConfigError::SpeedCacheTooLarge);
        }
        if self.log_amp_factor >= usize::BITS as usize {
            return Err(ConfigError::AmpFactorTooLarge);
        }
        if self.stash_size >= self.speed_cache_size() {
            return Err(ConfigError::StashTooLarge);
        }
        if self.num_levels > ALIBI_BITS {
            return Err(ConfigError::TooManyLevels);
        }
        let below = self.num_levels - 1;
        assert(below * self.log_amp_factor <= 8 * 64) by (nonlinear_arith)
            requires
                below < 8,
                self.log_amp_factor < 64,
        ;
        if self.log_speed_cache_size + below * self.log_amp_factor != self.log_address_space_size {
            return Err(ConfigError::ShapeMismatch);
        }
        Ok(())
    }
}

/// What a valid configuration's constructor promises: the checks of
/// `validate` all pass.
pub proof fn lemma_constructed_config_validates(
    log_address_space_size: usize,
    num_levels: usize,
    log_amp_factor: usize,
    stash_size: usize,
    cht_bounds: ChtBounds,
)
    requires
        valid_shape(
            log_address_space_size as int,
            num_levels as int,
            log_amp_factor as int,
            stash_size as int,
        ),
    ensures
        GigaDoramConfig::spec_with_stash_size(
            log_address_space_size,
            num_levels,
            log_amp_factor,
            stash_size,
            cht_bounds,
        ).spec_validate() == Ok::<(), ConfigError>(()),
{
}

/// The constructors agree on every shape: `new` is `with_cht_bounds` with
/// the empirical bounds and `with_proven_cht_bounds` is `with_cht_bounds`
/// with the proven ones, each accepting exactly the shapes that it accepts,
/// and `with_cht_bounds` is `with_stash_size` at the stash size of its
/// bounds (8 for the empirical bounds, 50 for the proven ones).
pub proof fn lemma_constructors_agree(
    log_address_space_size: usize,
    num_levels: usize,
    log_amp_factor: usize,
    cht_bounds: ChtBounds,
)
    ensures
        cht_bounds.spec_stash_size() == (if cht_bounds == ChtBounds::Empirical {
            8usize
        } else {
            50usize
        }),
        valid_shape(
            log_address_space_size as int,
            num_levels as int,
            log_amp_factor as int,
            EMPIRICAL_CHT_STASH_SIZE as int,
        ) == valid_shape(
            log_address_space_size as int,
            num_levels as int,
            log_amp_factor as int,
            ChtBounds::Empirical.spec_stash_size() as int,
        ),
        valid_shape(
            log_address_space_size as int,
            num_levels as int,
            log_amp_factor as int,
            PROVEN_CHT_STASH_SIZE as int,
        ) == valid_shape(
            log_address_space_size as int,
            num_levels as int,
            log_amp_factor as int,
            ChtBounds::Proven.spec_stash_size() as int,
        ),
        GigaDoramConfig::spec_with_stash_size(
            log_address_space_size,
            num_levels,
            log_amp_factor,
            EMPIRICAL_CHT_STASH_SIZE,
            ChtBounds::Empirical,
        ) == GigaDoramConfig::spec_with_stash_size(
            log_address_space_size,
            num_levels,
            log_amp_factor,
            ChtBounds::Empirical.spec_stash_size(),
            ChtBounds::Empirical,
        ),
        GigaDoramConfig::spec_with_stash_size(
            log_address_space_size,
            num_levels,
            log_amp_factor,
            PROVEN_CHT_STASH_SIZE,
            ChtBounds::Proven,
        ) == GigaDoramConfig::spec_with_stash_size(
            log_address_space_size,
            num_levels,
            log_amp_factor,
            ChtBounds::Proven.spec_stash_size(),
            ChtBounds::Proven,
        ),
{
}

/// The scaled count is the count times the column load factor of the
/// analysis, rounded down: twice the count under the proven bounds (load
/// factor 2.0), and the largest `r` with `10 * r <= 12 * n` under the
/// empirical bounds (load factor 1.2).
pub proof fn lemma_scaled_count_load_factor(n: int)
    requires
        0 <= n,
    ensures
        ChtBounds::Proven.spec_scaled_count(n) == n + n,
        10 * ChtBounds::Empirical.spec_scaled_count(n) <= 12 * n,
        12 * n < 10 * ChtBounds::Empirical.spec_scaled_count(n) + 10,
        n <= ChtBounds::Empirical.spec_scaled_count(n) <= ChtBounds::Proven.spec_scaled_count(n),
{
    let r = ChtBounds::Empirical.spec_scaled_count(n);
    assert(r == (12 * n) / 10);
    assert(10 * r <= 12 * n && 12 * n < 10 * r + 10) by (nonlinear_arith)
        requires
            r == (12 * n) / 10,
            0 <= n,
    ;
}

} // verus!
