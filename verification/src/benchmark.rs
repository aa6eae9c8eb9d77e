//! The benchmark driver's own logic: reading its command-line arguments,
//! checking a DORAM benchmark configuration, and its deterministic query
//! generator.
use vstd::prelude::*;
use vstd::slice::slice_to_vec;

use rand::Rng;
use rand_chacha::rand_core::SeedableRng;
use rand_chacha::ChaCha20Rng;

use crate::config::{valid_shape, ChtBounds, GigaDoramConfig, EMPIRICAL_CHT_STASH_SIZE};
use crate::lowmc::bristol::{bytes_eq, parse_usize, parse_usize_word, word_views};

verus! {

/// An argument the benchmark cannot run without.
#[derive(Clone, Copy, Debug, PartialEq, Eq, Structural)]
pub enum RequiredArgument {
    NumQueryTests,
    LogAddressSpace,
    NumLevels,
    LogAmpFactor,
    BuildBottomLevelAtStartup,
}

/// Why the benchmark arguments were rejected.
#[derive(Clone, Copy, Debug, PartialEq, Eq, Structural)]
pub enum ArgsError {
    /// A flag is the last argument.
    MissingValue,
    /// A flag that takes an integer got something else.
    InvalidInteger,
    /// A flag that takes `true` or `false` got something else.
    InvalidBoolean,
    /// A word starting with `--` is not a known flag.
    UnrecognizedArgument,
    /// A required flag never appeared.
    MissingArgument(RequiredArgument),
}

/// `--num-query-tests`
pub open spec fn flag_num_query_tests() -> Seq<u8> {
    seq![45u8, 45u8, 110u8, 117u8, 109u8, 45u8, 113u8, 117u8, 101u8, 114u8, 121u8, 45u8, 116u8, 101u8, 115u8, 116u8, 115u8]
}

/// `--log-address-space`
pub open spec fn flag_log_address_space() -> Seq<u8> {
    seq![45u8, 45u8, 108u8, 111u8, 103u8, 45u8, 97u8, 100u8, 100u8, 114u8, 101u8, 115u8, 115u8, 45u8, 115u8, 112u8, 97u8, 99u8, 101u8]
}

/// `--num-levels`
pub open spec fn flag_num_levels() -> Seq<u8> {
    seq![45u8, 45u8, 110u8, 117u8, 109u8, 45u8, 108u8, 101u8, 118u8, 101u8, 108u8, 115u8]
}

/// `--log-amp-factor`
pub open spec fn flag_log_amp_factor() -> Seq<u8> {
    seq![45u8, 45u8, 108u8, 111u8, 103u8, 45u8, 97u8, 109u8, 112u8, 45u8, 102u8, 97u8, 99u8, 116u8, 111u8, 114u8]
}

/// `--prf-circuit-filename`
pub open spec fn flag_prf_circuit_filename() -> Seq<u8> {
    seq![45u8, 45u8, 112u8, 114u8, 102u8, 45u8, 99u8, 105u8, 114u8, 99u8, 117u8, 105u8, 116u8, 45u8, 102u8, 105u8, 108u8, 101u8, 110u8, 97u8, 109u8, 101u8]
}

/// `--build-bottom-level-at-startup`
pub open spec fn flag_build_bottom_level_at_startup() -> Seq<u8> {
    seq![45u8, 45u8, 98u8, 117u8, 105u8, 108u8, 100u8, 45u8, 98u8, 111u8, 116u8, 116u8, 111u8, 109u8, 45u8, 108u8, 101u8, 118u8, 101u8, 108u8, 45u8, 97u8, 116u8, 45u8, 115u8, 116u8, 97u8, 114u8, 116u8, 117u8, 112u8]
}

/// `--num-threads`
pub open spec fn flag_num_threads() -> Seq<u8> {
    seq![45u8, 45u8, 110u8, 117u8, 109u8, 45u8, 116u8, 104u8, 114u8, 101u8, 97u8, 100u8, 115u8]
}

/// `--output-dir`
pub open spec fn flag_output_dir() -> Seq<u8> {
    seq![45u8, 45u8, 111u8, 117u8, 116u8, 112u8, 117u8, 116u8, 45u8, 100u8, 105u8, 114u8]
}

/// Which flag a word names: its position in the list of flags, or 8 for
/// none of them.
pub open spec fn flag_kind(f: Seq<u8>) -> int {
    if f == flag_num_query_tests() {
        0
    } else if f == flag_log_address_space() {
        1
    } else if f == flag_num_levels() {
        2
    } else if f == flag_log_amp_factor() {
        3
    } else if f == flag_prf_circuit_filename() {
        4
    } else if f == flag_build_bottom_level_at_startup() {
        5
    } else if f == flag_num_threads() {
        6
    } else if f == flag_output_dir() {
        7
    } else {
        8
    }
}

/// Which flag a word names (see `flag_kind`).
fn flag_code(f: &Vec<u8>) -> (code: u8)
    ensures
        code == flag_kind(f@),
{
    let name0: [u8; 17] = [45, 45, 110, 117, 109, 45, 113, 117, 101, 114, 121, 45, 116, 101, 115, 116, 115];
    assert(name0@ =~= flag_num_query_tests());
    let name1: [u8; 19] = [45, 45, 108, 111, 103, 45, 97, 100, 100, 114, 101, 115, 115, 45, 115, 112, 97, 99, 101];
    assert(name1@ =~= flag_log_address_space());
    let name2: [u8; 12] = [45, 45, 110, 117, 109, 45, 108, 101, 118, 101, 108, 115];
    assert(name2@ =~= flag_num_levels());
    let name3: [u8; 16] = [45, 45, 108, 111, 103, 45, 97, 109, 112, 45, 102, 97, 99, 116, 111, 114];
    assert(name3@ =~= flag_log_amp_factor());
    let name4: [u8; 22] = [45, 45, 112, 114, 102, 45, 99, 105, 114, 99, 117, 105, 116, 45, 102, 105, 108, 101, 110, 97, 109, 101];
    assert(name4@ =~= flag_prf_circuit_filename());
    let name5: [u8; 31] = [45, 45, 98, 117, 105, 108, 100, 45, 98, 111, 116, 116, 111, 109, 45, 108, 101, 118, 101, 108, 45, 97, 116, 45, 115, 116, 97, 114, 116, 117, 112];
    assert(name5@ =~= flag_build_bottom_level_at_startup());
    let name6: [u8; 13] = [45, 45, 110, 117, 109, 45, 116, 104, 114, 101, 97, 100, 115];
    assert(name6@ =~= flag_num_threads());
    let name7: [u8; 12] = [45, 45, 111, 117, 116, 112, 117, 116, 45, 100, 105, 114];
    assert(name7@ =~= flag_output_dir());
    if bytes_eq(f, &name0) {
        0
    } else if bytes_eq(f, &name1) {
        1
    } else if bytes_eq(f, &name2) {
        2
    } else if bytes_eq(f, &name3) {
        3
    } else if bytes_eq(f, &name4) {
        4
    } else if bytes_eq(f, &name5) {
        5
    } else if bytes_eq(f, &name6) {
        6
    } else if bytes_eq(f, &name7) {
        7
    } else {
        8
    }
}

/// `true`
pub open spec fn word_true() -> Seq<u8> {
    seq![116u8, 114u8, 117u8, 101u8]
}

/// `false`
pub open spec fn word_false() -> Seq<u8> {
    seq![102u8, 97u8, 108u8, 115u8, 101u8]
}

/// The default circuit file, `LowMC_reuse_wires.txt`.
pub open spec fn default_circuit_filename() -> Seq<u8> {
    seq![76u8, 111u8, 119u8, 77u8, 67u8, 95u8, 114u8, 101u8, 117u8, 115u8, 101u8, 95u8, 119u8, 105u8, 114u8, 101u8, 115u8, 46u8, 116u8, 120u8, 116u8]
}

/// The default output directory, `.`.
pub open spec fn default_output_dir() -> Seq<u8> {
    seq![46u8]
}

/// A word that starts with `--`.
pub open spec fn is_flag(w: Seq<u8>) -> bool {
    w.len() >= 2 && w[0] == 45 && w[1] == 45
}

/// `true` or `false`.
pub open spec fn parse_bool(w: Seq<u8>) -> Option<bool> {
    if w == word_true() {
        Some(true)
    } else if w == word_false() {
        Some(false)
    } else {
        None
    }
}

/// The arguments read so far.
pub struct ArgsModel {
    pub num_query_tests: Option<usize>,
    pub log_address_space: Option<usize>,
    pub num_levels: Option<usize>,
    pub log_amp_factor: Option<usize>,
    pub prf_circuit_filename: Seq<u8>,
    pub build_bottom_level_at_startup: Option<bool>,
    pub num_threads: usize,
    pub output_dir: Seq<u8>,
}

/// Before any argument: the optional ones at their defaults.
pub open spec fn initial_args() -> ArgsModel {
    ArgsModel {
        num_query_tests: None,
        log_address_space: None,
        num_levels: None,
        log_amp_factor: None,
        prf_circuit_filename: default_circuit_filename(),
        build_bottom_level_at_startup: None,
        num_threads: 1,
        output_dir: default_output_dir(),
    }
}

/// One flag with its value applied to the arguments read so far.
pub open spec fn apply_flag(kind: int, value: Seq<u8>, a: ArgsModel) -> Result<ArgsModel, ArgsError> {
    if kind == 0 || kind == 1 || kind == 2 || kind == 3 || kind == 6 {
        match parse_usize(value) {
            None => Err(ArgsError::InvalidInteger),
            Some(n) => Ok(
                if kind == 0 {
                    ArgsModel { num_query_tests: Some(n), ..a }
                } else if kind == 1 {
                    ArgsModel { log_address_space: Some(n), ..a }
                } else if kind == 2 {
                    ArgsModel { num_levels: Some(n), ..a }
                } else if kind == 3 {
                    ArgsModel { log_amp_factor: Some(n), ..a }
                } else {
                    ArgsModel { num_threads: n, ..a }
                },
            ),
        }
    } else if kind == 4 {
        Ok(ArgsModel { prf_circuit_filename: value, ..a })
    } else if kind == 5 {
        match parse_bool(value) {
            None => Err(ArgsError::InvalidBoolean),
            Some(b) => Ok(ArgsModel { build_bottom_level_at_startup: Some(b), ..a }),
        }
    } else if kind == 7 {
        Ok(ArgsModel { output_dir: value, ..a })
    } else {
        Err(ArgsError::UnrecognizedArgument)
    }
}

/// Read the arguments from position `i` on: a word that is not a flag is
/// passed over, a flag takes the next word as its value.
pub open spec fn scan_args(args: Seq<Seq<u8>>, i: int, a: ArgsModel) -> Result<ArgsModel, ArgsError>
    decreases args.len() - i,
{
    if i < 0 || i >= args.len() {
        Ok(a)
    } else if !is_flag(args[i]) {
        scan_args(args, i + 1, a)
    } else if i + 1 >= args.len() {
        Err(ArgsError::MissingValue)
    } else {
        match apply_flag(flag_kind(args[i]), args[i + 1], a) {
            Err(e) => Err(e),
            Ok(a2) => scan_args(args, i + 2, a2),
        }
    }
}

/// A benchmark run's settings.
pub struct BenchmarkModel {
    pub num_query_tests: usize,
    pub log_address_space: usize,
    pub num_levels: usize,
    pub log_amp_factor: usize,
    pub prf_circuit_filename: Seq<u8>,
    pub build_bottom_level_at_startup: bool,
    pub num_threads: usize,
    pub output_dir: Seq<u8>,
}

/// The settings once every argument is read; the first required one that
/// is missing is the error.
pub open spec fn finish_args(a: ArgsModel) -> Result<BenchmarkModel, ArgsError> {
    if a.num_query_tests is None {
        Err(ArgsError::MissingArgument(RequiredArgument::NumQueryTests))
    } else if a.log_address_space is None {
        Err(ArgsError::MissingArgument(RequiredArgument::LogAddressSpace))
    } else if a.num_levels is None {
        Err(ArgsError::MissingArgument(RequiredArgument::NumLevels))
    } else if a.log_amp_factor is None {
        Err(ArgsError::MissingArgument(RequiredArgument::LogAmpFactor))
    } else if a.build_bottom_level_at_startup is None {
        Err(ArgsError::MissingArgument(RequiredArgument::BuildBottomLevelAtStartup))
    } else {
        Ok(
            BenchmarkModel {
                num_query_tests: a.num_query_tests->0,
                log_address_space: a.log_address_space->0,
                num_levels: a.num_levels->0,
                log_amp_factor: a.log_amp_factor->0,
                prf_circuit_filename: a.prf_circuit_filename,
                build_bottom_level_at_startup: a.build_bottom_level_at_startup->0,
                num_threads: a.num_threads,
                output_dir: a.output_dir,
            },
        )
    }
}

/// The benchmark's reading of its command-line arguments.
pub open spec fn parse_benchmark_args(args: Seq<Seq<u8>>) -> Result<BenchmarkModel, ArgsError> {
    match scan_args(args, 0, initial_args()) {
        Err(e) => Err(e),
        Ok(a) => finish_args(a),
    }
}

/// The settings of one benchmark run.
#[derive(Clone, Debug)]
pub struct BenchmarkConfig {
    pub num_query_tests: usize,
    pub log_address_space: usize,
    pub num_levels: usize,
    pub log_amp_factor: usize,
    pub prf_circuit_filename: Vec<u8>,
    pub build_bottom_level_at_startup: bool,
    pub num_threads: usize,
    pub output_dir: Vec<u8>,
}

impl View for BenchmarkConfig {
    type V = BenchmarkModel;

    open spec fn view(&self) -> BenchmarkModel {
        BenchmarkModel {
            num_query_tests: self.num_query_tests,
            log_address_space: self.log_address_space,
            num_levels: self.num_levels,
            log_amp_factor: self.log_amp_factor,
            prf_circuit_filename: self.prf_circuit_filename@,
            build_bottom_level_at_startup: self.build_bottom_level_at_startup,
            num_threads: self.num_threads,
            output_dir: self.output_dir@,
        }
    }
}

/// Read `true` or `false`.
fn parse_bool_word(w: &Vec<u8>) -> (r: Option<bool>)
    ensures
        r == parse_bool(w@),
{
    let t: [u8; 4] = [116, 114, 117, 101];
    let f: [u8; 5] = [102, 97, 108, 115, 101];
    assert(t@ =~= word_true());
    assert(f@ =~= word_false());
    if bytes_eq(w, &t) {
        Some(true)
    } else if bytes_eq(w, &f) {
        Some(false)
    } else {
        None
    }
}

impl BenchmarkConfig {
    /// Read the benchmark's arguments (the program name left out).
    pub fn parse(args: &Vec<Vec<u8>>) -> (r: Result<BenchmarkConfig, ArgsError>)
        ensures
            parse_benchmark_args(word_views(args@)) is Ok ==> r is Ok && r->Ok_0@ == parse_benchmark_args(
                word_views(args@),
            )->Ok_0,
            parse_benchmark_args(word_views(args@)) is Err ==> r is Err && r->Err_0
                == parse_benchmark_args(word_views(args@))->Err_0,
    {
        let ghost words = word_views(args@);
        let mut num_query_tests: Option<usize> = None;
        let mut log_address_space: Option<usize> = None;
        let mut num_levels: Option<usize> = None;
        let mut log_amp_factor: Option<usize> = None;
        let default_circuit: [u8; 21] = [76, 111, 119, 77, 67, 95, 114, 101, 117, 115, 101, 95, 119, 105, 114, 101, 115, 46, 116, 120, 116];
        let mut prf_circuit_filename = slice_to_vec(&default_circuit);
        let mut build_bottom_level_at_startup: Option<bool> = None;
        let mut num_threads: usize = 1;
        let default_dir: [u8; 1] = [46];
        let mut output_dir = slice_to_vec(&default_dir);
        assert(prf_circuit_filename@ =~= default_circuit_filename());
        assert(output_dir@ =~= default_output_dir());
        let mut i: usize = 0;
        while i < args.len()
            invariant
                i <= args@.len(),
                words == word_views(args@),
                scan_args(words, 0, initial_args()) == scan_args(
                    words,
                    i as int,
                    ArgsModel {
                        num_query_tests,
                        log_address_space,
                        num_levels,
                        log_amp_factor,
                        prf_circuit_filename: prf_circuit_filename@,
                        build_bottom_level_at_startup,
                        num_threads,
                        output_dir: output_dir@,
                    },
                ),
            decreases args@.len() - i,
        {
            let flag = &args[i];
            assert(words[i as int] == flag@);
            if !(flag.len() >= 2 && flag[0] == 45 && flag[1] == 45) {
                i = i + 1;
                continue;
            }
            if i + 1 >= args.len() {
                return Err(ArgsError::MissingValue);
            }
            let value = &args[i + 1];
            assert(words[i + 1] == value@);
            let kind = flag_code(flag);
            if kind == 0 || kind == 1 || kind == 2 || kind == 3 || kind == 6 {
                let n = match parse_usize_word(value) {
                    Some(n) => n,
                    None => {
                        return Err(ArgsError::InvalidInteger);
                    },
                };
                if kind == 0 {
                    num_query_tests = Some(n);
                } else if kind == 1 {
                    log_address_space = Some(n);
                } else if kind == 2 {
                    num_levels = Some(n);
                } else if kind == 3 {
                    log_amp_factor = Some(n);
                } else {
                    num_threads = n;
                }
            } else if kind == 4 {
                prf_circuit_filename = slice_to_vec(value.as_slice());
            } else if kind == 5 {
                match parse_bool_word(value) {
                    Some(b) => {
                        build_bottom_level_at_startup = Some(b);
                    },
                    None => {
                        return Err(ArgsError::InvalidBoolean);
                    },
                }
            } else if kind == 7 {
                output_dir = slice_to_vec(value.as_slice());
            } else {
                return Err(ArgsError::UnrecognizedArgument);
            }
            i = i + 2;
        }
        let num_query_tests = match num_query_tests {
            Some(n) => n,
            None => {
                return Err(ArgsError::MissingArgument(RequiredArgument::NumQueryTests));
            },
        };
        let log_address_space = match log_address_space {
            Some(n) => n,
            None => {
                return Err(ArgsError::MissingArgument(RequiredArgument::LogAddressSpace));
            },
        };
        let num_levels = match num_levels {
            Some(n) => n,
            None => {
                return Err(ArgsError::MissingArgument(RequiredArgument::NumLevels));
            },
        };
        let log_amp_factor = match log_amp_factor {
            Some(n) => n,
            None => {
                return Err(ArgsError::MissingArgument(RequiredArgument::LogAmpFactor));
            },
        };
        let build_bottom_level_at_startup = match build_bottom_level_at_startup {
            Some(b) => b,
            None => {
                return Err(
                    ArgsError::MissingArgument(RequiredArgument::BuildBottomLevelAtStartup),
                );
            },
        };
        Ok(
            BenchmarkConfig {
                num_query_tests,
                log_address_space,
                num_levels,
                log_amp_factor,
                prf_circuit_filename,
                build_bottom_level_at_startup,
                num_threads,
                output_dir,
            },
        )
    }
}

/// The value width of the DORAM benchmark's entries.
pub const VALUE_BITS: usize = 64;

/// Why a DORAM benchmark configuration is rejected.
#[derive(Clone, Copy, Debug, PartialEq, Eq, Structural)]
pub enum BenchmarkConfigError {
    /// Benchmark values as large as the address space would reach into the
    /// DORAM's alibi bits.
    ValuesOverlapAlibiBits,
}

/// The settings of the DORAM benchmark binaries.
#[derive(Clone, Copy, Debug, PartialEq, Eq, Structural)]
pub struct DoramBenchmarkConfig {
    pub num_queries: usize,
    pub log_address_space: usize,
    pub num_levels: usize,
    pub log_amp_factor: usize,
    pub build_bottom_level_at_startup: bool,
    pub seed: u64,
}

impl Default for DoramBenchmarkConfig {
    fn default() -> (c: DoramBenchmarkConfig)
        ensures
            c == (DoramBenchmarkConfig {
                num_queries: 100000,
                log_address_space: 25,
                num_levels: 5,
                log_amp_factor: 4,
                build_bottom_level_at_startup: false,
                seed: 42,
            }),
    {
        DoramBenchmarkConfig {
            num_queries: 100000,
            log_address_space: 25,
            num_levels: 5,
            log_amp_factor: 4,
            build_bottom_level_at_startup: false,
            seed: 42,
        }
    }
}

impl DoramBenchmarkConfig {
    /// The DORAM configuration of the benchmark, with the empirical CHT
    /// bounds; refused when the values would reach the alibi bits.
    pub fn doram_config(&self) -> (r: Result<GigaDoramConfig, BenchmarkConfigError>)
        requires
            valid_shape(
                self.log_address_space as int,
                self.num_levels as int,
                self.log_amp_factor as int,
                EMPIRICAL_CHT_STASH_SIZE as int,
            ),
        ensures
            self.log_address_space + self.num_levels < VALUE_BITS ==> r == Ok::<
                GigaDoramConfig,
                BenchmarkConfigError,
            >(
                GigaDoramConfig::spec_with_stash_size(
                    self.log_address_space,
                    self.num_levels,
                    self.log_amp_factor,
                    EMPIRICAL_CHT_STASH_SIZE,
                    ChtBounds::Empirical,
                ),
            ),
            self.log_address_space + self.num_levels >= VALUE_BITS ==> r == Err::<
                GigaDoramConfig,
                BenchmarkConfigError,
            >(BenchmarkConfigError::ValuesOverlapAlibiBits),
    {
        let config = GigaDoramConfig::new(self.log_address_space, self.num_levels, self.log_amp_factor);
        if self.log_address_space >= VALUE_BITS - config.num_levels {
            return Err(BenchmarkConfigError::ValuesOverlapAlibiBits);
        }
        Ok(config)
    }
}

/// One benchmark operation: an address, a value, and whether it writes.
#[derive(Clone, Copy, Debug, PartialEq, Eq, Structural)]
pub struct BenchmarkQuery {
    pub x: u32,
    pub y: u64,
    pub is_write: bool,
}

/// What `chacha_queries` draws for a seed, a count and a range bound.
pub uninterp spec fn chacha_query_words(seed: u64, num_queries: usize, size: u64) -> Seq<(u64, u64, bool)>;

/// Draws `num_queries` triples from `rand_chacha::ChaCha20Rng` seeded by
/// `SeedableRng::seed_from_u64(seed)`: two words by `Rng::gen_range(1..size)`
/// and a bit by `Rng::gen_ratio(1, 2)` (the same threshold, 2^63, as
/// `gen_bool(0.5)`). The contract names the result as a function of the
/// three arguments and states the range that `gen_range` documents; which
/// words come is left unsaid.
#[verifier::external_body]
fn chacha_queries(seed: u64, num_queries: usize, size: u64) -> (v: Vec<(u64, u64, bool)>)
    requires
        size >= 2,
    ensures
        v@ == chacha_query_words(seed, num_queries, size),
        v@.len() == num_queries,
        forall|i: int| 0 <= i < v@.len() ==> 1 <= #[trigger] v@[i].0 < size && 1 <= v@[i].1 < size,
{
    let mut rng = ChaCha20Rng::seed_from_u64(seed);
    let mut v = Vec::new();
    for _ in 0..num_queries {
        let x = rng.gen_range(1..size);
        let y = rng.gen_range(1..size);
        let is_write = rng.gen_ratio(1, 2);
        v.push((x, y, is_write));
    }
    v
}

/// The query made of one drawn triple; the address keeps its low 32 bits.
pub open spec fn query_of(w: (u64, u64, bool)) -> BenchmarkQuery {
    BenchmarkQuery { x: w.0 as u32, y: w.1, is_write: w.2 }
}

/// The benchmark workload of `config`: `num_queries` operations drawn from
/// ChaCha20 seeded with `config.seed`, addresses and values in
/// `1..2^log_address_space`.
pub fn generate_queries(config: &DoramBenchmarkConfig) -> (q: Vec<BenchmarkQuery>)
    requires
        1 <= config.log_address_space < 64,
        config.log_address_space < usize::BITS,
    ensures
        q@.len() == config.num_queries,
        forall|i: int|
            0 <= i < q@.len() ==> #[trigger] q@[i] == query_of(
                chacha_query_words(config.seed, config.num_queries, 1u64 << (config.log_address_space as u64))[i],
            ),
        forall|i: int|
            0 <= i < q@.len() ==> 1 <= #[trigger] q@[i].y < (1u64 << (config.log_address_space as u64)),
{
    let log = config.log_address_space as u64;
    let size = 1u64 << log;
    proof {
        vstd::bits::lemma_u64_pow2_no_overflow(log as nat);
        vstd::bits::lemma_u64_shl_is_mul(1, log);
        vstd::arithmetic::power2::lemma_pow2_unfold(log as nat);
        vstd::arithmetic::power2::lemma_pow2_pos((log - 1) as nat);
    }
    let words = chacha_queries(config.seed, config.num_queries, size);
    let mut q: Vec<BenchmarkQuery> = Vec::new();
    let mut i: usize = 0;
    while i < words.len()
        invariant
            i <= words@.len(),
            q@.len() == i,
            forall|j: int| 0 <= j < i ==> #[trigger] q@[j] == query_of(words@[j]),
        decreases words@.len() - i,
    {
        let w = words[i];
        q.push(BenchmarkQuery { x: w.0 as u32, y: w.1, is_write: w.2 });
        i = i + 1;
    }
    q
}

/// A linear congruential generator of 64-bit words.
pub struct DeterministicRng {
    state: u64,
}

/// One step of the generator: `6364136223846793005 * s + 1442695040888963407`
/// modulo `2^64`.
pub open spec fn lcg_step(s: u64) -> u64 {
    ((s as int * 6364136223846793005 + 1442695040888963407) % 0x1_0000_0000_0000_0000) as u64
}

impl DeterministicRng {
    pub closed spec fn state(self) -> u64 {
        self.state
    }

    pub fn new(seed: u64) -> (r: DeterministicRng)
        ensures
            r.state() == seed,
    {
        DeterministicRng { state: seed }
    }

    /// Advance the generator and give its new state.
    pub fn next_u64(&mut self) -> (v: u64)
        ensures
            v == lcg_step(old(self).state()),
            final(self).state() == v,
    {
        let m = self.state.wrapping_mul(6_364_136_223_846_793_005);
        let v = m.wrapping_add(1_442_695_040_888_963_407);
        proof {
            let s = old(self).state as int;
            vstd::arithmetic::div_mod::lemma_add_mod_noop(
                s * 6364136223846793005,
                1442695040888963407,
                0x1_0000_0000_0000_0000,
            );
            vstd::arithmetic::div_mod::lemma_small_mod(1442695040888963407nat, 0x1_0000_0000_0000_0000nat);
        }
        self.state = v;
        v
    }

    /// A nonzero address below `address_space_size`: the next word modulo
    /// `address_space_size - 1`, plus one.
    pub fn sample_nonzero(&mut self, address_space_size: usize) -> (x: u32)
        requires
            address_space_size >= 2,
        ensures
            final(self).state() == lcg_step(old(self).state()),
            x == (((lcg_step(old(self).state()) as usize) % ((address_space_size - 1) as usize) + 1)
                as u32),
            address_space_size <= 0x1_0000_0000 ==> 1 <= x < address_space_size,
    {
        let num_nonzero = address_space_size - 1;
        let v = self.next_u64();
        let r = (v as usize) % num_nonzero + 1;
        assert(r <= num_nonzero);
        r as u32
    }
}

/// The seed of the in-process benchmark's fixed workload.
pub const FIXED_WORKLOAD_SEED: u64 = 0x6769_6761_646f_7261;

/// The value `sample_nonzero` gives for the generator word `w`.
pub open spec fn nonzero_of(w: u64, address_space_size: usize) -> u32 {
    (((w as usize) % ((address_space_size - 1) as usize) + 1) as u32)
}

/// The fixed workload from generator state `state`: for each query, the next
/// word decides by its low bit whether it writes, the word after it gives
/// the address, and a write takes one more word for its value (a read has
/// value 0).
pub open spec fn lcg_queries(state: u64, n: nat, address_space_size: usize) -> Seq<BenchmarkQuery>
    decreases n,
{
    if n == 0 {
        Seq::empty()
    } else {
        let s1 = lcg_step(state);
        let is_write = s1 & 1 == 1;
        let s2 = lcg_step(s1);
        let x = nonzero_of(s2, address_space_size);
        let s3 = if is_write {
            lcg_step(s2)
        } else {
            s2
        };
        let y: u64 = if is_write {
            nonzero_of(s3, address_space_size) as u64
        } else {
            0
        };
        seq![BenchmarkQuery { x, y, is_write }] + lcg_queries(s3, (n - 1) as nat, address_space_size)
    }
}

/// The in-process benchmark's fixed workload of `num_queries` operations.
pub fn generate_fixed_queries(num_queries: usize, address_space_size: usize) -> (q: Vec<BenchmarkQuery>)
    requires
        address_space_size >= 2,
    ensures
        q@ == lcg_queries(FIXED_WORKLOAD_SEED, num_queries as nat, address_space_size),
{
    let mut rng = DeterministicRng::new(FIXED_WORKLOAD_SEED);
    let mut q: Vec<BenchmarkQuery> = Vec::new();
    let mut i: usize = 0;
    while i < num_queries
        invariant
            i <= num_queries,
            address_space_size >= 2,
            q@ + lcg_queries(rng.state(), (num_queries - i) as nat, address_space_size) == lcg_queries(
                FIXED_WORKLOAD_SEED,
                num_queries as nat,
                address_space_size,
            ),
        decreases num_queries - i,
    {
        let ghost s0 = rng.state();
        let ghost q0 = q@;
        let is_write = rng.next_u64() & 1 == 1;
        let x = rng.sample_nonzero(address_space_size);
        let y: u64 = if is_write {
            rng.sample_nonzero(address_space_size) as u64
        } else {
            0
        };
        let query = BenchmarkQuery { x, y, is_write };
        q.push(query);
        proof {
            let rest = lcg_queries(rng.state(), (num_queries - i - 1) as nat, address_space_size);
            assert(lcg_queries(s0, (num_queries - i) as nat, address_space_size) == seq![query] + rest);
            assert(q@ + rest =~= q0 + (seq![query] + rest));
        }
        i = i + 1;
    }
    proof {
        assert(lcg_queries(rng.state(), 0, address_space_size) =~= Seq::<BenchmarkQuery>::empty());
        assert(q@ + Seq::<BenchmarkQuery>::empty() =~= q@);
    }
    q
}

} // verus!
