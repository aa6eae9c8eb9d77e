use rand::Rng;
use rand_chacha::rand_core::SeedableRng;

use gigadoram::benchmark::{
    generate_fixed_queries, generate_queries, ArgsError, BenchmarkConfig, BenchmarkConfigError,
    DeterministicRng, DoramBenchmarkConfig, RequiredArgument,
};

fn args(words: &[&str]) -> Vec<Vec<u8>> {
    words.iter().map(|w| w.as_bytes().to_vec()).collect()
}

#[test]
fn parses_all_flags() {
    let config = BenchmarkConfig::parse(&args(&[
        "--num-query-tests",
        "1000",
        "--log-address-space",
        "20",
        "--num-levels",
        "4",
        "--log-amp-factor",
        "3",
        "--build-bottom-level-at-startup",
        "true",
        "--num-threads",
        "8",
        "--prf-circuit-filename",
        "circuit.txt",
        "--output-dir",
        "/tmp/out",
    ]))
    .unwrap();
    assert_eq!(config.num_query_tests, 1000);
    assert_eq!(config.log_address_space, 20);
    assert_eq!(config.num_levels, 4);
    assert_eq!(config.log_amp_factor, 3);
    assert!(config.build_bottom_level_at_startup);
    assert_eq!(config.num_threads, 8);
    assert_eq!(config.prf_circuit_filename, b"circuit.txt".to_vec());
    assert_eq!(config.output_dir, b"/tmp/out".to_vec());
}

#[test]
fn defaults_and_skipped_words() {
    let config = BenchmarkConfig::parse(&args(&[
        "stray",
        "--num-query-tests",
        "+7",
        "--log-address-space",
        "10",
        "--num-levels",
        "2",
        "--log-amp-factor",
        "1",
        "--build-bottom-level-at-startup",
        "false",
    ]))
    .unwrap();
    assert_eq!(config.num_query_tests, 7);
    assert!(!config.build_bottom_level_at_startup);
    assert_eq!(config.num_threads, 1);
    assert_eq!(config.prf_circuit_filename, b"LowMC_reuse_wires.txt".to_vec());
    assert_eq!(config.output_dir, b".".to_vec());
}

#[test]
fn argument_errors() {
    let parse = |w: &[&str]| BenchmarkConfig::parse(&args(w)).err();
    assert_eq!(parse(&["--num-levels"]), Some(ArgsError::MissingValue));
    assert_eq!(parse(&["--num-levels", "x"]), Some(ArgsError::InvalidInteger));
    assert_eq!(
        parse(&["--build-bottom-level-at-startup", "yes"]),
        Some(ArgsError::InvalidBoolean)
    );
    assert_eq!(parse(&["--verbose", "1"]), Some(ArgsError::UnrecognizedArgument));
    assert_eq!(
        parse(&[]),
        Some(ArgsError::MissingArgument(RequiredArgument::NumQueryTests))
    );
    assert_eq!(
        parse(&["--num-query-tests", "1", "--log-address-space", "2", "--num-levels", "3", "--log-amp-factor", "1"]),
        Some(ArgsError::MissingArgument(RequiredArgument::BuildBottomLevelAtStartup))
    );
}

#[test]
fn doram_benchmark_defaults_and_check() {
    let config = DoramBenchmarkConfig::default();
    assert_eq!(config.num_queries, 100000);
    assert_eq!(config.log_address_space, 25);
    assert_eq!(config.num_levels, 5);
    assert_eq!(config.log_amp_factor, 4);
    assert!(!config.build_bottom_level_at_startup);
    assert_eq!(config.seed, 42);
    let doram = config.doram_config().unwrap();
    assert_eq!(doram.log_speed_cache_size, 25 - 4 * 4);
    let near_limit = DoramBenchmarkConfig { log_address_space: 31, num_levels: 8, log_amp_factor: 1, ..config };
    assert!(near_limit.doram_config().is_ok());
    let _ = BenchmarkConfigError::ValuesOverlapAlibiBits;
}

#[test]
fn deterministic_rng_is_the_lcg() {
    let mut rng = DeterministicRng::new(42);
    let expected = 42u64
        .wrapping_mul(6_364_136_223_846_793_005)
        .wrapping_add(1_442_695_040_888_963_407);
    assert_eq!(rng.next_u64(), expected);
    let next = expected
        .wrapping_mul(6_364_136_223_846_793_005)
        .wrapping_add(1_442_695_040_888_963_407);
    let x = rng.sample_nonzero(16);
    assert_eq!(x as u64, (next as usize % 15 + 1) as u64);
    for _ in 0..100 {
        let x = rng.sample_nonzero(16);
        assert!((1..16).contains(&x));
    }
}

#[test]
fn fixed_workload_first_queries() {
    let queries = generate_fixed_queries(4, 1 << 10);
    let expected: Vec<(u32, u64, bool)> = vec![(517, 0, false), (518, 0, false), (248, 0, false), (423, 0, false)];
    let got: Vec<(u32, u64, bool)> = queries.iter().map(|q| (q.x, q.y, q.is_write)).collect();
    assert_eq!(got, expected);
}

#[test]
fn chacha_workload_is_reproducible_and_in_range() {
    let config = DoramBenchmarkConfig {
        num_queries: 500,
        log_address_space: 12,
        num_levels: 3,
        log_amp_factor: 2,
        build_bottom_level_at_startup: false,
        seed: 7,
    };
    let a = generate_queries(&config);
    let b = generate_queries(&config);
    assert_eq!(a.len(), 500);
    assert_eq!(a, b);
    for q in &a {
        assert!(1 <= q.x && q.x < 4096);
        assert!(1 <= q.y && q.y < 4096);
    }
    let writes = a.iter().filter(|q| q.is_write).count();
    assert!(writes > 0 && writes < 500);
    let other = generate_queries(&DoramBenchmarkConfig { seed: 8, ..config });
    assert_ne!(a, other);
}

#[test]
fn chacha_workload_matches_the_generator() {
    let config = DoramBenchmarkConfig {
        num_queries: 20,
        log_address_space: 20,
        num_levels: 3,
        log_amp_factor: 2,
        build_bottom_level_at_startup: false,
        seed: 42,
    };
    let mut rng = rand_chacha::ChaCha20Rng::seed_from_u64(42);
    let size = 1usize << 20;
    for q in generate_queries(&config) {
        let x = rng.gen_range(1..size) as u32;
        let y = rng.gen_range(1..size) as u64;
        let is_write = rng.gen_bool(0.5);
        assert_eq!((q.x, q.y, q.is_write), (x, y, is_write));
    }
}
