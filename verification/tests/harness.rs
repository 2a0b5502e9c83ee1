use hash_bench::dispatch::{make_hasher, ConfigError};
use hash_bench::hasher::{Component, Hasher};
use hash_bench::rng::generate_random_blob;
use hash_bench::runner::{Mode, Runner};

fn hash_once(hasher: &Hasher, data: &[u8]) -> Vec<u8> {
    let mut out = vec![0u8; hasher.output_size()];
    hasher.hash(data, &mut out);
    out
}

#[test]
fn xor_remainder_at_low_end() {
    // Three bytes placed at the start of an 8-byte zero buffer, read
    // little-endian: 0x030201.
    let out = hash_once(&Hasher::Xor, &[1, 2, 3]);
    assert_eq!(out, 0x030201u64.to_le_bytes().to_vec());
}

#[test]
fn xor_exact_multiple_of_eight() {
    let data: Vec<u8> = (0u8..8).collect();
    let out = hash_once(&Hasher::Xor, &data);
    assert_eq!(out, 0x0706050403020100u64.to_le_bytes().to_vec());
}

#[test]
fn xor_two_blocks() {
    let mut data = 1u64.to_le_bytes().to_vec();
    data.extend_from_slice(&2u64.to_le_bytes());
    let out = hash_once(&Hasher::Xor, &data);
    assert_eq!(out, 3u64.to_le_bytes().to_vec());
}

#[test]
fn xor_empty_input_folds_to_zero() {
    let out = hash_once(&Hasher::Xor, &[]);
    assert_eq!(out, vec![0u8; 8]);
}

#[test]
fn xor_overwrites_whole_output() {
    let hasher = Hasher::Xor;
    let mut out = vec![0xAAu8; 8];
    hasher.hash(&[], &mut out);
    assert_eq!(out, vec![0u8; 8]);
}

fn all_variants() -> Vec<Hasher> {
    vec![
        Hasher::Xor,
        Hasher::Blake3,
        Hasher::Polymur { seed: 0x1234 },
        Hasher::UmashFingerprint { seed: 0x5678 },
        Hasher::UmashComponent { seed: 0x5678, component: Component::Primary },
        Hasher::UmashComponent { seed: 0x5678, component: Component::Secondary },
    ]
}

#[test]
fn output_length_equals_output_size() {
    let data = b"some benchmark input bytes";
    for hasher in all_variants() {
        let out = hash_once(&hasher, data);
        assert_eq!(out.len(), hasher.output_size());
    }
}

#[test]
fn repeated_calls_are_deterministic() {
    let data = b"the same input, hashed twice";
    for hasher in all_variants() {
        let first = hash_once(&hasher, data);
        let second = hash_once(&hasher, data);
        assert_eq!(first, second);
    }
}

#[test]
fn blake3_matches_library() {
    let data = b"cross-check against the blake3 crate";
    let out = hash_once(&Hasher::Blake3, data);
    assert_eq!(out.as_slice(), blake3::hash(data).as_bytes());
}

#[test]
fn polymur_matches_library() {
    let data = b"cross-check against the polymur-hash crate";
    let seed = 0xDEADBEEFu64;
    let out = hash_once(&Hasher::Polymur { seed }, data);
    let expected = polymur_hash::PolymurHash::from_u64_seed(seed).hash(data);
    assert_eq!(out, expected.to_le_bytes().to_vec());
}

#[test]
fn umash_component_matches_library() {
    let data = b"cross-check against the umash crate";
    let seed = 42u64;
    let params = umash::Params::derive(seed, &[]);

    let mut primary = params.component_hasher(0, umash::UmashComponent::Hash);
    primary.write(data);
    let out = hash_once(&Hasher::UmashComponent { seed, component: Component::Primary }, data);
    assert_eq!(out, primary.digest().to_le_bytes().to_vec());

    let mut secondary = params.component_hasher(0, umash::UmashComponent::Secondary);
    secondary.write(data);
    let out = hash_once(&Hasher::UmashComponent { seed, component: Component::Secondary }, data);
    assert_eq!(out, secondary.digest().to_le_bytes().to_vec());
}

#[test]
fn umash_fingerprint_matches_library() {
    let data = b"cross-check the fingerprint against the umash crate";
    let seed = 42u64;
    let params = umash::Params::derive(seed, &[]);
    let mut fp = params.fingerprinter(0);
    fp.write(data);
    let digest = fp.digest();
    let mut expected = digest.hash().to_le_bytes().to_vec();
    expected.extend_from_slice(&digest.secondary().to_le_bytes());

    let out = hash_once(&Hasher::UmashFingerprint { seed }, data);
    assert_eq!(out, expected);
}

#[test]
fn umash_fingerprint_carries_both_components() {
    let data = b"the fingerprint holds the primary then the secondary hash";
    let seed = 7u64;
    let fingerprint = hash_once(&Hasher::UmashFingerprint { seed }, data);
    let primary = hash_once(&Hasher::UmashComponent { seed, component: Component::Primary }, data);
    let secondary =
        hash_once(&Hasher::UmashComponent { seed, component: Component::Secondary }, data);
    assert_eq!(&fingerprint[..8], primary.as_slice());
    assert_eq!(&fingerprint[8..], secondary.as_slice());
}

#[test]
fn dispatch_known_names() {
    let seed = 99u64;
    assert!(matches!(make_hasher("xor", seed), Ok(Hasher::Xor)));
    assert!(matches!(make_hasher("blake3", seed), Ok(Hasher::Blake3)));
    assert!(matches!(make_hasher("polymur", seed), Ok(Hasher::Polymur { seed: 99 })));
    assert!(matches!(
        make_hasher("umash-fingerprint", seed),
        Ok(Hasher::UmashFingerprint { seed: 99 })
    ));
    assert!(matches!(
        make_hasher("umash-primary", seed),
        Ok(Hasher::UmashComponent { seed: 99, component: Component::Primary })
    ));
    assert!(matches!(
        make_hasher("umash-secondary", seed),
        Ok(Hasher::UmashComponent { seed: 99, component: Component::Secondary })
    ));
}

#[test]
fn unknown_hasher_reports_the_name() {
    match make_hasher("sha999", 0) {
        Err(ConfigError::UnknownHasher(name)) => assert_eq!(name, "sha999"),
        _ => panic!("an unknown name must be a configuration error"),
    }
}

#[test]
fn zero_window_size_is_rejected() {
    assert!(matches!(
        Runner::new(0, 10, Mode::Sliding),
        Err(ConfigError::ZeroWindowSize)
    ));
    assert!(matches!(
        Runner::new(0, 10, Mode::Static),
        Err(ConfigError::ZeroWindowSize)
    ));
}

#[test]
fn oversized_window_is_rejected() {
    assert!(matches!(
        Runner::new(usize::MAX, 1, Mode::Sliding),
        Err(ConfigError::WindowTooLarge)
    ));
}

#[test]
fn sliding_scenario_completes_and_wraps_by_the_closed_form() {
    // window_size = 4096 in sliding mode gives a 16384-byte buffer and a
    // cycle of 3 * 4096 + 1 = 12289 window positions.
    let runner = Runner::new(4096, 10000, Mode::Sliding).unwrap();
    let report = runner.run(&Hasher::Xor);
    assert_eq!(report.iterations, 10000);
    assert_eq!(report.wrap_count, 10000 / (3 * 4096 + 1));
    assert_eq!(report.wrap_count, 0);
    assert_eq!(report.final_offset, 10000);
    assert_eq!(report.last_digest.len(), 8);
}

#[test]
fn sliding_window_wraps_to_zero_after_one_cycle() {
    // window_size = 3, buffer 12 bytes, cycle 12 - 3 + 1 = 10 positions.
    let runner = Runner::new(3, 10, Mode::Sliding).unwrap();
    let report = runner.run(&Hasher::Xor);
    assert_eq!(report.final_offset, 0);
    assert_eq!(report.wrap_count, 1);
}

#[test]
fn sliding_window_wrap_counts() {
    // window_size = 1, buffer 4 bytes, cycle 4: 10 iterations wrap twice.
    let runner = Runner::new(1, 10, Mode::Sliding).unwrap();
    let report = runner.run(&Hasher::Xor);
    assert_eq!(report.wrap_count, 2);
    assert_eq!(report.final_offset, 2);
}

#[test]
fn static_mode_wraps_every_iteration() {
    let runner = Runner::new(4, 5, Mode::Static).unwrap();
    let report = runner.run(&Hasher::Xor);
    assert_eq!(report.wrap_count, 5);
    assert_eq!(report.final_offset, 0);
}

#[test]
fn run_on_buffer_hashes_the_last_window() {
    let runner = Runner::new(4, 3, Mode::Static).unwrap();
    let buf = vec![1u8, 2, 3, 4];
    let report = runner.run_on_buffer(&Hasher::Xor, &buf);
    assert_eq!(report.last_digest, 0x04030201u64.to_le_bytes().to_vec());
}

#[test]
fn run_with_zero_iterations_reports_nothing_hashed() {
    let runner = Runner::new(8, 0, Mode::Sliding).unwrap();
    let report = runner.run(&Hasher::Blake3);
    assert_eq!(report.iterations, 0);
    assert_eq!(report.wrap_count, 0);
    assert_eq!(report.final_offset, 0);
    assert!(report.last_digest.is_empty());
}

#[test]
fn default_benchmark_runs_the_fixed_workload() {
    let report = hash_bench::runner::default_benchmark(&Hasher::Xor);
    assert_eq!(report.iterations, 10000);
    assert_eq!(report.wrap_count, 0);
    assert_eq!(report.final_offset, 10000);
}

#[test]
fn random_blob_has_the_requested_length() {
    assert_eq!(generate_random_blob(0).len(), 0);
    assert_eq!(generate_random_blob(100).len(), 100);
}
