use hashtool::algorithm::HashAlgorithm;
use hashtool::args::HashArgs;
use hashtool::engine::DigestEngine;
use hashtool::hashes::digest_bytes;
use hashtool::report::{digest_to_hex, report_line};

#[test]
fn labels_match_the_documented_spelling() {
    let cases = vec![
        (HashAlgorithm::Md5, "MD5"),
        (HashAlgorithm::Sha1, "SHA-1"),
        (HashAlgorithm::Sha224, "SHA-224"),
        (HashAlgorithm::Sha256, "SHA-256"),
        (HashAlgorithm::Sha384, "SHA-384"),
        (HashAlgorithm::Sha512, "SHA-512"),
        (HashAlgorithm::Sha512_224, "SHA-512/224"),
        (HashAlgorithm::Sha512_256, "SHA-512/256"),
        (HashAlgorithm::Sha3_224, "SHA3-224"),
        (HashAlgorithm::Sha3_256, "SHA3-256"),
        (HashAlgorithm::Sha3_384, "SHA3-384"),
        (HashAlgorithm::Sha3_512, "SHA3-512"),
        (HashAlgorithm::Blake3, "BLAKE3"),
    ];
    for (alg, label) in cases {
        assert_eq!(alg.label(), label);
    }
}

#[test]
fn sha256_abc_report_line() {
    let mut engine = DigestEngine::new(HashAlgorithm::Sha256);
    engine.update(b"abc");
    let digest = engine.finalize_and_reset();
    let line = report_line(HashAlgorithm::Sha256, "/home/user/a.txt", &digest);
    assert_eq!(
        line,
        "[SHA-256] /home/user/a.txt: ba7816bf8f01cfea414140de5dae2223b00361a396177a9cb410ff61f20015ad"
    );
}

#[test]
fn hex_rendering_is_lowercase_two_digits_per_byte() {
    let digest = vec![0x00u8, 0x0f, 0xa5, 0xff];
    assert_eq!(digest_to_hex(&digest), "000fa5ff");
}

#[test]
fn hex_rendering_of_empty_digest_is_empty() {
    let digest: Vec<u8> = Vec::new();
    assert_eq!(digest_to_hex(&digest), "");
}

#[test]
fn algorithm_defaults_to_sha256() {
    let args = HashArgs { algorithm: None, files: Vec::new() };
    assert_eq!(args.resolve_algorithm(), HashAlgorithm::Sha256);
}

#[test]
fn chosen_algorithm_is_kept() {
    let args = HashArgs { algorithm: Some(HashAlgorithm::Blake3), files: Vec::new() };
    assert_eq!(args.resolve_algorithm(), HashAlgorithm::Blake3);
}

#[test]
fn report_line_for_empty_file() {
    let digest = digest_bytes(HashAlgorithm::Md5, b"");
    let line = report_line(HashAlgorithm::Md5, "/var/empty.bin", &digest);
    assert_eq!(
        line,
        "[MD5] /var/empty.bin: d41d8cd98f00b204e9800998ecf8427e"
    );
}
