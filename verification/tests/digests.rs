use hashtool::algorithm::HashAlgorithm;
use md5::Digest;
use hashtool::hashes::digest_bytes;
use hashtool::report::digest_to_hex;

fn hex_digest(alg: HashAlgorithm, data: &[u8]) -> String {
    let digest = digest_bytes(alg, data);
    digest_to_hex(&digest)
}

#[test]
fn md5_golden_values() {
    assert_eq!(
        hex_digest(HashAlgorithm::Md5, b""),
        "d41d8cd98f00b204e9800998ecf8427e"
    );
    assert_eq!(
        hex_digest(HashAlgorithm::Md5, b"abc"),
        "900150983cd24fb0d6963f7d28e17f72"
    );
}

#[test]
fn sha1_golden_values() {
    assert_eq!(
        hex_digest(HashAlgorithm::Sha1, b""),
        "da39a3ee5e6b4b0d3255bfef95601890afd80709"
    );
    assert_eq!(
        hex_digest(HashAlgorithm::Sha1, b"abc"),
        "a9993e364706816aba3e25717850c26c9cd0d89d"
    );
}

#[test]
fn sha224_golden_values() {
    assert_eq!(
        hex_digest(HashAlgorithm::Sha224, b""),
        "d14a028c2a3a2bc9476102bb288234c415a2b01f828ea62ac5b3e42f"
    );
    assert_eq!(
        hex_digest(HashAlgorithm::Sha224, b"abc"),
        "23097d223405d8228642a477bda255b32aadbce4bda0b3f7e36c9da7"
    );
}

#[test]
fn sha256_golden_values() {
    assert_eq!(
        hex_digest(HashAlgorithm::Sha256, b""),
        "e3b0c44298fc1c149afbf4c8996fb92427ae41e4649b934ca495991b7852b855"
    );
    assert_eq!(
        hex_digest(HashAlgorithm::Sha256, b"abc"),
        "ba7816bf8f01cfea414140de5dae2223b00361a396177a9cb410ff61f20015ad"
    );
}

#[test]
fn sha384_golden_values() {
    assert_eq!(
        hex_digest(HashAlgorithm::Sha384, b""),
        "38b060a751ac96384cd9327eb1b1e36a21fdb71114be07434c0cc7bf63f6e1da274edebfe76f65fbd51ad2f14898b95b"
    );
    assert_eq!(
        hex_digest(HashAlgorithm::Sha384, b"abc"),
        "cb00753f45a35e8bb5a03d699ac65007272c32ab0eded1631a8b605a43ff5bed8086072ba1e7cc2358baeca134c825a7"
    );
}

#[test]
fn sha512_golden_values() {
    assert_eq!(
        hex_digest(HashAlgorithm::Sha512, b""),
        "cf83e1357eefb8bdf1542850d66d8007d620e4050b5715dc83f4a921d36ce9ce47d0d13c5d85f2b0ff8318d2877eec2f63b931bd47417a81a538327af927da3e"
    );
    assert_eq!(
        hex_digest(HashAlgorithm::Sha512, b"abc"),
        "ddaf35a193617abacc417349ae20413112e6fa4e89a97ea20a9eeee64b55d39a2192992a274fc1a836ba3c23a3feebbd454d4423643ce80e2a9ac94fa54ca49f"
    );
}

#[test]
fn sha512_224_golden_values() {
    assert_eq!(
        hex_digest(HashAlgorithm::Sha512_224, b""),
        "6ed0dd02806fa89e25de060c19d3ac86cabb87d6a0ddd05c333b84f4"
    );
    assert_eq!(
        hex_digest(HashAlgorithm::Sha512_224, b"abc"),
        "4634270f707b6a54daae7530460842e20e37ed265ceee9a43e8924aa"
    );
}

#[test]
fn sha512_256_golden_values() {
    assert_eq!(
        hex_digest(HashAlgorithm::Sha512_256, b""),
        "c672b8d1ef56ed28ab87c3622c5114069bdd3ad7b8f9737498d0c01ecef0967a"
    );
    assert_eq!(
        hex_digest(HashAlgorithm::Sha512_256, b"abc"),
        "53048e2681941ef99b2e29b76b4c7dabe4c2d0c634fc6d46e0e2f13107e7af23"
    );
}

#[test]
fn sha3_224_golden_values() {
    assert_eq!(
        hex_digest(HashAlgorithm::Sha3_224, b""),
        "6b4e03423667dbb73b6e15454f0eb1abd4597f9a1b078e3f5b5a6bc7"
    );
    assert_eq!(
        hex_digest(HashAlgorithm::Sha3_224, b"abc"),
        "e642824c3f8cf24ad09234ee7d3c766fc9a3a5168d0c94ad73b46fdf"
    );
}

#[test]
fn sha3_256_golden_values() {
    assert_eq!(
        hex_digest(HashAlgorithm::Sha3_256, b""),
        "a7ffc6f8bf1ed76651c14756a061d662f580ff4de43b49fa82d80a4b80f8434a"
    );
    assert_eq!(
        hex_digest(HashAlgorithm::Sha3_256, b"abc"),
        "3a985da74fe225b2045c172d6bd390bd855f086e3e9d525b46bfe24511431532"
    );
}

#[test]
fn sha3_384_golden_values() {
    assert_eq!(
        hex_digest(HashAlgorithm::Sha3_384, b""),
        "0c63a75b845e4f7d01107d852e4c2485c51a50aaaa94fc61995e71bbee983a2ac3713831264adb47fb6bd1e058d5f004"
    );
    assert_eq!(
        hex_digest(HashAlgorithm::Sha3_384, b"abc"),
        "ec01498288516fc926459f58e2c6ad8df9b473cb0fc08c2596da7cf0e49be4b298d88cea927ac7f539f1edf228376d25"
    );
}

#[test]
fn sha3_512_golden_values() {
    assert_eq!(
        hex_digest(HashAlgorithm::Sha3_512, b""),
        "a69f73cca23a9ac5c8b567dc185a756e97c982164fe25859e0d1dcc1475c80a615b2123af1f5f94c11e3e9402c3ac558f500199d95b6d3e301758586281dcd26"
    );
    assert_eq!(
        hex_digest(HashAlgorithm::Sha3_512, b"abc"),
        "b751850b1a57168a5693cd924b6b096e08f621827444f70d884f5d0240d2712e10e116e9192af3c91a7ec57647e3934057340b4cf408d5a56592f8274eec53f0"
    );
}

#[test]
fn blake3_golden_values() {
    assert_eq!(
        hex_digest(HashAlgorithm::Blake3, b""),
        "af1349b9f5f9a1a6a0404dea36dcc9499bcb25c9adc112b7cc9a93cae41f3262"
    );
    assert_eq!(
        hex_digest(HashAlgorithm::Blake3, b"abc"),
        "6437b3ac38465133ffb63b75273a8db548c558465d79db03fd359c6cd5bd9d85"
    );
}

#[test]
fn digest_lengths_match_algorithm() {
    let cases = vec![
        (HashAlgorithm::Md5, 16),
        (HashAlgorithm::Sha1, 20),
        (HashAlgorithm::Sha224, 28),
        (HashAlgorithm::Sha256, 32),
        (HashAlgorithm::Sha384, 48),
        (HashAlgorithm::Sha512, 64),
        (HashAlgorithm::Sha512_224, 28),
        (HashAlgorithm::Sha512_256, 32),
        (HashAlgorithm::Sha3_224, 28),
        (HashAlgorithm::Sha3_256, 32),
        (HashAlgorithm::Sha3_384, 48),
        (HashAlgorithm::Sha3_512, 64),
        (HashAlgorithm::Blake3, 32),
    ];
    for (alg, len) in cases {
        assert_eq!(digest_bytes(alg, b"hashtool").len(), len);
    }
}

#[test]
fn wrappers_match_direct_crate_calls() {
    let data: Vec<u8> = (0u32..1000).map(|i| (i % 251) as u8).collect();
    assert_eq!(
        digest_bytes(HashAlgorithm::Md5, &data),
        md5::Md5::digest(&data).to_vec()
    );
    assert_eq!(
        digest_bytes(HashAlgorithm::Sha256, &data),
        sha2::Sha256::digest(&data).to_vec()
    );
    assert_eq!(
        digest_bytes(HashAlgorithm::Sha3_512, &data),
        sha3::Sha3_512::digest(&data).to_vec()
    );
    assert_eq!(
        digest_bytes(HashAlgorithm::Blake3, &data),
        blake3::hash(&data).as_bytes().to_vec()
    );
}
