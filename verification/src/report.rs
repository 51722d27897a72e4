//! Hex display of digests and the report line printed for each hashed file.

use vstd::prelude::*;
use vstd::string::StringExecFns;

use crate::algorithm::HashAlgorithm;
use crate::engine::DigestEngine;
use crate::hashes::digest_of;

verus! {

/// The lowercase hexadecimal digit for a value below sixteen.
pub open spec fn hex_digit(n: int) -> char
    recommends
        0 <= n < 16,
{
    if n == 0 {
        '0'
    } else if n == 1 {
        '1'
    } else if n == 2 {
        '2'
    } else if n == 3 {
        '3'
    } else if n == 4 {
        '4'
    } else if n == 5 {
        '5'
    } else if n == 6 {
        '6'
    } else if n == 7 {
        '7'
    } else if n == 8 {
        '8'
    } else if n == 9 {
        '9'
    } else if n == 10 {
        'a'
    } else if n == 11 {
        'b'
    } else if n == 12 {
        'c'
    } else if n == 13 {
        'd'
    } else if n == 14 {
        'e'
    } else {
        'f'
    }
}

/// The lowercase hexadecimal rendering of a byte sequence: two digits per
/// byte, high nibble first.
pub open spec fn hex_of(data: Seq<u8>) -> Seq<char>
    decreases data.len(),
{
    if data.len() == 0 {
        Seq::empty()
    } else {
        hex_of(data.drop_last()) + seq![
            hex_digit(data.last() as int / 16),
            hex_digit(data.last() as int % 16),
        ]
    }
}

/// The one-character string holding a hexadecimal digit.
fn hex_digit_str(n: u8) -> (d: &'static str)
    requires
        n < 16,
    ensures
        d@ == seq![hex_digit(n as int)],
{
    proof {
        reveal_strlit("0");
        reveal_strlit("1");
        reveal_strlit("2");
        reveal_strlit("3");
        reveal_strlit("4");
        reveal_strlit("5");
        reveal_strlit("6");
        reveal_strlit("7");
        reveal_strlit("8");
        reveal_strlit("9");
        reveal_strlit("a");
        reveal_strlit("b");
        reveal_strlit("c");
        reveal_strlit("d");
        reveal_strlit("e");
        reveal_strlit("f");
    }
    if n == 0 {
        proof {
            assert("0"@ =~= seq![hex_digit(n as int)]);
        }
        "0"
    } else if n == 1 {
        proof {
            assert("1"@ =~= seq![hex_digit(n as int)]);
        }
        "1"
    } else if n == 2 {
        proof {
            assert("2"@ =~= seq![hex_digit(n as int)]);
        }
        "2"
    } else if n == 3 {
        proof {
            assert("3"@ =~= seq![hex_digit(n as int)]);
        }
        "3"
    } else if n == 4 {
        proof {
            assert("4"@ =~= seq![hex_digit(n as int)]);
        }
        "4"
    } else if n == 5 {
        proof {
            assert("5"@ =~= seq![hex_digit(n as int)]);
        }
        "5"
    } else if n == 6 {
        proof {
            assert("6"@ =~= seq![hex_digit(n as int)]);
        }
        "6"
    } else if n == 7 {
        proof {
            assert("7"@ =~= seq![hex_digit(n as int)]);
        }
        "7"
    } else if n == 8 {
        proof {
            assert("8"@ =~= seq![hex_digit(n as int)]);
        }
        "8"
    } else if n == 9 {
        proof {
            assert("9"@ =~= seq![hex_digit(n as int)]);
        }
        "9"
    } else if n == 10 {
        proof {
            assert("a"@ =~= seq![hex_digit(n as int)]);
        }
        "a"
    } else if n == 11 {
        proof {
            assert("b"@ =~= seq![hex_digit(n as int)]);
        }
        "b"
    } else if n == 12 {
        proof {
            assert("c"@ =~= seq![hex_digit(n as int)]);
        }
        "c"
    } else if n == 13 {
        proof {
            assert("d"@ =~= seq![hex_digit(n as int)]);
        }
        "d"
    } else if n == 14 {
        proof {
            assert("e"@ =~= seq![hex_digit(n as int)]);
        }
        "e"
    } else {
        proof {
            assert("f"@ =~= seq![hex_digit(n as int)]);
        }
        "f"
    }
}

/// Renders a digest for display: lowercase hexadecimal, two digits per byte,
/// high nibble first.
pub fn digest_to_hex(digest: &Vec<u8>) -> (r: String)
    ensures
        r@ == hex_of(digest@),
{
    let mut out = String::new();
    let mut i: usize = 0;
    while i < digest.len()
        invariant
            i <= digest@.len(),
            out@ == hex_of(digest@.subrange(0, i as int)),
        decreases digest@.len() - i,
    {
        let b = digest[i];
        out.append(hex_digit_str(b / 16));
        out.append(hex_digit_str(b % 16));
        proof {
            let prev = digest@.subrange(0, i as int);
            let cur = digest@.subrange(0, i as int + 1);
            assert(cur.drop_last() =~= prev);
            assert(cur.last() == digest@[i as int]);
            assert(out@ =~= hex_of(cur));
        }
        i = i + 1;
    }
    proof {
        assert(digest@.subrange(0, digest@.len() as int) =~= digest@);
    }
    out
}

/// The report line for one hashed file.
pub open spec fn report_line_spec(alg: HashAlgorithm, path: Seq<char>, digest: Seq<u8>) -> Seq<
    char,
> {
    "["@ + alg.spec_label() + "] "@ + path + ": "@ + hex_of(digest)
}

/// Builds the report line for one hashed file: the algorithm label in
/// brackets, the path, and the digest in lowercase hex.
pub fn report_line(alg: HashAlgorithm, path: &str, digest: &Vec<u8>) -> (r: String)
    ensures
        r@ == report_line_spec(alg, path@, digest@),
{
    let mut line = String::from_str("[");
    line.append(alg.label());
    line.append("] ");
    line.append(path);
    line.append(": ");
    let rendered = digest_to_hex(digest);
    line.append(rendered.as_str());
    proof {
        assert(line@ =~= report_line_spec(alg, path@, digest@));
    }
    line
}

/// Finalizes the engine over everything fed for the current file and builds
/// that file's report line; the engine is left reset for the next file.
pub fn finalize_to_line(engine: &mut DigestEngine, path: &str) -> (r: String)
    ensures
        r@ == report_line_spec(
            old(engine).alg(),
            path@,
            digest_of(old(engine).alg(), old(engine).fed()),
        ),
        final(engine).alg() == old(engine).alg(),
        final(engine).fed() == Seq::<u8>::empty(),
{
    let digest = engine.finalize_and_reset();
    report_line(engine.algorithm(), path, &digest)
}

} // verus!
