//! Storage keys derived from the root directory: a namespace, a bar, and the
//! first sixteen hexadecimal digits of the SHA-256 digest of the root's path.

use sha2::Digest;
use vstd::prelude::*;
use vstd::string::StringExecFns;
use vstd::string::StringSliceAdditionalSpecFns;
use vstd::utf8::encode_utf8;

verus! {

/// The SHA-256 digest of a sequence of bytes.
pub uninterp spec fn sha256_spec(data: Seq<u8>) -> Seq<u8>;

/// `sha2::Sha256::digest`: the SHA-256 digest of the bytes, which has 32
/// bytes and depends on nothing but the input.
#[verifier::external_body]
pub(crate) fn sha256(data: &[u8]) -> (digest: [u8; 32])
    ensures
        digest@ == sha256_spec(data@),
{
    sha2::Sha256::digest(data).into()
}

/// The hexadecimal digit for a number below sixteen, in lower case.
pub open spec fn hex_digit(n: int) -> char {
    if n == 0 {
        '0'
    } else if n == 1 {
        '1'
    } else if n == 2 {
        '2'
    } else if n == 3 {
        '3'
    } else if n == 4 {
        '4'
    } else if n == 5 {
        '5'
    } else if n == 6 {
        '6'
    } else if n == 7 {
        '7'
    } else if n == 8 {
        '8'
    } else if n == 9 {
        '9'
    } else if n == 10 {
        'a'
    } else if n == 11 {
        'b'
    } else if n == 12 {
        'c'
    } else if n == 13 {
        'd'
    } else if n == 14 {
        'e'
    } else {
        'f'
    }
}

/// The bytes written as hexadecimal digits in lower case, two for each byte,
/// the high half first.
pub open spec fn hex_lower(bytes: Seq<u8>) -> Seq<char>
    decreases bytes.len(),
{
    if bytes.len() == 0 {
        Seq::empty()
    } else {
        hex_lower(bytes.drop_last()) + seq![
            hex_digit(bytes.last() as int / 16),
            hex_digit(bytes.last() as int % 16),
        ]
    }
}

/// Each byte gives two digits.
pub proof fn lemma_hex_lower_len(bytes: Seq<u8>)
    ensures
        hex_lower(bytes).len() == 2 * bytes.len(),
    decreases bytes.len(),
{
    if bytes.len() > 0 {
        lemma_hex_lower_len(bytes.drop_last());
    }
}

/// The key under which the root directory's data is stored in the given
/// namespace.
pub open spec fn store_key_spec(prefix: Seq<char>, code_home: Seq<char>) -> Seq<char> {
    prefix + seq!['|'] + hex_lower(sha256_spec(encode_utf8(code_home)).subrange(0, 8))
}

fn hex_digit_text(n: u8) -> (text: &'static str)
    requires
        n < 16,
    ensures
        text@ == seq![hex_digit(n as int)],
{
    proof {
        reveal_strlit("0");
        reveal_strlit("1");
        reveal_strlit("2");
        reveal_strlit("3");
        reveal_strlit("4");
        reveal_strlit("5");
        reveal_strlit("6");
        reveal_strlit("7");
        reveal_strlit("8");
        reveal_strlit("9");
        reveal_strlit("a");
        reveal_strlit("b");
        reveal_strlit("c");
        reveal_strlit("d");
        reveal_strlit("e");
        reveal_strlit("f");
    }
    let text = if n == 0 {
        "0"
    } else if n == 1 {
        "1"
    } else if n == 2 {
        "2"
    } else if n == 3 {
        "3"
    } else if n == 4 {
        "4"
    } else if n == 5 {
        "5"
    } else if n == 6 {
        "6"
    } else if n == 7 {
        "7"
    } else if n == 8 {
        "8"
    } else if n == 9 {
        "9"
    } else if n == 10 {
        "a"
    } else if n == 11 {
        "b"
    } else if n == 12 {
        "c"
    } else if n == 13 {
        "d"
    } else if n == 14 {
        "e"
    } else {
        "f"
    };
    assert(text@ =~= seq![hex_digit(n as int)]);
    text
}

/// The first sixteen hexadecimal digits of a digest.
pub fn hex_prefix(digest: &[u8; 32]) -> (hex: String)
    ensures
        hex@ == hex_lower(digest@.subrange(0, 8)),
        hex@.len() == 16,
{
    proof {
        lemma_hex_lower_len(digest@.subrange(0, 8));
    }
    let mut hex = String::new();
    let mut i: usize = 0;
    while i < 8
        invariant
            i <= 8,
            hex@ == hex_lower(digest@.subrange(0, i as int)),
        decreases 8 - i,
    {
        let byte: u8 = digest[i];
        let high = hex_digit_text(byte / 16);
        let low = hex_digit_text(byte % 16);
        let ghost before = hex@;
        hex.append(high);
        hex.append(low);
        proof {
            let next = digest@.subrange(0, i + 1);
            assert(next.drop_last() =~= digest@.subrange(0, i as int));
            assert(next.last() == byte);
            assert(hex@ =~= before + seq![hex_digit(byte as int / 16), hex_digit(byte as int % 16)]);
        }
        i = i + 1;
    }
    hex
}

/// The path from which a root directory's keys are derived: its canonical
/// form or, where the root could not be resolved to one, the path as it was
/// given. An unresolvable root is no error.
pub fn canonical_or_given(canonical: Option<String>, given: String) -> (path: String)
    ensures
        path@ == match canonical {
            Some(resolved) => resolved@,
            None => given@,
        },
{
    match canonical {
        Some(resolved) => resolved,
        None => given,
    }
}

/// Derives the storage key for a root directory in a namespace. The root is
/// given by its path in canonical form, as text. The same namespace and root
/// always give the same key.
pub fn store_key_for_code_home(prefix: &str, code_home: &str) -> (key: String)
    ensures
        key@ == store_key_spec(prefix@, code_home@),
        sha256_spec(encode_utf8(code_home@)).len() == 32,
        key@.len() == prefix@.len() + 17,
        key@.subrange(0, prefix@.len() as int) == prefix@,
        key@[prefix@.len() as int] == '|',
{
    let digest = sha256(code_home.as_bytes());
    let hex = hex_prefix(&digest);
    proof {
        reveal_strlit("|");
        assert("|"@ =~= seq!['|']);
        lemma_hex_lower_len(digest@.subrange(0, 8));
    }
    let key = String::from_str(prefix).concat("|").concat(hex.as_str());
    proof {
        assert(key@ =~= prefix@ + seq!['|'] + hex@);
        assert(key@.subrange(0, prefix@.len() as int) =~= prefix@);
    }
    key
}

/// Keys derived for one root in two different namespaces differ.
pub proof fn lemma_store_key_tells_namespaces_apart(
    first: Seq<char>,
    second: Seq<char>,
    code_home: Seq<char>,
)
    requires
        first != second,
    ensures
        store_key_spec(first, code_home) != store_key_spec(second, code_home),
{
    let tail = seq!['|'] + hex_lower(sha256_spec(encode_utf8(code_home)).subrange(0, 8));
    let a = store_key_spec(first, code_home);
    let b = store_key_spec(second, code_home);
    assert(a =~= first + tail);
    assert(b =~= second + tail);
    if a == b {
        assert(first.len() == second.len());
        assert forall|i: int| 0 <= i < first.len() implies first[i] == second[i] by {
            assert(a[i] == first[i]);
            assert(b[i] == second[i]);
        }
        assert(first =~= second);
    }
}

/// Different numbers below sixteen have different digits.
pub proof fn lemma_hex_digit_injective(a: int, b: int)
    requires
        0 <= a < 16,
        0 <= b < 16,
        hex_digit(a) == hex_digit(b),
    ensures
        a == b,
{
}

/// Different byte sequences of one length are written differently.
pub proof fn lemma_hex_lower_injective(a: Seq<u8>, b: Seq<u8>)
    requires
        a.len() == b.len(),
        hex_lower(a) == hex_lower(b),
    ensures
        a == b,
    decreases a.len(),
{
    if a.len() == 0 {
        assert(a =~= b);
    } else {
        let a_rest = a.drop_last();
        let b_rest = b.drop_last();
        lemma_hex_lower_len(a_rest);
        lemma_hex_lower_len(b_rest);
        let n = hex_lower(a_rest).len() as int;
        let a_tail = seq![hex_digit(a.last() as int / 16), hex_digit(a.last() as int % 16)];
        let b_tail = seq![hex_digit(b.last() as int / 16), hex_digit(b.last() as int % 16)];
        assert(hex_lower(a) == hex_lower(a_rest) + a_tail);
        assert(hex_lower(b) == hex_lower(b_rest) + b_tail);
        assert(hex_lower(a_rest) =~= hex_lower(a).subrange(0, n));
        assert(hex_lower(b_rest) =~= hex_lower(b).subrange(0, n));
        assert(hex_lower(a)[n] == a_tail[0]);
        assert(hex_lower(b)[n] == b_tail[0]);
        assert(hex_lower(a)[n + 1] == a_tail[1]);
        assert(hex_lower(b)[n + 1] == b_tail[1]);
        lemma_hex_digit_injective(a.last() as int / 16, b.last() as int / 16);
        lemma_hex_digit_injective(a.last() as int % 16, b.last() as int % 16);
        assert(a.last() == b.last());
        lemma_hex_lower_injective(a_rest, b_rest);
        assert(a =~= a_rest.push(a.last()));
        assert(b =~= b_rest.push(b.last()));
    }
}

/// Two roots have the same key in a namespace exactly when the SHA-256
/// digests of their paths agree in their first eight bytes: a changed root
/// changes the key unless the digests collide there.
pub proof fn lemma_store_key_tells_roots_apart(
    prefix: Seq<char>,
    first_home: Seq<char>,
    second_home: Seq<char>,
)
    requires
        sha256_spec(encode_utf8(first_home)).len() == 32,
        sha256_spec(encode_utf8(second_home)).len() == 32,
    ensures
        store_key_spec(prefix, first_home) == store_key_spec(prefix, second_home) <==> sha256_spec(
            encode_utf8(first_home),
        ).subrange(0, 8) == sha256_spec(encode_utf8(second_home)).subrange(0, 8),
{
    let a = sha256_spec(encode_utf8(first_home)).subrange(0, 8);
    let b = sha256_spec(encode_utf8(second_home)).subrange(0, 8);
    let head = prefix + seq!['|'];
    let first = store_key_spec(prefix, first_home);
    let second = store_key_spec(prefix, second_home);
    lemma_hex_lower_len(a);
    lemma_hex_lower_len(b);
    assert(first =~= head + hex_lower(a));
    assert(second =~= head + hex_lower(b));
    if first == second {
        assert(hex_lower(a) =~= first.subrange(head.len() as int, first.len() as int));
        assert(hex_lower(b) =~= second.subrange(head.len() as int, second.len() as int));
        lemma_hex_lower_injective(a, b);
    }
}

} // verus!
