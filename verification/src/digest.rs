use vstd::prelude::*;
use crate::strutil::str_eq;

verus! {

/// The SHA-256 digest of a byte sequence. The algorithm itself is the
/// hashing library's concern; the digest is a pure function of the bytes.
pub uninterp spec fn sha256_of(data: Seq<u8>) -> Seq<u8>;

/// Relies on ring::digest::digest with ring::digest::SHA256: the digest is a
/// function of the input bytes alone and is SHA256_OUTPUT_LEN = 32 bytes long.
#[verifier::external_body]
fn sha256_digest(data: &Vec<u8>) -> (r: Vec<u8>)
    ensures
        r@ == sha256_of(data@),
        r@.len() == 32,
{
    ring::digest::digest(&ring::digest::SHA256, data.as_slice()).as_ref().to_vec()
}

/// The upper-case hexadecimal digit for a value below sixteen.
pub open spec fn hex_digit(n: u8) -> char {
    if n == 0 {
        '0'
    } else if n == 1 {
        '1'
    } else if n == 2 {
        '2'
    } else if n == 3 {
        '3'
    } else if n == 4 {
        '4'
    } else if n == 5 {
        '5'
    } else if n == 6 {
        '6'
    } else if n == 7 {
        '7'
    } else if n == 8 {
        '8'
    } else if n == 9 {
        '9'
    } else if n == 10 {
        'A'
    } else if n == 11 {
        'B'
    } else if n == 12 {
        'C'
    } else if n == 13 {
        'D'
    } else if n == 14 {
        'E'
    } else {
        'F'
    }
}

/// Upper-case hexadecimal encoding: two digits for each byte, in order.
pub open spec fn hex_upper_spec(data: Seq<u8>) -> Seq<char>
    decreases data.len(),
{
    if data.len() == 0 {
        Seq::empty()
    } else {
        hex_upper_spec(data.drop_last()) + seq![
            hex_digit(data.last() / 16),
            hex_digit(data.last() % 16),
        ]
    }
}

/// The digest verifier's acceptance condition: the expected string is
/// exactly the upper-case hexadecimal SHA-256 digest of the data.
pub open spec fn digest_matches(expected: Seq<char>, data: Seq<u8>) -> bool {
    expected == hex_upper_spec(sha256_of(data))
}

fn hex_digit_exec(n: u8) -> (c: char)
    requires
        n < 16,
    ensures
        c == hex_digit(n),
{
    match n {
        0 => '0',
        1 => '1',
        2 => '2',
        3 => '3',
        4 => '4',
        5 => '5',
        6 => '6',
        7 => '7',
        8 => '8',
        9 => '9',
        10 => 'A',
        11 => 'B',
        12 => 'C',
        13 => 'D',
        14 => 'E',
        _ => 'F',
    }
}

/// Relies on String::push: appends one character to the string.
#[verifier::external_body]
fn push_char(s: &mut String, c: char)
    ensures
        final(s)@ == old(s)@.push(c),
{
    s.push(c)
}

/// Encode bytes as an upper-case hexadecimal string.
pub fn to_hex_upper(data: &Vec<u8>) -> (r: String)
    ensures
        r@ == hex_upper_spec(data@),
{
    let mut r = String::new();
    let mut i: usize = 0;
    while i < data.len()
        invariant
            i <= data@.len(),
            r@ == hex_upper_spec(data@.take(i as int)),
        decreases data@.len() - i,
    {
        let b = data[i];
        push_char(&mut r, hex_digit_exec(b / 16));
        push_char(&mut r, hex_digit_exec(b % 16));
        proof {
            let t = data@.take(i + 1);
            assert(t.drop_last() =~= data@.take(i as int));
            assert(t.last() == data@[i as int]);
            assert(r@ == hex_upper_spec(data@.take(i + 1)));
        }
        i = i + 1;
    }
    proof {
        assert(data@.take(data@.len() as int) =~= data@);
    }
    r
}

/// Compute the upper-case hexadecimal SHA-256 digest of the given bytes;
/// the form in which the digest verifier and its callers exchange digests.
pub fn sha256_hex_upper(data: &Vec<u8>) -> (r: String)
    ensures
        r@ == hex_upper_spec(sha256_of(data@)),
{
    let digest = sha256_digest(data);
    to_hex_upper(&digest)
}

/// Verify the integrity of the loader artifact: `loader` holds the bytes of
/// the file on disk, `sum_to_check` the digest the caller expects. A read
/// failure never reaches this function; the caller surfaces it separately.
pub fn check_loader_integrity(sum_to_check: &str, loader: &Vec<u8>) -> (r: bool)
    ensures
        r == digest_matches(sum_to_check@, loader@),
{
    let actual = sha256_hex_upper(loader);
    str_eq(sum_to_check, actual.as_str())
}

/// Law: a freshly computed digest of unmodified bytes always matches when
/// checked against those same bytes.
pub proof fn lemma_digest_round_trip(data: Seq<u8>)
    ensures
        digest_matches(hex_upper_spec(sha256_of(data)), data),
{
}

/// Law: an expected string computed from one content never matches a
/// content whose digest differs. Altering a file changes its SHA-256
/// digest unless the two contents collide, which the hash's design rules
/// out in practice but no proof can state of an uninterpreted digest; so
/// the differing-digests hypothesis is taken here, and the rest is proved.
pub proof fn lemma_different_digests_never_match(expected: Seq<char>, d1: Seq<u8>, d2: Seq<u8>)
    requires
        digest_matches(expected, d1),
        sha256_of(d2) != sha256_of(d1),
    ensures
        !digest_matches(expected, d2),
{
    if digest_matches(expected, d2) {
        lemma_hex_upper_injective(sha256_of(d1), sha256_of(d2));
    }
}

/// Law: the verifier accepts one expected string for two different inputs
/// only when the inputs' digests already collide — a reported mismatch can
/// never be the encoding's fault.
pub proof fn lemma_match_means_equal_digests(expected: Seq<char>, d1: Seq<u8>, d2: Seq<u8>)
    requires
        digest_matches(expected, d1),
        digest_matches(expected, d2),
    ensures
        sha256_of(d1) == sha256_of(d2),
{
    lemma_hex_upper_injective(sha256_of(d1), sha256_of(d2));
}

/// Hexadecimal encoding is injective: a digest mismatch that the verifier
/// reports can only come from differing digests, never from the encoding.
pub proof fn lemma_hex_upper_injective(a: Seq<u8>, b: Seq<u8>)
    requires
        hex_upper_spec(a) == hex_upper_spec(b),
    ensures
        a == b,
    decreases a.len(),
{
    lemma_hex_upper_len(a);
    lemma_hex_upper_len(b);
    if a.len() == 0 {
        assert(a =~= b);
    } else {
        let xa = hex_upper_spec(a.drop_last());
        let xb = hex_upper_spec(b.drop_last());
        let ta = seq![hex_digit(a.last() / 16), hex_digit(a.last() % 16)];
        let tb = seq![hex_digit(b.last() / 16), hex_digit(b.last() % 16)];
        assert(hex_upper_spec(a) == xa + ta);
        assert(hex_upper_spec(b) == xb + tb);
        lemma_hex_upper_len(a.drop_last());
        lemma_hex_upper_len(b.drop_last());
        assert(xa =~= xb) by {
            assert(forall|j: int| 0 <= j < xa.len() ==> #[trigger] xa[j] == (xa + ta)[j]);
            assert(forall|j: int| 0 <= j < xb.len() ==> #[trigger] xb[j] == (xb + tb)[j]);
        }
        lemma_hex_upper_injective(a.drop_last(), b.drop_last());
        assert((xa + ta)[xa.len() as int] == ta[0]);
        assert((xa + ta)[xa.len() as int + 1] == ta[1]);
        assert((xb + tb)[xb.len() as int] == tb[0]);
        assert((xb + tb)[xb.len() as int + 1] == tb[1]);
        lemma_hex_digit_injective(a.last() / 16, b.last() / 16);
        lemma_hex_digit_injective(a.last() % 16, b.last() % 16);
        assert(a.last() == b.last()) by {
            assert(a.last() == 16 * (a.last() / 16) + a.last() % 16);
            assert(b.last() == 16 * (b.last() / 16) + b.last() % 16);
        }
        assert(a.len() == b.len());
        assert(a.drop_last() == b.drop_last());
        assert forall|i: int| 0 <= i < a.len() implies a[i] == b[i] by {
            if i < a.len() - 1 {
                assert(a[i] == a.drop_last()[i]);
                assert(b[i] == b.drop_last()[i]);
            } else {
                assert(a[i] == a.last());
                assert(b[i] == b.last());
            }
        }
        assert(a =~= b);
    }
}

/// The encoding is two characters per byte.
pub proof fn lemma_hex_upper_len(data: Seq<u8>)
    ensures
        hex_upper_spec(data).len() == 2 * data.len(),
    decreases data.len(),
{
    if data.len() > 0 {
        lemma_hex_upper_len(data.drop_last());
    }
}

proof fn lemma_hex_digit_injective(x: u8, y: u8)
    requires
        x < 16,
        y < 16,
        hex_digit(x) == hex_digit(y),
    ensures
        x == y,
{
}

} // verus!
