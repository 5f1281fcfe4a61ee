//! Binary data as text.
use vstd::prelude::*;

verus! {

/// The digit of the standard alphabet for a number below 64.
pub open spec fn digit(n: int) -> char {
    if n < 26 {
        ('A' as int + n) as char
    } else if n < 52 {
        ('a' as int + n - 26) as char
    } else if n < 62 {
        ('0' as int + n - 52) as char
    } else if n == 62 {
        '+'
    } else {
        '/'
    }
}

/// Four digits for every three bytes; the last group is filled up with equals signs.
pub open spec fn base64(b: Seq<u8>) -> Seq<char>
    decreases b.len(),
{
    if b.len() == 0 {
        Seq::empty()
    } else if b.len() == 1 {
        seq![digit(b[0] as int / 4), digit(b[0] as int % 4 * 16), '=', '=']
    } else if b.len() == 2 {
        seq![
            digit(b[0] as int / 4),
            digit(b[0] as int % 4 * 16 + b[1] as int / 16),
            digit(b[1] as int % 16 * 4),
            '=',
        ]
    } else {
        seq![
            digit(b[0] as int / 4),
            digit(b[0] as int % 4 * 16 + b[1] as int / 16),
            digit(b[1] as int % 16 * 4 + b[2] as int / 64),
            digit(b[2] as int % 64),
        ] + base64(b.skip(3))
    }
}

/// Calls `base64::engine::general_purpose::STANDARD.encode`, the encoding with
/// the standard alphabet and with padding.
#[verifier::external_body]
pub(crate) fn encode(b: &[u8]) -> (r: String)
    requires
        b@.len() <= isize::MAX / 2,
    ensures
        r@ == base64(b@),
{
    ::base64::Engine::encode(&::base64::engine::general_purpose::STANDARD, b)
}

/// Different numbers have different digits, and no digit is an equals sign.
pub proof fn law_digits_differ(a: int, b: int)
    requires
        0 <= a < b < 64,
    ensures
        digit(a) != digit(b),
        digit(a) != '=',
        digit(b) != '=',
{
}

/// Four digits come of every three bytes begun, and three whole ones are encoded
/// by themselves.
pub proof fn law_bytes_are_encoded_in_threes(b: Seq<u8>)
    ensures
        base64(b).len() == (b.len() + 2) / 3 * 4,
        b.len() >= 3 ==> base64(b) == base64(b.take(3)) + base64(b.skip(3)),
        b.len() == 3 ==> !base64(b).contains('='),
        b.len() == 2 ==> base64(b)[2] != '=' && base64(b)[3] == '=',
        b.len() == 1 ==> base64(b)[1] != '=' && base64(b)[2] == '=' && base64(b)[3] == '=',
    decreases b.len(),
{
    if b.len() >= 3 {
        law_bytes_are_encoded_in_threes(b.skip(3));
        let t = b.take(3);
        assert(t[0] == b[0] && t[1] == b[1] && t[2] == b[2]);
        assert(t.skip(3) =~= Seq::empty());
        assert(base64(Seq::empty()) =~= Seq::<char>::empty());
        assert(base64(b) =~= base64(t) + base64(b.skip(3)));
        if b.len() == 3 {
            assert(b.skip(3) =~= Seq::empty());
            assert(base64(b).len() == 4);
        }
    }
}

} // verus!
