//! Text read from the target.

use vstd::prelude::*;
use vstd::std_specs::iter::IteratorSpec;
use vstd::string::{axiom_spec_iter, next_postcondition};

verus! {

/// What `String::from_utf8_lossy` makes of the bytes `b`.
pub uninterp spec fn utf8_lossy(b: Seq<u8>) -> Seq<char>;

/// Whether every byte of `b` is ASCII.
pub open spec fn is_ascii_bytes(b: Seq<u8>) -> bool {
    forall|i: int| 0 <= i < b.len() ==> #[trigger] b[i] < 128
}

/// Relies on `String::from_utf8_lossy`: the text that the bytes encode, each
/// invalid sequence replaced; ASCII bytes, being valid UTF-8, give one char each.
#[verifier::external_body]
pub(crate) fn string_from_bytes(b: &[u8]) -> (r: String)
    ensures
        r@ == utf8_lossy(b@),
        is_ascii_bytes(b@) ==> r@.len() == b@.len() && forall|i: int|
            0 <= i < b@.len() ==> #[trigger] r@[i] as u32 == b@[i] as u32,
{
    String::from_utf8_lossy(b).to_string()
}

/// The text that the UTF-16 units `u` encode: a unit outside the surrogate
/// range is a char; a leading surrogate followed by a trailing one is the
/// char they encode together; any other surrogate is U+FFFD, and decoding
/// goes on with the next unit.
pub open spec fn utf16_lossy(u: Seq<u16>) -> Seq<char>
    decreases u.len(),
{
    if u.len() == 0 {
        Seq::empty()
    } else {
        let a = u[0] as u32;
        if a < 0xd800 || a > 0xdfff {
            seq![a as char] + utf16_lossy(u.drop_first())
        } else if a <= 0xdbff && u.len() >= 2 && 0xdc00 <= u[1] <= 0xdfff {
            let c = (0x10000 + (a - 0xd800) * 0x400 + (u[1] - 0xdc00)) as u32;
            seq![c as char] + utf16_lossy(u.subrange(2, u.len() as int))
        } else {
            seq!['\u{fffd}'] + utf16_lossy(u.drop_first())
        }
    }
}

/// Relies on `String::from_utf16_lossy`: the text that the UTF-16 units
/// encode, each unpaired surrogate replaced by U+FFFD, as `utf16_lossy` states.
#[verifier::external_body]
pub(crate) fn string_from_utf16(u: &[u16]) -> (r: String)
    ensures
        r@ == utf16_lossy(u@),
{
    String::from_utf16_lossy(u)
}

/// The chars of `s`, in order.
pub fn chars_of(s: &str) -> (r: Vec<char>)
    ensures
        r@ == s@,
{
    let mut it = s.chars();
    proof {
        axiom_spec_iter(s);
    }
    let mut out: Vec<char> = Vec::new();
    loop
        invariant
            out@ + it.remaining() == s@,
            it.decrease() is Some,
        ensures
            out@ == s@,
        decreases it.decrease()->0,
    {
        let ghost before = it;
        let c = it.next();
        proof {
            next_postcondition(&before, &it, c);
        }
        match c {
            Some(ch) => {
                assert(out@.push(ch) + it.remaining() =~= out@ + before.remaining());
                out.push(ch);
            },
            None => {
                assert(out@ + before.remaining() =~= out@);
                break;
            },
        }
    }
    out
}

} // verus!
