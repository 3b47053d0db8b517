//! Trusted wrappers of the `String` operations that vstd does not specify.
//!
//! Each wrapper holds one call of a `std` method; its contract restates what the
//! method's documentation promises, over character sequences.

use vstd::prelude::*;
use vstd::utf8::*;

use crate::text::utf8_prefix_len;

verus! {

/// Wrapper of `String::insert`: inserts `c` at byte position `idx`.
///
/// `std` documents that it panics when `idx` is not a character boundary of the
/// string (or past its end), and when the grown string would exceed `isize::MAX`
/// bytes; both are excluded here. The contract states that the character is
/// placed before the character whose encoding starts at `idx`.
#[verifier::external_body]
pub(crate) fn string_insert(s: &mut String, idx: usize, c: char)
    requires
        exists|k: int| 0 <= k <= old(s)@.len() && #[trigger] utf8_prefix_len(old(s)@, k) == idx,
        encode_utf8(old(s)@).len() + encode_scalar(c as u32).len() <= isize::MAX,
    ensures
        forall|k: int|
            0 <= k <= old(s)@.len() && #[trigger] utf8_prefix_len(old(s)@, k) == idx
                ==> final(s)@ == old(s)@.take(k) + seq![c] + old(s)@.skip(k),
{
    s.insert(idx, c);
}

/// Wrapper of `String::remove`: removes and returns the character whose
/// encoding starts at byte position `idx`.
///
/// `std` documents that it panics when `idx` is not a character boundary or is
/// not smaller than the byte length; that is excluded here.
#[verifier::external_body]
pub(crate) fn string_remove(s: &mut String, idx: usize) -> (r: char)
    requires
        exists|k: int| 0 <= k < old(s)@.len() && #[trigger] utf8_prefix_len(old(s)@, k) == idx,
    ensures
        forall|k: int|
            0 <= k < old(s)@.len() && #[trigger] utf8_prefix_len(old(s)@, k) == idx
                ==> r == old(s)@[k] && final(s)@ == old(s)@.take(k) + old(s)@.skip(k + 1),
{
    s.remove(idx)
}

/// Wrapper of `String::push`: appends `c`.
///
/// `std` panics when the grown string would exceed `isize::MAX` bytes; that is
/// excluded here.
#[verifier::external_body]
pub(crate) fn string_push(s: &mut String, c: char)
    requires
        encode_utf8(old(s)@).len() + encode_scalar(c as u32).len() <= isize::MAX,
    ensures
        final(s)@ == old(s)@.push(c),
{
    s.push(c);
}

/// Wrapper of `String::pop`: removes and returns the last character, or
/// returns `None` and leaves the string alone when it is empty.
#[verifier::external_body]
pub(crate) fn string_pop(s: &mut String) -> (r: Option<char>)
    ensures
        old(s)@.len() == 0 ==> r is None && final(s)@ == old(s)@,
        old(s)@.len() > 0 ==> r == Some(old(s)@.last()) && final(s)@ == old(s)@.drop_last(),
{
    s.pop()
}

} // verus!
