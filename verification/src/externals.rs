use vstd::prelude::*;

verus! {

/// Declares tokio's task handle type so the state can own the handles of its
/// background producers; Verus treats a value of it as opaque.
#[verifier::external_type_specification]
#[verifier::external_body]
#[verifier::reject_recursive_types(T)]
pub struct ExJoinHandle<T>(tokio::task::JoinHandle<T>);

/// Declares tokio's join error type; it only appears through `JoinHandle`'s
/// trait impls, which Verus otherwise refuses to read past.
#[verifier::external_type_specification]
#[verifier::external_body]
pub struct ExJoinError(tokio::task::JoinError);

/// Relies on tokio's `JoinHandle::abort`: requests cancellation of the task.
/// Nothing is promised of the task's remaining effects, so no caller may
/// assume more than that the call returns.
pub assume_specification<T>[ tokio::task::JoinHandle::<T>::abort ](
    h: &tokio::task::JoinHandle<T>,
);

/// What `strip_ansi_escapes::strip` leaves of a byte string; a function of the
/// bytes alone.
pub uninterp spec fn ansi_stripped(b: Seq<u8>) -> Seq<u8>;

/// Relies on `strip_ansi_escapes::strip`: removes ANSI escape sequences and
/// returns the remaining bytes, which depend on the input bytes alone.
#[verifier::external_body]
pub(crate) fn strip_ansi(bytes: &[u8]) -> (r: Vec<u8>)
    ensures
        r@ == ansi_stripped(bytes@),
{
    strip_ansi_escapes::strip(bytes)
}

/// What `String::from_utf8_lossy` decodes a byte string to; a function of the
/// bytes alone.
pub uninterp spec fn utf8_lossy(b: Seq<u8>) -> Seq<char>;

/// Relies on `String::from_utf8_lossy`: decodes UTF-8, replacing invalid
/// sequences with the replacement character; the result depends on the bytes
/// alone.
#[verifier::external_body]
pub(crate) fn decode_utf8_lossy(bytes: &[u8]) -> (r: String)
    ensures
        r@ == utf8_lossy(bytes@),
{
    String::from_utf8_lossy(bytes).into_owned()
}

/// Relies on `String::push`: appends exactly the given character.
#[verifier::external_body]
pub(crate) fn string_push(s: &mut String, c: char)
    ensures
        final(s)@ == old(s)@.push(c),
{
    s.push(c);
}

/// Relies on `String::pop`: removes and returns the last character, or leaves
/// an empty string unchanged.
#[verifier::external_body]
pub(crate) fn string_pop(s: &mut String) -> (r: Option<char>)
    ensures
        old(s)@.len() == 0 ==> r is None && final(s)@ == old(s)@,
        old(s)@.len() > 0 ==> r == Some(old(s)@.last()) && final(s)@ == old(s)@.drop_last(),
{
    s.pop()
}

/// Relies on `String::clear`: leaves the string empty.
#[verifier::external_body]
pub(crate) fn string_clear(s: &mut String)
    ensures
        final(s)@ == Seq::<char>::empty(),
{
    s.clear();
}

} // verus!
