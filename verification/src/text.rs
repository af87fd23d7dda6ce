//! Text in the kernel's buffers.

use vstd::prelude::*;

verus! {

/// The bytes before the first NUL, or all of them where there is none.
pub open spec fn before_nul(bytes: Seq<u8>) -> Seq<u8> {
    match bytes.index_of_first(0u8) {
        Some(end) => bytes.take(end),
        None => bytes,
    }
}

/// The text that `String::from_utf8_lossy` makes of bytes: each malformed
/// stretch replaced by U+FFFD.
pub uninterp spec fn utf8_lossy(bytes: Seq<u8>) -> Seq<char>;

/// `String::from_utf8_lossy`. What replaces malformed bytes, and how much of
/// them one replacement stands for, is left to the name; bytes that are UTF-8
/// are decoded as they are.
#[verifier::external_body]
pub(crate) fn from_utf8_lossy(bytes: &[u8]) -> (text: String)
    ensures
        text@ == utf8_lossy(bytes@),
        vstd::utf8::valid_utf8(bytes@) ==> text@ == vstd::utf8::decode_utf8(bytes@),
{
    String::from_utf8_lossy(bytes).into_owned()
}

/// `std::str::from_utf8`: the text of bytes that are UTF-8, and nothing of
/// bytes that are not.
#[verifier::external_body]
pub(crate) fn from_utf8(bytes: &[u8]) -> (text: Option<String>)
    ensures
        text is Some <==> vstd::utf8::valid_utf8(bytes@),
        text is Some ==> text->0@ == vstd::utf8::decode_utf8(bytes@),
{
    match std::str::from_utf8(bytes) {
        Ok(text) => Some(text.to_owned()),
        Err(_) => None,
    }
}

/// Finds the first NUL, or the length where there is none.
pub fn nul_position(bytes: &[u8]) -> (end: usize)
    ensures
        end <= bytes@.len(),
        end < bytes@.len() ==> bytes@[end as int] == 0,
        forall|i: int| 0 <= i < end ==> bytes@[i] != 0,
        bytes@.take(end as int) == before_nul(bytes@),
        end < bytes@.len() <==> bytes@.contains(0u8),
{
    let mut end: usize = 0;
    while end < bytes.len() && bytes[end] != 0
        invariant
            end <= bytes@.len(),
            forall|i: int| 0 <= i < end ==> bytes@[i] != 0,
        decreases bytes@.len() - end,
    {
        end = end + 1;
    }
    proof {
        bytes@.index_of_first_ensures(0u8);
        assert(bytes@.take(end as int) =~= before_nul(bytes@));
    }
    end
}

/// The text of a NUL-terminated buffer: what stands before its first NUL.
pub fn nul_terminated_text(bytes: &[u8]) -> (text: String)
    ensures
        text@ == utf8_lossy(before_nul(bytes@)),
        vstd::utf8::valid_utf8(before_nul(bytes@)) ==> text@ == vstd::utf8::decode_utf8(before_nul(bytes@)),
{
    let end: usize = nul_position(bytes);
    from_utf8_lossy(vstd::slice::slice_subrange(bytes, 0, end))
}

/// The bytes of a path as the kernel takes them, closed by a NUL. A path that
/// holds one itself would be cut there, so it is refused.
pub fn c_path(path: &[u8]) -> (terminated: Option<Vec<u8>>)
    ensures
        terminated is None <==> path@.contains(0u8),
        terminated is Some ==> terminated->0@ == path@.push(0u8),
{
    if nul_position(path) < path.len() {
        return None;
    }
    let mut terminated: Vec<u8> = vstd::slice::slice_to_vec(path);
    terminated.push(0);
    Some(terminated)
}

/// What stands before the first NUL does not depend on what follows it, and
/// bytes without one stand whole.
pub proof fn law_text_ends_at_the_first_nul(text: Seq<u8>, rest: Seq<u8>)
    requires
        !text.contains(0u8),
    ensures
        before_nul(text) == text,
        before_nul(text + seq![0u8] + rest) == text,
{
    text.index_of_first_ensures(0u8);
    let bytes = text + seq![0u8] + rest;
    bytes.index_of_first_ensures(0u8);
    assert(bytes[text.len() as int] == 0);
    let end = bytes.index_of_first(0u8)->0;
    if end < text.len() {
        assert(text[end] == 0);
    }
    assert(before_nul(bytes) =~= text);
}

/// The kernel reads back from a path's bytes exactly the path.
pub proof fn law_path_is_not_cut(path: Seq<u8>)
    requires
        !path.contains(0u8),
    ensures
        before_nul(path.push(0u8)) == path,
{
    let terminated = path.push(0u8);
    terminated.index_of_first_ensures(0u8);
    assert(terminated[path.len() as int] == 0);
    let end = terminated.index_of_first(0u8)->0;
    if end < path.len() {
        assert(path[end] == 0);
    }
    assert(before_nul(terminated) =~= path);
}

} // verus!
