//! How much room a filesystem has left.

use vstd::prelude::*;

use crate::text::c_path;

verus! {

/// The reply to `statvfs(3)`: its result and the fields that count blocks and
/// give their sizes. The fields are as wide as any target makes them.
#[derive(Clone, Copy, Debug, PartialEq, Eq)]
pub struct FilesystemReply {
    pub result: i32,
    /// `f_bsize`: the size that suits a read or a write best.
    pub block_size: i128,
    /// `f_frsize`: the size of the blocks that are counted.
    pub fragment_size: i128,
    /// `f_bfree`: the blocks that root may still use.
    pub free_blocks: i128,
    /// `f_bavail`: the blocks that everybody may still use.
    pub available_blocks: i128,
}

/// A count that is a count on every target.
pub open spec fn is_u64(value: int) -> bool {
    0 <= value <= u64::MAX
}

/// How many bytes are free, where that is known: the path can be asked about,
/// the call succeeded, and the product fits.
pub open spec fn known_space(path: Seq<u8>, reply: FilesystemReply) -> Option<int> {
    if path.contains(0u8) || reply.result != 0 || !is_u64(reply.available_blocks as int) || !is_u64(
        reply.fragment_size as int,
    ) || !is_u64(reply.available_blocks * reply.fragment_size) {
        None
    } else {
        Some(reply.available_blocks * reply.fragment_size)
    }
}

/// How many bytes are still free on the filesystem that `path` lives on.
///
/// The reply is that of `statvfs(3)` on the path as [`c_path`] gives it. `None`
/// means "do not know", never "no room": a filesystem that cannot be
/// interrogated is not a full one.
#[must_use]
pub fn free_space(path: &[u8], reply: &FilesystemReply) -> (free: Option<u64>)
    ensures
        free is Some <==> known_space(path@, *reply) is Some,
        free is Some ==> free->0 == known_space(path@, *reply)->0,
        free is Some <==> !path@.contains(0u8) && reply.result == 0 && 0 <= reply.available_blocks
            <= u64::MAX && 0 <= reply.fragment_size <= u64::MAX && reply.available_blocks
            * reply.fragment_size <= u64::MAX,
        free is Some ==> free->0 == reply.available_blocks * reply.fragment_size,
{
    if c_path(path).is_none() {
        return None;
    }
    if reply.result != 0 {
        return None;
    }
    if reply.available_blocks < 0 || reply.available_blocks > 0xffff_ffff_ffff_ffff {
        return None;
    }
    if reply.fragment_size < 0 || reply.fragment_size > 0xffff_ffff_ffff_ffff {
        return None;
    }
    let blocks: u64 = reply.available_blocks as u64;
    let size: u64 = reply.fragment_size as u64;
    proof {
        assert(0 <= blocks * size) by (nonlinear_arith);
    }
    blocks.checked_mul(size)
}

/// Room is known exactly where the path can be asked about, the call succeeded
/// and the counts and their product fit; it is the product, for blocks of any
/// size.
pub proof fn law_room_is_the_product(path: Seq<u8>, reply: FilesystemReply)
    ensures
        known_space(path, reply) is Some <==> !path.contains(0u8) && reply.result == 0 && 0
            <= reply.available_blocks <= u64::MAX && 0 <= reply.fragment_size <= u64::MAX
            && reply.available_blocks * reply.fragment_size <= u64::MAX,
        known_space(path, reply) is Some ==> known_space(path, reply)->0 == reply.available_blocks
            * reply.fragment_size,
{
    if reply.available_blocks >= 0 && reply.fragment_size >= 0 {
        assert(reply.available_blocks * reply.fragment_size >= 0) by (nonlinear_arith)
            requires
                reply.available_blocks >= 0,
                reply.fragment_size >= 0,
        ;
    }
}

/// One more block adds the size of a block, and blocks twice the size hold
/// twice the room.
pub proof fn law_room_is_linear(path: Seq<u8>, reply: FilesystemReply)
    requires
        !path.contains(0u8),
        reply.result == 0,
        0 <= reply.available_blocks < i64::MAX,
        0 <= reply.fragment_size < i64::MAX,
        2 * (reply.available_blocks * reply.fragment_size) + reply.fragment_size <= u64::MAX,
    ensures
        known_space(
            path,
            FilesystemReply { available_blocks: (reply.available_blocks + 1) as i128, ..reply },
        ) == Some(known_space(path, reply)->0 + reply.fragment_size),
        known_space(
            path,
            FilesystemReply { fragment_size: (2 * reply.fragment_size) as i128, ..reply },
        ) == Some(2 * known_space(path, reply)->0),
{
    let blocks = reply.available_blocks as int;
    let size = reply.fragment_size as int;
    assert(0 <= blocks * size && (blocks + 1) * size == blocks * size + size && blocks * (2 * size)
        == 2 * (blocks * size)) by (nonlinear_arith)
        requires
            blocks >= 0,
            size >= 0,
    ;
}

/// The reserve that only root may use is not room, and the size that suits a
/// transfer is not the size of a block.
pub proof fn law_reserve_is_not_room(
    path: Seq<u8>,
    reply: FilesystemReply,
    free_blocks: i128,
    block_size: i128,
)
    ensures
        known_space(path, FilesystemReply { free_blocks, block_size, ..reply }) == known_space(
            path,
            reply,
        ),
{
}

/// A full filesystem is reported as empty of room, not as unknown.
pub proof fn law_no_room_is_an_answer(path: Seq<u8>, reply: FilesystemReply)
    requires
        !path.contains(0u8),
        reply.result == 0,
        reply.available_blocks == 0,
        is_u64(reply.fragment_size as int),
    ensures
        known_space(path, reply) == Some(0int),
{
}

} // verus!
