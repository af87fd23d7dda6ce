//! Linux ioctl request numbers, and the exchange of bytes that a request makes.

use vstd::prelude::*;

use crate::failure::{completed, Failure};
use crate::wire::{KernelRead, KernelWrite};

verus! {

pub const IOC_NRBITS: u32 = 8;
pub const IOC_TYPEBITS: u32 = 8;
pub const IOC_SIZEBITS: u32 = 14;
pub const IOC_NRSHIFT: u32 = 0;
pub const IOC_TYPESHIFT: u32 = IOC_NRSHIFT + IOC_NRBITS;
pub const IOC_SIZESHIFT: u32 = IOC_TYPESHIFT + IOC_TYPEBITS;
pub const IOC_DIRSHIFT: u32 = IOC_SIZESHIFT + IOC_SIZEBITS;
pub const IOC_WRITE: u32 = 1;
pub const IOC_READ: u32 = 2;

/// The largest argument size that the size field holds.
pub const IOC_SIZEMAX: u32 = 0x3fff;

/// The request number: the sequence number in the low byte, the kind in the
/// next, and above them the size. The direction begins where the fourteen bits
/// of a fitting size end; a larger size runs into it, bit by bit.
pub open spec fn request_number(direction: u32, kind: u8, number: u8, size: u32) -> int {
    number + 0x100 * kind + 0x1_0000 * (size as u64 | (direction as u64) << 14u64)
}

/// Above a size that fits, the direction stands by itself.
proof fn lemma_fitting_size(direction: u32, size: u32)
    ensures
        size <= IOC_SIZEMAX ==> (size as u64 | (direction as u64) << 14u64) == size + 0x4000
            * direction,
{
    let d = direction as u64;
    let s = size as u64;
    if size <= IOC_SIZEMAX {
        assert(s | d << 14u64 == s + 0x4000 * d) by (bit_vector)
            requires
                s <= 0x3fff,
                d <= 0xffff_ffff,
        ;
    }
}

/// Packs the four fields of a request number.
pub fn ioc(direction: u32, kind: u8, number: u8, size: u32) -> (request: u64)
    ensures
        request == request_number(direction, kind, number, size),
        size <= IOC_SIZEMAX ==> request == number + 0x100 * kind + 0x1_0000 * size + 0x4000_0000
            * direction,
        request == (direction as u64) << 30u32 | (kind as u64) << 8u32 | (number as u64) << 0u32 | (
        size as u64) << 16u32,
{
    proof {
        lemma_fitting_size(direction, size);
        let d = direction as u64;
        let k = kind as u64;
        let n = number as u64;
        let s = size as u64;
        assert(((d << 30u32) | (k << 8u32) | (n << 0u32) | (s << 16u32)) == n + 0x100 * k + 0x1_0000
            * (s | d << 14u64)) by (bit_vector)
            requires
                d <= 0xffff_ffff,
                k <= 0xff,
                n <= 0xff,
                s <= 0xffff_ffff,
        ;
    }
    ((direction as u64) << IOC_DIRSHIFT) | ((kind as u64) << IOC_TYPESHIFT) | ((number as u64)
        << IOC_NRSHIFT) | ((size as u64) << IOC_SIZESHIFT)
}

/// A request whose argument the kernel fills in.
#[must_use]
pub fn ior(kind: u8, number: u8, size: u32) -> (request: u64)
    ensures
        request == request_number(IOC_READ, kind, number, size),
        size <= IOC_SIZEMAX ==> request == number + 0x100 * kind + 0x1_0000 * size + 0x8000_0000,
{
    ioc(IOC_READ, kind, number, size)
}

/// A request whose argument the kernel reads.
#[must_use]
pub fn iow(kind: u8, number: u8, size: u32) -> (request: u64)
    ensures
        request == request_number(IOC_WRITE, kind, number, size),
        size <= IOC_SIZEMAX ==> request == number + 0x100 * kind + 0x1_0000 * size + 0x4000_0000,
{
    ioc(IOC_WRITE, kind, number, size)
}

/// A request whose argument the kernel reads and fills in.
#[must_use]
pub fn iowr(kind: u8, number: u8, size: u32) -> (request: u64)
    ensures
        request == request_number(3, kind, number, size),
        size <= IOC_SIZEMAX ==> request == number + 0x100 * kind + 0x1_0000 * size + 0xc000_0000,
{
    proof {
        assert(2u32 | 1u32 == 3u32) by (bit_vector);
    }
    ioc(IOC_READ | IOC_WRITE, kind, number, size)
}

/// A field fills its own place of a request number and no other: one more in
/// the sequence number, the kind or the size raises the number by one in that
/// place, the direction stands above all of them, and a request of nothing is
/// zero.
pub proof fn law_each_field_has_its_place(direction: u32, kind: u8, number: u8, size: u32)
    requires
        size < IOC_SIZEMAX,
    ensures
        request_number(0, 0, 0, 0) == 0,
        number < 0xff ==> request_number(direction, kind, (number + 1) as u8, size)
            == request_number(direction, kind, number, size) + 1,
        kind < 0xff ==> request_number(direction, (kind + 1) as u8, number, size)
            == request_number(direction, kind, number, size) + 0x100,
        request_number(direction, kind, number, (size + 1) as u32) == request_number(
            direction,
            kind,
            number,
            size,
        ) + 0x1_0000,
        direction < 0xffff_ffff ==> request_number((direction + 1) as u32, kind, number, size)
            == request_number(direction, kind, number, size) + 0x4000_0000,
{
    lemma_fitting_size(0, 0);
    lemma_fitting_size(direction, size);
    lemma_fitting_size(direction, (size + 1) as u32);
    if direction < 0xffff_ffff {
        lemma_fitting_size((direction + 1) as u32, size);
    }
}

/// The argument size that a request number announces to the kernel.
pub open spec fn announced_size(request: u64) -> int {
    request as int / 0x1_0000 % 0x4000
}

/// The direction that a request number announces.
pub open spec fn announced_direction(request: u64) -> int {
    request as int / 0x4000_0000
}

/// A number announces the size and the direction that its upper half holds,
/// whatever its lower half is.
pub proof fn law_announcements_stand_above_the_command(command: u16, size: u16, direction: u32)
    requires
        size < 0x4000,
        direction < 4,
    ensures
        announced_size((command + 0x1_0000 * size + 0x4000_0000 * direction) as u64) == size,
        announced_direction((command + 0x1_0000 * size + 0x4000_0000 * direction) as u64)
            == direction,
{
}

/// Every field of a request can be read back from its number, and the number
/// fits the 32-bit word that the device's kernel takes.
pub proof fn law_fields_read_back(direction: u32, kind: u8, number: u8, size: u32)
    requires
        direction < 4,
        size <= IOC_SIZEMAX,
    ensures
        0 <= request_number(direction, kind, number, size) <= 0xffff_ffff,
        request_number(direction, kind, number, size) % 0x100 == number,
        request_number(direction, kind, number, size) / 0x100 % 0x100 == kind,
        announced_size(request_number(direction, kind, number, size) as u64) == size,
        announced_direction(request_number(direction, kind, number, size) as u64) == direction,
{
    lemma_fitting_size(direction, size);
}

/// Two requests that differ in a field have different numbers.
pub proof fn law_requests_are_distinct(
    first: (u32, u8, u8, u32),
    second: (u32, u8, u8, u32),
)
    requires
        first.0 < 4 && first.3 <= IOC_SIZEMAX,
        second.0 < 4 && second.3 <= IOC_SIZEMAX,
        request_number(first.0, first.1, first.2, first.3) == request_number(
            second.0,
            second.1,
            second.2,
            second.3,
        ),
    ensures
        first == second,
{
    law_fields_read_back(first.0, first.1, first.2, first.3);
    law_fields_read_back(second.0, second.1, second.2, second.3);
}

/// A request together with the bytes its argument points to.
#[derive(Debug)]
pub struct Query {
    pub request: u64,
    pub buffer: Vec<u8>,
}

/// What a request came to: the call's result, the error number it left, and the
/// bytes its argument points to afterwards.
#[derive(Debug)]
pub struct Reply {
    pub result: i32,
    pub errno: i32,
    pub buffer: Vec<u8>,
}

/// A request whose argument is the integer itself rather than a pointer to it.
#[derive(Clone, Copy, Debug, PartialEq, Eq, Structural)]
pub struct ValueRequest {
    pub request: u64,
    pub argument: i32,
}

/// That many zero bytes.
pub open spec fn zeros(length: nat) -> Seq<u8> {
    Seq::new(length, |i: int| 0u8)
}

/// Zero bytes are as many as were asked for, and each of them is zero.
pub proof fn law_zeros_are_zero(length: nat)
    ensures
        zeros(length).len() == length,
        forall|i: int| 0 <= i < length ==> #[trigger] zeros(length)[i] == 0,
{
}

/// A query for a buffer of bytes, zeroed before the kernel fills it.
pub fn byte_query(request: u64, size: usize) -> (query: Query)
    ensures
        query.request == request,
        query.buffer@ == zeros(size as nat),
        query.buffer@.len() == size,
        forall|i: int| 0 <= i < size ==> #[trigger] query.buffer@[i] == 0,
{
    let buffer: Vec<u8> = vec![0u8; size];
    assert(buffer@ =~= zeros(size as nat));
    Query { request, buffer }
}

/// A query for one structure, zeroed before the kernel fills it.
pub fn structure_query<T: KernelRead>(request: u64) -> (query: Query)
    ensures
        query.request == request,
        query.buffer@ == zeros(T::layout_size()),
        query.buffer@.len() == T::layout_size(),
        forall|i: int| 0 <= i < T::layout_size() ==> #[trigger] query.buffer@[i] == 0,
{
    byte_query(request, T::size())
}

/// Reads the reply to a query for one structure.
pub fn query_ioctl<T: KernelRead>(reply: &Reply) -> (value: Result<T, Failure>)
    requires
        reply.buffer@.len() == T::layout_size(),
    ensures
        reply.result < 0 ==> value == Err::<T, Failure>(Failure::Kernel(reply.errno)),
        reply.result >= 0 ==> value == Ok::<T, Failure>(T::decoded(reply.buffer@)),
{
    match completed(reply.result, reply.errno) {
        Ok(()) => Ok(T::decode(reply.buffer.as_slice())),
        Err(failure) => Err(failure),
    }
}

/// Reads the reply to a query for a buffer of bytes.
pub fn query_ioctl_bytes(reply: Reply) -> (bytes: Result<Vec<u8>, Failure>)
    ensures
        reply.result < 0 ==> bytes == Err::<Vec<u8>, Failure>(Failure::Kernel(reply.errno)),
        reply.result >= 0 ==> bytes == Ok::<Vec<u8>, Failure>(reply.buffer),
{
    match completed(reply.result, reply.errno) {
        Ok(()) => Ok(reply.buffer),
        Err(failure) => Err(failure),
    }
}

/// A request that hands a structure to the kernel.
pub fn mutation<T: KernelWrite>(request: u64, value: &T) -> (query: Query)
    ensures
        query.request == request,
        query.buffer@ == value.encoded(),
{
    Query { request, buffer: value.encode() }
}

/// Reads the reply to a request that handed a structure to the kernel. What the
/// kernel left in the structure is taken over whether or not it succeeded.
pub fn mutating_ioctl<T: KernelWrite>(value: &mut T, reply: &Reply) -> (done: Result<(), Failure>)
    requires
        reply.buffer@.len() == T::layout_size(),
    ensures
        *final(value) == T::decoded(reply.buffer@),
        reply.buffer@ == old(value).encoded() ==> *final(value) == *old(value),
        done == crate::failure::outcome(reply.result, reply.errno),
        done == (if reply.result < 0 {
            Err::<(), Failure>(Failure::Kernel(reply.errno))
        } else {
            Ok::<(), Failure>(())
        }),
{
    proof {
        old(value).law_encode_decode();
    }
    *value = T::decode(reply.buffer.as_slice());
    completed(reply.result, reply.errno)
}

} // verus!
