//! Input devices: axes, keys, names and exclusive ownership.

use vstd::prelude::*;

use crate::failure::Failure;
use crate::ioctl::{
    byte_query, ior, iow, query_ioctl, query_ioctl_bytes, structure_query, Query, Reply,
    ValueRequest,
};
use crate::text::nul_terminated_text;
use crate::wire::{read_i32, KernelRead};

verus! {

pub const ABS_MT_SLOT: u16 = 0x2f;
pub const ABS_MT_TRACKING_ID: u16 = 0x39;
pub const ABS_MT_POSITION_X: u16 = 0x35;
pub const ABS_MT_POSITION_Y: u16 = 0x36;
pub const EV_SYN: u16 = 0x00;
pub const EV_KEY: u16 = 0x01;
pub const EV_ABS: u16 = 0x03;
pub const SYN_REPORT: u16 = 0;
pub const BTN_TOUCH: u16 = 330;

/// The sleep-cover magnet, as `gpio-keys` reports it: a press means the magnet
/// arrived, a release means it left.
pub const KEY_COVER: u16 = 35;

/// The kind of evdev requests, an ASCII `E`.
pub const EVDEV_KIND: u8 = 0x45;

/// The last axis whose query has a request number.
pub const LAST_AXIS: u16 = 0xbf;

/// How many bytes of key bits are asked for.
pub const KEY_BITMAP_SIZE: usize = 96;

/// How many bytes of a device name are asked for.
pub const NAME_SIZE: usize = 256;

pub const EVIOCGABS_MT_POSITION_X: u64 = 0x8018_4575;
pub const EVIOCGABS_MT_POSITION_Y: u64 = 0x8018_4576;
pub const EVIOCGNAME_256: u64 = 0x8100_4506;

/// Takes its argument by value rather than by pointer.
pub const EVIOCGRAB: u64 = 0x4004_4590;

/// The numbers by which the kernel knows events, axes and keys.
pub proof fn law_event_codes_are_the_kernels()
    ensures
        EV_SYN == 0 && EV_KEY == 1 && EV_ABS == 3 && SYN_REPORT == 0,
        ABS_MT_SLOT == 47 && ABS_MT_POSITION_X == 53 && ABS_MT_POSITION_Y == 54
            && ABS_MT_TRACKING_ID == 57,
        BTN_TOUCH == 330 && KEY_COVER == 35,
{
}

/// One absolute axis: where it is and how it behaves. Takes 24 bytes.
#[derive(Clone, Copy, Debug, Default, Eq, PartialEq)]
pub struct InputAbsInfo {
    pub value: i32,
    pub minimum: i32,
    pub maximum: i32,
    pub fuzz: i32,
    pub flat: i32,
    pub resolution: i32,
}

impl KernelRead for InputAbsInfo {
    open spec fn layout_size() -> nat {
        24
    }

    open spec fn decoded(bytes: Seq<u8>) -> Self {
        InputAbsInfo {
            value: crate::wire::i32_at(bytes, 0),
            minimum: crate::wire::i32_at(bytes, 4),
            maximum: crate::wire::i32_at(bytes, 8),
            fuzz: crate::wire::i32_at(bytes, 12),
            flat: crate::wire::i32_at(bytes, 16),
            resolution: crate::wire::i32_at(bytes, 20),
        }
    }

    fn size() -> (size: usize) {
        24
    }

    fn decode(bytes: &[u8]) -> (value: Self) {
        InputAbsInfo {
            value: read_i32(bytes, 0),
            minimum: read_i32(bytes, 4),
            maximum: read_i32(bytes, 8),
            fuzz: read_i32(bytes, 12),
            flat: read_i32(bytes, 16),
            resolution: read_i32(bytes, 20),
        }
    }
}

/// Every field of an axis is read at its offset in the kernel's declaration.
pub proof fn law_axis_layout(bytes: Seq<u8>)
    requires
        bytes.len() == 24,
    ensures
        InputAbsInfo::layout_size() == 24,
        InputAbsInfo::decoded(bytes).value == crate::wire::signed(crate::wire::u32_at(bytes, 0)),
        InputAbsInfo::decoded(bytes).minimum == crate::wire::signed(crate::wire::u32_at(bytes, 4)),
        InputAbsInfo::decoded(bytes).maximum == crate::wire::signed(crate::wire::u32_at(bytes, 8)),
        InputAbsInfo::decoded(bytes).fuzz == crate::wire::signed(crate::wire::u32_at(bytes, 12)),
        InputAbsInfo::decoded(bytes).flat == crate::wire::signed(crate::wire::u32_at(bytes, 16)),
        InputAbsInfo::decoded(bytes).resolution == crate::wire::signed(crate::wire::u32_at(bytes, 20)),
{
}

/// Builds an `EVIOCGABS` query for an axis. An axis past [`LAST_AXIS`] has no
/// request number.
#[must_use]
pub fn eviocgabs(axis: u16) -> (request: u64)
    requires
        axis <= LAST_AXIS,
    ensures
        request == crate::ioctl::request_number(
            crate::ioctl::IOC_READ,
            EVDEV_KIND,
            (0x40 + axis) as u8,
            24,
        ),
        request == 0x8018_4540 + axis,
        crate::ioctl::announced_size(request) == 24,
        axis == ABS_MT_POSITION_X ==> request == EVIOCGABS_MT_POSITION_X,
        axis == ABS_MT_POSITION_Y ==> request == EVIOCGABS_MT_POSITION_Y,
{
    let number: u16 = 0x40 + axis;
    ior(EVDEV_KIND, number as u8, 24)
}

/// Builds an `EVIOCGKEY` query for a key bitmap of that many bytes. A bitmap
/// larger than the size field holds has no request number.
#[must_use]
pub fn eviocgkey(bytes: u32) -> (request: u64)
    requires
        bytes <= crate::ioctl::IOC_SIZEMAX,
    ensures
        request == crate::ioctl::request_number(crate::ioctl::IOC_READ, EVDEV_KIND, 0x18, bytes),
        request == 0x8000_4518 + 0x1_0000 * bytes,
        crate::ioctl::announced_size(request) == bytes,
{
    ior(EVDEV_KIND, 0x18, bytes)
}

/// Whether the bit of a key is set in a bitmap of one bit per key code, low
/// bits first. A code past the bitmap has no bit.
pub open spec fn key_bit(bitmap: Seq<u8>, code: u16) -> bool {
    &&& (code / 8) < bitmap.len()
    &&& (bitmap[code as int / 8] >> (code % 8)) % 2 == 1
}

/// The bit of a key is the one that a mask of that bit finds in its byte, for
/// every code that the bitmap reaches.
pub proof fn law_key_has_its_mask(bitmap: Seq<u8>, code: u16)
    ensures
        code as int / 8 >= bitmap.len() ==> !key_bit(bitmap, code),
        code as int / 8 < bitmap.len() ==> (key_bit(bitmap, code) <==> bitmap[code as int / 8] & (
        1u8 << (code % 8)) != 0),
{
    if code as int / 8 < bitmap.len() {
        let byte = bitmap[code as int / 8];
        let bit: u16 = code % 8;
        assert((byte & 1u8 << bit != 0) == ((byte >> bit) % 2 == 1)) by (bit_vector)
            requires
                bit < 8,
        ;
    }
}

/// A bitmap of zeros holds no key down, and holding one more key down is
/// setting its bit: that key is then held, and of every other key the bitmap
/// says what it said.
pub proof fn law_one_bit_is_one_key(bitmap: Seq<u8>, code: u16, other: u16)
    requires
        code as int / 8 < bitmap.len(),
    ensures
        !key_bit(crate::ioctl::zeros(bitmap.len()), other),
        key_bit(
            bitmap.update(
                code as int / 8,
                bitmap[code as int / 8] | (1u8 << (code % 8)),
            ),
            code,
        ),
        other != code ==> key_bit(
            bitmap.update(
                code as int / 8,
                bitmap[code as int / 8] | (1u8 << (code % 8)),
            ),
            other,
        ) == key_bit(bitmap, other),
{
    let byte = bitmap[code as int / 8];
    let bit: u16 = code % 8;
    let asked: u16 = other % 8;
    assert(((byte | 1u8 << bit) >> bit) % 2 == 1) by (bit_vector)
        requires
            bit < 8,
    ;
    assert(0u8 >> asked == 0) by (bit_vector)
        requires
            asked < 8,
    ;
    if asked != bit {
        assert(((byte | 1u8 << bit) >> asked) % 2 == (byte >> asked) % 2) by (bit_vector)
            requires
                bit < 8,
                asked < 8,
                asked != bit,
        ;
    }
}

/// Reads the bit of a key.
pub fn key_is_set(bitmap: &[u8], code: u16) -> (set: bool)
    ensures
        set == key_bit(bitmap@, code),
        set <==> (code as int / 8) < bitmap@.len() && bitmap@[code as int / 8] & (1u8 << (code
            % 8)) != 0,
{
    let index: usize = code as usize / 8;
    let bit: u16 = code % 8;
    if index < bitmap.len() {
        let byte: u8 = bitmap[index];
        proof {
            assert((byte & 1u8 << bit != 0) == ((byte >> bit) % 2 == 1)) by (bit_vector)
                requires
                    bit < 8,
            ;
        }
        byte & (1u8 << bit) != 0
    } else {
        false
    }
}

/// The query for which keys are held down.
pub fn key_is_pressed_query() -> (query: Query)
    ensures
        query.request == crate::ioctl::request_number(crate::ioctl::IOC_READ, EVDEV_KIND, 0x18, 96),
        query.request == 0x8060_4518,
        query.buffer@ == crate::ioctl::zeros(96),
        query.buffer@.len() == 96,
        query.buffer@.len() == crate::ioctl::announced_size(query.request),
{
    byte_query(eviocgkey(96), KEY_BITMAP_SIZE)
}

/// Reads from the kernel's reply whether one key is held down.
pub fn key_is_pressed(reply: Reply, code: u16) -> (pressed: Result<bool, Failure>)
    ensures
        reply.result < 0 ==> pressed == Err::<bool, Failure>(Failure::Kernel(reply.errno)),
        reply.result >= 0 ==> pressed == Ok::<bool, Failure>(key_bit(reply.buffer@, code)),
        reply.result >= 0 ==> (pressed->Ok_0 <==> (code as int / 8) < reply.buffer@.len()
            && reply.buffer@[code as int / 8] & (1u8 << (code % 8)) != 0),
{
    match query_ioctl_bytes(reply) {
        Ok(bitmap) => Ok(key_is_set(bitmap.as_slice(), code)),
        Err(failure) => Err(failure),
    }
}

/// The query for one absolute axis.
pub fn absolute_axis_query(axis: u16) -> (query: Query)
    requires
        axis <= LAST_AXIS,
    ensures
        query.request == 0x8018_4540 + axis,
        query.buffer@ == crate::ioctl::zeros(24),
        query.buffer@.len() == 24,
        query.buffer@.len() == crate::ioctl::announced_size(query.request),
{
    structure_query::<InputAbsInfo>(eviocgabs(axis))
}

/// Reads one absolute axis from the kernel's reply.
pub fn absolute_axis(reply: &Reply) -> (info: Result<InputAbsInfo, Failure>)
    requires
        reply.buffer@.len() == 24,
    ensures
        reply.result < 0 ==> info == Err::<InputAbsInfo, Failure>(Failure::Kernel(reply.errno)),
        reply.result >= 0 ==> info == Ok::<InputAbsInfo, Failure>(
            InputAbsInfo::decoded(reply.buffer@),
        ),
{
    query_ioctl(reply)
}

/// The query for a device's name.
pub fn device_name_query() -> (query: Query)
    ensures
        query.request == EVIOCGNAME_256,
        query.request == crate::ioctl::request_number(
            crate::ioctl::IOC_READ,
            EVDEV_KIND,
            0x06,
            256,
        ),
        query.request == 0x8100_4506,
        query.buffer@ == crate::ioctl::zeros(256),
        query.buffer@.len() == 256,
        query.buffer@.len() == crate::ioctl::announced_size(query.request),
{
    byte_query(ior(EVDEV_KIND, 0x06, 256), NAME_SIZE)
}

/// Reads a device's name from the kernel's reply: the text before its first
/// NUL.
pub fn device_name(reply: Reply) -> (name: Result<String, Failure>)
    ensures
        reply.result < 0 ==> name == Err::<String, Failure>(Failure::Kernel(reply.errno)),
        reply.result >= 0 ==> name is Ok && name->Ok_0@ == crate::text::utf8_lossy(
            crate::text::before_nul(reply.buffer@),
        ),
        reply.result >= 0 && vstd::utf8::valid_utf8(crate::text::before_nul(reply.buffer@))
            ==> name->Ok_0@ == vstd::utf8::decode_utf8(crate::text::before_nul(reply.buffer@)),
{
    match query_ioctl_bytes(reply) {
        Ok(bytes) => Ok(nul_terminated_text(bytes.as_slice())),
        Err(failure) => Err(failure),
    }
}

/// The request that takes or releases exclusive ownership of an input device.
pub fn set_exclusive(exclusive: bool) -> (call: ValueRequest)
    ensures
        call.request == EVIOCGRAB,
        call.request == 0x4004_4590,
        call.request == crate::ioctl::request_number(crate::ioctl::IOC_WRITE, EVDEV_KIND, 0x90, 4),
        exclusive ==> call.argument == 1,
        !exclusive ==> call.argument == 0,
{
    ValueRequest {
        request: iow(EVDEV_KIND, 0x90, 4),
        argument: if exclusive {
            1
        } else {
            0
        },
    }
}

} // verus!
