//! The display controller's update requests.

use vstd::prelude::*;

use crate::failure::Failure;
use crate::ioctl::{iow, iowr, mutating_ioctl, mutation, Query, Reply};
use crate::wire::{push_i32, push_u32, read_i32, read_u32, KernelRead, KernelWrite};

verus! {

/// The kind of the driver's requests, an ASCII `F`.
pub const HWTCON_KIND: u8 = 0x46;

pub const UPDATE_MODE_PARTIAL: u32 = 0;
pub const UPDATE_MODE_FULL: u32 = 1;
pub const WAVEFORM_INIT: u32 = 0;
pub const WAVEFORM_DU: u32 = 1;
pub const WAVEFORM_GC16: u32 = 2;
pub const WAVEFORM_GL16: u32 = 3;
pub const WAVEFORM_GLR16: u32 = 4;
pub const WAVEFORM_A2: u32 = 6;
pub const WAVEFORM_AUTO: u32 = 257;

/// The numbers by which the driver knows modes and waveforms.
pub proof fn law_modes_are_the_drivers()
    ensures
        UPDATE_MODE_PARTIAL == 0 && UPDATE_MODE_FULL == 1,
        WAVEFORM_INIT == 0 && WAVEFORM_DU == 1 && WAVEFORM_GC16 == 2 && WAVEFORM_GL16 == 3
            && WAVEFORM_GLR16 == 4 && WAVEFORM_A2 == 6 && WAVEFORM_AUTO == 257,
{
}

/// A rectangle of the panel. Takes 16 bytes.
#[derive(Clone, Copy, Debug, Default, Eq, PartialEq)]
pub struct HwtconRect {
    pub top: u32,
    pub left: u32,
    pub width: u32,
    pub height: u32,
}

/// Which update to wait for, and what its collision test found. Takes 8 bytes.
#[derive(Clone, Copy, Debug, Default, Eq, PartialEq)]
pub struct HwtconUpdateMarkerData {
    pub update_marker: u32,
    pub collision_test: u32,
}

/// One update of the panel. Takes 36 bytes.
#[derive(Clone, Copy, Debug, Default, Eq, PartialEq)]
pub struct HwtconUpdateData {
    pub update_region: HwtconRect,
    pub waveform_mode: u32,
    pub update_mode: u32,
    pub update_marker: u32,
    pub flags: u32,
    pub dither_mode: i32,
}

impl KernelRead for HwtconRect {
    open spec fn layout_size() -> nat {
        16
    }

    open spec fn decoded(bytes: Seq<u8>) -> Self {
        HwtconRect {
            top: crate::wire::u32_at(bytes, 0),
            left: crate::wire::u32_at(bytes, 4),
            width: crate::wire::u32_at(bytes, 8),
            height: crate::wire::u32_at(bytes, 12),
        }
    }

    fn size() -> (size: usize) {
        16
    }

    fn decode(bytes: &[u8]) -> (value: Self) {
        HwtconRect {
            top: read_u32(bytes, 0),
            left: read_u32(bytes, 4),
            width: read_u32(bytes, 8),
            height: read_u32(bytes, 12),
        }
    }
}

impl KernelWrite for HwtconRect {
    open spec fn encoded(self) -> Seq<u8> {
        crate::wire::u32_bytes(self.top) + crate::wire::u32_bytes(self.left)
            + crate::wire::u32_bytes(self.width) + crate::wire::u32_bytes(self.height)
    }

    fn encode(&self) -> (bytes: Vec<u8>) {
        let mut bytes: Vec<u8> = Vec::new();
        push_u32(&mut bytes, self.top);
        push_u32(&mut bytes, self.left);
        push_u32(&mut bytes, self.width);
        push_u32(&mut bytes, self.height);
        assert(bytes@ =~= self.encoded());
        bytes
    }

    proof fn law_encode_decode(self) {
        let bytes = self.encoded();
        assert(bytes.subrange(0, 4) =~= crate::wire::u32_bytes(self.top));
        assert(bytes.subrange(4, 8) =~= crate::wire::u32_bytes(self.left));
        assert(bytes.subrange(8, 12) =~= crate::wire::u32_bytes(self.width));
        assert(bytes.subrange(12, 16) =~= crate::wire::u32_bytes(self.height));
        crate::wire::law_u32_round_trip(bytes, 0, self.top);
        crate::wire::law_u32_round_trip(bytes, 4, self.left);
        crate::wire::law_u32_round_trip(bytes, 8, self.width);
        crate::wire::law_u32_round_trip(bytes, 12, self.height);
    }

    proof fn law_decode_encode(bytes: Seq<u8>) {
        crate::wire::law_u32_bytes_round_trip(bytes, 0);
        crate::wire::law_u32_bytes_round_trip(bytes, 4);
        crate::wire::law_u32_bytes_round_trip(bytes, 8);
        crate::wire::law_u32_bytes_round_trip(bytes, 12);
        assert(Self::decoded(bytes).encoded() =~= bytes);
    }
}

impl KernelRead for HwtconUpdateMarkerData {
    open spec fn layout_size() -> nat {
        8
    }

    open spec fn decoded(bytes: Seq<u8>) -> Self {
        HwtconUpdateMarkerData {
            update_marker: crate::wire::u32_at(bytes, 0),
            collision_test: crate::wire::u32_at(bytes, 4),
        }
    }

    fn size() -> (size: usize) {
        8
    }

    fn decode(bytes: &[u8]) -> (value: Self) {
        HwtconUpdateMarkerData {
            update_marker: read_u32(bytes, 0),
            collision_test: read_u32(bytes, 4),
        }
    }
}

impl KernelWrite for HwtconUpdateMarkerData {
    open spec fn encoded(self) -> Seq<u8> {
        crate::wire::u32_bytes(self.update_marker) + crate::wire::u32_bytes(self.collision_test)
    }

    fn encode(&self) -> (bytes: Vec<u8>) {
        let mut bytes: Vec<u8> = Vec::new();
        push_u32(&mut bytes, self.update_marker);
        push_u32(&mut bytes, self.collision_test);
        assert(bytes@ =~= self.encoded());
        bytes
    }

    proof fn law_encode_decode(self) {
        let bytes = self.encoded();
        assert(bytes.subrange(0, 4) =~= crate::wire::u32_bytes(self.update_marker));
        assert(bytes.subrange(4, 8) =~= crate::wire::u32_bytes(self.collision_test));
        crate::wire::law_u32_round_trip(bytes, 0, self.update_marker);
        crate::wire::law_u32_round_trip(bytes, 4, self.collision_test);
    }

    proof fn law_decode_encode(bytes: Seq<u8>) {
        crate::wire::law_u32_bytes_round_trip(bytes, 0);
        crate::wire::law_u32_bytes_round_trip(bytes, 4);
        assert(Self::decoded(bytes).encoded() =~= bytes);
    }
}

impl KernelRead for HwtconUpdateData {
    open spec fn layout_size() -> nat {
        36
    }

    open spec fn decoded(bytes: Seq<u8>) -> Self {
        HwtconUpdateData {
            update_region: HwtconRect::decoded(bytes.subrange(0, 16)),
            waveform_mode: crate::wire::u32_at(bytes, 16),
            update_mode: crate::wire::u32_at(bytes, 20),
            update_marker: crate::wire::u32_at(bytes, 24),
            flags: crate::wire::u32_at(bytes, 28),
            dither_mode: crate::wire::i32_at(bytes, 32),
        }
    }

    fn size() -> (size: usize) {
        36
    }

    fn decode(bytes: &[u8]) -> (value: Self) {
        HwtconUpdateData {
            update_region: HwtconRect::decode(vstd::slice::slice_subrange(bytes, 0, 16)),
            waveform_mode: read_u32(bytes, 16),
            update_mode: read_u32(bytes, 20),
            update_marker: read_u32(bytes, 24),
            flags: read_u32(bytes, 28),
            dither_mode: read_i32(bytes, 32),
        }
    }
}

impl KernelWrite for HwtconUpdateData {
    open spec fn encoded(self) -> Seq<u8> {
        self.update_region.encoded() + crate::wire::u32_bytes(self.waveform_mode)
            + crate::wire::u32_bytes(self.update_mode) + crate::wire::u32_bytes(self.update_marker)
            + crate::wire::u32_bytes(self.flags) + crate::wire::u32_bytes(
            crate::wire::unsigned(self.dither_mode),
        )
    }

    fn encode(&self) -> (bytes: Vec<u8>) {
        let mut bytes: Vec<u8> = self.update_region.encode();
        push_u32(&mut bytes, self.waveform_mode);
        push_u32(&mut bytes, self.update_mode);
        push_u32(&mut bytes, self.update_marker);
        push_u32(&mut bytes, self.flags);
        push_i32(&mut bytes, self.dither_mode);
        bytes
    }

    proof fn law_encode_decode(self) {
        let bytes = self.encoded();
        let dither = crate::wire::unsigned(self.dither_mode);
        self.update_region.law_encode_decode();
        assert(bytes.subrange(0, 16) =~= self.update_region.encoded());
        assert(bytes.subrange(16, 20) =~= crate::wire::u32_bytes(self.waveform_mode));
        assert(bytes.subrange(20, 24) =~= crate::wire::u32_bytes(self.update_mode));
        assert(bytes.subrange(24, 28) =~= crate::wire::u32_bytes(self.update_marker));
        assert(bytes.subrange(28, 32) =~= crate::wire::u32_bytes(self.flags));
        assert(bytes.subrange(32, 36) =~= crate::wire::u32_bytes(dither));
        crate::wire::law_u32_round_trip(bytes, 16, self.waveform_mode);
        crate::wire::law_u32_round_trip(bytes, 20, self.update_mode);
        crate::wire::law_u32_round_trip(bytes, 24, self.update_marker);
        crate::wire::law_u32_round_trip(bytes, 28, self.flags);
        crate::wire::law_u32_round_trip(bytes, 32, dither);
        crate::wire::law_signed_round_trip(dither, self.dither_mode);
    }

    proof fn law_decode_encode(bytes: Seq<u8>) {
        let value = Self::decoded(bytes);
        let region = bytes.subrange(0, 16);
        HwtconRect::law_decode_encode(region);
        crate::wire::law_u32_bytes_round_trip(bytes, 16);
        crate::wire::law_u32_bytes_round_trip(bytes, 20);
        crate::wire::law_u32_bytes_round_trip(bytes, 24);
        crate::wire::law_u32_bytes_round_trip(bytes, 28);
        crate::wire::law_u32_bytes_round_trip(bytes, 32);
        crate::wire::law_signed_round_trip(crate::wire::u32_at(bytes, 32), value.dither_mode);
        assert(value.encoded() =~= region + bytes.subrange(16, 20) + bytes.subrange(20, 24)
            + bytes.subrange(24, 28) + bytes.subrange(28, 32) + bytes.subrange(32, 36));
        assert(value.encoded() =~= bytes);
    }
}

/// Every field of a rectangle stands at its offset in the driver's declaration:
/// the bytes of one field are the bytes that are read for it, and no other
/// field's.
pub proof fn law_rect_layout(rect: HwtconRect, bytes: Seq<u8>)
    requires
        bytes.len() == 16,
    ensures
        rect.encoded().len() == 16,
        rect.encoded().subrange(0, 4) == crate::wire::u32_bytes(rect.top),
        HwtconRect::decoded(bytes).top == crate::wire::u32_at(bytes, 0),
        rect.encoded().subrange(4, 8) == crate::wire::u32_bytes(rect.left),
        HwtconRect::decoded(bytes).left == crate::wire::u32_at(bytes, 4),
        rect.encoded().subrange(8, 12) == crate::wire::u32_bytes(rect.width),
        HwtconRect::decoded(bytes).width == crate::wire::u32_at(bytes, 8),
        rect.encoded().subrange(12, 16) == crate::wire::u32_bytes(rect.height),
        HwtconRect::decoded(bytes).height == crate::wire::u32_at(bytes, 12),
{
    rect.law_encode_decode();
    assert(rect.encoded().subrange(0, 4) =~= crate::wire::u32_bytes(rect.top));
    assert(rect.encoded().subrange(4, 8) =~= crate::wire::u32_bytes(rect.left));
    assert(rect.encoded().subrange(8, 12) =~= crate::wire::u32_bytes(rect.width));
    assert(rect.encoded().subrange(12, 16) =~= crate::wire::u32_bytes(rect.height));
}

/// The same of a marker.
pub proof fn law_marker_layout(marker: HwtconUpdateMarkerData, bytes: Seq<u8>)
    requires
        bytes.len() == 8,
    ensures
        marker.encoded().len() == 8,
        marker.encoded().subrange(0, 4) == crate::wire::u32_bytes(marker.update_marker),
        HwtconUpdateMarkerData::decoded(bytes).update_marker == crate::wire::u32_at(bytes, 0),
        marker.encoded().subrange(4, 8) == crate::wire::u32_bytes(marker.collision_test),
        HwtconUpdateMarkerData::decoded(bytes).collision_test == crate::wire::u32_at(bytes, 4),
{
    marker.law_encode_decode();
    assert(marker.encoded().subrange(0, 4) =~= crate::wire::u32_bytes(marker.update_marker));
    assert(marker.encoded().subrange(4, 8) =~= crate::wire::u32_bytes(marker.collision_test));
}

/// The same of an update.
pub proof fn law_update_layout(update: HwtconUpdateData, bytes: Seq<u8>)
    requires
        bytes.len() == 36,
    ensures
        update.encoded().len() == 36,
        update.encoded().subrange(0, 4) == crate::wire::u32_bytes(update.update_region.top),
        HwtconUpdateData::decoded(bytes).update_region.top == crate::wire::u32_at(bytes, 0),
        update.encoded().subrange(4, 8) == crate::wire::u32_bytes(update.update_region.left),
        HwtconUpdateData::decoded(bytes).update_region.left == crate::wire::u32_at(bytes, 4),
        update.encoded().subrange(8, 12) == crate::wire::u32_bytes(update.update_region.width),
        HwtconUpdateData::decoded(bytes).update_region.width == crate::wire::u32_at(bytes, 8),
        update.encoded().subrange(12, 16) == crate::wire::u32_bytes(update.update_region.height),
        HwtconUpdateData::decoded(bytes).update_region.height == crate::wire::u32_at(bytes, 12),
        update.encoded().subrange(16, 20) == crate::wire::u32_bytes(update.waveform_mode),
        HwtconUpdateData::decoded(bytes).waveform_mode == crate::wire::u32_at(bytes, 16),
        update.encoded().subrange(20, 24) == crate::wire::u32_bytes(update.update_mode),
        HwtconUpdateData::decoded(bytes).update_mode == crate::wire::u32_at(bytes, 20),
        update.encoded().subrange(24, 28) == crate::wire::u32_bytes(update.update_marker),
        HwtconUpdateData::decoded(bytes).update_marker == crate::wire::u32_at(bytes, 24),
        update.encoded().subrange(28, 32) == crate::wire::u32_bytes(update.flags),
        HwtconUpdateData::decoded(bytes).flags == crate::wire::u32_at(bytes, 28),
        update.encoded().subrange(32, 36) == crate::wire::u32_bytes(
            crate::wire::unsigned(update.dither_mode),
        ),
        HwtconUpdateData::decoded(bytes).dither_mode == crate::wire::signed(
            crate::wire::u32_at(bytes, 32),
        ),
{
    update.law_encode_decode();
    update.update_region.law_encode_decode();
    assert(update.encoded().subrange(0, 4) =~= crate::wire::u32_bytes(update.update_region.top));
    assert(update.encoded().subrange(4, 8) =~= crate::wire::u32_bytes(update.update_region.left));
    assert(update.encoded().subrange(8, 12) =~= crate::wire::u32_bytes(update.update_region.width));
    assert(update.encoded().subrange(12, 16) =~= crate::wire::u32_bytes(update.update_region.height));
    assert(update.encoded().subrange(16, 20) =~= crate::wire::u32_bytes(update.waveform_mode));
    assert(update.encoded().subrange(20, 24) =~= crate::wire::u32_bytes(update.update_mode));
    assert(update.encoded().subrange(24, 28) =~= crate::wire::u32_bytes(update.update_marker));
    assert(update.encoded().subrange(28, 32) =~= crate::wire::u32_bytes(update.flags));
    assert(update.encoded().subrange(32, 36) =~= crate::wire::u32_bytes(
        crate::wire::unsigned(update.dither_mode),
    ));
}

/// The request that submits an update.
pub const HWTCON_SEND_UPDATE: u64 = 0x4024_462e;
/// The request that waits for a submitted update.
pub const HWTCON_WAIT_FOR_UPDATE_COMPLETE: u64 = 0xc008_462f;

/// The request that submits an update: a write of one update structure, by the
/// number that the display driver gives it.
pub fn send_update_call(update: &HwtconUpdateData) -> (call: Query)
    ensures
        call.request == HWTCON_SEND_UPDATE,
        call.request == crate::ioctl::request_number(crate::ioctl::IOC_WRITE, HWTCON_KIND, 0x2e, 36),
        call.request == 0x4024_462e,
        call.buffer@ == update.encoded(),
        call.buffer@.len() == crate::ioctl::announced_size(call.request),
        call.buffer@.len() == 36,
        call.buffer@.subrange(0, 4) == crate::wire::u32_bytes(update.update_region.top),
        call.buffer@.subrange(4, 8) == crate::wire::u32_bytes(update.update_region.left),
        call.buffer@.subrange(8, 12) == crate::wire::u32_bytes(update.update_region.width),
        call.buffer@.subrange(12, 16) == crate::wire::u32_bytes(update.update_region.height),
        call.buffer@.subrange(16, 20) == crate::wire::u32_bytes(update.waveform_mode),
        call.buffer@.subrange(20, 24) == crate::wire::u32_bytes(update.update_mode),
        call.buffer@.subrange(24, 28) == crate::wire::u32_bytes(update.update_marker),
        call.buffer@.subrange(28, 32) == crate::wire::u32_bytes(update.flags),
        call.buffer@.subrange(32, 36) == crate::wire::u32_bytes(
            crate::wire::unsigned(update.dither_mode),
        ),
{
    let request: u64 = iow(HWTCON_KIND, 0x2e, 36);
    proof {
        law_update_layout(*update, crate::ioctl::zeros(36));
    }
    mutation(request, update)
}

/// What submitting an update came to.
pub fn send_update(update: &mut HwtconUpdateData, reply: &Reply) -> (done: Result<(), Failure>)
    requires
        reply.buffer@.len() == 36,
    ensures
        *final(update) == HwtconUpdateData::decoded(reply.buffer@),
        reply.buffer@ == old(update).encoded() ==> *final(update) == *old(update),
        done == crate::failure::outcome(reply.result, reply.errno),
        done == (if reply.result < 0 {
            Err::<(), Failure>(Failure::Kernel(reply.errno))
        } else {
            Ok::<(), Failure>(())
        }),
        final(update).update_region.top == crate::wire::u32_at(reply.buffer@, 0),
        final(update).update_region.left == crate::wire::u32_at(reply.buffer@, 4),
        final(update).update_region.width == crate::wire::u32_at(reply.buffer@, 8),
        final(update).update_region.height == crate::wire::u32_at(reply.buffer@, 12),
        final(update).waveform_mode == crate::wire::u32_at(reply.buffer@, 16),
        final(update).update_mode == crate::wire::u32_at(reply.buffer@, 20),
        final(update).update_marker == crate::wire::u32_at(reply.buffer@, 24),
        final(update).flags == crate::wire::u32_at(reply.buffer@, 28),
        final(update).dither_mode == crate::wire::signed(crate::wire::u32_at(reply.buffer@, 32)),
{
    proof {
        law_update_layout(*update, reply.buffer@);
    }
    mutating_ioctl(update, reply)
}

/// The request that waits for the update with a marker: a write and a read of
/// one marker structure.
pub fn wait_for_update_complete_call(marker: &HwtconUpdateMarkerData) -> (call: Query)
    ensures
        call.request == HWTCON_WAIT_FOR_UPDATE_COMPLETE,
        call.request == crate::ioctl::request_number(3, HWTCON_KIND, 0x2f, 8),
        call.request == 0xc008_462f,
        call.buffer@ == marker.encoded(),
        call.buffer@.len() == crate::ioctl::announced_size(call.request),
        call.buffer@.len() == 8,
        call.buffer@.subrange(0, 4) == crate::wire::u32_bytes(marker.update_marker),
        call.buffer@.subrange(4, 8) == crate::wire::u32_bytes(marker.collision_test),
{
    let request: u64 = iowr(HWTCON_KIND, 0x2f, 8);
    proof {
        law_marker_layout(*marker, crate::ioctl::zeros(8));
    }
    mutation(request, marker)
}

/// What waiting for an update came to. The marker then holds the result of the
/// update's collision test.
pub fn wait_for_update_complete(marker: &mut HwtconUpdateMarkerData, reply: &Reply) -> (done: Result<
    (),
    Failure,
>)
    requires
        reply.buffer@.len() == 8,
    ensures
        *final(marker) == HwtconUpdateMarkerData::decoded(reply.buffer@),
        reply.buffer@ == old(marker).encoded() ==> *final(marker) == *old(marker),
        done == crate::failure::outcome(reply.result, reply.errno),
        done == (if reply.result < 0 {
            Err::<(), Failure>(Failure::Kernel(reply.errno))
        } else {
            Ok::<(), Failure>(())
        }),
        final(marker).update_marker == crate::wire::u32_at(reply.buffer@, 0),
        final(marker).collision_test == crate::wire::u32_at(reply.buffer@, 4),
{
    mutating_ioctl(marker, reply)
}

} // verus!
