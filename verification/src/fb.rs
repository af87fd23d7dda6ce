//! The framebuffer's description of itself.

use vstd::prelude::*;

use crate::failure::Failure;
use crate::ioctl::{query_ioctl, structure_query, Query, Reply};
use crate::wire::{read_u16, read_u32, KernelRead};

verus! {

/// The request for the variable part of the description.
pub const FBIOGET_VSCREENINFO: u64 = 0x4600;
/// The request for the fixed part of the description.
pub const FBIOGET_FSCREENINFO: u64 = 0x4602;

/// Where one colour sits in a pixel. Takes 12 bytes.
#[derive(Clone, Copy, Debug, Default, Eq, PartialEq)]
pub struct FbBitfield {
    pub offset: u32,
    pub length: u32,
    pub msb_right: u32,
}

/// The part of the description that a mode change alters. Takes 160 bytes.
#[derive(Clone, Copy, Debug, Default)]
pub struct FbVarScreeninfo {
    pub xres: u32,
    pub yres: u32,
    pub xres_virtual: u32,
    pub yres_virtual: u32,
    pub xoffset: u32,
    pub yoffset: u32,
    pub bits_per_pixel: u32,
    pub grayscale: u32,
    pub red: FbBitfield,
    pub green: FbBitfield,
    pub blue: FbBitfield,
    pub transp: FbBitfield,
    pub nonstd: u32,
    pub activate: u32,
    pub height: u32,
    pub width: u32,
    pub accel_flags: u32,
    pub pixclock: u32,
    pub left_margin: u32,
    pub right_margin: u32,
    pub upper_margin: u32,
    pub lower_margin: u32,
    pub hsync_len: u32,
    pub vsync_len: u32,
    pub sync: u32,
    pub vmode: u32,
    pub rotate: u32,
    pub colorspace: u32,
    pub reserved: [u32; 4],
}

/// The part of the description that stays, on a 32-bit kernel. Takes 68 bytes:
/// two of them pad the three steps and two close the structure.
#[derive(Clone, Copy, Debug, Default)]
pub struct FbFixScreeninfo32 {
    pub id: [u8; 16],
    pub smem_start: u32,
    pub smem_len: u32,
    pub kind: u32,
    pub type_aux: u32,
    pub visual: u32,
    pub xpanstep: u16,
    pub ypanstep: u16,
    pub ywrapstep: u16,
    pub line_length: u32,
    pub mmio_start: u32,
    pub mmio_len: u32,
    pub accel: u32,
    pub capabilities: u16,
    pub reserved: [u16; 2],
}

impl KernelRead for FbBitfield {
    open spec fn layout_size() -> nat {
        12
    }

    open spec fn decoded(bytes: Seq<u8>) -> Self {
        FbBitfield {
            offset: crate::wire::u32_at(bytes, 0),
            length: crate::wire::u32_at(bytes, 4),
            msb_right: crate::wire::u32_at(bytes, 8),
        }
    }

    fn size() -> (size: usize) {
        12
    }

    fn decode(bytes: &[u8]) -> (value: Self) {
        FbBitfield {
            offset: read_u32(bytes, 0),
            length: read_u32(bytes, 4),
            msb_right: read_u32(bytes, 8),
        }
    }
}

impl KernelRead for FbVarScreeninfo {
    open spec fn layout_size() -> nat {
        160
    }

    open spec fn decoded(bytes: Seq<u8>) -> Self {
        FbVarScreeninfo {
            xres: crate::wire::u32_at(bytes, 0),
            yres: crate::wire::u32_at(bytes, 4),
            xres_virtual: crate::wire::u32_at(bytes, 8),
            yres_virtual: crate::wire::u32_at(bytes, 12),
            xoffset: crate::wire::u32_at(bytes, 16),
            yoffset: crate::wire::u32_at(bytes, 20),
            bits_per_pixel: crate::wire::u32_at(bytes, 24),
            grayscale: crate::wire::u32_at(bytes, 28),
            red: FbBitfield::decoded(bytes.subrange(32, 44)),
            green: FbBitfield::decoded(bytes.subrange(44, 56)),
            blue: FbBitfield::decoded(bytes.subrange(56, 68)),
            transp: FbBitfield::decoded(bytes.subrange(68, 80)),
            nonstd: crate::wire::u32_at(bytes, 80),
            activate: crate::wire::u32_at(bytes, 84),
            height: crate::wire::u32_at(bytes, 88),
            width: crate::wire::u32_at(bytes, 92),
            accel_flags: crate::wire::u32_at(bytes, 96),
            pixclock: crate::wire::u32_at(bytes, 100),
            left_margin: crate::wire::u32_at(bytes, 104),
            right_margin: crate::wire::u32_at(bytes, 108),
            upper_margin: crate::wire::u32_at(bytes, 112),
            lower_margin: crate::wire::u32_at(bytes, 116),
            hsync_len: crate::wire::u32_at(bytes, 120),
            vsync_len: crate::wire::u32_at(bytes, 124),
            sync: crate::wire::u32_at(bytes, 128),
            vmode: crate::wire::u32_at(bytes, 132),
            rotate: crate::wire::u32_at(bytes, 136),
            colorspace: crate::wire::u32_at(bytes, 140),
            reserved: [crate::wire::u32_at(bytes, 144), crate::wire::u32_at(bytes, 148), crate::wire::u32_at(bytes, 152), crate::wire::u32_at(bytes, 156)],
        }
    }

    fn size() -> (size: usize) {
        160
    }

    fn decode(bytes: &[u8]) -> (value: Self) {
        FbVarScreeninfo {
            xres: read_u32(bytes, 0),
            yres: read_u32(bytes, 4),
            xres_virtual: read_u32(bytes, 8),
            yres_virtual: read_u32(bytes, 12),
            xoffset: read_u32(bytes, 16),
            yoffset: read_u32(bytes, 20),
            bits_per_pixel: read_u32(bytes, 24),
            grayscale: read_u32(bytes, 28),
            red: FbBitfield::decode(vstd::slice::slice_subrange(bytes, 32, 44)),
            green: FbBitfield::decode(vstd::slice::slice_subrange(bytes, 44, 56)),
            blue: FbBitfield::decode(vstd::slice::slice_subrange(bytes, 56, 68)),
            transp: FbBitfield::decode(vstd::slice::slice_subrange(bytes, 68, 80)),
            nonstd: read_u32(bytes, 80),
            activate: read_u32(bytes, 84),
            height: read_u32(bytes, 88),
            width: read_u32(bytes, 92),
            accel_flags: read_u32(bytes, 96),
            pixclock: read_u32(bytes, 100),
            left_margin: read_u32(bytes, 104),
            right_margin: read_u32(bytes, 108),
            upper_margin: read_u32(bytes, 112),
            lower_margin: read_u32(bytes, 116),
            hsync_len: read_u32(bytes, 120),
            vsync_len: read_u32(bytes, 124),
            sync: read_u32(bytes, 128),
            vmode: read_u32(bytes, 132),
            rotate: read_u32(bytes, 136),
            colorspace: read_u32(bytes, 140),
            reserved: [read_u32(bytes, 144), read_u32(bytes, 148), read_u32(bytes, 152), read_u32(bytes, 156)],
        }
    }
}

impl KernelRead for FbFixScreeninfo32 {
    open spec fn layout_size() -> nat {
        68
    }

    open spec fn decoded(bytes: Seq<u8>) -> Self {
        FbFixScreeninfo32 {
            id: [bytes[0], bytes[1], bytes[2], bytes[3], bytes[4], bytes[5], bytes[6], bytes[7], bytes[8], bytes[9], bytes[10], bytes[11], bytes[12], bytes[13], bytes[14], bytes[15]],
            smem_start: crate::wire::u32_at(bytes, 16),
            smem_len: crate::wire::u32_at(bytes, 20),
            kind: crate::wire::u32_at(bytes, 24),
            type_aux: crate::wire::u32_at(bytes, 28),
            visual: crate::wire::u32_at(bytes, 32),
            xpanstep: crate::wire::u16_at(bytes, 36),
            ypanstep: crate::wire::u16_at(bytes, 38),
            ywrapstep: crate::wire::u16_at(bytes, 40),
            line_length: crate::wire::u32_at(bytes, 44),
            mmio_start: crate::wire::u32_at(bytes, 48),
            mmio_len: crate::wire::u32_at(bytes, 52),
            accel: crate::wire::u32_at(bytes, 56),
            capabilities: crate::wire::u16_at(bytes, 60),
            reserved: [crate::wire::u16_at(bytes, 62), crate::wire::u16_at(bytes, 64)],
        }
    }

    fn size() -> (size: usize) {
        68
    }

    fn decode(bytes: &[u8]) -> (value: Self) {
        FbFixScreeninfo32 {
            id: [bytes[0], bytes[1], bytes[2], bytes[3], bytes[4], bytes[5], bytes[6], bytes[7], bytes[8], bytes[9], bytes[10], bytes[11], bytes[12], bytes[13], bytes[14], bytes[15]],
            smem_start: read_u32(bytes, 16),
            smem_len: read_u32(bytes, 20),
            kind: read_u32(bytes, 24),
            type_aux: read_u32(bytes, 28),
            visual: read_u32(bytes, 32),
            xpanstep: read_u16(bytes, 36),
            ypanstep: read_u16(bytes, 38),
            ywrapstep: read_u16(bytes, 40),
            line_length: read_u32(bytes, 44),
            mmio_start: read_u32(bytes, 48),
            mmio_len: read_u32(bytes, 52),
            accel: read_u32(bytes, 56),
            capabilities: read_u16(bytes, 60),
            reserved: [read_u16(bytes, 62), read_u16(bytes, 64)],
        }
    }
}

/// Every field of the variable part is read at its offset in the kernel's
/// declaration.
pub proof fn law_variable_layout(bytes: Seq<u8>)
    requires
        bytes.len() == 160,
    ensures
        FbVarScreeninfo::layout_size() == 160,
        FbVarScreeninfo::decoded(bytes).xres == crate::wire::u32_at(bytes, 0),
        FbVarScreeninfo::decoded(bytes).yres == crate::wire::u32_at(bytes, 4),
        FbVarScreeninfo::decoded(bytes).xres_virtual == crate::wire::u32_at(bytes, 8),
        FbVarScreeninfo::decoded(bytes).yres_virtual == crate::wire::u32_at(bytes, 12),
        FbVarScreeninfo::decoded(bytes).xoffset == crate::wire::u32_at(bytes, 16),
        FbVarScreeninfo::decoded(bytes).yoffset == crate::wire::u32_at(bytes, 20),
        FbVarScreeninfo::decoded(bytes).bits_per_pixel == crate::wire::u32_at(bytes, 24),
        FbVarScreeninfo::decoded(bytes).grayscale == crate::wire::u32_at(bytes, 28),
        FbVarScreeninfo::decoded(bytes).nonstd == crate::wire::u32_at(bytes, 80),
        FbVarScreeninfo::decoded(bytes).activate == crate::wire::u32_at(bytes, 84),
        FbVarScreeninfo::decoded(bytes).height == crate::wire::u32_at(bytes, 88),
        FbVarScreeninfo::decoded(bytes).width == crate::wire::u32_at(bytes, 92),
        FbVarScreeninfo::decoded(bytes).accel_flags == crate::wire::u32_at(bytes, 96),
        FbVarScreeninfo::decoded(bytes).pixclock == crate::wire::u32_at(bytes, 100),
        FbVarScreeninfo::decoded(bytes).left_margin == crate::wire::u32_at(bytes, 104),
        FbVarScreeninfo::decoded(bytes).right_margin == crate::wire::u32_at(bytes, 108),
        FbVarScreeninfo::decoded(bytes).upper_margin == crate::wire::u32_at(bytes, 112),
        FbVarScreeninfo::decoded(bytes).lower_margin == crate::wire::u32_at(bytes, 116),
        FbVarScreeninfo::decoded(bytes).hsync_len == crate::wire::u32_at(bytes, 120),
        FbVarScreeninfo::decoded(bytes).vsync_len == crate::wire::u32_at(bytes, 124),
        FbVarScreeninfo::decoded(bytes).sync == crate::wire::u32_at(bytes, 128),
        FbVarScreeninfo::decoded(bytes).vmode == crate::wire::u32_at(bytes, 132),
        FbVarScreeninfo::decoded(bytes).rotate == crate::wire::u32_at(bytes, 136),
        FbVarScreeninfo::decoded(bytes).colorspace == crate::wire::u32_at(bytes, 140),
        FbVarScreeninfo::decoded(bytes).red.offset == crate::wire::u32_at(bytes, 32),
        FbVarScreeninfo::decoded(bytes).red.length == crate::wire::u32_at(bytes, 36),
        FbVarScreeninfo::decoded(bytes).red.msb_right == crate::wire::u32_at(bytes, 40),
        FbVarScreeninfo::decoded(bytes).green.offset == crate::wire::u32_at(bytes, 44),
        FbVarScreeninfo::decoded(bytes).green.length == crate::wire::u32_at(bytes, 48),
        FbVarScreeninfo::decoded(bytes).green.msb_right == crate::wire::u32_at(bytes, 52),
        FbVarScreeninfo::decoded(bytes).blue.offset == crate::wire::u32_at(bytes, 56),
        FbVarScreeninfo::decoded(bytes).blue.length == crate::wire::u32_at(bytes, 60),
        FbVarScreeninfo::decoded(bytes).blue.msb_right == crate::wire::u32_at(bytes, 64),
        FbVarScreeninfo::decoded(bytes).transp.offset == crate::wire::u32_at(bytes, 68),
        FbVarScreeninfo::decoded(bytes).transp.length == crate::wire::u32_at(bytes, 72),
        FbVarScreeninfo::decoded(bytes).transp.msb_right == crate::wire::u32_at(bytes, 76),
        forall|i: int|
            0 <= i < 4 ==> #[trigger] FbVarScreeninfo::decoded(bytes).reserved@[i] == crate::wire::u32_at(
                bytes,
                144 + 4 * i,
            ),
{
}

/// Every field of the fixed part is read at its offset in the kernel's
/// declaration, past the bytes that pad the three steps.
pub proof fn law_fixed_layout(bytes: Seq<u8>)
    requires
        bytes.len() == 68,
    ensures
        FbFixScreeninfo32::layout_size() == 68,
        FbFixScreeninfo32::decoded(bytes).smem_start == crate::wire::u32_at(bytes, 16),
        FbFixScreeninfo32::decoded(bytes).smem_len == crate::wire::u32_at(bytes, 20),
        FbFixScreeninfo32::decoded(bytes).kind == crate::wire::u32_at(bytes, 24),
        FbFixScreeninfo32::decoded(bytes).type_aux == crate::wire::u32_at(bytes, 28),
        FbFixScreeninfo32::decoded(bytes).visual == crate::wire::u32_at(bytes, 32),
        FbFixScreeninfo32::decoded(bytes).xpanstep == crate::wire::u16_at(bytes, 36),
        FbFixScreeninfo32::decoded(bytes).ypanstep == crate::wire::u16_at(bytes, 38),
        FbFixScreeninfo32::decoded(bytes).ywrapstep == crate::wire::u16_at(bytes, 40),
        FbFixScreeninfo32::decoded(bytes).line_length == crate::wire::u32_at(bytes, 44),
        FbFixScreeninfo32::decoded(bytes).mmio_start == crate::wire::u32_at(bytes, 48),
        FbFixScreeninfo32::decoded(bytes).mmio_len == crate::wire::u32_at(bytes, 52),
        FbFixScreeninfo32::decoded(bytes).accel == crate::wire::u32_at(bytes, 56),
        FbFixScreeninfo32::decoded(bytes).capabilities == crate::wire::u16_at(bytes, 60),
        forall|i: int|
            0 <= i < 16 ==> #[trigger] FbFixScreeninfo32::decoded(bytes).id@[i] == bytes[i],
        forall|i: int|
            0 <= i < 2 ==> #[trigger] FbFixScreeninfo32::decoded(bytes).reserved@[i]
                == crate::wire::u16_at(bytes, 62 + 2 * i),
{
}

/// Every field of a bit field is read at its offset in the kernel's
/// declaration.
pub proof fn law_bitfield_layout(bytes: Seq<u8>)
    requires
        bytes.len() == 12,
    ensures
        FbBitfield::layout_size() == 12,
        FbBitfield::decoded(bytes).offset == crate::wire::u32_at(bytes, 0),
        FbBitfield::decoded(bytes).length == crate::wire::u32_at(bytes, 4),
        FbBitfield::decoded(bytes).msb_right == crate::wire::u32_at(bytes, 8),
{
}

/// The query for the variable part of the description.
pub fn variable_screen_info_query() -> (query: Query)
    ensures
        query.request == FBIOGET_VSCREENINFO,
        query.request == 0x4600,
        query.buffer@ == crate::ioctl::zeros(160),
{
    structure_query::<FbVarScreeninfo>(FBIOGET_VSCREENINFO)
}

/// Reads the variable part of the description from the kernel's reply.
pub fn variable_screen_info(reply: &Reply) -> (info: Result<FbVarScreeninfo, Failure>)
    requires
        reply.buffer@.len() == 160,
    ensures
        reply.result < 0 ==> info == Err::<FbVarScreeninfo, Failure>(Failure::Kernel(reply.errno)),
        reply.result >= 0 ==> info == Ok::<FbVarScreeninfo, Failure>(
            FbVarScreeninfo::decoded(reply.buffer@),
        ),
{
    query_ioctl(reply)
}

/// The query for the fixed part of the description.
pub fn fixed_screen_info_query() -> (query: Query)
    ensures
        query.request == FBIOGET_FSCREENINFO,
        query.request == 0x4602,
        query.buffer@ == crate::ioctl::zeros(68),
{
    structure_query::<FbFixScreeninfo32>(FBIOGET_FSCREENINFO)
}

/// Reads the fixed part of the description from the kernel's reply.
pub fn fixed_screen_info(reply: &Reply) -> (info: Result<FbFixScreeninfo32, Failure>)
    requires
        reply.buffer@.len() == 68,
    ensures
        reply.result < 0 ==> info == Err::<FbFixScreeninfo32, Failure>(Failure::Kernel(reply.errno)),
        reply.result >= 0 ==> info == Ok::<FbFixScreeninfo32, Failure>(
            FbFixScreeninfo32::decoded(reply.buffer@),
        ),
{
    query_ioctl(reply)
}

} // verus!
