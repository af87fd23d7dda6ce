//! Request numbers, layouts and replies.

use kobo_abi::failure::{completed, Failure, FailureKind};
use kobo_abi::ioctl::{Query, Reply};
use kobo_abi::wire::{KernelRead, KernelWrite};
use kobo_abi::{fb, hwtcon, input, ioc, ior, iow, iowr};

#[test]
fn ioctl_numbers_match_vendor_arm_uapi() {
    assert_eq!(input::EVIOCGABS_MT_POSITION_X, 0x8018_4575);
    assert_eq!(input::EVIOCGABS_MT_POSITION_Y, 0x8018_4576);
    assert_eq!(hwtcon::HWTCON_SEND_UPDATE, 0x4024_462e);
    assert_eq!(hwtcon::HWTCON_WAIT_FOR_UPDATE_COMPLETE, 0xc008_462f);
    assert_eq!(ior(b'E', 0x75, 24), 0x8018_4575);
    assert_eq!(iow(b'F', 0x2e, 36), 0x4024_462e);
    assert_eq!(iowr(b'F', 0x2f, 8), 0xc008_462f);
}

#[test]
fn hwtcon_waveforms_do_not_reuse_mxcfb_values() {
    assert_eq!(hwtcon::WAVEFORM_GLR16, 4);
    assert_eq!(hwtcon::WAVEFORM_A2, 6);
}

/// Where the bytes of an update first differ from those of an empty one.
fn offset_of(update: hwtcon::HwtconUpdateData) -> usize {
    let empty = hwtcon::HwtconUpdateData::default().encode();
    let bytes = update.encode();
    assert_eq!(empty.len(), bytes.len());
    empty
        .iter()
        .zip(bytes.iter())
        .position(|(before, after)| before != after)
        .expect("a field that is laid out")
}

#[test]
fn hwtcon_offsets_match_vendor_c_layout() {
    let empty = hwtcon::HwtconUpdateData::default();
    let region = hwtcon::HwtconRect {
        top: 1,
        ..hwtcon::HwtconRect::default()
    };
    assert_eq!(
        offset_of(hwtcon::HwtconUpdateData {
            update_region: region,
            ..empty
        }),
        0
    );
    assert_eq!(
        offset_of(hwtcon::HwtconUpdateData {
            waveform_mode: 1,
            ..empty
        }),
        16
    );
    assert_eq!(
        offset_of(hwtcon::HwtconUpdateData {
            update_mode: 1,
            ..empty
        }),
        20
    );
    assert_eq!(
        offset_of(hwtcon::HwtconUpdateData {
            update_marker: 1,
            ..empty
        }),
        24
    );
    assert_eq!(
        offset_of(hwtcon::HwtconUpdateData { flags: 1, ..empty }),
        28
    );
    assert_eq!(
        offset_of(hwtcon::HwtconUpdateData {
            dither_mode: 1,
            ..empty
        }),
        32
    );
}

#[test]
fn device_write_wrappers_have_vendor_requests() {
    let send: fn(&mut hwtcon::HwtconUpdateData, &Reply) -> Result<(), Failure> =
        hwtcon::send_update;
    let wait: fn(&mut hwtcon::HwtconUpdateMarkerData, &Reply) -> Result<(), Failure> =
        hwtcon::wait_for_update_complete;
    let _ = (send, wait);
    let update = hwtcon::HwtconUpdateData::default();
    assert_eq!(
        hwtcon::send_update_call(&update).request,
        hwtcon::HWTCON_SEND_UPDATE
    );
    let marker = hwtcon::HwtconUpdateMarkerData::default();
    assert_eq!(
        hwtcon::wait_for_update_complete_call(&marker).request,
        hwtcon::HWTCON_WAIT_FOR_UPDATE_COMPLETE
    );
}

#[test]
fn structures_take_the_bytes_of_their_c_declarations() {
    assert_eq!(fb::FbBitfield::size(), 12);
    assert_eq!(fb::FbVarScreeninfo::size(), 160);
    assert_eq!(fb::FbFixScreeninfo32::size(), 68);
    assert_eq!(input::InputAbsInfo::size(), 24);
    assert_eq!(hwtcon::HwtconRect::size(), 16);
    assert_eq!(hwtcon::HwtconUpdateMarkerData::size(), 8);
    assert_eq!(hwtcon::HwtconUpdateData::size(), 36);
}

#[test]
fn the_fields_of_a_request_can_be_read_back() {
    let request = ioc(3, 0x12, 0x34, 0x3fff);
    assert_eq!(request, 0xffff_1234);
    assert_eq!(request & 0xff, 0x34);
    assert_eq!(request >> 8 & 0xff, 0x12);
    assert_eq!(request >> 16 & 0x3fff, 0x3fff);
    assert_eq!(request >> 30, 3);
}

#[test]
fn a_size_past_its_field_runs_into_the_direction() {
    assert_eq!(ioc(1, 0, 0, 0x4000), 0x4000_0000);
    assert_eq!(ioc(2, 0, 0, 0x4000), 0xc000_0000);
    assert_eq!(ior(0, 0, u32::MAX), 0xffff_ffff_0000);
}

#[test]
fn axis_and_key_requests() {
    assert_eq!(input::eviocgabs(0), 0x8018_4540);
    assert_eq!(input::eviocgabs(input::LAST_AXIS), 0x8018_45ff);
    assert_eq!(
        input::eviocgabs(input::ABS_MT_POSITION_X),
        input::EVIOCGABS_MT_POSITION_X
    );
    assert_eq!(input::eviocgkey(96), 0x8060_4518);
    assert_eq!(input::eviocgkey(0x3fff), 0xbfff_4518);
    assert_eq!(input::EVIOCGNAME_256, ior(b'E', 0x06, 256));
    assert_eq!(input::EVIOCGRAB, iow(b'E', 0x90, 4));
}

fn reply(result: i32, buffer: Vec<u8>) -> Reply {
    Reply {
        result,
        errno: 25,
        buffer,
    }
}

fn check_query(query: &Query, request: u64, size: usize) {
    assert_eq!(query.request, request);
    assert_eq!(query.buffer, vec![0; size]);
}

#[test]
fn queries_start_from_zeroed_buffers_of_the_announced_size() {
    check_query(&fb::variable_screen_info_query(), 0x4600, 160);
    check_query(&fb::fixed_screen_info_query(), 0x4602, 68);
    check_query(&input::key_is_pressed_query(), 0x8060_4518, 96);
    check_query(&input::device_name_query(), 0x8100_4506, 256);
    check_query(
        &input::absolute_axis_query(input::ABS_MT_POSITION_Y),
        0x8018_4576,
        24,
    );
}

#[test]
fn a_refused_query_is_the_kernels_error() {
    let refused = Failure::Kernel(25);
    assert_eq!(completed(-1, 25), Err(refused));
    assert_eq!(completed(0, 25), Ok(()));
    assert_eq!(completed(7, 25), Ok(()));
    assert_eq!(
        input::absolute_axis(&reply(-1, vec![0; 24])),
        Err(refused)
    );
    assert_eq!(input::key_is_pressed(reply(-1, vec![0xff; 96]), 0), Err(refused));
    assert_eq!(input::device_name(reply(-1, vec![0x41; 256])), Err(refused));
    assert!(matches!(
        fb::variable_screen_info(&reply(-1, vec![0; 160])),
        Err(Failure::Kernel(25))
    ));
    assert!(matches!(
        fb::fixed_screen_info(&reply(-1, vec![0; 68])),
        Err(Failure::Kernel(25))
    ));
    assert_eq!(refused.kind(), FailureKind::Os);
    assert_eq!(refused.message(), None);
}

/// Bytes that count up, so that every field has a value of its own.
fn counting(size: usize) -> Vec<u8> {
    (0..size).map(|at| at as u8).collect()
}

fn word(at: usize) -> u32 {
    let at = at as u32;
    at | (at + 1) << 8 | (at + 2) << 16 | (at + 3) << 24
}

fn half(at: usize) -> u16 {
    let at = at as u16;
    at | (at + 1) << 8
}

#[test]
fn the_variable_screen_description_is_read_field_by_field() {
    let info = fb::variable_screen_info(&reply(0, counting(160))).expect("a description");
    assert_eq!(info.xres, word(0));
    assert_eq!(info.yres, word(4));
    assert_eq!(info.xres_virtual, word(8));
    assert_eq!(info.yres_virtual, word(12));
    assert_eq!(info.xoffset, word(16));
    assert_eq!(info.yoffset, word(20));
    assert_eq!(info.bits_per_pixel, word(24));
    assert_eq!(info.grayscale, word(28));
    for (colour, at) in [
        (info.red, 32),
        (info.green, 44),
        (info.blue, 56),
        (info.transp, 68),
    ] {
        assert_eq!(colour.offset, word(at));
        assert_eq!(colour.length, word(at + 4));
        assert_eq!(colour.msb_right, word(at + 8));
    }
    assert_eq!(info.nonstd, word(80));
    assert_eq!(info.activate, word(84));
    assert_eq!(info.height, word(88));
    assert_eq!(info.width, word(92));
    assert_eq!(info.accel_flags, word(96));
    assert_eq!(info.pixclock, word(100));
    assert_eq!(info.left_margin, word(104));
    assert_eq!(info.right_margin, word(108));
    assert_eq!(info.upper_margin, word(112));
    assert_eq!(info.lower_margin, word(116));
    assert_eq!(info.hsync_len, word(120));
    assert_eq!(info.vsync_len, word(124));
    assert_eq!(info.sync, word(128));
    assert_eq!(info.vmode, word(132));
    assert_eq!(info.rotate, word(136));
    assert_eq!(info.colorspace, word(140));
    assert_eq!(info.reserved, [word(144), word(148), word(152), word(156)]);
}

#[test]
fn the_fixed_screen_description_skips_its_padding() {
    let info = fb::fixed_screen_info(&reply(0, counting(68))).expect("a description");
    assert_eq!(info.id.to_vec(), counting(16));
    assert_eq!(info.smem_start, word(16));
    assert_eq!(info.smem_len, word(20));
    assert_eq!(info.kind, word(24));
    assert_eq!(info.type_aux, word(28));
    assert_eq!(info.visual, word(32));
    assert_eq!(info.xpanstep, half(36));
    assert_eq!(info.ypanstep, half(38));
    assert_eq!(info.ywrapstep, half(40));
    assert_eq!(info.line_length, word(44));
    assert_eq!(info.mmio_start, word(48));
    assert_eq!(info.mmio_len, word(52));
    assert_eq!(info.accel, word(56));
    assert_eq!(info.capabilities, half(60));
    assert_eq!(info.reserved, [half(62), half(64)]);
}

#[test]
fn an_axis_is_read_with_its_sign() {
    let mut buffer = Vec::new();
    for value in [-1i32, i32::MIN, i32::MAX, 0, 5, -300] {
        buffer.extend_from_slice(&value.to_le_bytes());
    }
    assert_eq!(
        input::absolute_axis(&reply(0, buffer)),
        Ok(input::InputAbsInfo {
            value: -1,
            minimum: i32::MIN,
            maximum: i32::MAX,
            fuzz: 0,
            flat: 5,
            resolution: -300,
        })
    );
}

#[test]
fn a_key_is_pressed_where_its_bit_is_set() {
    // Bit 35 is the third of the fifth byte from the low end.
    let mut bitmap = vec![0u8; 96];
    bitmap[4] = 8;
    assert_eq!(
        input::key_is_pressed(reply(0, bitmap.clone()), input::KEY_COVER),
        Ok(true)
    );
    assert_eq!(input::key_is_pressed(reply(0, bitmap.clone()), 34), Ok(false));
    assert_eq!(input::key_is_pressed(reply(0, bitmap.clone()), 36), Ok(false));
    assert_eq!(input::key_is_pressed(reply(0, bitmap), 27), Ok(false));
    assert_eq!(input::key_is_pressed(reply(0, vec![0xff; 96]), 767), Ok(true));
    assert_eq!(input::key_is_pressed(reply(0, vec![0xff; 96]), 768), Ok(false));
    assert_eq!(
        input::key_is_pressed(reply(0, vec![0xff; 96]), u16::MAX),
        Ok(false)
    );
}

#[test]
fn a_device_name_ends_at_its_nul() {
    let mut buffer = b"cyttsp5_mt\0left over".to_vec();
    buffer.resize(256, 0);
    assert_eq!(
        input::device_name(reply(0, buffer)),
        Ok("cyttsp5_mt".to_string())
    );
    assert_eq!(input::device_name(reply(0, vec![0; 256])), Ok(String::new()));
    assert_eq!(
        input::device_name(reply(256, vec![b'a'; 256])),
        Ok("a".repeat(256))
    );
    assert_eq!(
        input::device_name(reply(0, b"caf\xc3\xa9\0".to_vec())),
        Ok("caf\u{e9}".to_string())
    );
}

#[test]
fn a_device_name_that_is_not_text_is_patched() {
    assert_eq!(
        input::device_name(reply(0, b"a\xffb\0".to_vec())),
        Ok("a\u{fffd}b".to_string())
    );
}

#[test]
fn exclusive_ownership_is_asked_for_by_value() {
    let take = input::set_exclusive(true);
    assert_eq!((take.request, take.argument), (0x4004_4590, 1));
    let release = input::set_exclusive(false);
    assert_eq!((release.request, release.argument), (0x4004_4590, 0));
}

fn sample_update() -> hwtcon::HwtconUpdateData {
    hwtcon::HwtconUpdateData {
        update_region: hwtcon::HwtconRect {
            top: 0x0102_0304,
            left: 0x0506_0708,
            width: 0x090a_0b0c,
            height: 0x0d0e_0f10,
        },
        waveform_mode: hwtcon::WAVEFORM_AUTO,
        update_mode: hwtcon::UPDATE_MODE_FULL,
        update_marker: 0xffff_fffe,
        flags: 0x8000_0000,
        dither_mode: -2,
    }
}

#[test]
fn an_update_is_laid_out_low_byte_first() {
    let call = hwtcon::send_update_call(&sample_update());
    let expected: [u8; 36] = [
        4, 3, 2, 1, 8, 7, 6, 5, 0xc, 0xb, 0xa, 9, 0x10, 0xf, 0xe, 0xd, 1, 1, 0, 0, 1, 0, 0, 0,
        0xfe, 0xff, 0xff, 0xff, 0, 0, 0, 0x80, 0xfe, 0xff, 0xff, 0xff,
    ];
    assert_eq!(call.buffer, expected.to_vec());
}

#[test]
fn structures_survive_being_laid_out() {
    let update = sample_update();
    assert_eq!(
        hwtcon::HwtconUpdateData::decode(&update.encode()),
        update
    );
    let bytes = counting(36);
    assert_eq!(hwtcon::HwtconUpdateData::decode(&bytes).encode(), bytes);
    let marker = hwtcon::HwtconUpdateMarkerData {
        update_marker: 7,
        collision_test: 9,
    };
    assert_eq!(
        hwtcon::HwtconUpdateMarkerData::decode(&marker.encode()),
        marker
    );
}

#[test]
fn waiting_gives_the_collision_test_back() {
    let mut marker = hwtcon::HwtconUpdateMarkerData {
        update_marker: 41,
        collision_test: 0,
    };
    let mut buffer = hwtcon::wait_for_update_complete_call(&marker).buffer;
    buffer[4] = 1;
    assert_eq!(
        hwtcon::wait_for_update_complete(&mut marker, &reply(0, buffer)),
        Ok(())
    );
    assert_eq!(marker.update_marker, 41);
    assert_eq!(marker.collision_test, 1);
}

#[test]
fn a_refused_update_keeps_what_the_kernel_left() {
    let mut update = sample_update();
    let buffer = hwtcon::send_update_call(&update).buffer;
    assert_eq!(
        hwtcon::send_update(&mut update, &reply(-1, buffer)),
        Err(Failure::Kernel(25))
    );
    assert_eq!(update, sample_update());
}
