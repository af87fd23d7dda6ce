//! Room left on a filesystem.

use kobo_abi::free_space;
use kobo_abi::space::FilesystemReply;
use kobo_abi::text::c_path;

const USUAL: FilesystemReply = FilesystemReply {
    result: 0,
    block_size: 65_536,
    fragment_size: 4_096,
    free_blocks: 1_250,
    available_blocks: 1_000,
};

#[test]
fn a_real_filesystem_reports_something_plausible() {
    let free = free_space(b".", &USUAL).expect("a readable filesystem");
    assert!(
        free > 0,
        "a filesystem with a checkout on it reported empty"
    );
    assert_eq!(free, 4_096_000);
}

#[test]
fn a_path_that_is_not_there_is_not_an_answer() {
    // "Do not know" and "no room" are different, and a caller that confused
    // them would refuse every write on an unusual device.
    let missing = FilesystemReply {
        result: -1,
        ..USUAL
    };
    assert_eq!(free_space(b"/no/such/place/at/all", &missing), None);
    assert_eq!(
        c_path(b"/no/such/place/at/all"),
        Some(b"/no/such/place/at/all\0".to_vec())
    );
}

#[test]
fn a_path_with_a_nul_in_it_is_refused_rather_than_truncated() {
    assert_eq!(
        free_space("a\u{0}b".as_bytes(), &USUAL),
        None,
        "a path was cut at the NUL and some other filesystem was measured"
    );
    assert_eq!(c_path("a\u{0}b".as_bytes()), None);
}

#[test]
fn a_full_filesystem_has_no_room_and_says_so() {
    let full = FilesystemReply {
        available_blocks: 0,
        ..USUAL
    };
    assert_eq!(free_space(b".", &full), Some(0));
}

#[test]
fn the_reserve_is_not_room() {
    let reserved = FilesystemReply {
        free_blocks: 1_000_000,
        block_size: 1,
        ..USUAL
    };
    assert_eq!(free_space(b".", &reserved), Some(4_096_000));
}

#[test]
fn a_result_other_than_zero_is_no_answer() {
    let odd = FilesystemReply { result: 1, ..USUAL };
    assert_eq!(free_space(b".", &odd), None);
}

#[test]
fn counts_that_are_no_counts_are_no_answer() {
    let negative = FilesystemReply {
        available_blocks: -1,
        ..USUAL
    };
    assert_eq!(free_space(b".", &negative), None);
    let wide = FilesystemReply {
        fragment_size: 1 << 64,
        ..USUAL
    };
    assert_eq!(free_space(b".", &wide), None);
}

#[test]
fn a_product_that_does_not_fit_is_no_answer() {
    let largest = FilesystemReply {
        available_blocks: u64::MAX as i128,
        fragment_size: 1,
        ..USUAL
    };
    assert_eq!(free_space(b".", &largest), Some(u64::MAX));
    let larger = FilesystemReply {
        fragment_size: 2,
        ..largest
    };
    assert_eq!(free_space(b".", &larger), None);
}
