use alloc_error::{AllocError, Layout, LayoutError, ReserveErrorKind};
use std::collections::TryReserveError;

fn layout(size: usize, align: usize) -> Layout {
    Layout::from_size_align(size, align).unwrap()
}

fn overflow_error() -> TryReserveError {
    let mut v: Vec<u64> = Vec::new();
    v.try_reserve(usize::MAX).unwrap_err()
}

#[test]
fn known_size_text() {
    let e = AllocError::new(layout(64, 8));
    assert_eq!(
        e.to_string(),
        "failed to allocate memory by required layout {size: 64, align: 8}"
    );
}

#[test]
fn unknown_size_text() {
    let e = AllocError::new(layout(0, 1));
    assert_eq!(e.to_string(), "failed to allocate memory");
}

#[test]
fn zero_size_with_larger_alignment_is_unknown() {
    let e = AllocError::new(layout(0, 64));
    assert_eq!(e.to_string(), "failed to allocate memory");
}

#[test]
fn layout_round_trip() {
    let e = AllocError::new(layout(4096, 16));
    assert_eq!(e.layout().size(), 4096);
    assert_eq!(e.layout().align(), 16);
    let z = AllocError::new(layout(0, 1));
    assert_eq!(z.layout().size(), 0);
    assert_eq!(z.layout().align(), 1);
}

#[test]
fn copy_renders_the_same() {
    let e = AllocError::new(layout(300, 4));
    let c = e;
    let d = e.clone();
    assert_eq!(c.to_string(), e.to_string());
    assert_eq!(d.to_string(), e.to_string());
}

#[test]
fn converted_known_layout_text() {
    let e = AllocError::from_kind(ReserveErrorKind::AllocError { layout: layout(4096, 16) });
    assert_eq!(
        e.to_string(),
        "failed to allocate memory by required layout {size: 4096, align: 16}"
    );
    assert_eq!(e.layout().size(), 4096);
    assert_eq!(e.layout().align(), 16);
}

#[test]
fn opaque_reservation_failure_is_unknown() {
    let e = AllocError::from(overflow_error());
    assert_eq!(e.to_string(), "failed to allocate memory");
    assert_eq!(e.layout().size(), 0);
    assert_eq!(e.layout().align(), 1);
}

fn reserve_too_much() -> Result<(), AllocError> {
    let mut v: Vec<u8> = Vec::new();
    v.try_reserve(usize::MAX)?;
    Ok(())
}

#[test]
fn opaque_reservation_failure_through_question_mark() {
    let e = reserve_too_much().unwrap_err();
    assert_eq!(e.to_string(), "failed to allocate memory");
}

#[test]
fn numbers_are_plain_decimal() {
    let e = AllocError::new(layout(1024, 1));
    assert_eq!(
        e.to_string(),
        "failed to allocate memory by required layout {size: 1024, align: 1}"
    );
    let e = AllocError::new(layout(1000000, 4096));
    assert_eq!(
        e.to_string(),
        "failed to allocate memory by required layout {size: 1000000, align: 4096}"
    );
}

#[test]
fn single_digit_and_round_numbers() {
    let e = AllocError::new(layout(9, 2));
    assert_eq!(
        e.to_string(),
        "failed to allocate memory by required layout {size: 9, align: 2}"
    );
    let e = AllocError::new(layout(10, 2));
    assert_eq!(
        e.to_string(),
        "failed to allocate memory by required layout {size: 10, align: 2}"
    );
}

#[test]
fn largest_layout_text() {
    let max = isize::MAX as usize;
    let e = AllocError::new(layout(max, 1));
    assert_eq!(
        e.to_string(),
        format!(
            "failed to allocate memory by required layout {{size: {}, align: 1}}",
            max
        )
    );
    let big_align = 1usize << (usize::BITS - 2);
    let e = AllocError::new(layout(big_align, big_align));
    assert_eq!(
        e.to_string(),
        format!(
            "failed to allocate memory by required layout {{size: {}, align: {}}}",
            big_align, big_align
        )
    );
}

#[test]
fn layout_accepts_valid_pairs() {
    assert!(Layout::from_size_align(0, 1).is_ok());
    assert!(Layout::from_size_align(4096, 16).is_ok());
    assert!(Layout::from_size_align(isize::MAX as usize, 1).is_ok());
    assert!(Layout::from_size_align(isize::MAX as usize - 7, 8).is_ok());
}

#[test]
fn layout_refuses_bad_alignment() {
    assert_eq!(Layout::from_size_align(8, 0).unwrap_err(), LayoutError);
    assert_eq!(Layout::from_size_align(8, 3).unwrap_err(), LayoutError);
    assert_eq!(Layout::from_size_align(8, 12).unwrap_err(), LayoutError);
}

#[test]
fn layout_refuses_oversized() {
    assert_eq!(
        Layout::from_size_align(isize::MAX as usize + 1, 1).unwrap_err(),
        LayoutError
    );
    assert_eq!(
        Layout::from_size_align(isize::MAX as usize - 6, 8).unwrap_err(),
        LayoutError
    );
}
