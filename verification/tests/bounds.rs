use wasi_experimental_network::span_in_bounds;

#[test]
fn whole_extent_is_in_bounds() {
    assert!(span_in_bounds(65536, 0, 65536));
}

#[test]
fn one_past_end_is_out_of_bounds() {
    assert!(!span_in_bounds(65536, 0, 65537));
    assert!(!span_in_bounds(65536, 65536, 1));
}

#[test]
fn last_byte_is_in_bounds() {
    assert!(span_in_bounds(65536, 65535, 1));
}

#[test]
fn zero_length_span_at_any_offset_up_to_extent() {
    assert!(span_in_bounds(65536, 0, 0));
    assert!(span_in_bounds(65536, 12345, 0));
    assert!(span_in_bounds(65536, 65536, 0));
    assert!(!span_in_bounds(65536, 65537, 0));
}

#[test]
fn empty_memory_accepts_only_empty_spans_at_zero() {
    assert!(span_in_bounds(0, 0, 0));
    assert!(!span_in_bounds(0, 0, 1));
    assert!(!span_in_bounds(0, 1, 0));
}

#[test]
fn huge_offset_does_not_wrap() {
    assert!(!span_in_bounds(65536, u32::MAX, 2));
    assert!(!span_in_bounds(65536, u32::MAX, usize::MAX));
}
