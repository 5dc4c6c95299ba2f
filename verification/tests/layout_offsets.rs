use task_header::header::Header;
use task_header::layout::offset_after;

/// The smallest multiple of `align` that is at least `size`, found by
/// walking up from `size`.
fn smallest_aligned_at_least(size: usize, align: usize) -> usize {
    let mut m = size;
    while m % align != 0 {
        m += 1;
    }
    m
}

#[test]
fn offset_after_small_sizes_and_alignments() {
    for &size in &[0usize, 1, 3, 8, 16] {
        for &align in &[1usize, 2, 4, 8, 16] {
            let r = offset_after(size, align);
            assert_eq!(r, smallest_aligned_at_least(size, align));
            assert!(r >= size);
            assert_eq!(r % align, 0);
            assert!(r < size + align);
        }
    }
}

#[test]
fn offset_after_exact_values() {
    assert_eq!(offset_after(0, 16), 0);
    assert_eq!(offset_after(1, 1), 1);
    assert_eq!(offset_after(3, 2), 4);
    assert_eq!(offset_after(3, 8), 8);
    assert_eq!(offset_after(8, 8), 8);
    assert_eq!(offset_after(16, 4), 16);
    assert_eq!(offset_after(17, 16), 32);
}

fn expected_tag_offset(align: usize) -> usize {
    let size = std::mem::size_of::<Header>();
    let mut m = size;
    while m % align != 0 {
        m += 1;
    }
    m
}

#[test]
fn offset_tag_zero_sized_payload() {
    assert_eq!(Header::offset_tag::<()>(), expected_tag_offset(std::mem::align_of::<()>()));
}

#[test]
fn offset_tag_byte_payloads() {
    assert_eq!(Header::offset_tag::<u8>(), expected_tag_offset(1));
    assert_eq!(Header::offset_tag::<[u8; 3]>(), expected_tag_offset(1));
}

#[test]
fn offset_tag_wider_payloads() {
    assert_eq!(Header::offset_tag::<u16>(), expected_tag_offset(std::mem::align_of::<u16>()));
    assert_eq!(Header::offset_tag::<u32>(), expected_tag_offset(std::mem::align_of::<u32>()));
    assert_eq!(Header::offset_tag::<u64>(), expected_tag_offset(std::mem::align_of::<u64>()));
    assert_eq!(
        Header::offset_tag::<[u64; 2]>(),
        expected_tag_offset(std::mem::align_of::<[u64; 2]>())
    );
    assert_eq!(Header::offset_tag::<u128>(), expected_tag_offset(std::mem::align_of::<u128>()));
}

#[test]
fn offset_tag_is_at_least_header_size() {
    assert!(Header::offset_tag::<u128>() >= std::mem::size_of::<Header>());
    assert!(Header::offset_tag::<u8>() >= std::mem::size_of::<Header>());
}
