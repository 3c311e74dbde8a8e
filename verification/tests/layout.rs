use flexrc::layout::slice_record_layout;
use flexrc::layout::RecordLayout;
use flexrc::layout::MAX_SIZE;
use std::alloc::Layout;

fn pair(layout: &RecordLayout) -> (usize, usize) {
    (layout.size(), layout.align())
}

fn of(layout: Layout) -> RecordLayout {
    RecordLayout::from_size_align(layout.size(), layout.align()).unwrap()
}

#[test]
fn from_size_align_accepts_what_a_layout_is() {
    assert_eq!(MAX_SIZE, isize::MAX as usize);
    assert_eq!(pair(&RecordLayout::from_size_align(12, 4).unwrap()), (12, 4));
    assert_eq!(pair(&RecordLayout::from_size_align(0, 1).unwrap()), (0, 1));
    assert!(RecordLayout::from_size_align(8, 0).is_none());
    assert!(RecordLayout::from_size_align(8, 3).is_none());
    assert!(RecordLayout::from_size_align(8, 12).is_none());
    assert!(RecordLayout::from_size_align(MAX_SIZE, 1).is_some());
    assert!(RecordLayout::from_size_align(MAX_SIZE + 1, 1).is_none());
    assert!(RecordLayout::from_size_align(MAX_SIZE - 7, 8).is_some());
    assert!(RecordLayout::from_size_align(MAX_SIZE - 6, 8).is_none());
    assert!(RecordLayout::from_size_align(0, MAX_SIZE + 1).is_some());
    assert!(RecordLayout::from_size_align(1, MAX_SIZE + 1).is_none());
    for (size, align) in [(0, 1), (5, 2), (MAX_SIZE - 6, 8), (MAX_SIZE - 7, 8), (16, 24)] {
        assert_eq!(
            RecordLayout::from_size_align(size, align).is_some(),
            Layout::from_size_align(size, align).is_ok()
        );
    }
}

#[test]
fn array_is_the_elements_in_a_row() {
    let element = RecordLayout::from_size_align(12, 4).unwrap();
    assert_eq!(pair(&element.array(5).unwrap()), (60, 4));
    assert_eq!(pair(&element.array(0).unwrap()), (0, 4));
    assert!(element.array(usize::MAX).is_none());
    assert!(element.array((MAX_SIZE - 3) / 12).is_some());
    assert!(element.array((MAX_SIZE - 3) / 12 + 1).is_none());
    let empty = RecordLayout::from_size_align(0, 8).unwrap();
    assert_eq!(pair(&empty.array(usize::MAX).unwrap()), (0, 8));
    assert_eq!(pair(&of(Layout::array::<u64>(7).unwrap())), pair(&of(Layout::new::<u64>()).array(7).unwrap()));
    assert!(Layout::array::<u64>(usize::MAX / 8).is_err());
    assert!(of(Layout::new::<u64>()).array(usize::MAX / 8).is_none());
    assert_eq!(
        of(Layout::new::<u64>()).array(MAX_SIZE / 8).is_some(),
        Layout::array::<u64>(MAX_SIZE / 8).is_ok()
    );
}

#[test]
fn padding_and_rounding() {
    let layout = RecordLayout::from_size_align(9, 4).unwrap();
    assert_eq!(layout.padding_needed_for(4), 3);
    assert_eq!(layout.padding_needed_for(1), 0);
    assert_eq!(layout.padding_needed_for(16), 7);
    assert_eq!(layout.padding_needed_for(3), 0);
    assert_eq!(pair(&layout.pad_to_align()), (12, 4));
    let exact = RecordLayout::from_size_align(16, 8).unwrap();
    assert_eq!(exact.padding_needed_for(8), 0);
    assert_eq!(pair(&exact.pad_to_align()), (16, 8));
    let large = RecordLayout::from_size_align(MAX_SIZE - 14, 8).unwrap();
    assert_eq!(pair(&large.pad_to_align()), (MAX_SIZE - 7, 8));
}

#[test]
fn extend_puts_the_next_on_its_alignment() {
    let header = RecordLayout::from_size_align(4, 4).unwrap();
    let next = RecordLayout::from_size_align(24, 8).unwrap();
    let (whole, offset) = header.extend(&next).unwrap();
    assert_eq!(offset, 8);
    assert_eq!(pair(&whole), (32, 8));
    let (whole, offset) = next.extend(&header).unwrap();
    assert_eq!(offset, 24);
    assert_eq!(pair(&whole), (28, 8));
    let std_header = Layout::from_size_align(4, 4).unwrap();
    let std_next = Layout::from_size_align(24, 8).unwrap();
    let (std_whole, std_offset) = std_header.extend(std_next).unwrap();
    assert_eq!((std_whole.size(), std_whole.align(), std_offset), (32, 8, 8));
    let huge = RecordLayout::from_size_align(MAX_SIZE - 7, 8).unwrap();
    assert!(header.extend(&huge).is_none());
    assert!(huge.extend(&header).is_none());
    let nearly = RecordLayout::from_size_align(MAX_SIZE - 15, 8).unwrap();
    let (whole, offset) = RecordLayout::from_size_align(8, 8).unwrap().extend(&nearly).unwrap();
    assert_eq!((pair(&whole), offset), ((MAX_SIZE - 7, 8), 8));
}

#[test]
fn slice_record_is_header_elements_and_tail_padding() {
    let header = RecordLayout::from_size_align(8, 4).unwrap();
    let bytes = RecordLayout::from_size_align(1, 1).unwrap();
    assert_eq!(pair(&slice_record_layout(&header, &bytes, 5).unwrap().0), (16, 4));
    assert_eq!(pair(&slice_record_layout(&header, &bytes, 0).unwrap().0), (8, 4));
    assert_eq!(pair(&slice_record_layout(&header, &bytes, 8).unwrap().0), (16, 4));
    let wide = RecordLayout::from_size_align(16, 16).unwrap();
    assert_eq!(pair(&slice_record_layout(&header, &wide, 3).unwrap().0), (64, 16));
    assert!(slice_record_layout(&header, &bytes, MAX_SIZE).is_none());
    assert!(slice_record_layout(&header, &bytes, MAX_SIZE - 11).is_some());
    assert!(slice_record_layout(&header, &bytes, MAX_SIZE - 10).is_none());
    assert!(slice_record_layout(&header, &wide, usize::MAX).is_none());

    for len in [0usize, 1, 3, 17, 1000] {
        let array = Layout::array::<u16>(len).unwrap();
        let expected = Layout::new::<(u32, u32)>().extend(array).unwrap().0.pad_to_align();
        let (std_record, std_offset) = Layout::new::<(u32, u32)>().extend(array).unwrap();
        let (ours, offset) = slice_record_layout(
            &of(Layout::new::<(u32, u32)>()),
            &of(Layout::new::<u16>()),
            len,
        )
        .unwrap();
        assert_eq!(pair(&ours), (expected.size(), expected.align()));
        assert_eq!(offset, std_offset);
        assert_eq!(std_record.pad_to_align().size(), ours.size());
    }
}

#[test]
fn slice_record_hands_out_where_the_elements_start() {
    let header = RecordLayout::from_size_align(4, 4).unwrap();
    let wide = RecordLayout::from_size_align(16, 16).unwrap();
    let (record, offset) = slice_record_layout(&header, &wide, 2).unwrap();
    assert_eq!(offset, 16);
    assert_eq!(pair(&record), (48, 16));
    let bytes = RecordLayout::from_size_align(1, 1).unwrap();
    let (record, offset) = slice_record_layout(&header, &bytes, 3).unwrap();
    assert_eq!(offset, 4);
    assert_eq!(pair(&record), (8, 4));
}

#[test]
fn array_pads_each_element_to_its_alignment() {
    let odd = RecordLayout::from_size_align(5, 4).unwrap();
    assert_eq!(pair(&odd.array(3).unwrap()), (24, 4));
    assert_eq!(pair(&odd.array(0).unwrap()), (0, 4));
    let header = RecordLayout::from_size_align(2, 2).unwrap();
    let (record, offset) = slice_record_layout(&header, &odd, 2).unwrap();
    assert_eq!(offset, 4);
    assert_eq!(pair(&record), (20, 4));
}
