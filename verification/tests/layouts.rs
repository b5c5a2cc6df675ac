use dst_init::layout::{checked_round_up, is_power_of_two};
use dst_init::Layout;

fn std_extend(a: std::alloc::Layout, b: std::alloc::Layout) -> Option<(usize, usize, usize)> {
    match a.extend(b) {
        Ok((all, offset)) => {
            let all = all.pad_to_align();
            Some((all.size(), all.align(), offset))
        },
        Err(_) => None,
    }
}

#[test]
fn round_up_gives_the_next_multiple() {
    assert_eq!(checked_round_up(0, 8), Some(0));
    assert_eq!(checked_round_up(1, 8), Some(8));
    assert_eq!(checked_round_up(8, 8), Some(8));
    assert_eq!(checked_round_up(9, 8), Some(16));
    assert_eq!(checked_round_up(13, 1), Some(13));
    assert_eq!(checked_round_up(17, 16), Some(32));
}

#[test]
fn round_up_reports_what_does_not_fit() {
    assert_eq!(checked_round_up(usize::MAX, 2), None);
    assert_eq!(checked_round_up(usize::MAX - 6, 8), None);
    assert_eq!(checked_round_up(usize::MAX, 1), Some(usize::MAX));
    assert_eq!(checked_round_up(usize::MAX - 7, 8), Some(usize::MAX - 7));
}

#[test]
fn powers_of_two_are_told_apart() {
    assert!(!is_power_of_two(0));
    assert!(is_power_of_two(1));
    assert!(is_power_of_two(2));
    assert!(!is_power_of_two(3));
    assert!(is_power_of_two(4096));
    assert!(!is_power_of_two(4097));
    assert!(!is_power_of_two(12));
    assert!(is_power_of_two(1 << (usize::BITS - 1)));
    assert!(!is_power_of_two(usize::MAX));
    for n in 0..2000usize {
        assert_eq!(is_power_of_two(n), n.is_power_of_two());
    }
}

#[test]
fn from_size_align_accepts_what_std_accepts() {
    assert_eq!(Layout::from_size_align(10, 1), Some(Layout { size: 10, align: 1 }));
    assert_eq!(Layout::from_size_align(0, 8), Some(Layout { size: 0, align: 8 }));
    assert_eq!(Layout::from_size_align(10, 0), None);
    assert_eq!(Layout::from_size_align(10, 3), None);
    assert_eq!(Layout::from_size_align(10, 6), None);
    let max = isize::MAX as usize;
    assert_eq!(Layout::from_size_align(max, 1), Some(Layout { size: max, align: 1 }));
    assert_eq!(Layout::from_size_align(max + 1, 1), None);
    assert_eq!(Layout::from_size_align(max, 2), None);
    assert_eq!(Layout::from_size_align(max - 1, 2), Some(Layout { size: max - 1, align: 2 }));
    assert_eq!(Layout::from_size_align(usize::MAX, 8), None);
    let sizes = [0usize, 1, 7, 8, 9, max - 8, max - 7, max - 1, max, max + 1, usize::MAX];
    let aligns = [0usize, 1, 2, 3, 8, 24, 1 << 20, 1 << (usize::BITS - 1)];
    for size in sizes {
        for align in aligns {
            let ours = Layout::from_size_align(size, align);
            let theirs = std::alloc::Layout::from_size_align(size, align);
            assert_eq!(ours.is_some(), theirs.is_ok());
        }
    }
}

#[test]
fn layout_of_a_type_is_its_size_and_alignment() {
    assert_eq!(Layout::new::<u8>(), Layout { size: 1, align: 1 });
    assert_eq!(Layout::new::<u32>(), Layout { size: 4, align: 4 });
    assert_eq!(Layout::new::<()>(), Layout { size: 0, align: 1 });
    assert_eq!(Layout::new::<[u16; 5]>(), Layout { size: 10, align: 2 });
    assert_eq!(Layout::new::<u64>().size(), std::mem::size_of::<u64>());
    assert_eq!(Layout::new::<u64>().align(), std::mem::align_of::<u64>());
    assert_eq!(Layout::new::<(u8, usize)>().size(), std::mem::size_of::<(u8, usize)>());
    assert_eq!(Layout::new::<(u8, usize)>().align(), std::mem::align_of::<(u8, usize)>());
}

#[test]
fn layout_of_a_run_multiplies_the_size() {
    assert_eq!(Layout::array::<u32>(0), Some(Layout { size: 0, align: 4 }));
    assert_eq!(Layout::array::<u32>(7), Some(Layout { size: 28, align: 4 }));
    assert_eq!(Layout::array::<u8>(100), Some(Layout { size: 100, align: 1 }));
    assert_eq!(Layout::array::<()>(usize::MAX), Some(Layout { size: 0, align: 1 }));
    let theirs = std::alloc::Layout::array::<u64>(12).unwrap();
    let ours = Layout::array::<u64>(12).unwrap();
    assert_eq!((ours.size(), ours.align()), (theirs.size(), theirs.align()));
}

#[test]
fn layout_of_a_run_that_is_too_long_is_refused() {
    let max = isize::MAX as usize;
    assert_eq!(Layout::array::<u8>(max), Some(Layout { size: max, align: 1 }));
    assert_eq!(Layout::array::<u8>(max + 1), None);
    assert_eq!(Layout::array::<u16>(max / 2), Some(Layout { size: max - 1, align: 2 }));
    assert_eq!(Layout::array::<u16>(max / 2 + 1), None);
    assert_eq!(Layout::array::<u32>(usize::MAX), None);
    assert!(std::alloc::Layout::array::<u16>(max / 2 + 1).is_err());
    assert!(std::alloc::Layout::array::<u16>(max / 2).is_ok());
}

#[test]
fn extend_puts_the_tail_at_the_next_multiple_of_its_alignment() {
    let head = Layout { size: 1, align: 1 };
    let tail = Layout { size: 800, align: 8 };
    assert_eq!(head.extend(tail), Some((Layout { size: 808, align: 8 }, 8)));

    let head = Layout { size: 10, align: 2 };
    let tail = Layout { size: 3, align: 1 };
    assert_eq!(head.extend(tail), Some((Layout { size: 14, align: 2 }, 10)));

    let head = Layout { size: 16, align: 8 };
    let tail = Layout { size: 0, align: 4 };
    assert_eq!(head.extend(tail), Some((Layout { size: 16, align: 8 }, 16)));

    let head = Layout { size: 0, align: 1 };
    let tail = Layout { size: 5, align: 4 };
    assert_eq!(head.extend(tail), Some((Layout { size: 8, align: 4 }, 0)));

    let head = Layout { size: 5, align: 1 };
    let tail = Layout { size: 4, align: 4 };
    assert_eq!(head.extend(tail), Some((Layout { size: 12, align: 4 }, 8)));
}

#[test]
fn extend_refuses_what_does_not_fit() {
    let max = isize::MAX as usize;
    let head = Layout { size: max, align: 1 };
    assert_eq!(head.extend(Layout { size: 1, align: 1 }), None);
    assert_eq!(head.extend(Layout { size: 0, align: 2 }), None);
    assert_eq!(head.extend(Layout { size: 0, align: 1 }), Some((Layout { size: max, align: 1 }, max)));
    let head = Layout { size: max - 8, align: 1 };
    assert_eq!(head.extend(Layout { size: 8, align: 1 }), Some((Layout { size: max, align: 1 }, max - 8)));
    assert_eq!(head.extend(Layout { size: 8, align: 8 }), None);
}

#[test]
fn extend_agrees_with_std_extend_and_pad() {
    let sizes = [0usize, 1, 2, 3, 7, 8, 9, 15, 16, 24, 100, 4095];
    let aligns = [1usize, 2, 4, 8, 16, 64];
    for head_align in aligns {
        for head_size in sizes {
            for tail_align in aligns {
                for tail_size in sizes {
                    let head = Layout::from_size_align(head_size, head_align).unwrap();
                    let tail = Layout::from_size_align(tail_size, tail_align).unwrap();
                    let theirs = std_extend(
                        std::alloc::Layout::from_size_align(head_size, head_align).unwrap(),
                        std::alloc::Layout::from_size_align(tail_size, tail_align).unwrap(),
                    );
                    let ours = head.extend(tail).map(|(all, offset)| (all.size, all.align, offset));
                    assert_eq!(ours, theirs);
                }
            }
        }
    }
}

#[test]
fn extended_layout_holds_both_parts() {
    let sizes = [0usize, 1, 5, 8, 13, 32, 1000];
    let aligns = [1usize, 2, 4, 8, 32];
    for head_align in aligns {
        for head_size in sizes {
            for tail_align in aligns {
                for tail_size in sizes {
                    let head = Layout { size: head_size, align: head_align };
                    let tail = Layout { size: tail_size, align: tail_align };
                    let (all, offset) = head.extend(tail).unwrap();
                    assert!(all.size >= head.size + tail.size);
                    assert!(all.size >= offset + tail.size);
                    assert!(offset >= head.size);
                    assert_eq!(offset % tail.align, 0);
                    for smaller in head.size..offset {
                        assert_ne!(smaller % tail.align, 0);
                    }
                    assert_eq!(all.align, head.align.max(tail.align));
                    assert_eq!(all.size % all.align, 0);
                }
            }
        }
    }
}

#[test]
fn pad_to_align_rounds_the_size_up() {
    assert_eq!(Layout { size: 9, align: 8 }.pad_to_align(), Layout { size: 16, align: 8 });
    assert_eq!(Layout { size: 16, align: 8 }.pad_to_align(), Layout { size: 16, align: 8 });
    assert_eq!(Layout { size: 0, align: 4 }.pad_to_align(), Layout { size: 0, align: 4 });
    assert_eq!(Layout { size: 3, align: 1 }.pad_to_align(), Layout { size: 3, align: 1 });
    let theirs = std::alloc::Layout::from_size_align(21, 4).unwrap().pad_to_align();
    let ours = Layout { size: 21, align: 4 }.pad_to_align();
    assert_eq!((ours.size(), ours.align()), (theirs.size(), theirs.align()));
}
