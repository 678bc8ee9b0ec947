use ownref::Span;

#[test]
fn new_keeps_start_and_len() {
    let s = Span::new(3, 4);
    assert_eq!(s.start, 3);
    assert_eq!(s.len, 4);
    assert_eq!(s, Span { start: 3, len: 4 });
}

#[test]
fn covering_starts_at_zero() {
    assert_eq!(Span::covering(7), Span { start: 0, len: 7 });
    assert_eq!(Span::covering(0), Span { start: 0, len: 0 });
}

#[test]
fn fits_in_tests_the_end_of_the_window() {
    assert!(Span::new(0, 0).fits_in(0));
    assert!(Span::new(2, 3).fits_in(5));
    assert!(Span::new(5, 0).fits_in(5));
    assert!(!Span::new(2, 3).fits_in(4));
    assert!(!Span::new(6, 0).fits_in(5));
    assert!(!Span::new(0, 1).fits_in(0));
}

#[test]
fn fits_in_does_not_overflow() {
    assert!(!Span::new(usize::MAX, 1).fits_in(usize::MAX));
    assert!(!Span::new(1, usize::MAX).fits_in(usize::MAX));
    assert!(Span::new(1, usize::MAX - 1).fits_in(usize::MAX));
    assert!(!Span::new(usize::MAX, usize::MAX).fits_in(10));
}

#[test]
fn rebase_adds_the_outer_start() {
    let outer = Span::new(4, 6);
    assert_eq!(Span::new(1, 2).rebase(&outer), Some(Span { start: 5, len: 2 }));
    assert_eq!(Span::new(0, 6).rebase(&outer), Some(outer));
    assert_eq!(Span::new(6, 0).rebase(&outer), Some(Span { start: 10, len: 0 }));
}

#[test]
fn rebase_refuses_what_leaves_the_outer_window() {
    let outer = Span::new(4, 6);
    assert_eq!(Span::new(1, 6).rebase(&outer), None);
    assert_eq!(Span::new(7, 0).rebase(&outer), None);
}

#[test]
fn rebase_refuses_an_outer_window_that_no_index_can_end() {
    let outer = Span::new(usize::MAX, 2);
    assert_eq!(Span::new(0, 1).rebase(&outer), None);
    let last = Span::new(usize::MAX - 2, 2);
    assert_eq!(Span::new(1, 1).rebase(&last), Some(Span { start: usize::MAX - 1, len: 1 }));
}
