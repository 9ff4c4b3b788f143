use parcomb::stream::traits::Stream;

#[test]
fn items_offset_moves_only_when_told() {
    let mut stream = (vec![10u8, 20, 30], 0usize);
    assert_eq!(stream.offset(), 0);
    assert_eq!(stream.next(), Some(10));
    assert_eq!(stream.next(), Some(10));
    assert_eq!(stream.offset(), 0);
    stream.skip();
    assert_eq!(stream.offset(), 1);
    assert_eq!(stream.peek(), Some(20));
    stream.advance(2);
    assert_eq!(stream.offset(), 3);
    assert_eq!(stream.next(), None);
    assert_eq!(stream.peek(), None);
    stream.retract();
    assert_eq!(stream.offset(), 2);
    stream.go_back(2);
    assert_eq!(stream.offset(), 0);
}

#[test]
fn items_random_access() {
    let mut stream = (vec![10u8, 20, 30], 1usize);
    assert_eq!(stream.nth(0), Some(10));
    assert_eq!(stream.nth(2), Some(30));
    assert_eq!(stream.nth(3), None);
    assert_eq!(stream.peek_nth(1), Some(20));
    assert_eq!(stream.peek_nth(9), None);
    assert_eq!(stream.offset(), 1);
}

#[test]
fn items_slice_and_span() {
    let stream = (vec![10u8, 20, 30, 40], 0usize);
    assert_eq!(stream.slice(1, 3), vec![20, 30]);
    assert_eq!(stream.slice(0, 4), vec![10, 20, 30, 40]);
    assert_eq!(stream.slice(2, 2), Vec::<u8>::new());
    assert_eq!(stream.span(1, 3), (1, 3));
}

#[test]
fn items_checkpoint_restores() {
    let mut stream = (vec![10u8, 20, 30], 1usize);
    let saved = stream.offset();
    stream.skip();
    stream.advance(1);
    *stream.offset_mut() = saved;
    assert_eq!(stream, (vec![10u8, 20, 30], 1usize));
}

#[test]
fn items_has_next_reports_exhaustion() {
    let mut stream = (vec![10u8], 0usize);
    assert!(!stream.has_next());
    stream.skip();
    assert!(stream.has_next());
    let empty = (Vec::<u8>::new(), 0usize);
    assert!(empty.has_next());
}

#[test]
fn text_offset_moves_only_when_told() {
    let mut stream = ("héllo", 0usize);
    assert_eq!(stream.next(), Some('h'));
    assert_eq!(stream.offset(), 0);
    stream.skip();
    assert_eq!(stream.next(), Some('é'));
    assert_eq!(stream.peek(), Some('é'));
    stream.advance(4);
    assert_eq!(stream.offset(), 5);
    assert_eq!(stream.next(), None);
    stream.retract();
    assert_eq!(stream.peek(), Some('o'));
    stream.go_back(4);
    assert_eq!(stream.offset(), 0);
}

#[test]
fn text_random_access() {
    let mut stream = ("héllo", 3usize);
    assert_eq!(stream.nth(1), Some('é'));
    assert_eq!(stream.nth(4), Some('o'));
    assert_eq!(stream.nth(5), None);
    assert_eq!(stream.peek_nth(2), Some('l'));
    assert_eq!(stream.peek_nth(7), None);
    assert_eq!(stream.offset(), 3);
}

#[test]
fn text_slice_and_span() {
    let stream = ("héllo", 0usize);
    assert_eq!(stream.slice(1, 3), "él");
    assert_eq!(stream.slice(0, 5), "héllo");
    assert_eq!(stream.slice(5, 5), "");
    assert_eq!(stream.span(2, 4), (2, 4));
}

#[test]
fn text_checkpoint_restores() {
    let mut stream = ("abc", 2usize);
    let saved = stream.offset();
    stream.retract();
    stream.advance(2);
    *stream.offset_mut() = saved;
    assert_eq!(stream, ("abc", 2usize));
}

#[test]
fn text_has_next_reports_exhaustion() {
    let mut stream = ("a", 0usize);
    assert!(!stream.has_next());
    stream.skip();
    assert!(stream.has_next());
}
