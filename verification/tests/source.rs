use stant_lexer::source::Source;

#[test]
fn new_source_ptr_works() {
    let prgm = "123";
    let src = Source::new(prgm);

    // A fresh `Source` points at the start of the buffer.
    assert_eq!(src.get_current_pos(), 0);
}

#[test]
fn test_source_cursor_operations() {
    let mut src = Source::new("ab");
    assert!(!src.is_at_end());
    assert_eq!(src.current(), b'a');
    assert_eq!(src.peek(), Some(b'b'));
    src.advance_ptr();
    assert_eq!(src.current_pos(), 1);
    assert_eq!(src.current(), b'b');
    // At the last byte there is no byte to peek at.
    assert_eq!(src.peek(), None);
    src.advance(1);
    assert!(src.is_at_end());
    assert_eq!(src.get_current_pos(), 2);
    assert_eq!(src.offset(), 2);
}

#[test]
fn test_source_slicing() {
    let src = Source::new("hello");
    assert_eq!(src.get_whole_source(), b"hello".to_vec());
    assert_eq!(src.get_slice(1, 4), b"ell".to_vec());
    assert_eq!(src.get_slice(2, 2), Vec::<u8>::new());
}

#[test]
fn test_source_char_reads() {
    let mut src = Source::new("hi");
    assert_eq!(src.peek_char(), Some('h'));
    assert_eq!(src.next_char(), Some('h'));
    assert_eq!(src.next_char(), Some('i'));
    assert_eq!(src.next_char(), None);
    assert_eq!(src.peek_char(), None);
}
