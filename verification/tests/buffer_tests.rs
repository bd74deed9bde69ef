use memory_lib::BufferError;
use memory_lib::SafeBuffer;

#[test]
fn test_safe_buffer() {
    let mut buf = SafeBuffer::new(10);
    buf.set(0, 42).unwrap();
    assert_eq!(buf.get(0), Some(42));
}

#[test]
fn fresh_buffer_reads_zero_everywhere() {
    let buf = SafeBuffer::new(6);
    for i in 0..6 {
        assert_eq!(buf.get(i), Some(0));
    }
}

#[test]
fn out_of_range_get_and_set() {
    let mut buf = SafeBuffer::new(4);
    assert_eq!(buf.get(4), None);
    assert_eq!(buf.get(1000), None);
    assert_eq!(buf.set(4, 9), Err(BufferError::IndexOutOfRange));
    assert_eq!(buf.set(usize::MAX, 9), Err(BufferError::IndexOutOfRange));
    buf.set(3, 5).unwrap();
    assert_eq!(buf.get(4), None);
    assert_eq!(buf.set(4, 9), Err(BufferError::IndexOutOfRange));
}

#[test]
fn set_then_get_leaves_others_unchanged() {
    let mut buf = SafeBuffer::new(5);
    buf.set(1, 11).unwrap();
    buf.set(3, 33).unwrap();
    buf.set(3, 34).unwrap();
    assert_eq!(buf.get(0), Some(0));
    assert_eq!(buf.get(1), Some(11));
    assert_eq!(buf.get(2), Some(0));
    assert_eq!(buf.get(3), Some(34));
    assert_eq!(buf.get(4), Some(0));
}

#[test]
fn wrapper_scenario() {
    let mut buffer = SafeBuffer::new(5);
    buffer.set(0, 100).unwrap();
    buffer.set(1, 200).unwrap();
    buffer.set(2, 300).unwrap();
    assert_eq!(buffer.get(0), Some(100));
    assert_eq!(buffer.get(1), Some(200));
    assert_eq!(buffer.get(2), Some(300));
    assert_eq!(buffer.get(100), None);
    assert_eq!(buffer.set(100, 1), Err(BufferError::IndexOutOfRange));
}

#[test]
fn length_is_fixed_and_never_empty() {
    let buf = SafeBuffer::new(7);
    assert_eq!(buf.len(), 7);
    assert!(!buf.is_empty());
    let one = SafeBuffer::new(1);
    assert_eq!(one.len(), 1);
    assert!(!one.is_empty());
}

#[test]
fn slice_views_of_buffer() {
    let mut buf = SafeBuffer::new(10);
    for i in 0..10 {
        buf.set(i, i as i32).unwrap();
    }
    let all = buf.as_slice();
    assert_eq!(all.len(), 10);
    assert_eq!(all[7], 7);
    let window = buf.get_slice(2, 6).expect("range lies inside the buffer");
    assert_eq!(window.len(), 6);
    assert_eq!(window, &[2, 3, 4, 5, 6, 7]);
    assert!(buf.get_slice(7, 6).is_none());
}

#[test]
fn range_check_does_not_wrap_around() {
    let buf = SafeBuffer::new(10);
    assert!(buf.get_slice(usize::MAX, 2).is_none());
    assert!(buf.get_slice(2, usize::MAX).is_none());
    assert!(buf.get_slice(usize::MAX, usize::MAX).is_none());
    assert!(buf.get_slice(0, 11).is_none());
    assert!(buf.get_slice(0, 10).is_some());
}

#[test]
fn buffer_halves_cover_everything() {
    for len in [1, 2, 5, 8] {
        let buf = SafeBuffer::new(len);
        assert_eq!(buf.first_half().len() + buf.last_half().len(), len);
    }
    let buf = SafeBuffer::new(5);
    assert_eq!(buf.first_half().len(), 2);
    assert_eq!(buf.last_half().len(), 3);
}

#[test]
fn exclusive_view_writes_through() {
    let mut buf = SafeBuffer::new(4);
    {
        let window = buf.as_mut_slice();
        window[0] = 10;
        window[3] = 40;
    }
    assert_eq!(buf.get(0), Some(10));
    assert_eq!(buf.get(1), Some(0));
    assert_eq!(buf.get(3), Some(40));
}

#[test]
fn buffers_release_on_scope_exit() {
    for _ in 0..3 {
        let mut buf = SafeBuffer::new(8);
        buf.set(0, 1).unwrap();
        assert_eq!(buf.get(0), Some(1));
    }
    let again = SafeBuffer::new(8);
    assert_eq!(again.get(0), Some(0));
}
