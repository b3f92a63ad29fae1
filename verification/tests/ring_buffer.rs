use coopfw::ring_buffer::{Ignore, Overwrite, RingBuffer, RingBufferError};

#[test]
fn reject_policy_capacity_and_failure() {
    let mut rb: RingBuffer<u8, 3, Ignore> = RingBuffer::new();
    assert_eq!(rb.len(), 0);
    assert!(rb.push_back(1).is_ok());
    assert!(rb.push_back(2).is_ok());
    assert!(rb.push_back(3).is_ok());
    assert_eq!(rb.len(), 3);
    // push fails iff the buffer is full, and leaves it unchanged
    assert!(matches!(rb.push_back(4), Err(RingBufferError::Overflow)));
    assert_eq!(rb.len(), 3);
    assert_eq!(rb.pop_front(), Some(1));
    assert_eq!(rb.len(), 2);
    assert!(rb.push_back(4).is_ok());
    assert_eq!(rb.len(), 3);
    assert!(rb.push_back(5).is_err());
    // FIFO order kept across the failure
    assert_eq!(rb.pop_front(), Some(2));
    assert_eq!(rb.pop_front(), Some(3));
    assert_eq!(rb.pop_front(), Some(4));
    assert_eq!(rb.pop_front(), None);
}

#[test]
fn overwrite_policy_keeps_last_n_in_order() {
    let mut rb: RingBuffer<u32, 3, Overwrite> = RingBuffer::new();
    for v in [10, 20, 30, 40, 50] {
        rb.push_back(v);
    }
    assert_eq!(rb.len(), 3);
    assert_eq!(rb.pop_front(), Some(30));
    assert_eq!(rb.pop_front(), Some(40));
    assert_eq!(rb.pop_front(), Some(50));
    assert_eq!(rb.pop_front(), None);
}

#[test]
fn pop_back_and_accessors() {
    let mut rb: RingBuffer<u8, 4, Ignore> = RingBuffer::new();
    assert_eq!(rb.pop_back(), None);
    assert!(rb.front().is_none());
    assert!(rb.back().is_none());
    assert!(rb.get(0).is_none());
    rb.push_back(7).unwrap();
    rb.push_back(8).unwrap();
    rb.push_back(9).unwrap();
    assert_eq!(rb.front(), Some(&7));
    assert_eq!(rb.back(), Some(&9));
    assert_eq!(rb.get(1), Some(&8));
    assert_eq!(rb.get(3), None);
    assert_eq!(rb.pop_back(), Some(9));
    assert_eq!(rb.pop_front(), Some(7));
    assert_eq!(rb.len(), 1);
}

#[test]
fn extend_from_slice_partial_fill() {
    let mut rb: RingBuffer<u8, 3, Ignore> = RingBuffer::new();
    rb.push_back(1).unwrap();
    // only two of the four fit: they are written, then overflow is reported
    assert!(matches!(rb.extend_from_slice(&[2, 3, 4, 5]), Err(RingBufferError::Overflow)));
    assert_eq!(rb.pop_front(), Some(1));
    assert_eq!(rb.pop_front(), Some(2));
    assert_eq!(rb.pop_front(), Some(3));
    assert_eq!(rb.pop_front(), None);
}

#[test]
fn extend_from_slice_empty_input_on_full_buffer() {
    let mut rb: RingBuffer<u8, 2, Ignore> = RingBuffer::new();
    rb.extend_from_slice(&[1, 2]).unwrap();
    assert!(rb.extend_from_slice(&[]).is_ok());
    assert!(rb.extend_from_slice(&[9]).is_err());
}

#[test]
fn extend_moves_elements() {
    let mut rb: RingBuffer<u8, 4, Ignore> = RingBuffer::new();
    assert!(rb.extend(vec![1, 2, 3]).is_ok());
    assert!(matches!(rb.extend(vec![4, 5]), Err(RingBufferError::Overflow)));
    assert_eq!(rb.len(), 4);
    assert_eq!(rb.pop_front(), Some(1));
    assert_eq!(rb.pop_back(), Some(4));
}

#[test]
fn extend_from_refs_copies() {
    let mut rb: RingBuffer<u8, 4, Ignore> = RingBuffer::new();
    let data = [5u8, 6, 7];
    assert!(rb.extend_from_refs(&data).is_ok());
    assert_eq!(rb.len(), 3);
    assert_eq!(rb.pop_front(), Some(5));
}

#[test]
fn wraparound_indexing() {
    let mut rb: RingBuffer<u8, 3, Ignore> = RingBuffer::new();
    rb.push_back(1).unwrap();
    rb.push_back(2).unwrap();
    assert_eq!(rb.pop_front(), Some(1));
    assert_eq!(rb.pop_front(), Some(2));
    // head has advanced; pushes now wrap physically but stay FIFO logically
    rb.push_back(3).unwrap();
    rb.push_back(4).unwrap();
    rb.push_back(5).unwrap();
    assert_eq!(rb.len(), 3);
    assert_eq!(rb.pop_front(), Some(3));
    assert_eq!(rb.pop_front(), Some(4));
    assert_eq!(rb.pop_front(), Some(5));
}

#[test]
fn ignore_overflow_result() {
    assert!(RingBufferError::result_ignore_overflow(Err(RingBufferError::Overflow)).is_ok());
    assert!(RingBufferError::result_ignore_overflow(Ok(())).is_ok());
}

#[test]
fn mutable_accessors_write_through() {
    let mut rb: RingBuffer<u8, 3, Ignore> = RingBuffer::new();
    assert!(rb.front_mut().is_none());
    assert!(rb.back_mut().is_none());
    assert!(rb.get_mut(0).is_none());
    rb.push_back(1).unwrap();
    rb.push_back(2).unwrap();
    rb.push_back(3).unwrap();
    *rb.front_mut().unwrap() = 10;
    *rb.back_mut().unwrap() = 30;
    *rb.get_mut(1).unwrap() = 20;
    assert!(rb.get_mut(3).is_none());
    assert_eq!(rb.pop_front(), Some(10));
    assert_eq!(rb.pop_front(), Some(20));
    assert_eq!(rb.pop_front(), Some(30));
}

#[test]
fn zero_capacity_buffer() {
    let mut rb: RingBuffer<u8, 0, Ignore> = RingBuffer::new();
    assert_eq!(rb.len(), 0);
    assert!(matches!(rb.push_back(1), Err(RingBufferError::Overflow)));
    assert_eq!(rb.pop_front(), None);
    assert_eq!(rb.pop_back(), None);
    assert!(rb.extend_from_slice(&[]).is_ok());
    assert!(rb.extend_from_slice(&[1]).is_err());
}

#[test]
fn capacity_one_overwrite() {
    let mut rb: RingBuffer<u8, 1, Overwrite> = RingBuffer::new();
    rb.push_back(1);
    rb.push_back(2);
    assert_eq!(rb.len(), 1);
    assert_eq!(rb.pop_front(), Some(2));
}
