use playback_core::ring::RingBuffer;

#[test]
fn new_ring_is_empty() {
    let ring = RingBuffer::new(8);
    assert_eq!(ring.available_read(), 0);
    assert_eq!(ring.available_write(), 7);
}

#[test]
fn write_then_read_returns_same_samples() {
    let mut ring = RingBuffer::new(8);
    let data: Vec<u32> = vec![10, 20, 30];
    assert_eq!(ring.write(&data), 3);
    assert_eq!(ring.available_read(), 3);
    let mut out: Vec<u32> = vec![0; 3];
    assert_eq!(ring.read(&mut out), 3);
    assert_eq!(out, vec![10, 20, 30]);
    assert_eq!(ring.available_read(), 0);
}

#[test]
fn write_accepts_only_what_fits() {
    // one slot is kept empty: capacity 8 holds at most 7
    let mut ring = RingBuffer::new(8);
    let data: Vec<u32> = (0..10).collect();
    let n = ring.write(&data);
    assert_eq!(n, 7);
    assert_eq!(ring.available_write(), 0);
    // a full buffer accepts nothing: no unread slot is overwritten
    assert_eq!(ring.write(&data), 0);
    let mut out: Vec<u32> = vec![0; 7];
    assert_eq!(ring.read(&mut out), 7);
    assert_eq!(out, (0..7).collect::<Vec<u32>>());
}

#[test]
fn accounting_invariant_holds_at_every_step() {
    // available_read + available_write == capacity - 1, at every point
    let mut ring = RingBuffer::new(16);
    let chunk: Vec<u32> = (100..105).collect();
    let mut out: Vec<u32> = vec![0; 3];
    for _ in 0..20 {
        ring.write(&chunk);
        assert_eq!(ring.available_read() + ring.available_write(), 15);
        ring.read(&mut out);
        assert_eq!(ring.available_read() + ring.available_write(), 15);
    }
}

#[test]
fn fifo_order_is_kept_across_wrap_around() {
    // any interleaving of writes and reads: what comes out is a prefix,
    // in order, of what went in
    let mut ring = RingBuffer::new(8);
    let mut written: Vec<u32> = Vec::new();
    let mut read_back: Vec<u32> = Vec::new();
    let mut next: u32 = 0;
    for step in 0..50 {
        let burst: usize = 1 + (step % 3);
        let data: Vec<u32> = (next..next + burst as u32).collect();
        let n = ring.write(&data);
        for v in data.iter().take(n) {
            written.push(*v);
        }
        next += n as u32;
        let mut out: Vec<u32> = vec![0; 1 + (step % 2)];
        let m = ring.read(&mut out);
        for v in out.iter().take(m) {
            read_back.push(*v);
        }
    }
    assert!(read_back.len() <= written.len());
    assert_eq!(&written[..read_back.len()], &read_back[..]);
}

#[test]
fn short_read_fills_prefix_only() {
    let mut ring = RingBuffer::new(8);
    let data: Vec<u32> = vec![1, 2];
    ring.write(&data);
    let mut out: Vec<u32> = vec![9, 9, 9, 9];
    let n = ring.read(&mut out);
    assert_eq!(n, 2);
    assert_eq!(out, vec![1, 2, 9, 9]);
}

#[test]
fn clear_resets_everything() {
    let mut ring = RingBuffer::new(8);
    let data: Vec<u32> = vec![1, 2, 3];
    ring.write(&data);
    ring.clear();
    assert_eq!(ring.available_read(), 0);
    assert_eq!(ring.available_write(), 7);
}
