use mo::ring::RingBuffer;

fn window_of(rb: &RingBuffer) -> Vec<bool> {
    let mut out = Vec::new();
    let mut it = rb.iter();
    while let Some(x) = it.next() {
        out.push(x);
    }
    out
}

#[test]
fn fresh_buffer_is_clear() {
    let rb = RingBuffer::new(4);
    assert_eq!(rb.len(), 4);
    assert_eq!(window_of(&rb), vec![false, false, false]);
}

#[test]
fn capacity_one_has_empty_window() {
    let mut rb = RingBuffer::new(1);
    assert_eq!(window_of(&rb), Vec::<bool>::new());
    rb.sample(true);
    assert_eq!(window_of(&rb), Vec::<bool>::new());
    assert!(!rb.slot(0));
}

#[test]
fn n_presses_fill_the_window() {
    let n = 6;
    let mut rb = RingBuffer::new(n);
    for _ in 0..n {
        rb.sample(true);
    }
    let w = window_of(&rb);
    assert_eq!(w.len(), n - 1);
    assert!(w.iter().all(|&x| x));
}

#[test]
fn release_clears_only_the_oldest_slot() {
    let n = 5;
    let mut rb = RingBuffer::new(n);
    for _ in 0..n {
        rb.sample(true);
    }
    let before: Vec<bool> = (0..n).map(|i| rb.slot(i)).collect();
    rb.sample(false);
    let after: Vec<bool> = (0..n).map(|i| rb.slot(i)).collect();
    let changed: Vec<usize> = (0..n).filter(|&i| before[i] != after[i]).collect();
    assert_eq!(changed.len(), 1);
    assert!(before[changed[0]]);
    assert!(!after[changed[0]]);
    assert_eq!(window_of(&rb), vec![true, true, true, false]);
}

#[test]
fn window_slides_in_order() {
    let mut rb = RingBuffer::new(4);
    rb.sample(true);
    rb.sample(false);
    rb.sample(true);
    rb.sample(true);
    rb.sample(false);
    assert_eq!(window_of(&rb), vec![true, true, false]);
}

#[test]
fn iterator_restarts() {
    let mut rb = RingBuffer::new(3);
    rb.sample(true);
    assert_eq!(window_of(&rb), vec![false, true]);
    assert_eq!(window_of(&rb), vec![false, true]);
}

#[test]
fn stretch_after_oldest() {
    let mut rb = RingBuffer::new(5);
    rb.sample(true);
    rb.sample(false);
    rb.sample(true);
    // window: false, true, false, true
    let mut it = rb.window(2, 0);
    assert_eq!(it.next(), Some(true));
    assert_eq!(it.next(), Some(false));
    assert_eq!(it.next(), None);
    let mut it = rb.window(3, 1);
    assert_eq!(it.next(), Some(false));
    assert_eq!(it.next(), Some(true));
    assert_eq!(it.next(), Some(false));
    assert_eq!(it.next(), None);
    let mut it = rb.window(5, 0);
    assert_eq!(it.next(), None);
}
