use fileserver::transfer::TransferStream;

#[test]
fn never_yields_more_than_limit() {
    // Limit 5: however large the buffers offered, the grants add up to at
    // most 5, even if the underlying source kept growing.
    let mut s = TransferStream::new(5);
    assert_eq!(s.len(), Some(5));
    let first = s.budget(3);
    assert_eq!(first, 3);
    s.record(first);
    assert_eq!(s.remaining(), 2);
    let second = s.budget(4);
    assert_eq!(second, 2);
    s.record(second);
    assert_eq!(s.remaining(), 0);
    let third = s.budget(10);
    assert_eq!(third, 0);
    assert_eq!(first + second + third, 5);
    assert_eq!(s.len(), Some(0));
}

#[test]
fn short_reads_keep_the_rest() {
    // The source may hand back fewer bytes than granted; only what was
    // actually delivered is charged against the limit.
    let mut s = TransferStream::new(10);
    let granted = s.budget(8);
    assert_eq!(granted, 8);
    s.record(3);
    assert_eq!(s.remaining(), 7);
    assert_eq!(s.len(), Some(7));
}

#[test]
fn zero_limit_yields_nothing() {
    let s = TransferStream::new(0);
    assert_eq!(s.budget(4096), 0);
    assert_eq!(s.len(), Some(0));
}
