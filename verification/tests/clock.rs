use ce_integration::clock::{now_secs, reading_secs};

#[test]
fn clock_before_the_epoch_reads_as_zero() {
    assert_eq!(reading_secs(None), 0);
    assert_eq!(reading_secs(Some((1_700_000_000, 0))), 1_700_000_000);
    assert_eq!(reading_secs(Some((1_700_000_000, 999_999_999))), 1_700_000_000);
}

#[test]
fn now_follows_the_system_clock() {
    let before = std::time::SystemTime::now()
        .duration_since(std::time::UNIX_EPOCH)
        .unwrap()
        .as_secs();
    let now = now_secs();
    let after = std::time::SystemTime::now()
        .duration_since(std::time::UNIX_EPOCH)
        .unwrap()
        .as_secs();
    assert!(before <= now && now <= after);
}
