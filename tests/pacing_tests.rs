use sron::pacing::{schedule, Pacer};

const MS: u64 = 1_000_000;

#[test]
fn two_ms_period_over_ten_ms_admits_five() {
    let v = schedule(2 * MS, 10 * MS, None).unwrap();
    assert_eq!(v, vec![0, 2 * MS, 4 * MS, 6 * MS, 8 * MS]);
}

#[test]
fn admission_count_rounds_up() {
    let v = schedule(3, 10, None).unwrap();
    assert_eq!(v, vec![0, 3, 6, 9]);
    let w = schedule(5, 10, None).unwrap();
    assert_eq!(w, vec![0, 5]);
}

#[test]
fn zero_duration_admits_nothing() {
    assert_eq!(schedule(5, 0, None).unwrap().len(), 0);
    assert_eq!(schedule(1, 0, Some(10)).unwrap().len(), 0);
    assert_eq!(schedule(u64::MAX, 0, Some(0)).unwrap().len(), 0);
}

#[test]
fn empty_source_admits_nothing() {
    assert_eq!(schedule(1, 100, Some(0)).unwrap().len(), 0);
}

#[test]
fn bounded_source_stops_admission() {
    assert_eq!(schedule(1, 100, Some(3)).unwrap(), vec![0, 1, 2]);
    assert_eq!(schedule(40, 100, Some(30)).unwrap(), vec![0, 40, 80]);
}

#[test]
fn zero_period_is_refused() {
    assert!(schedule(0, 100, None).is_none());
    assert!(Pacer::new(0, 100).is_none());
}

#[test]
fn targets_strictly_increase() {
    let v = schedule(2 * MS, 10 * MS, None).unwrap();
    for k in 1..v.len() {
        assert!(v[k - 1] < v[k]);
    }
}

#[test]
fn pacer_stops_at_run_end() {
    let mut p = Pacer::new(4, 9).unwrap();
    assert_eq!(p.next_target(), Some(0));
    assert_eq!(p.next_target(), Some(4));
    assert_eq!(p.next_target(), Some(8));
    assert_eq!(p.next_target(), None);
    assert_eq!(p.next_target(), None);
}

#[test]
fn pacer_near_the_largest_offset() {
    let mut p = Pacer::new(u64::MAX / 2 + 1, u64::MAX).unwrap();
    assert_eq!(p.next_target(), Some(0));
    assert_eq!(p.next_target(), Some(u64::MAX / 2 + 1));
    assert_eq!(p.next_target(), None);
    let v = schedule(u64::MAX, u64::MAX, None).unwrap();
    assert_eq!(v, vec![0]);
}
