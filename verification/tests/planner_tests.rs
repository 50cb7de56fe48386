use nunu_cli::plan::{part_range, plan_parts};
use nunu_cli::progress::ProgressCounter;

#[test]
fn test_plan_parts_uneven() {
    let parts = plan_parts(10, 3);
    assert_eq!(parts.len(), 4);
    let expected = [(1u64, 0u64, 3u64), (2, 3, 6), (3, 6, 9), (4, 9, 10)];
    for (i, (pn, s, e)) in expected.iter().enumerate() {
        assert_eq!(parts[i].part_number, *pn);
        assert_eq!(parts[i].start, *s);
        assert_eq!(parts[i].end, *e);
    }
}

#[test]
fn test_plan_parts_even() {
    let parts = plan_parts(9, 3);
    assert_eq!(parts.len(), 3);
    assert_eq!(parts[2].start, 6);
    assert_eq!(parts[2].end, 9);
}

#[test]
fn test_plan_parts_single() {
    let parts = plan_parts(5, 10);
    assert_eq!(parts.len(), 1);
    assert_eq!(parts[0].part_number, 1);
    assert_eq!(parts[0].start, 0);
    assert_eq!(parts[0].end, 5);
}

#[test]
fn test_plan_parts_one_byte() {
    let parts = plan_parts(1, 1);
    assert_eq!(parts.len(), 1);
    assert_eq!(parts[0].end, 1);
}

#[test]
fn test_plan_parts_cover_contiguous() {
    let parts = plan_parts(1000, 64);
    assert_eq!(parts.len(), 16);
    assert_eq!(parts[0].start, 0);
    for w in parts.windows(2) {
        assert_eq!(w[0].end, w[1].start);
    }
    assert_eq!(parts[parts.len() - 1].end, 1000);
    for p in parts.iter() {
        assert!(p.end - p.start <= 64);
        assert!(p.end > p.start);
    }
}

#[test]
fn test_part_range_matches_plan() {
    let parts = plan_parts(10, 3);
    for p in parts.iter() {
        let (s, e) = part_range(p.part_number, 3, 10, 4);
        assert_eq!(s, p.start);
        assert_eq!(e, p.end);
    }
}

#[test]
fn test_progress_counter_monotone_and_capped() {
    let mut c = ProgressCounter::new(10);
    assert_eq!(c.current(), 0);
    c.advance(4);
    assert_eq!(c.current(), 4);
    c.advance(3);
    assert_eq!(c.current(), 7);
    assert!(!c.is_complete());
    c.advance(100);
    assert_eq!(c.current(), 10);
    assert!(c.is_complete());
    c.advance(1);
    assert_eq!(c.current(), 10);
}
