use zos_apps::words::parse_i32;
use zos_apps::latency::{burst_rate, latency_summary, sort_samples, LatencySummary};

#[test]
fn samples_come_out_ascending_with_the_same_values() {
    assert_eq!(sort_samples(&vec![5, 1, 4, 1, 9]), vec![1, 1, 4, 5, 9]);
    assert_eq!(sort_samples(&vec![]), Vec::<u64>::new());
    assert_eq!(sort_samples(&vec![7]), vec![7]);
    let sorted = sort_samples(&vec![3, 3, 2, 8, 0, 2]);
    assert!(sorted.windows(2).all(|w| w[0] <= w[1]));
    let mut expected = vec![3, 3, 2, 8, 0, 2];
    expected.sort();
    assert_eq!(sorted, expected);
}

#[test]
fn latency_figures() {
    assert_eq!(
        latency_summary(&vec![30, 10, 20, 40]),
        Some(LatencySummary { count: 4, min: 10, max: 40, avg: 25, median: 30 })
    );
    assert_eq!(
        latency_summary(&vec![7, 2, 9]),
        Some(LatencySummary { count: 3, min: 2, max: 9, avg: 6, median: 7 })
    );
    assert_eq!(latency_summary(&vec![]), None);
    assert_eq!(
        latency_summary(&vec![u64::MAX]),
        Some(LatencySummary { count: 1, min: u64::MAX, max: u64::MAX, avg: u64::MAX, median: u64::MAX })
    );
}

#[test]
fn burst_rates() {
    assert_eq!(burst_rate(100, 2_000_000_000), 50);
    assert_eq!(burst_rate(3, 1_000), 3_000_000);
    assert_eq!(burst_rate(5, 0), 0);
    assert_eq!(burst_rate(0, 10), 0);
}

#[test]
fn signed_counts_parse_as_i32_does() {
    let p = |s: &str| parse_i32(&s.chars().collect::<Vec<char>>());
    assert_eq!(p("42"), Some(42));
    assert_eq!(p("+42"), Some(42));
    assert_eq!(p("-42"), Some(-42));
    assert_eq!(p("-2147483648"), Some(i32::MIN));
    assert_eq!(p("2147483647"), Some(i32::MAX));
    assert_eq!(p("2147483648"), None);
    assert_eq!(p("-2147483649"), None);
    assert_eq!(p("-"), None);
    assert_eq!(p("+-1"), None);
    assert_eq!(p("-+1"), None);
    assert_eq!(p(""), None);
    assert_eq!(p("1x"), None);
    for s in ["0", "-0", "17", "-99999", "+5", "99999999999999999999999"] {
        assert_eq!(p(s), s.parse::<i32>().ok());
    }
}

#[test]
fn latency_figures_keep_their_order() {
    for samples in [vec![5u64, 1, 9, 3], vec![7], vec![2, 2, 2], vec![100, 1, 1, 1, 1, 1000]] {
        let s = latency_summary(&samples).unwrap();
        assert!(s.min <= s.median && s.median <= s.max);
        assert!(s.min <= s.avg && s.avg <= s.max);
    }
}
