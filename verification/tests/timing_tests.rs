use b2_bench::timing::{mean_nanos, sum_nanos, Elapsed, Mean, NANOS_PER_SEC};

const NANOS_PER_MILLI: u128 = 1_000_000;

fn millis(ms: u32) -> Elapsed {
    Elapsed::new((ms / 1000) as u64, (ms % 1000) * 1_000_000).unwrap()
}

#[test]
fn elapsed_keeps_its_parts() {
    let span = Elapsed::new(3, 250_000_000).unwrap();
    assert_eq!(span.secs(), 3);
    assert_eq!(span.subsec_nanos(), 250_000_000);
}

#[test]
fn elapsed_needs_nanos_below_a_second() {
    assert_eq!(NANOS_PER_SEC, 1_000_000_000);
    assert!(Elapsed::new(0, 999_999_999).is_some());
    assert!(Elapsed::new(0, 1_000_000_000).is_none());
    assert!(Elapsed::new(5, u32::MAX).is_none());
}

#[test]
fn as_nanos_is_exact() {
    assert_eq!(Elapsed::new(0, 0).unwrap().as_nanos(), 0);
    assert_eq!(Elapsed::new(0, 1).unwrap().as_nanos(), 1);
    assert_eq!(Elapsed::new(0, 999_999_999).unwrap().as_nanos(), 999_999_999);
    assert_eq!(Elapsed::new(1, 234_567_890).unwrap().as_nanos(), 1_234_567_890);
    assert_eq!(
        Elapsed::new(u64::MAX, 999_999_999).unwrap().as_nanos(),
        18_446_744_073_709_551_615_999_999_999
    );
}

#[test]
fn as_millis_rounds_down() {
    assert_eq!(Elapsed::new(0, 0).unwrap().as_millis(), 0);
    assert_eq!(Elapsed::new(0, 999_999).unwrap().as_millis(), 0);
    assert_eq!(Elapsed::new(0, 1_000_000).unwrap().as_millis(), 1);
    assert_eq!(Elapsed::new(1, 234_567_890).unwrap().as_millis(), 1234);
    assert_eq!(Elapsed::new(u64::MAX, 999_999_999).unwrap().as_millis(), 18_446_744_073_709_551_615_999);
}

#[test]
fn mean_of_ten_twenty_thirty_is_twenty() {
    let spans = vec![millis(10), millis(20), millis(30)];
    assert_eq!(sum_nanos(&spans), Some(60 * NANOS_PER_MILLI));
    assert_eq!(
        mean_nanos(&spans),
        Some(Mean { whole: 20 * NANOS_PER_MILLI, remainder: 0, count: 3 })
    );
}

#[test]
fn mean_keeps_the_remainder() {
    let spans = vec![Elapsed::new(0, 10).unwrap(), Elapsed::new(0, 11).unwrap()];
    assert_eq!(mean_nanos(&spans), Some(Mean { whole: 10, remainder: 1, count: 2 }));
    let spans =
        vec![Elapsed::new(0, 1).unwrap(), Elapsed::new(0, 1).unwrap(), Elapsed::new(0, 3).unwrap()];
    assert_eq!(mean_nanos(&spans), Some(Mean { whole: 1, remainder: 2, count: 3 }));
}

#[test]
fn mean_of_one_span_is_the_span() {
    let spans = vec![millis(1234)];
    assert_eq!(
        mean_nanos(&spans),
        Some(Mean { whole: 1234 * NANOS_PER_MILLI, remainder: 0, count: 1 })
    );
}

#[test]
fn mean_of_nothing_is_none() {
    assert_eq!(mean_nanos(&vec![]), None);
    assert_eq!(sum_nanos(&vec![]), Some(0));
}

#[test]
fn mean_times_count_plus_remainder_is_the_sum() {
    let spans = vec![millis(7), millis(0), millis(15), millis(999), millis(31_000)];
    let total = sum_nanos(&spans).unwrap();
    assert_eq!(total, 32_021 * NANOS_PER_MILLI);
    let mean = mean_nanos(&spans).unwrap();
    assert_eq!(mean.count, 5);
    assert_eq!(mean.whole * 5 + mean.remainder, total);
    assert!(mean.remainder < 5);
    assert_eq!(mean.whole, 6_404_200_000);
    assert_eq!(mean.remainder, 0);
}

#[test]
fn sum_of_longest_spans_fits() {
    let longest = Elapsed::new(u64::MAX, 999_999_999).unwrap();
    let spans = vec![longest, longest];
    assert_eq!(sum_nanos(&spans), Some(2 * 18_446_744_073_709_551_615_999_999_999));
}

#[test]
fn mean_keeps_the_parts_of_a_millisecond() {
    let span = Elapsed::new(0, 1_500_000).unwrap();
    assert_eq!(sum_nanos(&vec![span, span]), Some(3_000_000));
    assert_eq!(mean_nanos(&vec![span, span]), Some(Mean { whole: 1_500_000, remainder: 0, count: 2 }));
}

#[test]
fn mean_of_a_hundred_short_spans_is_not_zero() {
    let spans = vec![Elapsed::new(0, 900_000).unwrap(); 100];
    assert_eq!(mean_nanos(&spans), Some(Mean { whole: 900_000, remainder: 0, count: 100 }));
}

#[test]
fn mean_of_sub_millisecond_spans_with_remainder() {
    let spans = vec![
        Elapsed::new(0, 1_500_000).unwrap(),
        Elapsed::new(0, 1_500_001).unwrap(),
        Elapsed::new(2, 0).unwrap(),
    ];
    assert_eq!(sum_nanos(&spans), Some(2_003_000_001));
    assert_eq!(mean_nanos(&spans), Some(Mean { whole: 667_666_667, remainder: 0, count: 3 }));
    let spans = vec![Elapsed::new(0, 1).unwrap(), Elapsed::new(0, 2).unwrap()];
    assert_eq!(mean_nanos(&spans), Some(Mean { whole: 1, remainder: 1, count: 2 }));
}
