use secure_channel::metrics::MetricsReport;

#[test]
fn csv_of_report() {
    let r = MetricsReport { worker_busy_ms: vec![(0, 5), (1, 120), (12, 0)] };
    assert_eq!(r.to_csv(), "(0:5%),(1:120%),(12:0%)");
}

#[test]
fn csv_of_empty_and_single_report() {
    assert_eq!(MetricsReport { worker_busy_ms: vec![] }.to_csv(), "");
    assert_eq!(MetricsReport { worker_busy_ms: vec![(3, 99)] }.to_csv(), "(3:99%)");
    let big = MetricsReport { worker_busy_ms: vec![(usize::MAX, u128::MAX)] };
    assert_eq!(
        big.to_csv(),
        format!("({}:{}%)", usize::MAX, u128::MAX)
    );
}
