use engine::stats::{CfStatistics, FlowStatistics, GcKeysCF, GcKeysDetail, ScanInfo, Statistics, StatisticsSummary};

fn sample() -> CfStatistics {
    CfStatistics {
        processed_keys: 1,
        get: 2,
        next: 3,
        prev: 4,
        seek: 5,
        seek_for_prev: 6,
        over_seek_bound: 7,
        flow_stats: FlowStatistics { read_keys: 8, read_bytes: 9 },
    }
}

#[test]
fn total_op_count_sums_operations() {
    assert_eq!(sample().total_op_count(), 20);
    assert_eq!(CfStatistics::default().total_op_count(), 0);
}

#[test]
fn details_lists_counters() {
    let d = sample().details();
    assert_eq!(d[0], ("processed_keys", 1));
    assert_eq!(d[5], ("seek_for_prev", 6));
    assert_eq!(d[6], ("over_seek_bound", 7));
    let e = sample().details_enum();
    assert_eq!(e[1], (GcKeysDetail::get, 2));
    assert_eq!(e[6], (GcKeysDetail::over_seek_bound, 7));
}

#[test]
fn add_saturates() {
    let mut a = sample();
    a.add(&sample());
    assert_eq!(a.get, 4);
    assert_eq!(a.flow_stats.read_bytes, 18);
    assert_eq!(a.flow_stats.read_keys, 16);
    let mut big = CfStatistics::default();
    big.seek = usize::MAX - 1;
    big.add(&sample());
    assert_eq!(big.seek, usize::MAX);
}

#[test]
fn scan_info_reports_processed_and_total() {
    assert_eq!(sample().scan_info(), ScanInfo { processed: 1, total: 20 });
}

#[test]
fn statistics_by_column_family() {
    let mut s = Statistics::default();
    s.mut_cf_statistics("lock").get = 3;
    s.mut_cf_statistics("").next = 4;
    s.mut_cf_statistics("default").prev = 5;
    s.mut_cf_statistics("write").seek = 6;
    assert_eq!(s.lock.get, 3);
    assert_eq!(s.data.next, 4);
    assert_eq!(s.data.prev, 5);
    assert_eq!(s.write.seek, 6);
    let d = s.details();
    assert_eq!(d[0].0, "default");
    assert_eq!(d[1].0, "lock");
    assert_eq!(d[2].0, "write");
    assert_eq!(d[1].1[1], ("get", 3));
    let e = s.details_enum();
    assert_eq!(e[2].0, GcKeysCF::write);
    let detail = s.scan_detail();
    assert_eq!(detail.data, ScanInfo { processed: 0, total: 9 });
    assert_eq!(detail.lock.total, 3);
    assert_eq!(detail.write.total, 6);
}

#[test]
fn summary_counts_requests() {
    let mut sum = StatisticsSummary::default();
    let mut s = Statistics::default();
    s.data = sample();
    sum.add_statistics(&s);
    sum.add_statistics(&s);
    assert_eq!(sum.count, 2);
    assert_eq!(sum.stat.data.get, 4);
    assert_eq!(sum.stat.lock, CfStatistics::default());
}
