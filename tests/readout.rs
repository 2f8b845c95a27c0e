use gpu_correction::binding::histogram_signature;
use gpu_correction::histogram::{histogram, HistogramStage};
use gpu_correction::profiler::{duration_ns, read_u64_le, ProfilerState, Resolution, TickPeriod, TimestampProfiler};
use gpu_correction::readback::{decode_samples, MapError, MapState, ReadbackChannel};
use gpu_correction::stage::{BoundResource, Command, ConfigError};

fn ticks(start: u64, end: u64) -> Vec<u8> {
    let mut b = start.to_le_bytes().to_vec();
    b.extend_from_slice(&end.to_le_bytes());
    b
}

#[test]
fn histogram_counts_every_sample_once() {
    let samples: Vec<u32> = (0..300u32).map(|i| i % 4).collect();
    let bins = histogram(&samples, 4).unwrap();
    assert_eq!(bins, vec![75, 75, 75, 75]);
    assert_eq!(bins.iter().sum::<u32>(), 300);
}

#[test]
fn histogram_of_no_samples_is_zero() {
    assert_eq!(histogram(&vec![], 5).unwrap(), vec![0; 5]);
}

#[test]
fn histogram_clamps_to_last_bin() {
    let bins = histogram(&vec![0, 9, 2, 3, 100], 3).unwrap();
    assert_eq!(bins, vec![1, 0, 4]);
}

#[test]
fn histogram_needs_bins() {
    assert_eq!(histogram(&vec![1], 0), Err(ConfigError::NoBins));
}

#[test]
fn histogram_stage_dispatch() {
    let sig = histogram_signature();
    let rs = vec![
        BoundResource { binding: sig[0], handle: 1, width: 0, height: 0 },
        BoundResource { binding: sig[1], handle: 2, width: 0, height: 0 },
    ];
    let h = HistogramStage::build_histogram(3, 4, rs.clone(), 257, 256).unwrap();
    let mut rec = Vec::new();
    h.record(&mut rec);
    assert_eq!(
        rec,
        vec![Command::SetKernel { kernel: 3 }, Command::SetBindGroup { index: 0, group: 4 }, Command::Dispatch { x: 2, y: 1, z: 1 }]
    );
    assert_eq!(HistogramStage::build_histogram(3, 4, rs.clone(), 257, 0).err(), Some(ConfigError::NoBins));
    let mut bad = rs.clone();
    bad.swap(0, 1);
    assert_eq!(HistogramStage::build_histogram(3, 4, bad, 257, 256).err(), Some(ConfigError::BindingMismatch));
}

#[test]
fn read_u64_little_endian() {
    let b = vec![9, 0x08, 0x07, 0x06, 0x05, 0x04, 0x03, 0x02, 0x01];
    assert_eq!(read_u64_le(&b, 1), 0x0102030405060708);
    assert_eq!(read_u64_le(&vec![0xff; 8], 0), u64::MAX);
}

#[test]
fn duration_is_ticks_times_period() {
    assert_eq!(duration_ns(100, 350, TickPeriod { num: 1, den: 1 }), 250);
    assert_eq!(duration_ns(0, 3, TickPeriod { num: 125, den: 10 }), 37);
    assert_eq!(duration_ns(5, 5, TickPeriod { num: 7, den: 1 }), 0);
    assert_eq!(duration_ns(0, u64::MAX, TickPeriod { num: u64::MAX, den: 1 }), (u64::MAX as u128) * (u64::MAX as u128));
}

#[test]
fn resolve_is_pending_until_ticks_arrive() {
    let period = TickPeriod { num: 2, den: 1 };
    let mut p = TimestampProfiler::new(0);
    assert_eq!(p.resolve(period), Resolution::Pending);
    let mut rec = Vec::new();
    // ticks offered before the span is closed are refused
    assert!(!p.deliver(&ticks(1, 2)));
    p.begin(&mut rec);
    assert_eq!(p.resolve(period), Resolution::Pending);
    p.end(&mut rec);
    assert_eq!(rec, vec![Command::WriteTimestamp { query: 0 }, Command::WriteTimestamp { query: 1 }]);
    assert_eq!(p.resolve(period), Resolution::Pending);
    assert!(!p.deliver(&vec![0; 15]));
    assert!(p.deliver(&ticks(1000, 1600)));
    assert_eq!(p.state, ProfilerState::Resolved { start: 1000, end: 1600 });
    assert_eq!(p.resolve(period), Resolution::Nanoseconds(1200));
}

#[test]
fn resolve_reports_end_before_start() {
    let mut p = TimestampProfiler::new(0);
    let mut rec = Vec::new();
    p.begin(&mut rec);
    p.end(&mut rec);
    assert!(p.deliver(&ticks(10, 4)));
    assert_eq!(p.resolve(TickPeriod { num: 1, den: 1 }), Resolution::NonMonotonic);
}

#[test]
fn end_without_begin_records_nothing() {
    let mut p = TimestampProfiler::new(2);
    let mut rec = Vec::new();
    p.end(&mut rec);
    assert!(rec.is_empty());
    assert_eq!(p.state, ProfilerState::Idle);
    p.begin(&mut rec);
    p.end(&mut rec);
    assert_eq!(rec, vec![Command::WriteTimestamp { query: 4 }, Command::WriteTimestamp { query: 5 }]);
}

#[test]
fn second_request_while_pending_fails() {
    let mut c = ReadbackChannel::new();
    assert_eq!(c.request_map(), Ok(()));
    assert_eq!(c.request_map(), Err(MapError::AlreadyPending));
    assert_eq!(c.state, MapState::Pending);
    assert_eq!(c.read_samples(&vec![1, 0]), Err(MapError::NotMapped));
    assert_eq!(c.complete(true), Ok(()));
    assert_eq!(c.request_map(), Err(MapError::StillMapped));
    assert_eq!(c.read_samples(&vec![7, 0, 0, 1, 9]), Ok(vec![7, 256]));
    assert_eq!(c.release(), Ok(()));
    assert_eq!(c.request_map(), Ok(()));
}

#[test]
fn failed_mapping_can_be_retried() {
    let mut c = ReadbackChannel::new();
    assert_eq!(c.complete(true), Err(MapError::NoRequest));
    assert_eq!(c.release(), Err(MapError::NotMapped));
    c.request_map().unwrap();
    assert_eq!(c.complete(false), Err(MapError::Failed));
    assert_eq!(c.state, MapState::Idle);
    assert_eq!(c.request_map(), Ok(()));
}

#[test]
fn decode_samples_little_endian() {
    assert_eq!(decode_samples(&vec![10, 0, 0xff, 0xff, 0x34, 0x12]), vec![10, 65535, 0x1234]);
    assert_eq!(decode_samples(&vec![]), Vec::<u16>::new());
}
