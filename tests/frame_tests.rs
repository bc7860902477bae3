use media_frame::errors::MediaError;
use media_frame::format::SampleFormat;
use media_frame::frame::{pts_nanos, Frame, Rational, SampleSlot};

const SENTINEL: i32 = i32::MIN;

fn tb(num: i32, den: i32) -> Rational {
    Rational { num, den }
}

fn slot(channel: usize, segment: usize, offset: usize) -> SampleSlot {
    SampleSlot { channel, segment, offset }
}

#[test]
fn format_tags_round_trip() {
    for tag in 0..10 {
        let f = SampleFormat::from_ffi(tag).expect("known tag");
        assert_eq!(f.to_ffi(), tag);
        assert_eq!(f.is_planar(), tag >= 5);
    }
    assert_eq!(SampleFormat::from_ffi(0), Some(SampleFormat::U8(false)));
    assert_eq!(SampleFormat::from_ffi(1), Some(SampleFormat::S16(false)));
    assert_eq!(SampleFormat::from_ffi(4), Some(SampleFormat::Double(false)));
    assert_eq!(SampleFormat::from_ffi(8), Some(SampleFormat::Float(true)));
    assert_eq!(SampleFormat::from_ffi(7), Some(SampleFormat::S32(true)));
}

#[test]
fn unknown_format_tags_decode_to_nothing() {
    for tag in [-1, 10, 11, 12, 100, i32::MIN, i32::MAX] {
        assert_eq!(SampleFormat::from_ffi(tag), None);
    }
}

#[test]
fn unknown_tag_fails_construction() {
    let r = Frame::from_parts(11, 4, 2, 0, tb(1, 48000));
    assert!(matches!(r, Err(MediaError::UnsupportedFormat)));
    let r = Frame::from_parts(-1, 4, 2, 0, tb(1, 48000));
    assert!(matches!(r, Err(MediaError::UnsupportedFormat)));
}

#[test]
fn planar_capacity_is_samples_per_channel() {
    let f = Frame::from_parts(6, 1024, 2, 0, tb(1, 44100)).unwrap();
    assert_eq!(f.capacity(), 1024);
    assert_eq!(f.channels(), 2);
    assert_eq!(f.format(), SampleFormat::S16(true));
}

#[test]
fn packed_capacity_counts_all_channels() {
    let f = Frame::from_parts(1, 1024, 2, 0, tb(1, 44100)).unwrap();
    assert_eq!(f.capacity(), 2048);
    assert_eq!(f.channels(), 2);
    assert_eq!(f.format(), SampleFormat::S16(false));
}

#[test]
fn planar_traversal_order() {
    let mut f = Frame::from_parts(8, 3, 2, 0, tb(1, 1)).unwrap();
    assert!(!f.drained());
    let slots = f.remaining_slots();
    assert_eq!(
        slots,
        vec![
            slot(0, 0, 0),
            slot(1, 1, 0),
            slot(0, 0, 1),
            slot(1, 1, 1),
            slot(0, 0, 2),
            slot(1, 1, 2),
        ]
    );
    assert!(f.drained());
    assert_eq!(f.next(), None);
}

#[test]
fn packed_traversal_order() {
    let mut f = Frame::from_parts(3, 3, 2, 0, tb(1, 1)).unwrap();
    let slots = f.remaining_slots();
    assert_eq!(
        slots,
        vec![
            slot(0, 0, 0),
            slot(1, 0, 1),
            slot(0, 0, 2),
            slot(1, 0, 3),
            slot(0, 0, 4),
            slot(1, 0, 5),
        ]
    );
    assert!(f.drained());
    assert_eq!(f.next(), None);
}

#[test]
fn layouts_agree_on_channel_and_time() {
    for c in 1..5usize {
        for s in 0..6usize {
            let mut p = Frame::from_parts(9, s, c, 0, tb(1, 1)).unwrap();
            let mut q = Frame::from_parts(4, s, c, 0, tb(1, 1)).unwrap();
            let a = p.remaining_slots();
            let b = q.remaining_slots();
            assert_eq!(a.len(), s * c);
            assert_eq!(b.len(), s * c);
            for k in 0..s * c {
                assert_eq!(a[k].channel, k % c);
                assert_eq!(b[k].channel, k % c);
                assert_eq!(a[k].offset, k / c);
                assert_eq!(b[k].offset / c, k / c);
            }
        }
    }
}

#[test]
fn next_steps_one_sample() {
    let mut f = Frame::from_parts(5, 1, 3, 0, tb(1, 1)).unwrap();
    assert_eq!(f.next(), Some(slot(0, 0, 0)));
    assert!(!f.drained());
    assert_eq!(f.next(), Some(slot(1, 1, 0)));
    assert_eq!(f.next(), Some(slot(2, 2, 0)));
    assert!(f.drained());
    assert_eq!(f.next(), None);
    assert_eq!(f.next(), None);
}

#[test]
fn empty_frame_is_drained() {
    let mut f = Frame::from_parts(2, 0, 2, 0, tb(1, 1)).unwrap();
    assert_eq!(f.capacity(), 0);
    assert!(f.drained());
    assert_eq!(f.next(), None);
    assert!(f.remaining_slots().is_empty());
}

#[test]
fn traversal_never_reads_past_capacity() {
    for tag in 0..10 {
        for c in 1..4usize {
            let s = 4usize;
            let mut f = Frame::from_parts(tag, s, c, 0, tb(1, 1)).unwrap();
            let planar = f.format().is_planar();
            let segments = if planar { c } else { 1 };
            let len = if planar { s } else { s * c };
            // Each segment holds its samples, then a run of sentinels.
            let buf: Vec<Vec<i32>> = (0..segments)
                .map(|seg| {
                    let mut v: Vec<i32> = (0..len).map(|i| (seg * 1000 + i) as i32).collect();
                    v.extend(std::iter::repeat(SENTINEL).take(len));
                    v
                })
                .collect();
            let mut seen = 0;
            while let Some(sl) = f.next() {
                assert!(sl.segment < segments);
                assert_ne!(buf[sl.segment][sl.offset], SENTINEL);
                seen += 1;
            }
            assert_eq!(seen, s * c);
        }
    }
}

#[test]
fn timestamp_one_second() {
    assert_eq!(pts_nanos(48000, tb(1, 48000)), 1_000_000_000);
    let f = Frame::from_parts(1, 16, 2, 48000, tb(1, 48000)).unwrap();
    assert_eq!(f.pts_nanos(), 1_000_000_000);
    assert_eq!(f.pts().num_nanoseconds(), Some(1_000_000_000));
    assert_eq!(f.pts(), chrono::Duration::seconds(1));
}

#[test]
fn timestamp_rounds_toward_zero() {
    assert_eq!(pts_nanos(1, tb(1, 3)), 333_333_333);
    assert_eq!(pts_nanos(-1, tb(1, 3)), -333_333_333);
    assert_eq!(pts_nanos(1, tb(-1, 3)), -333_333_333);
    assert_eq!(pts_nanos(0, tb(1, 90000)), 0);
    assert_eq!(pts_nanos(90000, tb(1, 90000)), 1_000_000_000);
    assert_eq!(pts_nanos(3, tb(1001, 30000)), 100_100_000);
}

#[test]
fn timestamp_saturates() {
    assert_eq!(pts_nanos(i64::MAX, tb(i32::MAX, 1)), i64::MAX);
    assert_eq!(pts_nanos(i64::MIN, tb(i32::MAX, 1)), i64::MIN);
    let f = Frame::from_parts(0, 1, 1, i64::MAX, tb(1, 1)).unwrap();
    assert_eq!(f.pts_nanos(), i64::MAX);
    assert_eq!(f.pts().num_nanoseconds(), Some(i64::MAX));
}

#[test]
fn fresh_frame_pts_is_kept() {
    let f = Frame::from_parts(9, 8, 1, -24000, tb(1, 48000)).unwrap();
    assert_eq!(f.pts_nanos(), -500_000_000);
    assert_eq!(f.pts().num_milliseconds(), -500);
}
