use ylab::sample::{Sample, Ytf, YTF_LEN};

#[test]
fn four_channels_fill_the_first_four_slots() {
    let sample = Sample { sensory: 1, time: 1_000, read: [10u16, 20, 30, 40] };
    let ytf: Ytf<f64> = sample.into_ytf(|m: u16| f64::from(m));
    assert_eq!(ytf.sensory, 1);
    assert_eq!(ytf.time, 1_000);
    assert_eq!(
        ytf.read,
        [Some(10.0), Some(20.0), Some(30.0), Some(40.0), None, None, None, None]
    );
    assert_eq!(ytf.read.len(), YTF_LEN);
}

#[test]
fn reading_back_gives_the_widened_channels() {
    let read = [0.5f32, -1.25, 3.0, 1.0e-3, 7.0, -0.0];
    let sample = Sample { sensory: 2, time: 42, read };
    let ytf: Ytf<f64> = sample.into_ytf(|m: f32| f64::from(m));
    for i in 0..6 {
        assert_eq!(ytf.read[i], Some(f64::from(read[i])));
    }
    assert_eq!(ytf.read[6], None);
    assert_eq!(ytf.read[7], None);
}

#[test]
fn eight_channels_leave_no_slot_empty() {
    let sample = Sample { sensory: 9, time: 7, read: [1u32, 2, 3, 4, 5, 6, 7, 8] };
    let ytf: Ytf<f64> = sample.into_ytf(|m: u32| f64::from(m));
    assert_eq!(
        ytf.read,
        [Some(1.0), Some(2.0), Some(3.0), Some(4.0), Some(5.0), Some(6.0), Some(7.0), Some(8.0)]
    );
}

#[test]
fn no_channel_leaves_every_slot_empty() {
    let sample: Sample<u16, 0> = Sample { sensory: 0, time: 0, read: [] };
    let ytf: Ytf<f64> = sample.into_ytf(|m: u16| f64::from(m));
    assert_eq!(ytf.read, [None; 8]);
}

#[test]
fn contact_levels_widen_to_zero_and_one() {
    let sample = Sample { sensory: 0, time: 5, read: [true, false] };
    let ytf: Ytf<f64> = sample.into_ytf(|m: bool| f64::from(m));
    assert_eq!(ytf.read, [Some(1.0), Some(0.0), None, None, None, None, None, None]);
}

#[test]
fn one_channel_goes_to_slot_zero() {
    let sample = Sample { sensory: 4, time: u64::MAX, read: [70_000u32] };
    let ytf: Ytf<f64> = sample.into_ytf(|m: u32| f64::from(m));
    assert_eq!(ytf.time, u64::MAX);
    assert_eq!(ytf.read[0], Some(70_000.0));
    assert!(ytf.read[1..].iter().all(|slot| slot.is_none()));
}

#[test]
fn map_keeps_tag_time_and_empty_slots() {
    let ytf = Ytf {
        sensory: 3,
        time: 99,
        read: [Some(1.5f64), None, Some(-2.0), None, None, None, None, Some(0.0)],
    };
    let texts: Ytf<String> = ytf.map(|v: &f64| format!("{:.1}", v));
    assert_eq!(texts.sensory, 3);
    assert_eq!(texts.time, 99);
    assert_eq!(
        texts.read,
        [
            Some("1.5".to_string()),
            None,
            Some("-2.0".to_string()),
            None,
            None,
            None,
            None,
            Some("0.0".to_string())
        ]
    );
}
