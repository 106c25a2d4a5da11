use drone_bridge::stream::{Coordinates, StreamStore};
use drone_bridge::telemetry::{
    create_fake_data, next_sample, Channel, Derived, StreamAction, HOME_LATITUDE, HOME_LONGITUDE, MAX_STEP,
};

#[test]
fn cold_start_yields_home_and_clears_the_stream() {
    let mut stream = StreamStore::new();
    stream.append(Coordinates { latitude: 1, longitude: 2 });
    let t = create_fake_data(&None, Channel::Heading, 1_700_000_000);
    assert_eq!(t.sample.coordinates, Coordinates { latitude: 31_954_400_000, longitude: 35_910_600_000 });
    assert_eq!(t.sample.timestamp, 0);
    assert_eq!(t.sample.tid, "TID");
    assert_eq!(t.sample.bid, "BID");
    assert_eq!(t.action, StreamAction::Reset);
    stream.perform(t.action);
    assert!(stream.window(50).is_empty());
    let next = create_fake_data(&Some(t.sample), Channel::Heading, 1_700_000_001);
    stream.perform(next.action);
    assert_eq!(stream.window(50).len(), 1);
}

#[test]
fn home_derived_value_is_zero() {
    assert_eq!(create_fake_data(&None, Channel::VerticalOffset, 5).sample.derived, Derived::Offset(0));
    assert_eq!(
        create_fake_data(&None, Channel::Heading, 5).sample.derived,
        Derived::Heading { rise: 0, run: 1 }
    );
    assert_eq!(HOME_LATITUDE, 31_954_400_000);
    assert_eq!(HOME_LONGITUDE, 35_910_600_000);
}

#[test]
fn warm_steps_drift_north_east_by_less_than_max_step() {
    let mut prev = Some(create_fake_data(&None, Channel::VerticalOffset, 0).sample);
    for now in 1..200u64 {
        let t = create_fake_data(&prev, Channel::VerticalOffset, now);
        let p = prev.unwrap();
        let d_lat = t.sample.coordinates.latitude - p.coordinates.latitude;
        let d_lon = t.sample.coordinates.longitude - p.coordinates.longitude;
        assert!(0 <= d_lat && d_lat < MAX_STEP as i64);
        assert!(0 <= d_lon && d_lon < MAX_STEP as i64);
        assert_eq!(t.sample.timestamp, now);
        assert_eq!(t.action, StreamAction::Append(t.sample.coordinates));
        assert_eq!(t.sample.derived, Derived::Offset(d_lat as u64));
        prev = Some(t.sample);
    }
}

#[test]
fn warm_step_is_additive() {
    let home = create_fake_data(&None, Channel::Heading, 0).sample;
    let t = next_sample(&Some(home), Channel::Heading, 10, 20, 1234);
    assert_eq!(t.sample.coordinates, Coordinates { latitude: 31_954_400_010, longitude: 35_910_600_020 });
    assert_eq!(t.sample.derived, Derived::Heading { rise: 10, run: 20 });
    assert_eq!(t.sample.timestamp, 1234);
    assert_eq!(t.action, StreamAction::Append(t.sample.coordinates));
    let v = next_sample(&Some(t.sample), Channel::VerticalOffset, 99_999, 0, 1235);
    assert_eq!(v.sample.coordinates.latitude, 31_954_500_009);
    assert_eq!(v.sample.derived, Derived::Offset(99_999));
}

#[test]
fn positions_near_the_limit_cannot_advance() {
    assert!(Coordinates { latitude: 0, longitude: 0 }.can_advance());
    assert!(!Coordinates { latitude: i64::MAX, longitude: 0 }.can_advance());
    assert!(Coordinates { latitude: i64::MAX - MAX_STEP as i64, longitude: 0 }.can_advance());
}
