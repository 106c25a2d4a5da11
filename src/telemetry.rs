//! The telemetry generator: a two-state machine that yields one position
//! sample per tick, drifting north-east from a fixed home position.
use vstd::prelude::*;
use crate::stream::Coordinates;

verus! {

/// Upper bound (exclusive) of one step, in billionths of a degree: 0.0001°.
pub const MAX_STEP: u64 = 100000;

/// Latitude of the home position, 31.9544°, in billionths of a degree.
pub const HOME_LATITUDE: i64 = 31954400000;

/// Longitude of the home position, 35.9106°, in billionths of a degree.
pub const HOME_LONGITUDE: i64 = 35910600000;

/// Which derived value a generator reports beside the position.
#[derive(PartialEq, Eq, Structural, Clone, Copy, Debug)]
pub enum Channel {
    /// The latitude step itself, as a vertical offset.
    VerticalOffset,
    /// The heading `atan(rise / run)` of the step.
    Heading,
}

/// The derived value of a sample.
#[derive(PartialEq, Eq, Structural, Clone, Copy, Debug)]
pub enum Derived {
    /// A vertical offset in billionths of a degree.
    Offset(u64),
    /// The angle `atan(rise / run)`, kept as its two legs.
    Heading { rise: u64, run: u64 },
}

/// One telemetry sample.
#[derive(Clone, Debug)]
pub struct DroneData {
    pub tid: String,
    pub bid: String,
    /// Seconds since the epoch; 0 for the home sample.
    pub timestamp: u64,
    pub coordinates: Coordinates,
    pub derived: Derived,
}

/// What a tick asks of the stream store.
#[derive(PartialEq, Eq, Structural, Clone, Copy, Debug)]
pub enum StreamAction {
    /// Delete every entry (entering the cold state).
    Reset,
    /// Append this position.
    Append(Coordinates),
}

/// The outcome of one tick: the new sample and the stream mutation it causes.
#[derive(Clone, Debug)]
pub struct Tick {
    pub sample: DroneData,
    pub action: StreamAction,
}

pub open spec fn home() -> Coordinates {
    Coordinates { latitude: HOME_LATITUDE, longitude: HOME_LONGITUDE }
}

/// The derived value of the home sample: zero in either configuration.
pub open spec fn home_derived(channel: Channel) -> Derived {
    match channel {
        Channel::VerticalOffset => Derived::Offset(0),
        Channel::Heading => Derived::Heading { rise: 0, run: 1 },
    }
}

/// The derived value of a step of `d_lat` north and `d_lon` east.
pub open spec fn derived_of(channel: Channel, d_lat: u64, d_lon: u64) -> Derived {
    match channel {
        Channel::VerticalOffset => Derived::Offset(d_lat),
        Channel::Heading => Derived::Heading { rise: d_lat, run: d_lon },
    }
}

/// The tick from the cold state.
pub open spec fn is_cold_tick(t: Tick, channel: Channel) -> bool {
    &&& t.sample.tid@ == "TID"@
    &&& t.sample.bid@ == "BID"@
    &&& t.sample.timestamp == 0
    &&& t.sample.coordinates == home()
    &&& t.sample.derived == home_derived(channel)
    &&& t.action == StreamAction::Reset
}

/// The tick from `prev` by a step of `d_lat` north and `d_lon` east at `now`.
pub open spec fn is_warm_tick(
    t: Tick,
    prev: DroneData,
    channel: Channel,
    d_lat: u64,
    d_lon: u64,
    now: u64,
) -> bool {
    &&& t.sample.tid@ == prev.tid@
    &&& t.sample.bid@ == prev.bid@
    &&& t.sample.timestamp == now
    &&& t.sample.coordinates.latitude == prev.coordinates.latitude + d_lat
    &&& t.sample.coordinates.longitude == prev.coordinates.longitude + d_lon
    &&& t.sample.derived == derived_of(channel, d_lat, d_lon)
    &&& t.action == StreamAction::Append(t.sample.coordinates)
}

/// Whether a position can take one more step without leaving `i64`.
pub open spec fn can_step(c: Coordinates) -> bool {
    c.latitude <= i64::MAX - MAX_STEP && c.longitude <= i64::MAX - MAX_STEP
}

impl Coordinates {
    /// Whether one more step from here stays within `i64`.
    pub fn can_advance(&self) -> (r: bool)
        ensures
            r == can_step(*self),
    {
        self.latitude <= i64::MAX - MAX_STEP as i64 && self.longitude <= i64::MAX - MAX_STEP as i64
    }
}

/// The generator's transition for given step lengths and clock reading: home
/// from the cold state, else one step from `prev`.
pub fn next_sample(
    prev: &Option<DroneData>,
    channel: Channel,
    d_lat: u64,
    d_lon: u64,
    now: u64,
) -> (r: Tick)
    requires
        d_lat < MAX_STEP,
        d_lon < MAX_STEP,
        prev matches Some(p) ==> can_step(p.coordinates),
    ensures
        prev is None ==> is_cold_tick(r, channel),
        prev matches Some(p) ==> is_warm_tick(r, *p, channel, d_lat, d_lon, now),
{
    match prev {
        None => {
            let derived = match channel {
                Channel::VerticalOffset => Derived::Offset(0),
                Channel::Heading => Derived::Heading { rise: 0, run: 1 },
            };
            Tick {
                sample: DroneData {
                    tid: "TID".to_string(),
                    bid: "BID".to_string(),
                    timestamp: 0,
                    coordinates: Coordinates { latitude: HOME_LATITUDE, longitude: HOME_LONGITUDE },
                    derived,
                },
                action: StreamAction::Reset,
            }
        },
        Some(p) => {
            let coordinates = Coordinates {
                latitude: p.coordinates.latitude + d_lat as i64,
                longitude: p.coordinates.longitude + d_lon as i64,
            };
            let derived = match channel {
                Channel::VerticalOffset => Derived::Offset(d_lat),
                Channel::Heading => Derived::Heading { rise: d_lat, run: d_lon },
            };
            Tick {
                sample: DroneData {
                    tid: p.tid.clone(),
                    bid: p.bid.clone(),
                    timestamp: now,
                    coordinates,
                    derived,
                },
                action: StreamAction::Append(coordinates),
            }
        },
    }
}

/// Relies on `rand::random`; nothing is known of the value drawn.
pub assume_specification<T>[ rand::random::<T> ]() -> (r: T)
    where
        rand::distributions::Standard: rand::distributions::Distribution<T>,
;

/// A step length drawn uniformly from `[0, MAX_STEP)`, by scaling a random
/// 32-bit word.
fn random_step() -> (r: u64)
    ensures
        r < MAX_STEP,
{
    let word: u32 = rand::random::<u32>();
    let w = word as u64;
    assert(w * MAX_STEP < 4294967296 * MAX_STEP) by (nonlinear_arith)
        requires
            w < 4294967296,
    ;
    assert((w * MAX_STEP) / 4294967296 < MAX_STEP) by (nonlinear_arith)
        requires
            w * MAX_STEP < 4294967296 * MAX_STEP,
    ;
    (w * MAX_STEP) / 4294967296
}

/// One tick of the generator at clock reading `now` (seconds since the
/// epoch): the home sample and a stream reset from the cold state, else a
/// random step north-east of `prev` of less than `MAX_STEP` on each axis,
/// appended to the stream.
pub fn create_fake_data(prev: &Option<DroneData>, channel: Channel, now: u64) -> (r: Tick)
    requires
        prev matches Some(p) ==> can_step(p.coordinates),
    ensures
        prev is None ==> is_cold_tick(r, channel),
        prev matches Some(p) ==> exists|d_lat: u64, d_lon: u64|
            d_lat < MAX_STEP && d_lon < MAX_STEP && is_warm_tick(r, *p, channel, d_lat, d_lon, now),
        prev matches Some(p) ==> 0 <= r.sample.coordinates.latitude - p.coordinates.latitude
            < MAX_STEP,
        prev matches Some(p) ==> 0 <= r.sample.coordinates.longitude - p.coordinates.longitude
            < MAX_STEP,
{
    match prev {
        None => next_sample(prev, channel, 0, 0, now),
        Some(_) => {
            let d_lat = random_step();
            let d_lon = random_step();
            next_sample(prev, channel, d_lat, d_lon, now)
        },
    }
}

} // verus!
