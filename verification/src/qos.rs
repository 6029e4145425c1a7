//! Quality-of-service vocabulary for publishers.
//!
//! These are the foreign-stable counterparts of the engine's own
//! quality-of-service types; the numeric values stated here are part of the
//! stable foreign interface.

use vstd::prelude::*;

verus! {

/// What the engine does with a message when its buffers are full.
#[derive(Clone, Copy, PartialEq, Eq, Structural, Debug)]
pub enum ZenohCongestionControl {
    /// Block the sender until there is room.
    Block,
    /// Drop the message.
    Drop,
}

impl ZenohCongestionControl {
    /// The numeric value of this strategy in the foreign interface.
    pub open spec fn spec_code(self) -> u32 {
        match self {
            ZenohCongestionControl::Block => 0,
            ZenohCongestionControl::Drop => 1,
        }
    }

    /// The numeric value of this strategy in the foreign interface.
    pub fn code(self) -> (c: u32)
        ensures
            c == self.spec_code(),
    {
        match self {
            ZenohCongestionControl::Block => 0,
            ZenohCongestionControl::Drop => 1,
        }
    }

    /// The strategy with the given numeric value, if any.
    pub fn from_code(c: u32) -> (r: Option<ZenohCongestionControl>)
        ensures
            r matches Some(cc) ==> cc.spec_code() == c,
            r is None <==> c > 1,
    {
        match c {
            0 => Some(ZenohCongestionControl::Block),
            1 => Some(ZenohCongestionControl::Drop),
            _ => None,
        }
    }
}

/// Message priority: seven ordered levels, most urgent first.
///
/// A smaller level number means more urgent delivery.
#[derive(Clone, Copy, PartialEq, Eq, Structural, Debug)]
pub enum ZenohPriority {
    RealTime,
    InteractiveHigh,
    InteractiveLow,
    DataHigh,
    Data,
    DataLow,
    Background,
}

impl ZenohPriority {
    /// The numeric level of this priority in the foreign interface.
    pub open spec fn spec_level(self) -> u32 {
        match self {
            ZenohPriority::RealTime => 1,
            ZenohPriority::InteractiveHigh => 2,
            ZenohPriority::InteractiveLow => 3,
            ZenohPriority::DataHigh => 4,
            ZenohPriority::Data => 5,
            ZenohPriority::DataLow => 6,
            ZenohPriority::Background => 7,
        }
    }

    /// The numeric level of this priority in the foreign interface.
    pub fn level(self) -> (l: u32)
        ensures
            l == self.spec_level(),
    {
        match self {
            ZenohPriority::RealTime => 1,
            ZenohPriority::InteractiveHigh => 2,
            ZenohPriority::InteractiveLow => 3,
            ZenohPriority::DataHigh => 4,
            ZenohPriority::Data => 5,
            ZenohPriority::DataLow => 6,
            ZenohPriority::Background => 7,
        }
    }

    /// The priority with the given numeric level, if any.
    pub fn from_level(l: u32) -> (r: Option<ZenohPriority>)
        ensures
            r matches Some(p) ==> p.spec_level() == l,
            r is None <==> !(1 <= l <= 7),
    {
        match l {
            1 => Some(ZenohPriority::RealTime),
            2 => Some(ZenohPriority::InteractiveHigh),
            3 => Some(ZenohPriority::InteractiveLow),
            4 => Some(ZenohPriority::DataHigh),
            5 => Some(ZenohPriority::Data),
            6 => Some(ZenohPriority::DataLow),
            7 => Some(ZenohPriority::Background),
            _ => None,
        }
    }
}

/// The seven priorities occupy exactly the levels one through seven, each
/// level naming one priority, so the level is a faithful wire form.
pub proof fn lemma_priority_levels_distinct(a: ZenohPriority, b: ZenohPriority)
    ensures
        1 <= a.spec_level() <= 7,
        a.spec_level() == b.spec_level() ==> a == b,
{
}

/// Options a publisher may be declared with.
#[derive(Clone, Copy, PartialEq, Eq, Structural, Debug)]
pub struct PublisherOptions {
    pub congestion_control: ZenohCongestionControl,
    pub priority: ZenohPriority,
    pub is_express: bool,
}

/// The options used when the caller supplies none: drop on congestion,
/// ordinary data priority, no express batching.
pub fn zenoh_publisher_options_default() -> (o: PublisherOptions)
    ensures
        o == default_publisher_options(),
{
    PublisherOptions {
        congestion_control: ZenohCongestionControl::Drop,
        priority: ZenohPriority::Data,
        is_express: false,
    }
}

/// The default publisher options.
pub open spec fn default_publisher_options() -> PublisherOptions {
    PublisherOptions {
        congestion_control: ZenohCongestionControl::Drop,
        priority: ZenohPriority::Data,
        is_express: false,
    }
}

/// The options a declare operation acts on: the caller's, or the default
/// where the caller passed none.
pub fn resolve_publisher_options(requested: Option<PublisherOptions>) -> (o: PublisherOptions)
    ensures
        o == (match requested {
            Some(r) => r,
            None => default_publisher_options(),
        }),
{
    match requested {
        Some(r) => r,
        None => zenoh_publisher_options_default(),
    }
}

} // verus!
