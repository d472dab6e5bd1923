use vstd::prelude::*;

use crate::state::SensorData;
use crate::timestamp::Timestamp;

verus! {

/// How long after its last change a sensor still counts as active: ten
/// seconds, in nanoseconds.
pub const ACTIVE_WINDOW_NANOS: i128 = 10_000_000_000;

/// Whether a record last changed at `last_update` is still active at `now`.
pub open spec fn is_active(last_update: int, now: int) -> bool {
    now - last_update < ACTIVE_WINDOW_NANOS
}

/// The colour a sensor is shown in.
#[derive(Clone, Copy, Debug, PartialEq, Eq, Structural)]
pub enum CardColor {
    /// Active and on.
    On,
    /// Active and off.
    Off,
    /// Not changed within the active window.
    Stale,
}

/// The colour of a sensor in `state`, last changed at `last_update`, seen at `now`.
pub open spec fn color_spec(state: bool, last_update: int, now: int) -> CardColor {
    if !is_active(last_update, now) {
        CardColor::Stale
    } else if state {
        CardColor::On
    } else {
        CardColor::Off
    }
}

/// The colour of the sensor's card at `now`: stale once its last change is
/// at least the active window old, else by its state.
pub fn card_color(data: &SensorData, now: Timestamp) -> (r: CardColor)
    ensures
        r == color_spec(data.state, data.last_update@, now@),
{
    let last = data.last_update.unix_nanos;
    let active = if last > i128::MAX - ACTIVE_WINDOW_NANOS {
        true
    } else {
        now.unix_nanos < last + ACTIVE_WINDOW_NANOS
    };
    if !active {
        CardColor::Stale
    } else if data.state {
        CardColor::On
    } else {
        CardColor::Off
    }
}

impl CardColor {
    /// The CSS colour name.
    pub fn css_name(&self) -> (r: &'static str)
        ensures
            r@ == match self {
                CardColor::On => "cornflowerblue"@,
                CardColor::Off => "coral"@,
                CardColor::Stale => "grey"@,
            },
    {
        match self {
            CardColor::On => "cornflowerblue",
            CardColor::Off => "coral",
            CardColor::Stale => "grey",
        }
    }
}

} // verus!
