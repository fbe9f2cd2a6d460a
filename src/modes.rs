//! Cyclic selections of what a display shows: the time resolution of a
//! plotted series, and the quantity on screen.

use vstd::prelude::*;

verus! {

/// Time resolution of a plotted temperature series.
#[derive(Copy, Clone, Debug, PartialEq, Eq, Structural)]
pub enum Scale {
    Seconds,
    TenSeconds,
    Minute,
}

/// The scale after `s` in the cycle Seconds, TenSeconds, Minute.
pub open spec fn next_scale(s: Scale) -> Scale {
    match s {
        Scale::Seconds => Scale::TenSeconds,
        Scale::TenSeconds => Scale::Minute,
        Scale::Minute => Scale::Seconds,
    }
}

/// How many seconds one point of a series of scale `s` spans.
pub open spec fn scale_seconds(s: Scale) -> u32 {
    match s {
        Scale::Seconds => 1,
        Scale::TenSeconds => 10,
        Scale::Minute => 60,
    }
}

/// Position of the series of scale `s` among the resolution tiers.
pub open spec fn scale_tier(s: Scale) -> usize {
    match s {
        Scale::Seconds => 0,
        Scale::TenSeconds => 1,
        Scale::Minute => 2,
    }
}

/// The caption shown for scale `s`.
pub open spec fn scale_label(s: Scale) -> &'static str {
    match s {
        Scale::Seconds => "1 second",
        Scale::TenSeconds => "10 seconds",
        Scale::Minute => "1 minute",
    }
}

impl Scale {
    /// Moves to the next scale of the cycle.
    pub fn next(&mut self)
        ensures
            *final(self) == next_scale(*old(self)),
    {
        *self = match self {
            Scale::Seconds => Scale::TenSeconds,
            Scale::TenSeconds => Scale::Minute,
            Scale::Minute => Scale::Seconds,
        };
    }

    /// Seconds spanned by one point at this scale.
    pub fn seconds(&self) -> (r: u32)
        ensures
            r == scale_seconds(*self),
    {
        match self {
            Scale::Seconds => 1,
            Scale::TenSeconds => 10,
            Scale::Minute => 60,
        }
    }

    /// Position of this scale's series among the resolution tiers.
    pub fn tier(&self) -> (r: usize)
        ensures
            r == scale_tier(*self),
            r < 3,
    {
        match self {
            Scale::Seconds => 0,
            Scale::TenSeconds => 1,
            Scale::Minute => 2,
        }
    }

    /// The caption of this scale.
    pub fn label(&self) -> (r: &'static str)
        ensures
            r == scale_label(*self),
    {
        match self {
            Scale::Seconds => "1 second",
            Scale::TenSeconds => "10 seconds",
            Scale::Minute => "1 minute",
        }
    }
}

/// Three moves bring a scale back, after visiting every scale once.
pub proof fn lemma_scale_cycle(s: Scale)
    ensures
        next_scale(next_scale(next_scale(s))) == s,
        next_scale(s) != s,
        next_scale(next_scale(s)) != s,
        next_scale(next_scale(s)) != next_scale(s),
{
}

/// The quantity shown on a sensor display.
#[derive(Copy, Clone, Debug, PartialEq, Eq, Structural)]
pub enum OnScreen {
    Temperature,
    Humidity,
    Battery,
    Moisture,
}

/// The quantity after `s` in the cycle Temperature, Humidity, Battery,
/// Moisture.
pub open spec fn next_on_screen(s: OnScreen) -> OnScreen {
    match s {
        OnScreen::Temperature => OnScreen::Humidity,
        OnScreen::Humidity => OnScreen::Battery,
        OnScreen::Battery => OnScreen::Moisture,
        OnScreen::Moisture => OnScreen::Temperature,
    }
}

/// The title shown for quantity `s`.
pub open spec fn on_screen_title(s: OnScreen) -> &'static str {
    match s {
        OnScreen::Temperature => "Temperature",
        OnScreen::Humidity => "Humidity",
        OnScreen::Battery => "Battery",
        OnScreen::Moisture => "Moisture",
    }
}

impl OnScreen {
    /// Moves to the next quantity of the cycle.
    pub fn next(&mut self)
        ensures
            *final(self) == next_on_screen(*old(self)),
    {
        let new = match self {
            OnScreen::Temperature => OnScreen::Humidity,
            OnScreen::Humidity => OnScreen::Battery,
            OnScreen::Battery => OnScreen::Moisture,
            OnScreen::Moisture => OnScreen::Temperature,
        };
        *self = new;
    }

    /// The title of this quantity.
    pub fn title(&self) -> (r: &'static str)
        ensures
            r == on_screen_title(*self),
    {
        match self {
            OnScreen::Temperature => "Temperature",
            OnScreen::Humidity => "Humidity",
            OnScreen::Battery => "Battery",
            OnScreen::Moisture => "Moisture",
        }
    }
}

/// Four moves bring the quantity back, after visiting every quantity once.
pub proof fn lemma_on_screen_cycle(s: OnScreen)
    ensures
        next_on_screen(next_on_screen(next_on_screen(next_on_screen(s)))) == s,
        next_on_screen(s) != s,
        next_on_screen(next_on_screen(s)) != s,
        next_on_screen(next_on_screen(next_on_screen(s))) != s,
        next_on_screen(next_on_screen(s)) != next_on_screen(s),
        next_on_screen(next_on_screen(next_on_screen(s))) != next_on_screen(s),
        next_on_screen(next_on_screen(next_on_screen(s))) != next_on_screen(next_on_screen(s)),
{
}

/// Time span of the plotted series on a sensor display.
#[derive(Copy, Clone, Debug, PartialEq, Eq, Structural)]
pub enum TimeSlice {
    Second,
    Minute,
    Hour,
}

/// The span after `t` in the cycle Second, Minute, Hour.
pub open spec fn next_time_slice(t: TimeSlice) -> TimeSlice {
    match t {
        TimeSlice::Second => TimeSlice::Minute,
        TimeSlice::Minute => TimeSlice::Hour,
        TimeSlice::Hour => TimeSlice::Second,
    }
}

/// Position of the series of span `t` among the resolution tiers.
pub open spec fn time_slice_tier(t: TimeSlice) -> usize {
    match t {
        TimeSlice::Second => 0,
        TimeSlice::Minute => 1,
        TimeSlice::Hour => 2,
    }
}

/// The caption shown for span `t`.
pub open spec fn time_slice_label(t: TimeSlice) -> &'static str {
    match t {
        TimeSlice::Second => "Second",
        TimeSlice::Minute => "Minute",
        TimeSlice::Hour => "Hour",
    }
}

impl TimeSlice {
    /// Moves to the next span of the cycle.
    pub fn next(&mut self)
        ensures
            *final(self) == next_time_slice(*old(self)),
    {
        let new = match self {
            TimeSlice::Second => TimeSlice::Minute,
            TimeSlice::Minute => TimeSlice::Hour,
            TimeSlice::Hour => TimeSlice::Second,
        };
        *self = new;
    }

    /// Position of this span's series among the resolution tiers.
    pub fn tier(&self) -> (r: usize)
        ensures
            r == time_slice_tier(*self),
            r < 3,
    {
        match self {
            TimeSlice::Second => 0,
            TimeSlice::Minute => 1,
            TimeSlice::Hour => 2,
        }
    }

    /// The caption of this span.
    pub fn label(&self) -> (r: &'static str)
        ensures
            r == time_slice_label(*self),
    {
        match self {
            TimeSlice::Second => "Second",
            TimeSlice::Minute => "Minute",
            TimeSlice::Hour => "Hour",
        }
    }
}

/// Three moves bring the span back, after visiting every span once.
pub proof fn lemma_time_slice_cycle(t: TimeSlice)
    ensures
        next_time_slice(next_time_slice(next_time_slice(t))) == t,
        next_time_slice(t) != t,
        next_time_slice(next_time_slice(t)) != t,
        next_time_slice(next_time_slice(t)) != next_time_slice(t),
{
}

} // verus!
