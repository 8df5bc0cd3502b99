use crate::color::Rgb;
use vstd::prelude::*;

verus! {

/// A timed visual effect. Times are in milliseconds.
#[derive(Debug, Copy, Clone)]
pub struct Animation {
    pub time_running: u32,
    pub step_duration: u32,
    pub duration: u32,
    pub color: Rgb,
}

impl Animation {
    /// The effect after it has run for `time_delta` more milliseconds.
    pub open spec fn aged(self, time_delta: u32) -> Animation {
        Animation { time_running: (self.time_running + time_delta) as u32, ..self }
    }

    /// A fresh effect that has not run yet.
    pub fn new(step_duration: u32, duration: u32, color: Rgb) -> (animation: Animation)
        ensures
            animation == (Animation { time_running: 0, step_duration, duration, color }),
    {
        Animation { time_running: 0, step_duration, duration, color }
    }

    /// Ages the effect by `time_delta`.
    pub fn update(&mut self, time_delta: u32)
        requires
            old(self).time_running + time_delta <= u32::MAX,
        ensures
            *final(self) == old(self).aged(time_delta),
    {
        self.time_running += time_delta;
    }

    /// The number of whole steps the effect has run through.
    pub fn step(&self) -> (step: u32)
        requires
            self.step_duration > 0,
        ensures
            step == self.time_running / self.step_duration,
    {
        self.time_running / self.step_duration
    }

    /// Whether the effect has outlived its duration.
    pub fn is_expired(&self) -> (expired: bool)
        ensures
            expired == (self.time_running > self.duration),
    {
        self.time_running > self.duration
    }
}

/// The age does not depend on how time is cut into frames: two updates in a
/// row age the effect as one update by their sum does.
pub proof fn lemma_age_adds_up(animation: Animation, first: u32, second: u32)
    requires
        animation.time_running + first + second <= u32::MAX,
    ensures
        animation.aged(first).aged(second) == animation.aged((first + second) as u32),
{
}

/// Once expired, always expired: running on never brings an effect back.
pub proof fn lemma_expired_stays_expired(animation: Animation, time_delta: u32)
    requires
        animation.time_running + time_delta <= u32::MAX,
        animation.time_running > animation.duration,
    ensures
        animation.aged(time_delta).time_running > animation.aged(time_delta).duration,
{
}

} // verus!
