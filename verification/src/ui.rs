//! What a host's user interface is configured with.

use vstd::prelude::*;

verus! {

/// The settings of the user interface.
pub struct Settings {
    target_refresh_rate: u64,
}

impl Settings {
    /// How many times a second the interface aims to draw.
    pub closed spec fn rate(&self) -> u64 {
        self.target_refresh_rate
    }

    pub fn new(target_refresh_rate: u64) -> (settings: Self)
        ensures
            settings.rate() == target_refresh_rate,
    {
        Settings { target_refresh_rate }
    }

    pub fn target_refresh_rate(&self) -> (rate: u64)
        ensures
            rate == self.rate(),
    {
        self.target_refresh_rate
    }
}

impl Default for Settings {
    /// The default aims at 60 frames a second.
    fn default() -> (settings: Self)
        ensures
            settings.rate() == 60,
    {
        let target_refresh_rate: u64 = 60;
        Self::new(target_refresh_rate)
    }
}

} // verus!
