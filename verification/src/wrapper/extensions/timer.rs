//! The timer on which the wrapper looks for a new bundle.

use vstd::prelude::*;

verus! {

/// Period of the bundle check, in milliseconds.
pub const BUNDLE_CHECK_PERIOD_MS: u32 = 200;

/// The wrapper's own timer at the outer host.
pub struct WrapperTimerHandler {
    is_initialized: bool,
    bundle_check_timer: Option<u32>,
}

impl WrapperTimerHandler {
    /// Whether registration has been attempted.
    pub closed spec fn initialized(&self) -> bool {
        self.is_initialized
    }

    /// The id of the registered timer, if registration succeeded.
    pub closed spec fn timer(&self) -> Option<u32> {
        self.bundle_check_timer
    }

    /// No timer, registration not yet attempted.
    pub fn new() -> (handler: Self)
        ensures
            !handler.initialized(),
            handler.timer() is None,
    {
        WrapperTimerHandler { is_initialized: false, bundle_check_timer: None }
    }

    /// First step of the registration, made once. Returns whether a timer of
    /// `BUNDLE_CHECK_PERIOD_MS` is to be registered now: this is the first
    /// call and the host has a timer extension.
    pub fn init(&mut self, host_has_timer: bool) -> (register: bool)
        ensures
            final(self).initialized(),
            final(self).timer() == old(self).timer(),
            register == (!old(self).initialized() && host_has_timer),
    {
        if self.is_initialized {
            return false;
        }
        self.is_initialized = true;
        host_has_timer
    }

    /// Second step: what the host answered. A refusal leaves the wrapper
    /// without a timer.
    pub fn registered(&mut self, timer_id: Option<u32>)
        ensures
            final(self).initialized() == old(self).initialized(),
            final(self).timer() == match timer_id {
                Some(id) => Some(id),
                None => old(self).timer(),
            },
    {
        match timer_id {
            Some(id) => {
                self.bundle_check_timer = Some(id);
            },
            None => {},
        }
    }

    /// Whether `timer_id` is the wrapper's own timer, on which it looks for a
    /// new bundle.
    pub fn is_bundle_check(&self, timer_id: u32) -> (own: bool)
        ensures
            own == (self.timer() == Some(timer_id)),
    {
        match self.bundle_check_timer {
            Some(id) => id == timer_id,
            None => false,
        }
    }
}

} // verus!
