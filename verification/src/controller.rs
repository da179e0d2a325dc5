//! The library object: libddcutil with a configuration and a polling thread of its
//! own, without the service around it.
use crate::ddcutil::Result;
use crate::device::{DdcRequest, Double, HeaderConstants, HALF_BITS};
use crate::poller::PollConfig;
use crate::service::{watch_displays, watch_request, StopPolling};
use vstd::prelude::*;

verus! {

/// How displays are polled, and whether events are wanted.
#[derive(Clone, Copy, Debug, PartialEq, Eq, Structural)]
pub struct DdcutilConfig {
    /// Seconds between polls, quite long: to detect displays can be slow.
    pub poll_interval_secs: u32,
    /// Seconds to the next poll after displays came or went, in case more follow.
    pub poll_cascade_secs: Double,
    pub events_enabled: bool,
}

/// The configuration at the start: polls every 30 seconds, half a second after
/// displays came or went, and no events yet.
pub open spec fn initial_config() -> DdcutilConfig {
    DdcutilConfig {
        poll_interval_secs: 30,
        poll_cascade_secs: Double { bits: HALF_BITS },
        events_enabled: false,
    }
}

impl Default for DdcutilConfig {
    fn default() -> (res: DdcutilConfig)
        ensures
            res == initial_config(),
    {
        DdcutilConfig {
            poll_interval_secs: 30,
            poll_cascade_secs: Double { bits: HALF_BITS },
            events_enabled: false,
        }
    }
}

/// What is held of the polling thread.
#[derive(Clone, Copy, Debug, PartialEq, Eq, Structural)]
pub struct PollState {
    /// A polling thread was started, and is not yet awaited.
    pub poll_thread: bool,
    /// The channel that tells the polling thread to end is held.
    pub shutdown_tx: bool,
}

/// The library object.
#[derive(Clone, Copy, Debug, PartialEq, Eq, Structural)]
pub struct Ddcutil {
    config: DdcutilConfig,
    poll_state: PollState,
}

impl Ddcutil {
    /// The configuration.
    pub closed spec fn settings(self) -> DdcutilConfig {
        self.config
    }

    /// What is held of the polling thread.
    pub closed spec fn polling(self) -> PollState {
        self.poll_state
    }

    /// An object with the configuration of the start and no polling thread.
    pub fn create() -> (res: Ddcutil)
        ensures
            res.settings() == initial_config(),
            res.polling() == (PollState { poll_thread: false, shutdown_tx: false }),
    {
        Ddcutil {
            config: DdcutilConfig::default(),
            poll_state: PollState { poll_thread: false, shutdown_tx: false },
        }
    }

    /// Decides whether a polling thread is to be started: one is, unless one is
    /// running already. `ended` tells whether the thread that is held has ended; such a
    /// thread is replaced.
    pub fn start_polling(&mut self, ended: bool) -> (spawn: bool)
        ensures
            spawn == (!old(self).polling().poll_thread || ended),
            final(self).polling() == (if spawn {
                PollState { poll_thread: true, shutdown_tx: true }
            } else {
                old(self).polling()
            }),
            final(self).settings() == old(self).settings(),
    {
        if self.poll_state.poll_thread && !ended {
            return false;
        }
        self.poll_state = PollState { poll_thread: true, shutdown_tx: true };
        true
    }

    /// Decides what is to be done so that no polling thread runs. There is nothing to
    /// do where none is held.
    pub fn stop_polling(&mut self) -> (res: StopPolling)
        ensures
            res == (StopPolling {
                send_shutdown: old(self).polling().poll_thread && old(self).polling().shutdown_tx,
                join: old(self).polling().poll_thread,
            }),
            final(self).polling() == (if old(self).polling().poll_thread {
                PollState { poll_thread: false, shutdown_tx: false }
            } else {
                old(self).polling()
            }),
            final(self).settings() == old(self).settings(),
    {
        if !self.poll_state.poll_thread {
            return StopPolling { send_shutdown: false, join: false };
        }
        let res = StopPolling { send_shutdown: self.poll_state.shutdown_tx, join: true };
        self.poll_state = PollState { poll_thread: false, shutdown_tx: false };
        res
    }

    /// The seconds between polls.
    pub fn get_poll_interval(&self) -> (res: u32)
        ensures
            res == self.settings().poll_interval_secs,
    {
        self.config.poll_interval_secs
    }

    /// Enables or disables events, and gives the call of libddcutil that starts or
    /// stops the watch over displays. What that call returns does not matter.
    pub fn set_events_enable(&mut self, enable: bool, constants: &HeaderConstants) -> (res:
        DdcRequest)
        ensures
            res == watch_request(enable, *constants),
            final(self).settings() == (DdcutilConfig {
                events_enabled: enable,
                ..old(self).settings()
            }),
            final(self).polling() == old(self).polling(),
    {
        self.config.events_enabled = enable;
        watch_displays(enable, constants)
    }

    /// Sets the seconds between polls. Any number is taken.
    pub fn set_poll_interval(&mut self, seconds: u32) -> (res: Result<()>)
        ensures
            res is Ok,
            final(self).settings() == (DdcutilConfig {
                poll_interval_secs: seconds,
                ..old(self).settings()
            }),
            final(self).polling() == old(self).polling(),
    {
        self.config.poll_interval_secs = seconds;
        Ok(())
    }

    /// The seconds to the next poll after displays came or went.
    pub fn get_cascade_interval(&self) -> (res: Double)
        ensures
            res == self.settings().poll_cascade_secs,
    {
        self.config.poll_cascade_secs
    }

    /// Sets the seconds to the next poll after displays came or went. Any number is
    /// taken.
    pub fn set_cascade_interval(&mut self, seconds: Double) -> (res: Result<()>)
        ensures
            res is Ok,
            final(self).settings() == (DdcutilConfig {
                poll_cascade_secs: seconds,
                ..old(self).settings()
            }),
            final(self).polling() == old(self).polling(),
    {
        self.config.poll_cascade_secs = seconds;
        Ok(())
    }

    /// The configuration, to read and to write.
    pub fn config(&mut self) -> (res: &mut DdcutilConfig)
        ensures
            *res == old(self).settings(),
            final(self).settings() == *final(res),
            final(self).polling() == old(self).polling(),
    {
        &mut self.config
    }

    /// Gives what the polling thread reads of the configuration. It detects displays
    /// anew before each poll.
    pub fn poll_config(&self) -> (res: PollConfig)
        ensures
            res == (PollConfig {
                interval: self.settings().poll_interval_secs,
                cascade: self.settings().poll_cascade_secs,
                do_redetect: true,
                events_enabled: self.settings().events_enabled,
            }),
    {
        PollConfig {
            interval: self.config.poll_interval_secs,
            cascade: self.config.poll_cascade_secs,
            do_redetect: true,
            events_enabled: self.config.events_enabled,
        }
    }
}

} // verus!
