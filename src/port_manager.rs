//! The device handle manager: owns one channel's device and decides when a
//! handle may be issued and when the device must be reopened first.
//!
//! Opening and cloning device handles is I/O, done by the caller; `P` is the
//! type of the live handle that the manager keeps.
use vstd::prelude::*;

use crate::data_block::SerialConnectionSettings;

verus! {

/// How many handles may be issued from one opening of the device.
pub const HANDLE_THRESHOLD: usize = 2;

/// How long to wait after a failed attempt to reopen the device.
pub const REOPEN_RETRY_MS: u64 = 100;

/// What a request for a handle calls for.
#[derive(Clone, Copy, Debug, PartialEq, Eq, Structural)]
pub enum PortRequest {
    /// Clone the current handle and hand the clone out.
    Issue,
    /// Reopen the device with the manager's settings, give the new handle to
    /// `replace_port`, and ask again.
    Reopen,
    /// The limit is reached and there are no settings to reopen with.
    Unreconnectable,
}

/// What follows an attempt to reopen the device.
#[derive(Clone, Copy, Debug, PartialEq, Eq, Structural)]
pub enum ReopenStep {
    /// The device is open: hand the new handle to `replace_port`.
    Done,
    /// The attempt failed: wait this many milliseconds and try again.
    WaitAndRetry(u64),
}

/// How reopening a device is retried: without end, at a fixed interval.
#[derive(Clone, Copy, Debug, PartialEq, Eq, Structural)]
pub struct RetryPolicy {
    pub interval_ms: u64,
}

impl RetryPolicy {
    /// Retries every `REOPEN_RETRY_MS` milliseconds.
    pub fn reopen_default() -> (r: RetryPolicy)
        ensures
            r.interval_ms == REOPEN_RETRY_MS,
    {
        RetryPolicy { interval_ms: REOPEN_RETRY_MS }
    }

    /// No failure to reopen is final: a device that went away is expected
    /// to come back.
    pub fn after_attempt(&self, opened: bool) -> (r: ReopenStep)
        ensures
            r == if opened {
                ReopenStep::Done
            } else {
                ReopenStep::WaitAndRetry(self.interval_ms)
            },
    {
        if opened {
            ReopenStep::Done
        } else {
            ReopenStep::WaitAndRetry(self.interval_ms)
        }
    }
}

/// What a request for a handle calls for, when `index` handles were issued
/// since the device was opened, and the count after it.
pub open spec fn give_outcome(index: nat, can_reopen: bool) -> (PortRequest, nat) {
    if index < HANDLE_THRESHOLD {
        (PortRequest::Issue, index + 1)
    } else if can_reopen {
        (PortRequest::Reopen, index)
    } else {
        (PortRequest::Unreconnectable, index)
    }
}

/// Owns one channel's device handle and the count of clones issued from it.
pub struct SerialPortManager<P> {
    settings: Option<SerialConnectionSettings>,
    port: P,
    index: usize,
}

impl<P> SerialPortManager<P> {
    /// Handles issued since the device was last opened.
    pub closed spec fn index(&self) -> nat {
        self.index as nat
    }

    /// Where to reopen the device from, if it can be reopened.
    pub closed spec fn reopen_settings(&self) -> Option<SerialConnectionSettings> {
        self.settings
    }

    /// The live handle.
    pub closed spec fn live_port(&self) -> P {
        self.port
    }

    /// The count never passes the limit.
    pub open spec fn wf(&self) -> bool {
        self.index() <= HANDLE_THRESHOLD
    }

    /// A manager for a device opened from `settings`, which it can reopen.
    pub fn with_settings(settings: SerialConnectionSettings, port: P) -> (r: Self)
        ensures
            r.wf(),
            r.index() == 0,
            r.reopen_settings() == Some(settings),
            r.live_port() == port,
    {
        SerialPortManager { settings: Some(settings), port, index: 0 }
    }

    /// A manager for a handle opened elsewhere, which it cannot reopen.
    pub fn with_port(port: P) -> (r: Self)
        ensures
            r.wf(),
            r.index() == 0,
            r.reopen_settings() is None,
            r.live_port() == port,
    {
        SerialPortManager { settings: None, port, index: 0 }
    }

    /// Asks for a handle. Below the limit the request is counted and the
    /// current handle is to be cloned; at the limit the device must be
    /// reopened first.
    pub fn give_port(&mut self) -> (r: PortRequest)
        requires
            old(self).wf(),
        ensures
            final(self).wf(),
            (r, final(self).index()) == give_outcome(old(self).index(), old(self).reopen_settings() is Some),
            final(self).reopen_settings() == old(self).reopen_settings(),
            final(self).live_port() == old(self).live_port(),
    {
        if self.index < HANDLE_THRESHOLD {
            self.index = self.index + 1;
            PortRequest::Issue
        } else if self.settings.is_some() {
            PortRequest::Reopen
        } else {
            PortRequest::Unreconnectable
        }
    }

    /// Puts a freshly opened handle in place; the count starts again.
    pub fn replace_port(&mut self, port: P)
        ensures
            final(self).wf(),
            final(self).index() == 0,
            final(self).reopen_settings() == old(self).reopen_settings(),
            final(self).live_port() == port,
    {
        self.port = port;
        self.index = 0;
    }

    /// The live handle, to clone a handle from.
    pub fn port(&self) -> (r: &P)
        ensures
            *r == self.live_port(),
    {
        &self.port
    }

    /// Where to reopen the device from, if it can be reopened.
    pub fn settings(&self) -> (r: &Option<SerialConnectionSettings>)
        ensures
            *r == self.reopen_settings(),
    {
        &self.settings
    }

    /// Handles issued since the device was last opened.
    pub fn issued(&self) -> (r: usize)
        ensures
            r == self.index(),
    {
        self.index
    }
}

/// From a freshly opened device two requests are served at once, and the
/// third calls for a reopen (or cannot be served, without settings); after
/// the reopen the count is back at zero and a handle is issued again.
pub proof fn lemma_reopen_after_threshold(can_reopen: bool)
    ensures
        ({
            let (r1, i1) = give_outcome(0, can_reopen);
            let (r2, i2) = give_outcome(i1, can_reopen);
            let (r3, i3) = give_outcome(i2, can_reopen);
            &&& r1 == PortRequest::Issue
            &&& r2 == PortRequest::Issue
            &&& i2 == HANDLE_THRESHOLD
            &&& r3 == if can_reopen {
                PortRequest::Reopen
            } else {
                PortRequest::Unreconnectable
            }
            &&& i3 == HANDLE_THRESHOLD
            &&& give_outcome(0, can_reopen) == (PortRequest::Issue, 1nat)
        }),
{
}

} // verus!
