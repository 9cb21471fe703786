//! The pause controller: three affector watchers (client, motion,
//! push notification) feed a reducer that decides whether the camera
//! stream should be active right now.

use vstd::prelude::*;

verus! {

/// Debounce window for push notifications, in milliseconds: the push
/// affector stays raised until this long after the last distinct
/// notification.
pub const PUSH_DEBOUNCE_MS: u64 = 30_000;

/// The three inputs of the reducer. Each field has a single writer:
/// the watcher of the same name.
#[derive(Clone, Copy, PartialEq, Eq, Structural, Debug)]
pub struct PauseAffectors {
    pub motion: bool,
    pub push: bool,
    pub client: bool,
}

impl PauseAffectors {
    /// All affectors start lowered.
    pub fn new() -> (r: Self)
        ensures
            !r.motion,
            !r.push,
            !r.client,
    {
        PauseAffectors { motion: false, push: false, client: false }
    }
}

/// The reducer's truth table: with both togglers on, a client must
/// be connected and motion or a push seen; with only motion on, the
/// client does not matter; with only disconnect on, only the client
/// matters. With neither the controller is not used at all.
pub open spec fn spec_should_activate(
    on_motion: bool,
    on_disconnect: bool,
    a: PauseAffectors,
) -> bool {
    if on_motion && on_disconnect {
        a.client && (a.motion || a.push)
    } else if on_motion {
        a.motion || a.push
    } else {
        a.client
    }
}

/// The reducer: maps the affector state to the activation decision.
/// It owns a permit on the camera's activation counter and toggles
/// it to match this result. Only called when the controller is in
/// use, i.e. at least one of the togglers is set.
pub fn should_activate(on_motion: bool, on_disconnect: bool, a: &PauseAffectors) -> (r: bool)
    requires
        on_motion || on_disconnect,
    ensures
        r == spec_should_activate(on_motion, on_disconnect, *a),
{
    if on_motion && on_disconnect {
        a.client && (a.motion || a.push)
    } else if on_motion {
        a.motion || a.push
    } else {
        a.client
    }
}

/// Motion detector state as the camera reports it, timestamps in
/// milliseconds.
#[derive(Clone, Copy, PartialEq, Eq, Structural, Debug)]
pub enum MdState {
    Unknown,
    Start(u64),
    Stop(u64),
}

/// Milliseconds since `t`, zero if `t` lies in the future.
pub open spec fn spec_elapsed(now_ms: u64, t: u64) -> u64 {
    if now_ms >= t {
        (now_ms - t) as u64
    } else {
        0u64
    }
}

/// The motion affector after one observation: it rises on a motion
/// start and falls only once a stop has outlived the configured
/// timeout; anything else keeps its value.
pub open spec fn spec_motion_step(active: bool, md: MdState, now_ms: u64, timeout_ms: u64) -> bool {
    if !active {
        md is Start
    } else {
        !(md matches MdState::Stop(t) && spec_elapsed(now_ms, t) > timeout_ms)
    }
}

/// The motion watcher's transition on one reported state.
pub fn motion_step(active: bool, md: &MdState, now_ms: u64, timeout_ms: u64) -> (r: bool)
    ensures
        r == spec_motion_step(active, *md, now_ms, timeout_ms),
{
    if !active {
        matches!(md, MdState::Start(_))
    } else {
        match md {
            MdState::Stop(t) => {
                let elapsed = if now_ms >= *t {
                    now_ms - *t
                } else {
                    0
                };
                elapsed <= timeout_ms
            },
            _ => true,
        }
    }
}

/// The push-notification watcher: raised by each new distinct
/// notification, lowered again once the debounce window passes with
/// no further one. Notifications are told apart by an identifier.
pub struct PushDebounce {
    /// The push affector's current value.
    pub active: bool,
    /// When `active`, the time the affector falls if nothing else
    /// arrives, in milliseconds.
    pub deadline_ms: u64,
    /// Identifier of the last notification seen, if any.
    pub last: Option<u64>,
}

impl PushDebounce {
    /// Before the first notification: lowered, nothing seen.
    pub fn new() -> (r: Self)
        ensures
            !r.active,
            r.last is None,
    {
        PushDebounce { active: false, deadline_ms: 0, last: None }
    }

    /// A notification with identifier `id` arrives at `now_ms`. A
    /// repeat of the last one changes nothing; a distinct one raises
    /// the affector and restarts the debounce window.
    pub fn on_notification(&mut self, id: u64, now_ms: u64)
        requires
            now_ms <= u64::MAX - PUSH_DEBOUNCE_MS,
        ensures
            old(self).last == Some(id) ==> *final(self) == *old(self),
            old(self).last != Some(id) ==> {
                &&& final(self).active
                &&& final(self).last == Some(id)
                &&& final(self).deadline_ms == now_ms + PUSH_DEBOUNCE_MS
            },
    {
        let repeat = match self.last {
            Some(prev) => prev == id,
            None => false,
        };
        if !repeat {
            self.last = Some(id);
            self.active = true;
            self.deadline_ms = now_ms + PUSH_DEBOUNCE_MS;
        }
    }

    /// Time passes: the affector falls exactly when the debounce
    /// deadline has been reached with no new notification.
    pub fn on_tick(&mut self, now_ms: u64)
        ensures
            final(self).active == (old(self).active && now_ms < old(self).deadline_ms),
            final(self).deadline_ms == old(self).deadline_ms,
            final(self).last == old(self).last,
    {
        if self.active && now_ms >= self.deadline_ms {
            self.active = false;
        }
    }
}

} // verus!
