use vstd::prelude::*;
use crate::catalog::PayloadFamily;

verus! {

/// Where a plugin stands in its life.
#[derive(Debug, Clone, Copy, PartialEq, Eq, Structural)]
pub enum PluginState {
    /// A boot request was sent; no answer yet.
    Booting,
    /// Booted: calls go both ways.
    Ready,
    /// A reload request was sent; new outbound requests wait for its answer.
    Reloading,
    /// A terminate request was sent.
    Terminating,
    /// The plugin is gone; its record stays for inspection.
    Terminated,
    /// Booting did not succeed.
    Failed,
}

/// A change in a plugin's life.
#[derive(Debug, Clone, Copy, PartialEq, Eq, Structural)]
pub enum LifecycleEvent {
    BootSucceeded,
    BootFailed,
    ReloadSent,
    ReloadFinished,
    TerminateSent,
    /// The plugin confirmed termination, or its channel was lost.
    Terminated,
}

/// Whether a state is final.
pub open spec fn is_final(s: PluginState) -> bool {
    s == PluginState::Terminated || s == PluginState::Failed
}

/// The state that `e` leads to from `s`, or `None` where `e` is not legal in
/// `s`.
pub open spec fn next_state(s: PluginState, e: LifecycleEvent) -> Option<PluginState> {
    match e {
        LifecycleEvent::BootSucceeded => if s == PluginState::Booting {
            Some(PluginState::Ready)
        } else {
            None
        },
        LifecycleEvent::BootFailed => if s == PluginState::Booting {
            Some(PluginState::Failed)
        } else {
            None
        },
        LifecycleEvent::ReloadSent => if s == PluginState::Ready {
            Some(PluginState::Reloading)
        } else {
            None
        },
        LifecycleEvent::ReloadFinished => if s == PluginState::Reloading {
            Some(PluginState::Ready)
        } else {
            None
        },
        LifecycleEvent::TerminateSent => if s == PluginState::Ready || s == PluginState::Reloading {
            Some(PluginState::Terminating)
        } else {
            None
        },
        LifecycleEvent::Terminated => if is_final(s) {
            None
        } else {
            Some(PluginState::Terminated)
        },
    }
}

/// Whether the host may send a request of `family` to a plugin in state `s`:
/// a boot request while booting, a terminate request while ready or
/// reloading, any other request only while ready.
pub open spec fn may_send(s: PluginState, family: PayloadFamily) -> bool {
    match family {
        PayloadFamily::Boot => s == PluginState::Booting,
        PayloadFamily::Terminate => s == PluginState::Ready || s == PluginState::Reloading,
        _ => s == PluginState::Ready,
    }
}

/// Whether a plugin in state `s` may send the host a request.
pub open spec fn may_receive_request(s: PluginState) -> bool {
    s == PluginState::Ready
}

/// Whether replies from a plugin in state `s` are still matched.
pub open spec fn may_receive_reply(s: PluginState) -> bool {
    !is_final(s)
}

impl PluginState {
    /// The state that `e` leads to, or `None` where `e` is not legal here.
    pub fn next(self, e: LifecycleEvent) -> (r: Option<PluginState>)
        ensures
            r == next_state(self, e),
    {
        match e {
            LifecycleEvent::BootSucceeded => if self == PluginState::Booting {
                Some(PluginState::Ready)
            } else {
                None
            },
            LifecycleEvent::BootFailed => if self == PluginState::Booting {
                Some(PluginState::Failed)
            } else {
                None
            },
            LifecycleEvent::ReloadSent => if self == PluginState::Ready {
                Some(PluginState::Reloading)
            } else {
                None
            },
            LifecycleEvent::ReloadFinished => if self == PluginState::Reloading {
                Some(PluginState::Ready)
            } else {
                None
            },
            LifecycleEvent::TerminateSent => if self == PluginState::Ready || self
                == PluginState::Reloading {
                Some(PluginState::Terminating)
            } else {
                None
            },
            LifecycleEvent::Terminated => if self.is_final() {
                None
            } else {
                Some(PluginState::Terminated)
            },
        }
    }

    /// Whether this state is final.
    pub fn is_final(self) -> (r: bool)
        ensures
            r == is_final(self),
    {
        self == PluginState::Terminated || self == PluginState::Failed
    }

    /// Whether a request of `family` may be sent to a plugin in this state.
    pub fn may_send(self, family: PayloadFamily) -> (r: bool)
        ensures
            r == may_send(self, family),
    {
        match family {
            PayloadFamily::Boot => self == PluginState::Booting,
            PayloadFamily::Terminate => self == PluginState::Ready || self == PluginState::Reloading,
            _ => self == PluginState::Ready,
        }
    }

    /// Whether a plugin in this state may send the host a request.
    pub fn may_receive_request(self) -> (r: bool)
        ensures
            r == may_receive_request(self),
    {
        self == PluginState::Ready
    }
}

/// What the host knows of one plugin.
#[derive(Debug, Clone)]
pub struct PluginRecord {
    pub ref_id: String,
    /// Declared in the boot response.
    pub name: String,
    /// Declared in the boot response.
    pub version: String,
    /// Declared in the boot response.
    pub capabilities: Vec<String>,
    pub state: PluginState,
    /// Whether the plugin was booted in watch mode.
    pub watch: bool,
}

} // verus!
