//! The session with one peer: its phases, and the choices made when writing
//! a command and collecting the answer.
//!
//! The caller owns the radio handles; the session state says what they must
//! be: a listener runs only while connected, and is started once per link.

use vstd::prelude::*;
use crate::link::LinkError;

verus! {

/// Properties a characteristic advertises.
#[derive(Clone, Copy, Debug, PartialEq, Eq, Structural)]
pub struct CharProps {
    pub read: bool,
    pub write: bool,
    pub write_without_response: bool,
    pub notify: bool,
}

/// How the answer to a command is collected.
#[derive(Clone, Copy, Debug, PartialEq, Eq, Structural)]
pub enum ReceivePlan {
    /// Wait on the listener that is already running.
    UseListener,
    /// Subscribe to notifications, start the listener, then wait on it.
    StartListener,
    /// No notifications: read the characteristic directly.
    ReadDirect,
    /// The characteristic can neither notify nor be read.
    Unsupported,
}

/// Phase of the session.
#[derive(Clone, Copy, Debug, PartialEq, Eq, Structural)]
pub enum SessionPhase {
    Idle,
    Connecting,
    /// Linked; `listener_armed` tells whether the response listener runs.
    Connected { listener_armed: bool },
}

/// The session's state.
#[derive(Clone, Copy, Debug, PartialEq, Eq, Structural)]
pub struct Session {
    pub phase: SessionPhase,
}

/// Whether a command may be written to a characteristic with `p`.
pub open spec fn spec_can_write(p: CharProps) -> bool {
    p.write || p.write_without_response
}

/// Whether a response listener runs in `phase`.
pub open spec fn listener_running(phase: SessionPhase) -> bool {
    phase matches SessionPhase::Connected { listener_armed: true }
}

impl Session {
    /// A session with no link.
    pub fn new() -> (r: Self)
        ensures
            r.phase == SessionPhase::Idle,
    {
        Session { phase: SessionPhase::Idle }
    }

    /// Starts connecting. Only an idle session may: one with a link must be
    /// torn down first, so no two links ever overlap.
    pub fn begin_connect(&mut self) -> (r: Result<(), LinkError>)
        ensures
            old(self).phase == SessionPhase::Idle ==> r is Ok && final(self).phase == SessionPhase::Connecting,
            old(self).phase != SessionPhase::Idle ==> (r matches Err(LinkError::ProtocolError(_)))
                && *final(self) == *old(self),
    {
        match self.phase {
            SessionPhase::Idle => {
                self.phase = SessionPhase::Connecting;
                Ok(())
            },
            _ => Err(LinkError::ProtocolError(String::from_str("the session is not idle"))),
        }
    }

    /// Outcome of connecting: `result` of the connect call and, after a
    /// short pause, whether the link was still up. A link that drops right
    /// after a successful connect counts as a failure.
    pub fn connect_finished(&mut self, result: Result<(), String>, still_alive: bool) -> (r: Result<(), LinkError>)
        requires
            old(self).phase == SessionPhase::Connecting,
        ensures
            (result is Ok && still_alive) ==> r is Ok
                && final(self).phase == (SessionPhase::Connected { listener_armed: false }),
            !(result is Ok && still_alive) ==> (r matches Err(LinkError::ConnectFailed(_)))
                && final(self).phase == SessionPhase::Idle,
            result is Err ==> r == Err::<(), LinkError>(LinkError::ConnectFailed(result->Err_0)),
    {
        match result {
            Err(e) => {
                self.phase = SessionPhase::Idle;
                Err(LinkError::ConnectFailed(e))
            },
            Ok(_) => {
                if still_alive {
                    self.phase = SessionPhase::Connected { listener_armed: false };
                    Ok(())
                } else {
                    self.phase = SessionPhase::Idle;
                    Err(LinkError::ConnectFailed(String::from_str("the link dropped right after connecting")))
                }
            },
        }
    }

    /// Whether a command may be written: the session is linked and the
    /// characteristic is writable.
    pub fn check_write(&self, props: CharProps) -> (r: Result<(), LinkError>)
        ensures
            r is Ok <==> (self.phase is Connected && spec_can_write(props)),
            !(self.phase is Connected) ==> r matches Err(LinkError::ConnectionDropped(_)),
            self.phase is Connected && !spec_can_write(props) ==> r matches Err(LinkError::ProtocolError(_)),
    {
        match self.phase {
            SessionPhase::Connected { .. } => {
                if props.write || props.write_without_response {
                    Ok(())
                } else {
                    Err(LinkError::ProtocolError(String::from_str("the characteristic is not writable")))
                }
            },
            _ => Err(LinkError::ConnectionDropped(String::from_str("not connected"))),
        }
    }

    /// How to collect the answer on a characteristic with `props`. A
    /// listener, once started, is reused for later answers.
    pub fn plan_receive(&mut self, props: CharProps) -> (r: Result<ReceivePlan, LinkError>)
        ensures
            !(old(self).phase is Connected) ==> (r matches Err(LinkError::ConnectionDropped(_)))
                && *final(self) == *old(self),
            old(self).phase is Connected ==> r is Ok && final(self).phase is Connected,
            old(self).phase is Connected && props.notify ==> (
                if listener_running(old(self).phase) {
                    r == Ok::<ReceivePlan, LinkError>(ReceivePlan::UseListener)
                } else {
                    r == Ok::<ReceivePlan, LinkError>(ReceivePlan::StartListener)
                } && listener_running(final(self).phase)),
            old(self).phase is Connected && !props.notify ==> *final(self) == *old(self) && (
                if props.read {
                    r == Ok::<ReceivePlan, LinkError>(ReceivePlan::ReadDirect)
                } else {
                    r == Ok::<ReceivePlan, LinkError>(ReceivePlan::Unsupported)
                }),
    {
        match self.phase {
            SessionPhase::Connected { listener_armed } => {
                if props.notify {
                    if listener_armed {
                        Ok(ReceivePlan::UseListener)
                    } else {
                        self.phase = SessionPhase::Connected { listener_armed: true };
                        Ok(ReceivePlan::StartListener)
                    }
                } else if props.read {
                    Ok(ReceivePlan::ReadDirect)
                } else {
                    Ok(ReceivePlan::Unsupported)
                }
            },
            _ => Err(LinkError::ConnectionDropped(String::from_str("not connected"))),
        }
    }

    /// The listener ended on its own (its stream closed): it must be started
    /// again before the next answer.
    pub fn listener_ended(&mut self)
        ensures
            !listener_running(final(self).phase),
            old(self).phase is Connected ==> final(self).phase == (SessionPhase::Connected { listener_armed: false }),
            !(old(self).phase is Connected) ==> *final(self) == *old(self),
    {
        if let SessionPhase::Connected { .. } = self.phase {
            self.phase = SessionPhase::Connected { listener_armed: false };
        }
    }

    /// Tears the session down. Returns whether a listener must be stopped;
    /// the link is closed in any case and a failure to close is tolerated.
    pub fn disconnect(&mut self) -> (r: bool)
        ensures
            r == listener_running(old(self).phase),
            final(self).phase == SessionPhase::Idle,
    {
        let armed = match self.phase {
            SessionPhase::Connected { listener_armed } => listener_armed,
            _ => false,
        };
        self.phase = SessionPhase::Idle;
        armed
    }
}

} // verus!
