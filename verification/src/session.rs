//! The transport session's decision logic: what to deliver for each frame
//! read off the connection, what to send back, and the cooperative
//! shutdown sequence — exactly one terminal frame and exactly one native
//! exit signal, however often the transport reports the disconnect.

use vstd::prelude::*;

verus! {

use crate::codec::encode_event;
use crate::codec::encode_frame;
use crate::codec::event_wf;
use crate::codec::spec_encode_event;
use crate::codec::spec_frame;
use crate::protocol::RustToJsMessage;
use crate::protocol::UiEvent;
use crate::protocol::runtime_error_from_ui_event;
use vstd::string::StringExecFns;

/// One framed Host→Client message, ready to write to the transport.
/// Refused only when a string or blob inside is too long for the wire.
pub fn event_frame(m: &RustToJsMessage) -> (r: Option<Vec<u8>>)
    ensures
        match r {
            Some(b) => event_wf(m@) && spec_encode_event(m@).len() < 0x100000000 && b@
                == spec_frame(spec_encode_event(m@)),
            None => !event_wf(m@) || spec_encode_event(m@).len() >= 0x100000000,
        },
{
    match encode_event(m) {
        Some(payload) => encode_frame(&payload),
        None => None,
    }
}

/// The wire message a host-side event is lifted into: an error report
/// keeps its own frame shape, anything else passes through as an event.
pub open spec fn spec_lift_event(e: crate::codec::UiEventV) -> crate::codec::RustToJsMessageV {
    match e {
        crate::codec::UiEventV::RuntimeError { source, message, fatal } => crate::codec::RustToJsMessageV::RuntimeError {
            source,
            message,
            fatal,
        },
        other => crate::codec::RustToJsMessageV::UiEvent { event: other },
    }
}

/// One framed UI event, lifted into its wire message first.
pub fn ui_event_frame(event: UiEvent) -> (r: Option<Vec<u8>>)
    ensures
        match r {
            Some(b) => b@ == spec_frame(spec_encode_event(spec_lift_event(event@))),
            None => !event_wf(spec_lift_event(event@)) || spec_encode_event(
                spec_lift_event(event@),
            ).len() >= 0x100000000,
        },
{
    let m = runtime_error_from_ui_event(event);
    proof {
        assert(m@ == spec_lift_event(event@));
    }
    event_frame(&m)
}

/// One framed runtime-error report. Refused only when the report is too
/// long for the wire's 32-bit size headers: every diagnostic the
/// dispatcher emits is owed its frame.
pub fn runtime_error_frame(source: &str, message: &str, fatal: bool) -> (r: Option<Vec<u8>>)
    ensures
        match r {
            Some(b) => b@ == spec_frame(
                spec_encode_event(
                    crate::codec::RustToJsMessageV::RuntimeError {
                        source: source@,
                        message: message@,
                        fatal: fatal,
                    },
                ),
            ),
            None => !event_wf(
                crate::codec::RustToJsMessageV::RuntimeError {
                    source: source@,
                    message: message@,
                    fatal: fatal,
                },
            ) || spec_encode_event(
                crate::codec::RustToJsMessageV::RuntimeError {
                    source: source@,
                    message: message@,
                    fatal: fatal,
                },
            ).len() >= 0x100000000,
        },
{
    let m = RustToJsMessage::RuntimeError {
        source: String::from_str(source),
        message: String::from_str(message),
        fatal,
    };
    event_frame(&m)
}

/// The session's shutdown bookkeeping: the single source of truth for
/// whether the terminal frame and the native exit signal went out.
pub struct Session {
    shutdown_sent: bool,
    exit_sent: bool,
}

impl Session {
    /// Whether the terminal shutdown frame went out.
    pub closed spec fn spec_shutdown_sent(&self) -> bool {
        self.shutdown_sent
    }

    /// Whether the native exit signal went out.
    pub closed spec fn spec_exit_sent(&self) -> bool {
        self.exit_sent
    }

    /// A fresh session: nothing sent yet.
    pub fn new() -> (r: Session)
        ensures
            !r.spec_shutdown_sent(),
            !r.spec_exit_sent(),
    {
        Session { shutdown_sent: false, exit_sent: false }
    }

    /// Wind the session down after the peer disconnected or a fatal report
    /// went out: the result says whether to send the terminal shutdown
    /// frame now and whether to signal the native side to exit now — each
    /// exactly once over the session's whole life.
    pub fn wind_down(&mut self) -> (r: (bool, bool))
        ensures
            final(self).spec_shutdown_sent(),
            final(self).spec_exit_sent(),
            r.0 == !old(self).spec_shutdown_sent(),
            r.1 == !old(self).spec_exit_sent(),
    {
        let send_shutdown = !self.shutdown_sent;
        let send_exit = !self.exit_sent;
        self.shutdown_sent = true;
        self.exit_sent = true;
        (send_shutdown, send_exit)
    }
}

/// Clean-disconnect behavior: on a fresh session the first wind-down asks
/// for exactly one shutdown frame and exactly one exit signal, and every
/// later wind-down asks for neither.
pub proof fn lemma_shutdown_once(
    s0: Session,
    s1: Session,
    s2: Session,
    r1: (bool, bool),
    r2: (bool, bool),
)
    requires
        !s0.spec_shutdown_sent(),
        !s0.spec_exit_sent(),
        // first wind-down: from `s0` to `s1` yielding `r1`
        s1.spec_shutdown_sent() && s1.spec_exit_sent(),
        r1.0 == !s0.spec_shutdown_sent() && r1.1 == !s0.spec_exit_sent(),
        // second wind-down: from `s1` to `s2` yielding `r2`
        s2.spec_shutdown_sent() && s2.spec_exit_sent(),
        r2.0 == !s1.spec_shutdown_sent() && r2.1 == !s1.spec_exit_sent(),
    ensures
        r1.0 && r1.1,
        !r2.0 && !r2.1,
{
}

} // verus!
