//! The session supervisor: owns one admitted connection end-to-end. It
//! counts the session in, walks the upgrade and greeting steps, decides the
//! message loop event by event, and on every exit path counts the session
//! out and returns its permit — exactly once.

use vstd::prelude::*;

use crate::gate::AdmissionGate;
use crate::messages::Inbound;
use crate::messages::Outbound;
use crate::messages::echo_text;
use crate::messages::greeting_text;
use crate::register::ActiveCountRegister;
use crate::register::RegisterOp;
use crate::register::apply_op;

verus! {

/// One occurrence the message loop wakes up on.
pub enum SessionEvent {
    /// The peer sent a message.
    Message(Inbound),
    /// The transport reported an error.
    TransportError,
    /// The peer's stream ended.
    EndOfStream,
    /// The keepalive sub-task signalled that a liveness probe is due.
    KeepaliveTick,
}

/// What the message loop does with one event.
pub enum LoopDecision {
    /// Keep waiting; nothing is owed.
    Continue,
    /// Send this message, then keep waiting; a failed send ends the loop.
    Reply(Outbound),
    /// Leave the message loop.
    Terminate,
}

/// A decision with its message payload abstracted to its view, so a
/// contract can state exactly which decision an event yields.
pub enum DecisionModel {
    Proceed,
    SendText(Seq<char>),
    SendProbe,
    Stop,
}

/// The view of an executable decision.
pub open spec fn decision_model(d: LoopDecision) -> DecisionModel {
    match d {
        LoopDecision::Continue => DecisionModel::Proceed,
        LoopDecision::Reply(Outbound::Text(t)) => DecisionModel::SendText(t@),
        LoopDecision::Reply(Outbound::Ping) => DecisionModel::SendProbe,
        LoopDecision::Terminate => DecisionModel::Stop,
    }
}

/// The decision the supervisor owes for each event: echo a text message,
/// account a binary message without replying, continue past liveness
/// frames (the transport answers them itself), stop on a peer close, a
/// transport error or end of stream, and emit a liveness probe when the
/// keepalive signal fires.
pub open spec fn decide(e: SessionEvent) -> DecisionModel {
    match e {
        SessionEvent::Message(m) => match m {
            Inbound::Text(t) => DecisionModel::SendText(echo_text(t@)),
            Inbound::Binary(_) => DecisionModel::Proceed,
            Inbound::Close => DecisionModel::Stop,
            Inbound::Ping(_) => DecisionModel::Proceed,
            Inbound::Pong(_) => DecisionModel::Proceed,
        },
        SessionEvent::TransportError => DecisionModel::Stop,
        SessionEvent::EndOfStream => DecisionModel::Stop,
        SessionEvent::KeepaliveTick => DecisionModel::SendProbe,
    }
}

/// Where a session stands in its lifetime.
#[derive(Clone, Copy, PartialEq, Eq, Structural)]
pub enum SessionPhase {
    /// Admitted and counted; the upgrade has not yet run.
    Admitted,
    /// Upgraded; the greeting has not yet been sent.
    Greeting,
    /// Greeted; the message loop is running.
    Established,
    /// Counted out; the permit has been returned.
    Terminated,
}

/// Supervisor of one admitted session.
pub struct SessionSupervisor {
    phase: SessionPhase,
    greetings_sent: u32,
    has_echoed: bool,
}

impl SessionSupervisor {
    pub closed spec fn phase(&self) -> SessionPhase {
        self.phase
    }

    pub closed spec fn greetings_sent(&self) -> nat {
        self.greetings_sent as nat
    }

    pub closed spec fn has_echoed(&self) -> bool {
        self.has_echoed
    }

    /// Lifecycle invariant: at most one greeting ever goes out, a session
    /// past the greeting step has sent exactly one, and nothing before it.
    pub open spec fn wf(&self) -> bool {
        &&& self.greetings_sent() <= 1
        &&& (self.phase() is Admitted || self.phase() is Greeting) ==> self.greetings_sent() == 0
        &&& self.phase() is Established ==> self.greetings_sent() == 1
        &&& self.has_echoed() ==> self.greetings_sent() == 1
    }

    /// Try-once admission of one connection: on a free slot, take a permit,
    /// count the session in and hand back its supervisor; on a full gate,
    /// admit nothing and change nothing — the caller then rejects.
    pub fn try_admit(gate: &mut AdmissionGate, register: &mut ActiveCountRegister) -> (s: Option<
        SessionSupervisor,
    >)
        requires
            old(gate).wf(),
            old(register)@ < u32::MAX,
        ensures
            final(gate).wf(),
            final(gate).capacity() == old(gate).capacity(),
            s is Some <==> old(gate).issued() < old(gate).capacity(),
            s matches Some(sup) ==> {
                &&& sup.wf()
                &&& sup.phase() is Admitted
                &&& !sup.has_echoed()
                &&& final(gate).issued() == old(gate).issued() + 1
                &&& final(register)@ == old(register)@ + 1
            },
            s is None ==> {
                &&& final(gate).issued() == old(gate).issued()
                &&& final(register)@ == old(register)@
            },
    {
        if gate.try_acquire() {
            register.increment();
            Some(
                SessionSupervisor {
                    phase: SessionPhase::Admitted,
                    greetings_sent: 0,
                    has_echoed: false,
                },
            )
        } else {
            None
        }
    }

    /// The protocol upgrade succeeded; the greeting is now owed.
    pub fn upgrade_completed(&mut self)
        requires
            old(self).wf(),
            old(self).phase() is Admitted,
        ensures
            final(self).wf(),
            final(self).phase() is Greeting,
            final(self).greetings_sent() == 0,
            final(self).has_echoed() == old(self).has_echoed(),
    {
        self.phase = SessionPhase::Greeting;
    }

    /// Hand out the one greeting message and enter the message loop. It can
    /// only be taken once per session: afterwards the session is
    /// established and this step is closed off.
    pub fn take_greeting(&mut self) -> (m: String)
        requires
            old(self).wf(),
            old(self).phase() is Greeting,
        ensures
            final(self).wf(),
            final(self).phase() is Established,
            final(self).greetings_sent() == 1,
            final(self).has_echoed() == old(self).has_echoed(),
            m@ == greeting_text(),
    {
        self.greetings_sent = 1;
        self.phase = SessionPhase::Established;
        crate::messages::greeting()
    }

    /// Decide one event of the message loop.
    pub fn handle_event(&mut self, e: SessionEvent) -> (d: LoopDecision)
        requires
            old(self).wf(),
            old(self).phase() is Established,
        ensures
            final(self).wf(),
            final(self).phase() is Established,
            final(self).greetings_sent() == 1,
            decision_model(d) == decide(e),
            final(self).has_echoed() == (old(self).has_echoed() || e matches SessionEvent::Message(
                Inbound::Text(_),
            )),
    {
        match e {
            SessionEvent::Message(m) => match m {
                Inbound::Text(t) => {
                    self.has_echoed = true;
                    LoopDecision::Reply(Outbound::Text(crate::messages::echo_response(t.as_str())))
                },
                Inbound::Binary(_) => LoopDecision::Continue,
                Inbound::Close => LoopDecision::Terminate,
                Inbound::Ping(_) => LoopDecision::Continue,
                Inbound::Pong(_) => LoopDecision::Continue,
            },
            SessionEvent::TransportError => LoopDecision::Terminate,
            SessionEvent::EndOfStream => LoopDecision::Terminate,
            SessionEvent::KeepaliveTick => LoopDecision::Reply(Outbound::Ping),
        }
    }

    /// After a `Reply` decision was performed: the loop goes on exactly
    /// when the send succeeded; a failed send ends it.
    pub fn on_send_result(&mut self, sent: bool) -> (keep_going: bool)
        requires
            old(self).wf(),
            old(self).phase() is Established,
        ensures
            *final(self) == *old(self),
            keep_going == sent,
    {
        sent
    }

    /// Leave the session on any exit path: count the session out and return
    /// its permit. The phase makes this happen exactly once per session.
    pub fn terminate(&mut self, gate: &mut AdmissionGate, register: &mut ActiveCountRegister)
        requires
            old(self).wf(),
            !(old(self).phase() is Terminated),
            old(gate).wf(),
            old(gate).issued() > 0,
        ensures
            final(self).wf(),
            final(self).phase() is Terminated,
            final(self).greetings_sent() == old(self).greetings_sent(),
            final(gate).wf(),
            final(gate).capacity() == old(gate).capacity(),
            final(gate).issued() == old(gate).issued() - 1,
            final(register)@ == apply_op(old(register)@, RegisterOp::Decrement),
    {
        self.phase = SessionPhase::Terminated;
        gate.release();
        register.decrement_saturating();
    }
}

/// Every session that completes the upgrade receives exactly one greeting
/// before any echo: an established session has sent exactly one greeting,
/// and a session that has echoed anything had already sent its greeting.
pub proof fn lemma_one_greeting_before_echo(s: SessionSupervisor)
    requires
        s.wf(),
    ensures
        s.phase() is Established ==> s.greetings_sent() == 1,
        s.has_echoed() ==> s.greetings_sent() == 1,
        (s.phase() is Admitted || s.phase() is Greeting) ==> !s.has_echoed(),
{
}

/// A peer-initiated close frame ends the message loop: the decision owed
/// for it is `Stop`, and the terminate step that follows decrements the
/// active count by one (see `SessionSupervisor::terminate`).
pub proof fn lemma_close_stops_loop()
    ensures
        decide(SessionEvent::Message(Inbound::Close)) is Stop,
        decide(SessionEvent::TransportError) is Stop,
        decide(SessionEvent::EndOfStream) is Stop,
{
}

/// A keepalive signal never ends the session: the decision owed for it is
/// to emit a liveness probe and keep the loop running.
pub proof fn lemma_keepalive_keeps_session_open()
    ensures
        decide(SessionEvent::KeepaliveTick) is SendProbe,
        !(decide(SessionEvent::KeepaliveTick) is Stop),
{
}

} // verus!
