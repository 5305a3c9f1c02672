//! The dispatcher: the decisions taken for one request, from its arrival to
//! the one response that goes back to the transport.
//!
//! The caller performs each [`Action`] (invoking the callback, running the
//! handshake, spawning the session and awaiting its reply, opening a file)
//! and reports its outcome as an [`Event`]. Whatever the events, the first
//! response is also the last: every later step answers [`Action::Idle`].
use vstd::prelude::*;
use crate::response::{
    BodySource, ResponseDescriptor, ResponsePlan, Responder, descriptor_valid, is_fallback,
    plain_response,
};
use crate::wire::{valid_headers, valid_status};
use vstd::utf8::encode_utf8;

verus! {

/// Where the handling of a request stands.
pub enum Stage {
    /// The request has arrived; nothing was decided yet.
    Start,
    /// The plain HTTP callback was invoked.
    AwaitCallback,
    /// The WebSocket handshake is under way.
    AwaitHandshake,
    /// The session runs; its reply is awaited on the reply channel.
    AwaitSession,
    /// The response is ready but for its file, which is being opened.
    AwaitFile(ResponsePlan),
    /// The response has been given.
    Done,
}

/// The outcome of the last action, or the arrival of the request.
pub enum Event {
    /// The request arrived; `upgrade` tells whether it asks for a WebSocket
    /// upgrade.
    Arrived { upgrade: bool },
    /// The plain HTTP callback returned a descriptor, or failed (`None`).
    CallbackDone(Option<ResponseDescriptor>),
    /// The handshake succeeded, or failed with the given description.
    HandshakeDone(Result<(), String>),
    /// The reply channel gave a response (`true`), or closed without one.
    SessionReplied(bool),
    /// The file of a planned file body was opened, or could not be.
    FileOpened(bool),
}

/// What the caller does next.
pub enum Action {
    /// Invoke the plain HTTP callback with the scope.
    InvokeCallback,
    /// Mark the scope as a WebSocket scope and run the handshake.
    Negotiate,
    /// Spawn the session task and await one value from the reply channel.
    SpawnSession,
    /// Open the file at this path.
    OpenFile(String),
    /// Send this response; the request is finished.
    Respond(ResponsePlan),
    /// Send the response that the reply channel gave; the request is
    /// finished.
    ForwardReply,
    /// Nothing: the response has already been given.
    Idle,
}

/// How many steps at most remain before the response from `s`.
pub open spec fn steps_left(s: Stage) -> nat {
    match s {
        Stage::Start => 3,
        Stage::AwaitCallback => 2,
        Stage::AwaitHandshake => 2,
        Stage::AwaitSession => 1,
        Stage::AwaitFile(_) => 1,
        Stage::Done => 0,
    }
}

/// Whether `a` sends the response of the request.
pub open spec fn sends(a: Action) -> bool {
    a is Respond || a is ForwardReply
}

/// The shape every step has: once done, nothing more is sent; before, a
/// step either responds and finishes, or does something else and comes
/// closer to the response.
pub open spec fn step_shape(s: Stage, t: Stage, a: Action) -> bool {
    if s is Done {
        t is Done && a is Idle
    } else if sends(a) {
        t is Done
    } else {
        !(a is Idle) && !(t is Done) && steps_left(t) < steps_left(s)
    }
}

/// How many of `acts` send a response.
pub open spec fn responses(acts: Seq<Action>) -> nat
    decreases acts.len(),
{
    if acts.len() == 0 {
        0
    } else {
        (if sends(acts[0]) { 1nat } else { 0nat }) + responses(acts.drop_first())
    }
}

/// Whether `stages` and `acts` are a run of the dispatcher: each action was
/// given on a step from one stage to the next.
pub open spec fn is_run(stages: Seq<Stage>, acts: Seq<Action>) -> bool {
    &&& stages.len() == acts.len() + 1
    &&& forall|i: int| 0 <= i < acts.len() ==> step_shape(#[trigger] stages[i], stages[i + 1], acts[i])
}

proof fn lemma_run_responses(stages: Seq<Stage>, acts: Seq<Action>)
    requires
        is_run(stages, acts),
    ensures
        stages[0] is Done ==> responses(acts) == 0,
        responses(acts) <= 1,
        !(stages[0] is Done) && acts.len() >= steps_left(stages[0]) ==> responses(acts) == 1,
    decreases acts.len(),
{
    if acts.len() > 0 {
        let rest_s = stages.drop_first();
        let rest_a = acts.drop_first();
        assert(step_shape(stages[0], stages[1], acts[0]));
        assert forall|i: int| 0 <= i < rest_a.len() implies step_shape(
            #[trigger] rest_s[i],
            rest_s[i + 1],
            rest_a[i],
        ) by {
            assert(step_shape(stages[i + 1], stages[i + 2], acts[i + 1]));
        }
        lemma_run_responses(rest_s, rest_a);
    }
}

/// Every run of the dispatcher from the arrival of a request sends at most
/// one response, and exactly one once it has taken three steps.
pub proof fn lemma_exactly_one_response(stages: Seq<Stage>, acts: Seq<Action>)
    requires
        is_run(stages, acts),
        stages[0] is Start,
    ensures
        responses(acts) <= 1,
        acts.len() >= 3 ==> responses(acts) == 1,
{
    lemma_run_responses(stages, acts);
}

/// The decisions for one request.
pub struct Dispatcher {
    /// Builds the responses that do not come from the application.
    pub responder: Responder,
    /// Whether WebSocket upgrades are handled; where they are not, an
    /// upgrade request goes to the plain callback.
    pub websockets: bool,
    pub stage: Stage,
}

impl Dispatcher {
    /// A response waiting for its file has passed the checks of
    /// [`Responder::materialize`].
    pub open spec fn wf(&self) -> bool {
        match self.stage {
            Stage::AwaitFile(p) => valid_status(p.status as int) && valid_headers(p.headers@),
            _ => true,
        }
    }

    pub fn new(responder: Responder, websockets: bool) -> (r: Dispatcher)
        ensures
            r.responder == responder,
            r.websockets == websockets,
            r.stage is Start,
            r.wf(),
    {
        Dispatcher { responder, websockets, stage: Stage::Start }
    }

    /// Whether the response has been given.
    pub fn is_done(&self) -> (r: bool)
        ensures
            r == self.stage is Done,
    {
        match self.stage {
            Stage::Done => true,
            _ => false,
        }
    }

    /// Takes the next decision on `event`.
    pub fn step(&mut self, event: Event) -> (a: Action)
        requires
            old(self).wf(),
        ensures
            final(self).wf(),
            a is Respond ==> valid_status(a->Respond_0.status as int),
            final(self).responder == old(self).responder,
            final(self).websockets == old(self).websockets,
            step_shape(old(self).stage, final(self).stage, a),
            ({
                let server = old(self).responder.server@;
                match (old(self).stage, event) {
                    (Stage::Done, _) => true,
                    (Stage::Start, Event::Arrived { upgrade }) => if upgrade && old(self).websockets {
                        a is Negotiate && final(self).stage is AwaitHandshake
                    } else {
                        a is InvokeCallback && final(self).stage is AwaitCallback
                    },
                    (Stage::AwaitCallback, Event::CallbackDone(None)) => a is Respond
                        && is_fallback(a->Respond_0, server),
                    (Stage::AwaitCallback, Event::CallbackDone(Some(d))) => if !descriptor_valid(d) {
                        a is Respond && is_fallback(a->Respond_0, server)
                    } else {
                        match d.body {
                            BodySource::Bytes(_) => a == Action::Respond(
                                ResponsePlan { status: d.status, headers: d.headers, body: d.body },
                            ),
                            BodySource::File(path) => a == Action::OpenFile(path)
                                && final(self).stage == Stage::AwaitFile(
                                ResponsePlan { status: d.status, headers: d.headers, body: d.body },
                            ),
                        }
                    },
                    (Stage::AwaitHandshake, Event::HandshakeDone(Ok(()))) => a is SpawnSession
                        && final(self).stage is AwaitSession,
                    (Stage::AwaitHandshake, Event::HandshakeDone(Err(e))) => a is Respond
                        && plain_response(a->Respond_0, 400, encode_utf8(e@), server),
                    (Stage::AwaitSession, Event::SessionReplied(true)) => a is ForwardReply,
                    (Stage::AwaitSession, Event::SessionReplied(false)) => a is Respond
                        && is_fallback(a->Respond_0, server),
                    (Stage::AwaitFile(p), Event::FileOpened(true)) => a == Action::Respond(p),
                    (Stage::AwaitFile(_), Event::FileOpened(false)) => a is Respond
                        && is_fallback(a->Respond_0, server),
                    _ => a is Respond && is_fallback(a->Respond_0, server),
                }
            }),
    {
        let mut stage = Stage::Done;
        std::mem::swap(&mut stage, &mut self.stage);
        match (stage, event) {
            (Stage::Done, _) => Action::Idle,
            (Stage::Start, Event::Arrived { upgrade }) => {
                if upgrade && self.websockets {
                    self.stage = Stage::AwaitHandshake;
                    Action::Negotiate
                } else {
                    self.stage = Stage::AwaitCallback;
                    Action::InvokeCallback
                }
            },
            (Stage::AwaitCallback, Event::CallbackDone(None)) => Action::Respond(
                self.responder.fallback(),
            ),
            (Stage::AwaitCallback, Event::CallbackDone(Some(d))) => {
                let plan = self.responder.materialize(d);
                match plan.body {
                    BodySource::File(ref path) => {
                        let path = path.clone();
                        self.stage = Stage::AwaitFile(plan);
                        Action::OpenFile(path)
                    },
                    BodySource::Bytes(_) => Action::Respond(plan),
                }
            },
            (Stage::AwaitHandshake, Event::HandshakeDone(Ok(()))) => {
                self.stage = Stage::AwaitSession;
                Action::SpawnSession
            },
            (Stage::AwaitHandshake, Event::HandshakeDone(Err(e))) => Action::Respond(
                self.responder.bad_request(e.as_str()),
            ),
            (Stage::AwaitSession, Event::SessionReplied(true)) => Action::ForwardReply,
            (Stage::AwaitFile(p), Event::FileOpened(opened)) => Action::Respond(
                self.responder.file_opened(p, opened),
            ),
            _ => Action::Respond(self.responder.fallback()),
        }
    }
}

} // verus!
