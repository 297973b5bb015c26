//! Routing of request payloads to typed messages, and delivery of a typed
//! message to the one handler method of its variant.

use vstd::prelude::*;

use crate::error::Error;
use crate::frame::{Frame, Method, RequestPayload};
use crate::messages::{
    authorize_read, notify_read, reads_authorize, reads_notify, reads_set_difficulty,
    reads_submit, reads_subscribe, set_difficulty_read, submit_read, subscribe_read,
    writes_authorize, writes_notify, writes_set_difficulty, writes_submit, writes_subscribe,
    Authorize, Notify, SetDifficulty, Submit, Subscribe,
};

verus! {

/// What a client or a pool does with each request-direction message. Each
/// method is given the message and the frame it arrived in. `visits` is what
/// the handler's methods have been given, in order: each method adds its
/// own message, as that variant, and its frame, once.
pub trait Handler {
    spec fn visits(&self) -> Seq<(Message, Frame)>;

    fn visit_subscribe(&mut self, ctx: &Frame, msg: &Subscribe)
        ensures
            final(self).visits() == old(self).visits().push((Message::Subscribe(*msg), *ctx)),
    ;

    fn visit_authorize(&mut self, ctx: &Frame, msg: &Authorize)
        ensures
            final(self).visits() == old(self).visits().push((Message::Authorize(*msg), *ctx)),
    ;

    fn visit_set_difficulty(&mut self, ctx: &Frame, msg: &SetDifficulty)
        ensures
            final(self).visits() == old(self).visits().push((Message::SetDifficulty(*msg), *ctx)),
    ;

    fn visit_notify(&mut self, ctx: &Frame, msg: &Notify)
        ensures
            final(self).visits() == old(self).visits().push((Message::Notify(*msg), *ctx)),
    ;

    fn visit_submit(&mut self, ctx: &Frame, msg: &Submit)
        ensures
            final(self).visits() == old(self).visits().push((Message::Submit(*msg), *ctx)),
    ;
}

/// A typed request-direction message.
#[derive(Clone, Debug, PartialEq, Eq)]
pub enum Message {
    Subscribe(Subscribe),
    Authorize(Authorize),
    SetDifficulty(SetDifficulty),
    Notify(Notify),
    Submit(Submit),
}

impl Message {
    /// The method that tags the message on the wire.
    pub open spec fn method(self) -> Method {
        match self {
            Message::Subscribe(_) => Method::Subscribe,
            Message::Authorize(_) => Method::Authorize,
            Message::SetDifficulty(_) => Method::SetDifficulty,
            Message::Notify(_) => Method::Notify,
            Message::Submit(_) => Method::Submit,
        }
    }

    /// Picks the message type by the payload's method and converts the
    /// parameters into it.
    pub fn from_request_payload(p: RequestPayload) -> (r: Result<Message, Error>)
        ensures
            r is Ok ==> r->Ok_0.method() == p.method,
            r is Err ==> r->Err_0 == Error::ParamShape,
            p.method == Method::Subscribe ==> (r is Ok <==> reads_subscribe(p.params)),
            p.method == Method::Subscribe && r is Ok ==> r->Ok_0->Subscribe_0@ == subscribe_read(
                p.params,
            ),
            p.method == Method::Authorize ==> (r is Ok <==> reads_authorize(p.params)),
            p.method == Method::Authorize && r is Ok ==> r->Ok_0->Authorize_0@ == authorize_read(
                p.params,
            ),
            p.method == Method::SetDifficulty ==> (r is Ok <==> reads_set_difficulty(p.params)),
            p.method == Method::SetDifficulty && r is Ok ==> r->Ok_0->SetDifficulty_0
                == set_difficulty_read(p.params),
            p.method == Method::Notify ==> (r is Ok <==> reads_notify(p.params)),
            p.method == Method::Notify && r is Ok ==> r->Ok_0->Notify_0@ == notify_read(p.params),
            p.method == Method::Submit ==> (r is Ok <==> reads_submit(p.params)),
            p.method == Method::Submit && r is Ok ==> r->Ok_0->Submit_0@ == submit_read(p.params),
    {
        match p.method {
            Method::Subscribe => match Subscribe::try_from_request_payload(p) {
                Ok(m) => Ok(Message::Subscribe(m)),
                Err(e) => Err(e),
            },
            Method::Authorize => match Authorize::try_from_request_payload(p) {
                Ok(m) => Ok(Message::Authorize(m)),
                Err(e) => Err(e),
            },
            Method::SetDifficulty => match SetDifficulty::try_from_request_payload(p) {
                Ok(m) => Ok(Message::SetDifficulty(m)),
                Err(e) => Err(e),
            },
            Method::Notify => match Notify::try_from_request_payload(p) {
                Ok(m) => Ok(Message::Notify(m)),
                Err(e) => Err(e),
            },
            Method::Submit => match Submit::try_from_request_payload(p) {
                Ok(m) => Ok(Message::Submit(m)),
                Err(e) => Err(e),
            },
        }
    }

    /// The request payload of the message, tagged with its method.
    pub fn into_request_payload(self) -> (r: RequestPayload)
        ensures
            r.method == self.method(),
            self is Subscribe ==> writes_subscribe(r.params, self->Subscribe_0@),
            self is Authorize ==> writes_authorize(r.params, self->Authorize_0@),
            self is SetDifficulty ==> writes_set_difficulty(r.params, self->SetDifficulty_0),
            self is Notify ==> writes_notify(r.params, self->Notify_0@),
            self is Submit ==> writes_submit(r.params, self->Submit_0@),
    {
        match self {
            Message::Subscribe(m) => m.into_request_payload(),
            Message::Authorize(m) => m.into_request_payload(),
            Message::SetDifficulty(m) => m.into_request_payload(),
            Message::Notify(m) => m.into_request_payload(),
            Message::Submit(m) => m.into_request_payload(),
        }
    }

    /// Hands the message and its frame to the handler method of its own
    /// variant: that method runs once, and no other.
    pub fn accept<H: Handler>(&self, ctx: &Frame, handler: &mut H)
        ensures
            final(handler).visits() == old(handler).visits().push((*self, *ctx)),
    {
        match self {
            Message::Subscribe(m) => handler.visit_subscribe(ctx, m),
            Message::Authorize(m) => handler.visit_authorize(ctx, m),
            Message::SetDifficulty(m) => handler.visit_set_difficulty(ctx, m),
            Message::Notify(m) => handler.visit_notify(ctx, m),
            Message::Submit(m) => handler.visit_submit(ctx, m),
        }
    }
}

/// The id of the frame a message arrived in: a request's own id, or the id
/// of the request that a response answers.
pub open spec fn frame_id(ctx: Frame) -> Option<u64> {
    match ctx {
        Frame::Request(q) => q.id,
        Frame::Response(p) => Some(p.id),
    }
}

fn frame_id_exec(ctx: &Frame) -> (r: Option<u64>)
    ensures
        r == frame_id(*ctx),
{
    match ctx {
        Frame::Request(q) => q.id,
        Frame::Response(p) => Some(p.id),
    }
}

/// A handler that keeps, in order, each visit's method and the id of the
/// frame it came with; `seen` holds the messages and frames themselves.
pub struct VisitLog {
    pub log: Vec<(Method, Option<u64>)>,
    pub seen: Ghost<Seq<(Message, Frame)>>,
}

impl VisitLog {
    pub fn new() -> (r: VisitLog)
        ensures
            r.log@.len() == 0,
            r.seen@.len() == 0,
    {
        VisitLog { log: Vec::new(), seen: Ghost(Seq::empty()) }
    }

    fn record(&mut self, m: Method, ctx: &Frame)
        ensures
            final(self).log@ == old(self).log@.push((m, frame_id(*ctx))),
            final(self).seen == old(self).seen,
    {
        let id = frame_id_exec(ctx);
        self.log.push((m, id));
    }
}

impl Handler for VisitLog {
    open spec fn visits(&self) -> Seq<(Message, Frame)> {
        self.seen@
    }

    fn visit_subscribe(&mut self, ctx: &Frame, msg: &Subscribe) {
        self.record(Method::Subscribe, ctx);
        self.seen = Ghost(self.seen@.push((Message::Subscribe(*msg), *ctx)));
    }

    fn visit_authorize(&mut self, ctx: &Frame, msg: &Authorize) {
        self.record(Method::Authorize, ctx);
        self.seen = Ghost(self.seen@.push((Message::Authorize(*msg), *ctx)));
    }

    fn visit_set_difficulty(&mut self, ctx: &Frame, msg: &SetDifficulty) {
        self.record(Method::SetDifficulty, ctx);
        self.seen = Ghost(self.seen@.push((Message::SetDifficulty(*msg), *ctx)));
    }

    fn visit_notify(&mut self, ctx: &Frame, msg: &Notify) {
        self.record(Method::Notify, ctx);
        self.seen = Ghost(self.seen@.push((Message::Notify(*msg), *ctx)));
    }

    fn visit_submit(&mut self, ctx: &Frame, msg: &Submit) {
        self.record(Method::Submit, ctx);
        self.seen = Ghost(self.seen@.push((Message::Submit(*msg), *ctx)));
    }
}

} // verus!
