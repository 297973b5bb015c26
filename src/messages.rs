//! The typed message catalog: one type per protocol message, each with its
//! fixed positional wire form and its conversions to and from payloads.

use vstd::prelude::*;

use crate::error::Error;
use crate::frame::{frame_of, Frame, Method, Request, RequestPayload, ResponsePayload};
use crate::primitives::{
    hex_list_from_value, hex_list_into_value, hex_list_read, hex_read, lemma_hex_list_value,
    lemma_hex_value, lemma_opt_hex_value, lemma_u32_le_value, opt_hex_read, opt_str_from_value,
    opt_str_into_value, opt_str_read, reads_hex, reads_hex_list, reads_opt_hex, reads_opt_str,
    reads_u32_le, str_from_value, u32_le_read, writes_hex, writes_hex_list, writes_opt_hex,
    writes_opt_str, writes_u32_le, ExtraNonce1, HexBytes, HexU32Le,
};
use crate::value::{check_number_text, is_number_text, is_str, Value};

verus! {

/// The items of `v` where it is an array of exactly `n` items.
fn take_array(v: Value, n: usize) -> (r: Result<Vec<Value>, Error>)
    ensures
        r is Ok <==> (v is Array && v->Array_0@.len() == n),
        r is Ok ==> r->Ok_0@ == v->Array_0@,
        r is Err ==> r->Err_0 == Error::ParamShape,
{
    match v {
        Value::Array(items) => if items.len() == n {
            Ok(items)
        } else {
            Err(Error::ParamShape)
        },
        _ => Err(Error::ParamShape),
    }
}

/// The last item of a non-empty vector, taken out.
fn take_last(items: &mut Vec<Value>) -> (r: Value)
    requires
        old(items)@.len() > 0,
    ensures
        final(items)@ == old(items)@.drop_last(),
        r == old(items)@.last(),
{
    items.pop().unwrap()
}

/// Combined user and worker name.
#[derive(Clone, Debug, PartialEq, Eq)]
pub struct UserName(pub String);

/// Identifier of a mining job.
#[derive(Clone, Debug, PartialEq, Eq)]
pub struct JobId(pub HexBytes);

/// Hash of the previous block.
#[derive(Clone, Debug, PartialEq, Eq)]
pub struct PrevHash(pub HexBytes);

/// Leading part of the coinbase transaction.
#[derive(Clone, Debug, PartialEq, Eq)]
pub struct CoinBase1(pub HexBytes);

/// Trailing part of the coinbase transaction.
#[derive(Clone, Debug, PartialEq, Eq)]
pub struct CoinBase2(pub HexBytes);

/// Merkle branch of transaction hashes leading to the coinbase.
#[derive(Clone, Debug, PartialEq, Eq)]
pub struct MerkleBranch(pub Vec<HexBytes>);

/// Version field of the block header.
#[derive(Clone, Copy, Debug, PartialEq, Eq)]
pub struct Version(pub HexU32Le);

/// Network difficulty target.
#[derive(Clone, Copy, Debug, PartialEq, Eq)]
pub struct Bits(pub HexU32Le);

/// Network time.
#[derive(Clone, Copy, Debug, PartialEq, Eq)]
pub struct Time(pub HexU32Le);

/// The client's part of the nonce extension.
#[derive(Clone, Debug, PartialEq, Eq)]
pub struct ExtraNonce2(pub HexBytes);

/// Nonce of the block header.
#[derive(Clone, Copy, Debug, PartialEq, Eq)]
pub struct Nonce(pub HexU32Le);

impl JobId {
    pub fn from_slice(job_id: &[u8]) -> (r: JobId)
        ensures
            r.0.0@ == job_id@,
    {
        let mut v: Vec<u8> = Vec::new();
        let mut i: usize = 0;
        while i < job_id.len()
            invariant
                i <= job_id@.len(),
                v@ == job_id@.subrange(0, i as int),
            decreases job_id@.len() - i,
        {
            v.push(job_id[i]);
            i = i + 1;
        }
        JobId(HexBytes(v))
    }
}

/// Fields of a Notify: job id, previous hash, coinbase parts, merkle
/// branch, version, bits, time and the clean-jobs flag.
pub type NotifyView = (Seq<u8>, Seq<u8>, Seq<u8>, Seq<u8>, Seq<Seq<u8>>, u32, u32, u32, bool);

/// New mining job notification.
#[derive(Clone, Debug, PartialEq, Eq)]
pub struct Notify(
    pub JobId,
    pub PrevHash,
    pub CoinBase1,
    pub CoinBase2,
    pub MerkleBranch,
    pub Version,
    pub Bits,
    pub Time,
    pub bool,
);

impl View for Notify {
    type V = NotifyView;

    open spec fn view(&self) -> NotifyView {
        (
            self.0.0.0@,
            self.1.0.0@,
            self.2.0.0@,
            self.3.0.0@,
            self.4.0@.map_values(|h: HexBytes| h.0@),
            self.5.0.0,
            self.6.0.0,
            self.7.0.0,
            self.8,
        )
    }
}

/// `v` is the wire form of a Notify: an array of its nine fields in order.
pub open spec fn writes_notify(v: Value, m: NotifyView) -> bool {
    &&& v is Array
    &&& v->Array_0@.len() == 9
    &&& writes_hex(v->Array_0@[0], m.0)
    &&& writes_hex(v->Array_0@[1], m.1)
    &&& writes_hex(v->Array_0@[2], m.2)
    &&& writes_hex(v->Array_0@[3], m.3)
    &&& writes_hex_list(v->Array_0@[4], m.4)
    &&& writes_u32_le(v->Array_0@[5], m.5)
    &&& writes_u32_le(v->Array_0@[6], m.6)
    &&& writes_u32_le(v->Array_0@[7], m.7)
    &&& v->Array_0@[8] == Value::Bool(m.8)
}

/// `v` can be read as a Notify.
pub open spec fn reads_notify(v: Value) -> bool {
    &&& v is Array
    &&& v->Array_0@.len() == 9
    &&& reads_hex(v->Array_0@[0])
    &&& reads_hex(v->Array_0@[1])
    &&& reads_hex(v->Array_0@[2])
    &&& reads_hex(v->Array_0@[3])
    &&& reads_hex_list(v->Array_0@[4])
    &&& reads_u32_le(v->Array_0@[5])
    &&& reads_u32_le(v->Array_0@[6])
    &&& reads_u32_le(v->Array_0@[7])
    &&& v->Array_0@[8] is Bool
}

/// The Notify that `v` is read as.
pub open spec fn notify_read(v: Value) -> NotifyView {
    (
        hex_read(v->Array_0@[0]),
        hex_read(v->Array_0@[1]),
        hex_read(v->Array_0@[2]),
        hex_read(v->Array_0@[3]),
        hex_list_read(v->Array_0@[4]),
        u32_le_read(v->Array_0@[5]),
        u32_le_read(v->Array_0@[6]),
        u32_le_read(v->Array_0@[7]),
        v->Array_0@[8]->Bool_0,
    )
}

/// The wire form of every Notify reads back as that Notify.
pub proof fn lemma_notify_round_trip(v: Value, m: NotifyView)
    requires
        writes_notify(v, m),
    ensures
        reads_notify(v),
        notify_read(v) == m,
{
    let a = v->Array_0@;
    lemma_hex_value(a[0], m.0);
    lemma_hex_value(a[1], m.1);
    lemma_hex_value(a[2], m.2);
    lemma_hex_value(a[3], m.3);
    lemma_hex_list_value(a[4], m.4);
    lemma_u32_le_value(a[5], m.5);
    lemma_u32_le_value(a[6], m.6);
    lemma_u32_le_value(a[7], m.7);
}

impl Notify {
    /// The parameter array: the nine fields in order.
    pub fn into_value(self) -> (r: Value)
        ensures
            writes_notify(r, self@),
    {
        let mut a: Vec<Value> = Vec::new();
        a.push(self.0.0.into_value());
        a.push(self.1.0.into_value());
        a.push(self.2.0.into_value());
        a.push(self.3.0.into_value());
        a.push(hex_list_into_value(self.4.0));
        a.push(self.5.0.into_value());
        a.push(self.6.0.into_value());
        a.push(self.7.0.into_value());
        a.push(Value::Bool(self.8));
        Value::Array(a)
    }

    /// Reads the parameter array; any other shape is refused.
    pub fn from_value(v: Value) -> (r: Result<Notify, Error>)
        ensures
            r is Ok <==> reads_notify(v),
            r is Ok ==> r->Ok_0@ == notify_read(v),
            r is Err ==> r->Err_0 == Error::ParamShape,
    {
        let mut a = take_array(v, 9)?;
        let ghost s = a@;
        let x8 = take_last(&mut a);
        let x7 = take_last(&mut a);
        let x6 = take_last(&mut a);
        let x5 = take_last(&mut a);
        let x4 = take_last(&mut a);
        let x3 = take_last(&mut a);
        let x2 = take_last(&mut a);
        let x1 = take_last(&mut a);
        let x0 = take_last(&mut a);
        assert(x0 == s[0] && x1 == s[1] && x2 == s[2] && x3 == s[3] && x4 == s[4]);
        assert(x5 == s[5] && x6 == s[6] && x7 == s[7] && x8 == s[8]);
        let clean = match x8 {
            Value::Bool(b) => b,
            _ => return Err(Error::ParamShape),
        };
        let job_id = HexBytes::from_value(x0)?;
        let prev_hash = HexBytes::from_value(x1)?;
        let coin_base_1 = HexBytes::from_value(x2)?;
        let coin_base_2 = HexBytes::from_value(x3)?;
        let merkle_branch = hex_list_from_value(x4)?;
        let version = HexU32Le::from_value(x5)?;
        let bits = HexU32Le::from_value(x6)?;
        let time = HexU32Le::from_value(x7)?;
        Ok(
            Notify(
                JobId(job_id),
                PrevHash(prev_hash),
                CoinBase1(coin_base_1),
                CoinBase2(coin_base_2),
                MerkleBranch(merkle_branch),
                Version(version),
                Bits(bits),
                Time(time),
                clean,
            ),
        )
    }

    /// A request payload tagged `mining.notify`.
    pub fn into_request_payload(self) -> (r: RequestPayload)
        ensures
            r.method == Method::Notify,
            writes_notify(r.params, self@),
    {
        RequestPayload { method: Method::Notify, params: self.into_value() }
    }

    /// The Notify that a payload tagged `mining.notify` carries.
    pub fn try_from_request_payload(p: RequestPayload) -> (r: Result<Notify, Error>)
        ensures
            p.method != Method::Notify ==> r == Err::<Notify, Error>(Error::MethodMismatch),
            p.method == Method::Notify ==> (r is Ok <==> reads_notify(p.params)),
            p.method == Method::Notify && r is Ok ==> r->Ok_0@ == notify_read(p.params),
            p.method == Method::Notify && r is Err ==> r->Err_0 == Error::ParamShape,
    {
        if p.method != Method::Notify {
            return Err(Error::MethodMismatch);
        }
        Notify::from_value(p.params)
    }

    pub fn job_id(&self) -> (r: &[u8])
        ensures
            r@ == self.0.0.0@,
    {
        self.0.0.0.as_slice()
    }

    pub fn prev_hash(&self) -> (r: &[u8])
        ensures
            r@ == self.1.0.0@,
    {
        self.1.0.0.as_slice()
    }

    pub fn coin_base_1(&self) -> (r: &[u8])
        ensures
            r@ == self.2.0.0@,
    {
        self.2.0.0.as_slice()
    }

    pub fn coin_base_2(&self) -> (r: &[u8])
        ensures
            r@ == self.3.0.0@,
    {
        self.3.0.0.as_slice()
    }

    pub fn merkle_branch(&self) -> (r: &Vec<HexBytes>)
        ensures
            r == &self.4.0,
    {
        &self.4.0
    }

    pub fn version(&self) -> (r: u32)
        ensures
            r == self.5.0.0,
    {
        self.5.0.0
    }

    pub fn bits(&self) -> (r: u32)
        ensures
            r == self.6.0.0,
    {
        self.6.0.0
    }

    pub fn time(&self) -> (r: u32)
        ensures
            r == self.7.0.0,
    {
        self.7.0.0
    }

    pub fn clean_jobs(&self) -> (r: bool)
        ensures
            r == self.8,
    {
        self.8
    }
}

/// Fields of a Submit: user name, job id, extra nonce 2, time, nonce, version.
pub type SubmitView = (Seq<char>, Seq<u8>, Seq<u8>, u32, u32, u32);

/// A share submitted by the client.
#[derive(Clone, Debug, PartialEq, Eq)]
pub struct Submit(pub UserName, pub JobId, pub ExtraNonce2, pub Time, pub Nonce, pub Version);

impl View for Submit {
    type V = SubmitView;

    open spec fn view(&self) -> SubmitView {
        (self.0.0@, self.1.0.0@, self.2.0.0@, self.3.0.0, self.4.0.0, self.5.0.0)
    }
}

/// `v` is the wire form of a Submit: an array of its six fields in order.
pub open spec fn writes_submit(v: Value, m: SubmitView) -> bool {
    &&& v is Array
    &&& v->Array_0@.len() == 6
    &&& is_str(v->Array_0@[0], m.0)
    &&& writes_hex(v->Array_0@[1], m.1)
    &&& writes_hex(v->Array_0@[2], m.2)
    &&& writes_u32_le(v->Array_0@[3], m.3)
    &&& writes_u32_le(v->Array_0@[4], m.4)
    &&& writes_u32_le(v->Array_0@[5], m.5)
}

/// `v` can be read as a Submit.
pub open spec fn reads_submit(v: Value) -> bool {
    &&& v is Array
    &&& v->Array_0@.len() == 6
    &&& v->Array_0@[0] is Str
    &&& reads_hex(v->Array_0@[1])
    &&& reads_hex(v->Array_0@[2])
    &&& reads_u32_le(v->Array_0@[3])
    &&& reads_u32_le(v->Array_0@[4])
    &&& reads_u32_le(v->Array_0@[5])
}

/// The Submit that `v` is read as.
pub open spec fn submit_read(v: Value) -> SubmitView {
    (
        v->Array_0@[0]->Str_0@,
        hex_read(v->Array_0@[1]),
        hex_read(v->Array_0@[2]),
        u32_le_read(v->Array_0@[3]),
        u32_le_read(v->Array_0@[4]),
        u32_le_read(v->Array_0@[5]),
    )
}

/// The wire form of every Submit reads back as that Submit.
pub proof fn lemma_submit_round_trip(v: Value, m: SubmitView)
    requires
        writes_submit(v, m),
    ensures
        reads_submit(v),
        submit_read(v) == m,
{
    let a = v->Array_0@;
    lemma_hex_value(a[1], m.1);
    lemma_hex_value(a[2], m.2);
    lemma_u32_le_value(a[3], m.3);
    lemma_u32_le_value(a[4], m.4);
    lemma_u32_le_value(a[5], m.5);
}

/// A Submit sent in a request frame reads back, from the structured value
/// that the frame was written as, as the same Submit: `v` here is any value
/// that reads as the frame whenever the frame is well formed, which is
/// what writing a frame guarantees.
pub proof fn lemma_submit_through_frame(m: SubmitView, id: Option<u64>, params: Value, v: Value)
    requires
        writes_submit(params, m),
        Frame::Request(
            Request { id, payload: RequestPayload { method: Method::Submit, params } },
        ).wf() ==> frame_of(v) == Ok::<Frame, Error>(
            Frame::Request(Request { id, payload: RequestPayload { method: Method::Submit, params } }),
        ),
    ensures
        frame_of(v) is Ok,
        frame_of(v)->Ok_0 is Request,
        frame_of(v)->Ok_0->Request_0.id == id,
        frame_of(v)->Ok_0->Request_0.payload.method == Method::Submit,
        reads_submit(frame_of(v)->Ok_0->Request_0.payload.params),
        submit_read(frame_of(v)->Ok_0->Request_0.payload.params) == m,
{
    lemma_submit_round_trip(params, m);
}

impl Submit {
    /// The parameter array: the six fields in order.
    pub fn into_value(self) -> (r: Value)
        ensures
            writes_submit(r, self@),
    {
        let mut a: Vec<Value> = Vec::new();
        a.push(Value::Str(self.0.0));
        a.push(self.1.0.into_value());
        a.push(self.2.0.into_value());
        a.push(self.3.0.into_value());
        a.push(self.4.0.into_value());
        a.push(self.5.0.into_value());
        Value::Array(a)
    }

    /// Reads the parameter array; any other shape is refused.
    pub fn from_value(v: Value) -> (r: Result<Submit, Error>)
        ensures
            r is Ok <==> reads_submit(v),
            r is Ok ==> r->Ok_0@ == submit_read(v),
            r is Err ==> r->Err_0 == Error::ParamShape,
    {
        let mut a = take_array(v, 6)?;
        let ghost s = a@;
        let x5 = take_last(&mut a);
        let x4 = take_last(&mut a);
        let x3 = take_last(&mut a);
        let x2 = take_last(&mut a);
        let x1 = take_last(&mut a);
        let x0 = take_last(&mut a);
        assert(x0 == s[0] && x1 == s[1] && x2 == s[2] && x3 == s[3] && x4 == s[4] && x5 == s[5]);
        let user_name = str_from_value(x0)?;
        let job_id = HexBytes::from_value(x1)?;
        let extra_nonce_2 = HexBytes::from_value(x2)?;
        let time = HexU32Le::from_value(x3)?;
        let nonce = HexU32Le::from_value(x4)?;
        let version = HexU32Le::from_value(x5)?;
        Ok(
            Submit(
                UserName(user_name),
                JobId(job_id),
                ExtraNonce2(extra_nonce_2),
                Time(time),
                Nonce(nonce),
                Version(version),
            ),
        )
    }

    /// A request payload tagged `mining.submit`.
    pub fn into_request_payload(self) -> (r: RequestPayload)
        ensures
            r.method == Method::Submit,
            writes_submit(r.params, self@),
    {
        RequestPayload { method: Method::Submit, params: self.into_value() }
    }

    /// The Submit that a payload tagged `mining.submit` carries.
    pub fn try_from_request_payload(p: RequestPayload) -> (r: Result<Submit, Error>)
        ensures
            p.method != Method::Submit ==> r == Err::<Submit, Error>(Error::MethodMismatch),
            p.method == Method::Submit ==> (r is Ok <==> reads_submit(p.params)),
            p.method == Method::Submit && r is Ok ==> r->Ok_0@ == submit_read(p.params),
            p.method == Method::Submit && r is Err ==> r->Err_0 == Error::ParamShape,
    {
        if p.method != Method::Submit {
            return Err(Error::MethodMismatch);
        }
        Submit::from_value(p.params)
    }

    pub fn user_name(&self) -> (r: &String)
        ensures
            r == &self.0.0,
    {
        &self.0.0
    }

    pub fn job_id(&self) -> (r: &[u8])
        ensures
            r@ == self.1.0.0@,
    {
        self.1.0.0.as_slice()
    }

    pub fn extra_nonce_2(&self) -> (r: &[u8])
        ensures
            r@ == self.2.0.0@,
    {
        self.2.0.0.as_slice()
    }

    pub fn time(&self) -> (r: u32)
        ensures
            r == self.3.0.0,
    {
        self.3.0.0
    }

    pub fn nonce(&self) -> (r: u32)
        ensures
            r == self.4.0.0,
    {
        self.4.0.0
    }

    pub fn version(&self) -> (r: u32)
        ensures
            r == self.5.0.0,
    {
        self.5.0.0
    }
}

/// Fields of an Authorize: worker name and password.
pub type AuthorizeView = (Seq<char>, Seq<char>);

/// Authorization of a worker.
#[derive(Clone, Debug, PartialEq, Eq)]
pub struct Authorize(pub String, pub String);

impl View for Authorize {
    type V = AuthorizeView;

    open spec fn view(&self) -> AuthorizeView {
        (self.0@, self.1@)
    }
}

/// `v` is the wire form of an Authorize: an array of name and password.
pub open spec fn writes_authorize(v: Value, m: AuthorizeView) -> bool {
    &&& v is Array
    &&& v->Array_0@.len() == 2
    &&& is_str(v->Array_0@[0], m.0)
    &&& is_str(v->Array_0@[1], m.1)
}

pub open spec fn reads_authorize(v: Value) -> bool {
    &&& v is Array
    &&& v->Array_0@.len() == 2
    &&& v->Array_0@[0] is Str
    &&& v->Array_0@[1] is Str
}

pub open spec fn authorize_read(v: Value) -> AuthorizeView {
    (v->Array_0@[0]->Str_0@, v->Array_0@[1]->Str_0@)
}

/// The wire form of every Authorize reads back as that Authorize.
pub proof fn lemma_authorize_round_trip(v: Value, m: AuthorizeView)
    requires
        writes_authorize(v, m),
    ensures
        reads_authorize(v),
        authorize_read(v) == m,
{
}

impl Authorize {
    pub fn into_value(self) -> (r: Value)
        ensures
            writes_authorize(r, self@),
    {
        let mut a: Vec<Value> = Vec::new();
        a.push(Value::Str(self.0));
        a.push(Value::Str(self.1));
        Value::Array(a)
    }

    pub fn from_value(v: Value) -> (r: Result<Authorize, Error>)
        ensures
            r is Ok <==> reads_authorize(v),
            r is Ok ==> r->Ok_0@ == authorize_read(v),
            r is Err ==> r->Err_0 == Error::ParamShape,
    {
        let mut a = take_array(v, 2)?;
        let ghost s = a@;
        let x1 = take_last(&mut a);
        let x0 = take_last(&mut a);
        assert(x0 == s[0] && x1 == s[1]);
        let name = str_from_value(x0)?;
        let password = str_from_value(x1)?;
        Ok(Authorize(name, password))
    }

    /// A request payload tagged `mining.authorize`.
    pub fn into_request_payload(self) -> (r: RequestPayload)
        ensures
            r.method == Method::Authorize,
            writes_authorize(r.params, self@),
    {
        RequestPayload { method: Method::Authorize, params: self.into_value() }
    }

    /// The Authorize that a payload tagged `mining.authorize` carries.
    pub fn try_from_request_payload(p: RequestPayload) -> (r: Result<Authorize, Error>)
        ensures
            p.method != Method::Authorize ==> r == Err::<Authorize, Error>(Error::MethodMismatch),
            p.method == Method::Authorize ==> (r is Ok <==> reads_authorize(p.params)),
            p.method == Method::Authorize && r is Ok ==> r->Ok_0@ == authorize_read(p.params),
            p.method == Method::Authorize && r is Err ==> r->Err_0 == Error::ParamShape,
    {
        if p.method != Method::Authorize {
            return Err(Error::MethodMismatch);
        }
        Authorize::from_value(p.params)
    }

    pub fn name(&self) -> (r: &String)
        ensures
            r == &self.0,
    {
        &self.0
    }

    pub fn password(&self) -> (r: &String)
        ensures
            r == &self.1,
    {
        &self.1
    }
}

/// Fields of a Subscribe: agent signature, prior session token, pool host
/// and pool port, each optional.
pub type SubscribeView = (Option<Seq<char>>, Option<Seq<u8>>, Option<Seq<char>>, Option<Seq<char>>);

pub open spec fn opt_string_view(o: Option<String>) -> Option<Seq<char>> {
    match o {
        Some(s) => Some(s@),
        None => None,
    }
}

pub open spec fn opt_token_view(o: Option<ExtraNonce1>) -> Option<Seq<u8>> {
    match o {
        Some(t) => Some(t.0.0@),
        None => None,
    }
}

/// All that a mining subscription carries.
#[derive(Clone, Debug, PartialEq, Eq)]
pub struct Subscribe(
    pub Option<String>,
    pub Option<ExtraNonce1>,
    pub Option<String>,
    pub Option<String>,
);

impl View for Subscribe {
    type V = SubscribeView;

    open spec fn view(&self) -> SubscribeView {
        (
            opt_string_view(self.0),
            opt_token_view(self.1),
            opt_string_view(self.2),
            opt_string_view(self.3),
        )
    }
}

/// `v` is the wire form of a Subscribe: an array of four items, null where
/// a field is absent.
pub open spec fn writes_subscribe(v: Value, m: SubscribeView) -> bool {
    &&& v is Array
    &&& v->Array_0@.len() == 4
    &&& writes_opt_str(v->Array_0@[0], m.0)
    &&& writes_opt_hex(v->Array_0@[1], m.1)
    &&& writes_opt_str(v->Array_0@[2], m.2)
    &&& writes_opt_str(v->Array_0@[3], m.3)
}

pub open spec fn reads_subscribe(v: Value) -> bool {
    &&& v is Array
    &&& v->Array_0@.len() == 4
    &&& reads_opt_str(v->Array_0@[0])
    &&& reads_opt_hex(v->Array_0@[1])
    &&& reads_opt_str(v->Array_0@[2])
    &&& reads_opt_str(v->Array_0@[3])
}

pub open spec fn subscribe_read(v: Value) -> SubscribeView {
    (
        opt_str_read(v->Array_0@[0]),
        opt_hex_read(v->Array_0@[1]),
        opt_str_read(v->Array_0@[2]),
        opt_str_read(v->Array_0@[3]),
    )
}

/// The wire form of every Subscribe reads back as that Subscribe.
pub proof fn lemma_subscribe_round_trip(v: Value, m: SubscribeView)
    requires
        writes_subscribe(v, m),
    ensures
        reads_subscribe(v),
        subscribe_read(v) == m,
{
    lemma_opt_hex_value(v->Array_0@[1], m.1);
}

impl Subscribe {
    pub fn into_value(self) -> (r: Value)
        ensures
            writes_subscribe(r, self@),
    {
        let token = match self.1 {
            Some(t) => t.0.into_value(),
            None => Value::Null,
        };
        let mut a: Vec<Value> = Vec::new();
        a.push(opt_str_into_value(self.0));
        a.push(token);
        a.push(opt_str_into_value(self.2));
        a.push(opt_str_into_value(self.3));
        Value::Array(a)
    }

    pub fn from_value(v: Value) -> (r: Result<Subscribe, Error>)
        ensures
            r is Ok <==> reads_subscribe(v),
            r is Ok ==> r->Ok_0@ == subscribe_read(v),
            r is Err ==> r->Err_0 == Error::ParamShape,
    {
        let mut a = take_array(v, 4)?;
        let ghost s = a@;
        let x3 = take_last(&mut a);
        let x2 = take_last(&mut a);
        let x1 = take_last(&mut a);
        let x0 = take_last(&mut a);
        assert(x0 == s[0] && x1 == s[1] && x2 == s[2] && x3 == s[3]);
        let agent = opt_str_from_value(x0)?;
        let token = match x1 {
            Value::Null => None,
            x => Some(ExtraNonce1(HexBytes::from_value(x)?)),
        };
        let url = opt_str_from_value(x2)?;
        let port = opt_str_from_value(x3)?;
        Ok(Subscribe(agent, token, url, port))
    }

    /// A request payload tagged `mining.subscribe`.
    pub fn into_request_payload(self) -> (r: RequestPayload)
        ensures
            r.method == Method::Subscribe,
            writes_subscribe(r.params, self@),
    {
        RequestPayload { method: Method::Subscribe, params: self.into_value() }
    }

    /// The Subscribe that a payload tagged `mining.subscribe` carries.
    pub fn try_from_request_payload(p: RequestPayload) -> (r: Result<Subscribe, Error>)
        ensures
            p.method != Method::Subscribe ==> r == Err::<Subscribe, Error>(Error::MethodMismatch),
            p.method == Method::Subscribe ==> (r is Ok <==> reads_subscribe(p.params)),
            p.method == Method::Subscribe && r is Ok ==> r->Ok_0@ == subscribe_read(p.params),
            p.method == Method::Subscribe && r is Err ==> r->Err_0 == Error::ParamShape,
    {
        if p.method != Method::Subscribe {
            return Err(Error::MethodMismatch);
        }
        Subscribe::from_value(p.params)
    }

    pub fn agent_signature(&self) -> (r: Option<&String>)
        ensures
            r == (match &self.0 {
                Some(s) => Some(s),
                None => None::<&String>,
            }),
    {
        self.0.as_ref()
    }

    pub fn extra_nonce1(&self) -> (r: Option<&ExtraNonce1>)
        ensures
            r == (match &self.1 {
                Some(t) => Some(t),
                None => None::<&ExtraNonce1>,
            }),
    {
        self.1.as_ref()
    }

    pub fn url(&self) -> (r: Option<&String>)
        ensures
            r == (match &self.2 {
                Some(s) => Some(s),
                None => None::<&String>,
            }),
    {
        self.2.as_ref()
    }

    pub fn port(&self) -> (r: Option<&String>)
        ensures
            r == (match &self.3 {
                Some(s) => Some(s),
                None => None::<&String>,
            }),
    {
        self.3.as_ref()
    }
}

/// A difficulty multiplier as the wire's number: an integer, or the JSON
/// text of any other number.
#[derive(Clone, Debug, PartialEq, Eq)]
pub enum Difficulty {
    Int(u64),
    Real(String),
}

/// Difficulty set by the pool. On the wire the parameters stay an array of
/// one element, never the bare number.
#[derive(Clone, Debug, PartialEq, Eq)]
pub struct SetDifficulty(pub Difficulty);

/// The structured value of a difficulty number.
pub open spec fn difficulty_value(d: Difficulty) -> Value {
    match d {
        Difficulty::Int(n) => Value::Int(n),
        Difficulty::Real(s) => Value::Real(s),
    }
}

/// `v` is the wire form of a SetDifficulty: an array of its one number.
pub open spec fn writes_set_difficulty(v: Value, m: SetDifficulty) -> bool {
    &&& v is Array
    &&& v->Array_0@.len() == 1
    &&& v->Array_0@[0] == difficulty_value(m.0)
}

pub open spec fn reads_set_difficulty(v: Value) -> bool {
    &&& v is Array
    &&& v->Array_0@.len() == 1
    &&& (v->Array_0@[0] is Int || (v->Array_0@[0] is Real && is_number_text(
        v->Array_0@[0]->Real_0@,
    )))
}

pub open spec fn set_difficulty_read(v: Value) -> SetDifficulty {
    SetDifficulty(
        match v->Array_0@[0] {
            Value::Int(n) => Difficulty::Int(n),
            Value::Real(s) => Difficulty::Real(s),
            _ => Difficulty::Int(0),
        },
    )
}

/// Whether a difficulty is a JSON number: any integer, or number text.
pub open spec fn is_difficulty(d: Difficulty) -> bool {
    match d {
        Difficulty::Int(_) => true,
        Difficulty::Real(s) => is_number_text(s@),
    }
}

/// The wire form of every SetDifficulty whose number is JSON number text
/// reads back as that SetDifficulty.
pub proof fn lemma_set_difficulty_round_trip(v: Value, m: SetDifficulty)
    requires
        writes_set_difficulty(v, m),
        is_difficulty(m.0),
    ensures
        reads_set_difficulty(v),
        set_difficulty_read(v) == m,
{
}

impl SetDifficulty {
    pub fn into_value(self) -> (r: Value)
        ensures
            writes_set_difficulty(r, self),
    {
        let x = match self.0 {
            Difficulty::Int(n) => Value::Int(n),
            Difficulty::Real(s) => Value::Real(s),
        };
        let mut a: Vec<Value> = Vec::new();
        a.push(x);
        Value::Array(a)
    }

    pub fn from_value(v: Value) -> (r: Result<SetDifficulty, Error>)
        ensures
            r is Ok <==> reads_set_difficulty(v),
            r is Ok ==> r->Ok_0 == set_difficulty_read(v),
            r is Err ==> r->Err_0 == Error::ParamShape,
    {
        let mut a = take_array(v, 1)?;
        let x = take_last(&mut a);
        let d = match x {
            Value::Int(n) => Difficulty::Int(n),
            Value::Real(s) => if check_number_text(s.as_str()) {
                Difficulty::Real(s)
            } else {
                return Err(Error::ParamShape);
            },
            _ => return Err(Error::ParamShape),
        };
        Ok(SetDifficulty(d))
    }

    /// A request payload tagged `mining.set_difficulty`.
    pub fn into_request_payload(self) -> (r: RequestPayload)
        ensures
            r.method == Method::SetDifficulty,
            writes_set_difficulty(r.params, self),
    {
        RequestPayload { method: Method::SetDifficulty, params: self.into_value() }
    }

    /// The SetDifficulty that a payload tagged `mining.set_difficulty` carries.
    pub fn try_from_request_payload(p: RequestPayload) -> (r: Result<SetDifficulty, Error>)
        ensures
            p.method != Method::SetDifficulty ==> r == Err::<SetDifficulty, Error>(
                Error::MethodMismatch,
            ),
            p.method == Method::SetDifficulty ==> (r is Ok <==> reads_set_difficulty(p.params)),
            p.method == Method::SetDifficulty && r is Ok ==> r->Ok_0 == set_difficulty_read(
                p.params,
            ),
            p.method == Method::SetDifficulty && r is Err ==> r->Err_0 == Error::ParamShape,
    {
        if p.method != Method::SetDifficulty {
            return Err(Error::MethodMismatch);
        }
        SetDifficulty::from_value(p.params)
    }
}

/// A subscription the pool grants: its class and its id.
#[derive(Clone, Debug, PartialEq, Eq)]
pub struct Subscription(pub String, pub String);

/// `x` is the wire form of a subscription: an array of class and id.
pub open spec fn writes_subscription(x: Value, p: (Seq<char>, Seq<char>)) -> bool {
    &&& x is Array
    &&& x->Array_0@.len() == 2
    &&& is_str(x->Array_0@[0], p.0)
    &&& is_str(x->Array_0@[1], p.1)
}

pub open spec fn reads_subscription(x: Value) -> bool {
    &&& x is Array
    &&& x->Array_0@.len() == 2
    &&& x->Array_0@[0] is Str
    &&& x->Array_0@[1] is Str
}

pub open spec fn subscription_read(x: Value) -> (Seq<char>, Seq<char>) {
    (x->Array_0@[0]->Str_0@, x->Array_0@[1]->Str_0@)
}

/// `v` is an array of the wire forms of the subscriptions `subs`.
pub open spec fn writes_subscriptions(v: Value, subs: Seq<(Seq<char>, Seq<char>)>) -> bool {
    &&& v is Array
    &&& v->Array_0@.len() == subs.len()
    &&& forall|i: int| 0 <= i < subs.len() ==> writes_subscription(#[trigger] v->Array_0@[i], subs[i])
}

pub open spec fn reads_subscriptions(v: Value) -> bool {
    &&& v is Array
    &&& forall|i: int| 0 <= i < v->Array_0@.len() ==> reads_subscription(#[trigger] v->Array_0@[i])
}

pub open spec fn subscriptions_read(v: Value) -> Seq<(Seq<char>, Seq<char>)> {
    v->Array_0@.map_values(|x: Value| subscription_read(x))
}

impl Subscription {
    pub open spec fn pair(self) -> (Seq<char>, Seq<char>) {
        (self.0@, self.1@)
    }

    pub fn into_value(self) -> (r: Value)
        ensures
            writes_subscription(r, self.pair()),
    {
        let mut a: Vec<Value> = Vec::new();
        a.push(Value::Str(self.0));
        a.push(Value::Str(self.1));
        Value::Array(a)
    }

    pub fn from_value(v: Value) -> (r: Result<Subscription, Error>)
        ensures
            r is Ok <==> reads_subscription(v),
            r is Ok ==> r->Ok_0.pair() == subscription_read(v),
            r is Err ==> r->Err_0 == Error::ParamShape,
    {
        let mut a = take_array(v, 2)?;
        let ghost s = a@;
        let x1 = take_last(&mut a);
        let x0 = take_last(&mut a);
        assert(x0 == s[0] && x1 == s[1]);
        let class = str_from_value(x0)?;
        let id = str_from_value(x1)?;
        Ok(Subscription(class, id))
    }
}

fn subscriptions_into_value(list: Vec<Subscription>) -> (r: Value)
    ensures
        writes_subscriptions(r, list@.map_values(|s: Subscription| s.pair())),
{
    let ghost orig = list@;
    let mut list = list;
    let mut out: Vec<Value> = Vec::new();
    while list.len() > 0
        invariant
            out@.len() + list@.len() == orig.len(),
            list@ == orig.subrange(out@.len() as int, orig.len() as int),
            forall|i: int| 0 <= i < out@.len() ==> writes_subscription(#[trigger] out@[i], orig[i].pair()),
        decreases list@.len(),
    {
        let x = list.remove(0);
        out.push(x.into_value());
    }
    Value::Array(out)
}

fn subscriptions_from_value(v: Value) -> (r: Result<Vec<Subscription>, Error>)
    ensures
        r is Ok <==> reads_subscriptions(v),
        r is Ok ==> r->Ok_0@.map_values(|s: Subscription| s.pair()) == subscriptions_read(v),
        r is Err ==> r->Err_0 == Error::ParamShape,
{
    let mut items = match v {
        Value::Array(items) => items,
        _ => return Err(Error::ParamShape),
    };
    let ghost orig = items@;
    let mut out: Vec<Subscription> = Vec::new();
    while items.len() > 0
        invariant
            out@.len() + items@.len() == orig.len(),
            items@ == orig.subrange(out@.len() as int, orig.len() as int),
            v is Array && v->Array_0@ == orig,
            forall|i: int| 0 <= i < out@.len() ==> reads_subscription(#[trigger] orig[i]),
            forall|i: int| 0 <= i < out@.len() ==> #[trigger] out@[i].pair() == subscription_read(orig[i]),
        decreases items@.len(),
    {
        let ghost k = out@.len() as int;
        let x = items.remove(0);
        assert(x == orig[k]);
        match Subscription::from_value(x) {
            Ok(s) => out.push(s),
            Err(e) => {
                assert(!reads_subscription(v->Array_0@[k]));
                return Err(e);
            },
        }
    }
    assert(out@.map_values(|s: Subscription| s.pair()) =~= subscriptions_read(v));
    Ok(out)
}

/// Fields of a SubscribeResult: subscriptions, session token, and the size
/// in bytes of the client's nonce extension.
pub type SubscribeResultView = (Seq<(Seq<char>, Seq<char>)>, Seq<u8>, usize);

/// The pool's answer to a subscription.
#[derive(Clone, Debug, PartialEq, Eq)]
pub struct SubscribeResult(pub Vec<Subscription>, pub ExtraNonce1, pub usize);

impl View for SubscribeResult {
    type V = SubscribeResultView;

    open spec fn view(&self) -> SubscribeResultView {
        (self.0@.map_values(|s: Subscription| s.pair()), self.1.0.0@, self.2)
    }
}

/// `v` is the wire form of a SubscribeResult: an array of its three fields.
pub open spec fn writes_subscribe_result(v: Value, m: SubscribeResultView) -> bool {
    &&& v is Array
    &&& v->Array_0@.len() == 3
    &&& writes_subscriptions(v->Array_0@[0], m.0)
    &&& writes_hex(v->Array_0@[1], m.1)
    &&& v->Array_0@[2] == Value::Int(m.2 as u64)
}

pub open spec fn reads_subscribe_result(v: Value) -> bool {
    &&& v is Array
    &&& v->Array_0@.len() == 3
    &&& reads_subscriptions(v->Array_0@[0])
    &&& reads_hex(v->Array_0@[1])
    &&& v->Array_0@[2] is Int
    &&& v->Array_0@[2]->Int_0 <= usize::MAX
}

pub open spec fn subscribe_result_read(v: Value) -> SubscribeResultView {
    (
        subscriptions_read(v->Array_0@[0]),
        hex_read(v->Array_0@[1]),
        v->Array_0@[2]->Int_0 as usize,
    )
}

/// The wire form of every SubscribeResult reads back as that SubscribeResult.
pub proof fn lemma_subscribe_result_round_trip(v: Value, m: SubscribeResultView)
    requires
        writes_subscribe_result(v, m),
    ensures
        reads_subscribe_result(v),
        subscribe_result_read(v) == m,
{
    let l = v->Array_0@[0];
    lemma_hex_value(v->Array_0@[1], m.1);
    assert(subscriptions_read(l) =~= m.0);
}

impl SubscribeResult {
    pub fn into_value(self) -> (r: Value)
        ensures
            writes_subscribe_result(r, self@),
    {
        let mut a: Vec<Value> = Vec::new();
        a.push(subscriptions_into_value(self.0));
        a.push(self.1.0.into_value());
        a.push(Value::Int(self.2 as u64));
        Value::Array(a)
    }

    pub fn from_value(v: Value) -> (r: Result<SubscribeResult, Error>)
        ensures
            r is Ok <==> reads_subscribe_result(v),
            r is Ok ==> r->Ok_0@ == subscribe_result_read(v),
            r is Err ==> r->Err_0 == Error::ParamShape,
    {
        let mut a = take_array(v, 3)?;
        let ghost s = a@;
        let x2 = take_last(&mut a);
        let x1 = take_last(&mut a);
        let x0 = take_last(&mut a);
        assert(x0 == s[0] && x1 == s[1] && x2 == s[2]);
        let size = match x2 {
            Value::Int(n) => if n <= usize::MAX as u64 {
                n as usize
            } else {
                return Err(Error::ParamShape);
            },
            _ => return Err(Error::ParamShape),
        };
        let subscriptions = subscriptions_from_value(x0)?;
        let token = HexBytes::from_value(x1)?;
        Ok(SubscribeResult(subscriptions, ExtraNonce1(token), size))
    }

    /// A successful response payload carrying this result.
    pub fn into_response_payload(self) -> (r: ResponsePayload)
        ensures
            r is Success,
            writes_subscribe_result(r->Success_0, self@),
    {
        ResponsePayload::from_result(self.into_value())
    }

    /// The SubscribeResult that a response payload carries; a payload with
    /// an error has none.
    pub fn try_from_response_payload(p: ResponsePayload) -> (r: Result<SubscribeResult, Error>)
        ensures
            p is Failure ==> r == Err::<SubscribeResult, Error>(Error::NoResult),
            p is Success ==> (r is Ok <==> reads_subscribe_result(p->Success_0)),
            p is Success && r is Ok ==> r->Ok_0@ == subscribe_result_read(p->Success_0),
            p is Success && r is Err ==> r->Err_0 == Error::ParamShape,
    {
        match p {
            ResponsePayload::Success(v) => SubscribeResult::from_value(v),
            ResponsePayload::Failure(_) => Err(Error::NoResult),
        }
    }

    pub fn subscriptions(&self) -> (r: &Vec<Subscription>)
        ensures
            r == &self.0,
    {
        &self.0
    }

    pub fn extra_nonce_1(&self) -> (r: &ExtraNonce1)
        ensures
            r == &self.1,
    {
        &self.1
    }

    pub fn extra_nonce_2_size(&self) -> (r: usize)
        ensures
            r == self.2,
    {
        self.2
    }
}

/// A plain accept or reject, as answers to Authorize and Submit.
#[derive(Clone, Copy, Debug, PartialEq, Eq)]
pub struct BooleanResult(pub bool);

impl BooleanResult {
    /// The wire form: the bare boolean.
    pub fn into_value(self) -> (r: Value)
        ensures
            r == Value::Bool(self.0),
    {
        Value::Bool(self.0)
    }

    pub fn from_value(v: Value) -> (r: Result<BooleanResult, Error>)
        ensures
            r is Ok <==> v is Bool,
            r is Ok ==> r->Ok_0.0 == v->Bool_0,
            r is Err ==> r->Err_0 == Error::ParamShape,
    {
        match v {
            Value::Bool(b) => Ok(BooleanResult(b)),
            _ => Err(Error::ParamShape),
        }
    }

    /// A successful response payload carrying this result.
    pub fn into_response_payload(self) -> (r: ResponsePayload)
        ensures
            r == ResponsePayload::Success(Value::Bool(self.0)),
    {
        ResponsePayload::from_result(self.into_value())
    }

    /// The BooleanResult that a response payload carries; a payload with an
    /// error has none.
    pub fn try_from_response_payload(p: ResponsePayload) -> (r: Result<BooleanResult, Error>)
        ensures
            p is Failure ==> r == Err::<BooleanResult, Error>(Error::NoResult),
            p is Success ==> (r is Ok <==> p->Success_0 is Bool),
            p is Success && r is Ok ==> r->Ok_0.0 == p->Success_0->Bool_0,
            p is Success && r is Err ==> r->Err_0 == Error::ParamShape,
    {
        match p {
            ResponsePayload::Success(v) => BooleanResult::from_value(v),
            ResponsePayload::Failure(_) => Err(Error::NoResult),
        }
    }
}

} // verus!
