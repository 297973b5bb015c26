//! The wire envelope shared by every message: a request (id, method,
//! positional parameters) or a response (id, and a result or an error).

use vstd::prelude::*;

use crate::error::Error;
use crate::value::{field, is_str, Value};

verus! {

/// The methods of the protocol.
#[derive(Clone, Copy, Debug, PartialEq, Eq, Structural)]
pub enum Method {
    Subscribe,
    Authorize,
    SetDifficulty,
    Notify,
    Submit,
}

/// The method whose wire name is `s`, if any.
pub open spec fn method_named(s: Seq<char>) -> Option<Method> {
    if s == "mining.subscribe"@ {
        Some(Method::Subscribe)
    } else if s == "mining.authorize"@ {
        Some(Method::Authorize)
    } else if s == "mining.set_difficulty"@ {
        Some(Method::SetDifficulty)
    } else if s == "mining.notify"@ {
        Some(Method::Notify)
    } else if s == "mining.submit"@ {
        Some(Method::Submit)
    } else {
        None
    }
}

impl Method {
    pub open spec fn spec_name(self) -> Seq<char> {
        match self {
            Method::Subscribe => "mining.subscribe"@,
            Method::Authorize => "mining.authorize"@,
            Method::SetDifficulty => "mining.set_difficulty"@,
            Method::Notify => "mining.notify"@,
            Method::Submit => "mining.submit"@,
        }
    }

    /// The method's name on the wire.
    pub fn name(&self) -> (r: String)
        ensures
            r@ == self.spec_name(),
    {
        match self {
            Method::Subscribe => String::from_str("mining.subscribe"),
            Method::Authorize => String::from_str("mining.authorize"),
            Method::SetDifficulty => String::from_str("mining.set_difficulty"),
            Method::Notify => String::from_str("mining.notify"),
            Method::Submit => String::from_str("mining.submit"),
        }
    }

    /// The method with wire name `s`.
    pub fn from_name(s: &String) -> (r: Option<Method>)
        ensures
            r == method_named(s@),
    {
        if *s == String::from_str("mining.subscribe") {
            Some(Method::Subscribe)
        } else if *s == String::from_str("mining.authorize") {
            Some(Method::Authorize)
        } else if *s == String::from_str("mining.set_difficulty") {
            Some(Method::SetDifficulty)
        } else if *s == String::from_str("mining.notify") {
            Some(Method::Notify)
        } else if *s == String::from_str("mining.submit") {
            Some(Method::Submit)
        } else {
            None
        }
    }
}

/// Every method's wire name reads back as that method.
pub proof fn lemma_method_name_round_trip(m: Method)
    ensures
        method_named(m.spec_name()) == Some(m),
{
    reveal_strlit("mining.subscribe");
    reveal_strlit("mining.authorize");
    reveal_strlit("mining.set_difficulty");
    reveal_strlit("mining.notify");
    reveal_strlit("mining.submit");
    let s = "mining.subscribe"@;
    let a = "mining.authorize"@;
    let d = "mining.set_difficulty"@;
    let n = "mining.notify"@;
    let t = "mining.submit"@;
    assert(s[7] != a[7] && s.len() != d.len() && s.len() != n.len() && s.len() != t.len());
    assert(a.len() != d.len() && a.len() != n.len() && a.len() != t.len());
    assert(d.len() != n.len() && d.len() != t.len() && n[7] != t[7]);
}

/// What a request carries besides its id.
#[derive(Debug)]
pub struct RequestPayload {
    pub method: Method,
    /// The positional parameters, an array on the wire.
    pub params: Value,
}

#[derive(Debug)]
pub struct Request {
    /// Absent for a one-way notification.
    pub id: Option<u64>,
    pub payload: RequestPayload,
}

/// What a response carries besides its id: a result or an error, never
/// both and never neither.
#[derive(Debug)]
pub enum ResponsePayload {
    Success(Value),
    Failure(Value),
}

/// Whether an optional envelope member is given: present and not null.
pub open spec fn present(o: Option<Value>) -> bool {
    o is Some && !(o->Some_0 is Null)
}

impl ResponsePayload {
    pub open spec fn spec_new(result: Option<Value>, error: Option<Value>) -> Result<
        ResponsePayload,
        Error,
    > {
        if present(result) && !present(error) {
            Ok(ResponsePayload::Success(result->Some_0))
        } else if present(error) && !present(result) {
            Ok(ResponsePayload::Failure(error->Some_0))
        } else {
            Err(Error::ResultXorError)
        }
    }

    /// A payload from a result or an error; a null counts as not given.
    /// Both, or neither, is refused.
    pub fn new(result: Option<Value>, error: Option<Value>) -> (r: Result<ResponsePayload, Error>)
        ensures
            r == Self::spec_new(result, error),
    {
        let has_result = match &result {
            Some(Value::Null) => false,
            Some(_) => true,
            None => false,
        };
        let has_error = match &error {
            Some(Value::Null) => false,
            Some(_) => true,
            None => false,
        };
        if has_result && !has_error {
            match result {
                Some(v) => Ok(ResponsePayload::Success(v)),
                None => Err(Error::ResultXorError),
            }
        } else if has_error && !has_result {
            match error {
                Some(v) => Ok(ResponsePayload::Failure(v)),
                None => Err(Error::ResultXorError),
            }
        } else {
            Err(Error::ResultXorError)
        }
    }

    /// A successful result, with no error.
    pub fn from_result(v: Value) -> (r: ResponsePayload)
        ensures
            r == ResponsePayload::Success(v),
    {
        ResponsePayload::Success(v)
    }

    pub fn result(&self) -> (r: Option<&Value>)
        ensures
            r == (match self {
                ResponsePayload::Success(v) => Some(v),
                ResponsePayload::Failure(_) => None::<&Value>,
            }),
    {
        match self {
            ResponsePayload::Success(v) => Some(v),
            ResponsePayload::Failure(_) => None,
        }
    }

    pub fn error(&self) -> (r: Option<&Value>)
        ensures
            r == (match self {
                ResponsePayload::Success(_) => None::<&Value>,
                ResponsePayload::Failure(v) => Some(v),
            }),
    {
        match self {
            ResponsePayload::Success(_) => None,
            ResponsePayload::Failure(v) => Some(v),
        }
    }
}

#[derive(Debug)]
pub struct Response {
    /// The id of the request answered.
    pub id: u64,
    pub payload: ResponsePayload,
}

impl Response {
    /// A response from a result or an error; both, or neither, is refused.
    pub fn new(id: u64, result: Option<Value>, error: Option<Value>) -> (r: Result<Response, Error>)
        ensures
            r == (match ResponsePayload::spec_new(result, error) {
                Ok(p) => Ok(Response { id, payload: p }),
                Err(x) => Err::<Response, Error>(x),
            }),
    {
        match ResponsePayload::new(result, error) {
            Ok(p) => Ok(Response { id, payload: p }),
            Err(x) => Err(x),
        }
    }
}

/// One wire-level envelope.
#[derive(Debug)]
pub enum Frame {
    Request(Request),
    Response(Response),
}

/// The id of a request: absent or null for a notification.
pub open spec fn request_id_of(o: Option<Value>) -> Result<Option<u64>, Error> {
    match o {
        None => Ok(None),
        Some(Value::Null) => Ok(None),
        Some(Value::Int(n)) => Ok(Some(n)),
        _ => Err(Error::BadEnvelope),
    }
}

/// The request that the members `e` of an object denote.
pub open spec fn request_of(e: Seq<(String, Value)>) -> Result<Frame, Error> {
    match request_id_of(field(e, "id"@)) {
        Ok(id) => match field(e, "method"@) {
            Some(Value::Str(name)) => match field(e, "params"@) {
                Some(Value::Array(items)) => match method_named(name@) {
                    Some(m) => Ok(
                        Frame::Request(
                            Request {
                                id,
                                payload: RequestPayload { method: m, params: Value::Array(items) },
                            },
                        ),
                    ),
                    None => Err(Error::BadEnvelope),
                },
                _ => Err(Error::BadEnvelope),
            },
            _ => Err(Error::BadEnvelope),
        },
        Err(x) => Err(x),
    }
}

/// The response that the members `e` of an object denote.
pub open spec fn response_of(e: Seq<(String, Value)>) -> Result<Frame, Error> {
    match field(e, "id"@) {
        Some(Value::Int(id)) => match ResponsePayload::spec_new(field(e, "result"@), field(e, "error"@)) {
            Ok(p) => Ok(Frame::Response(Response { id, payload: p })),
            Err(x) => Err(x),
        },
        _ => Err(Error::BadEnvelope),
    }
}

/// The frame that a structured value denotes: an object with a `method`
/// member is a request, any other object a response.
pub open spec fn frame_of(v: Value) -> Result<Frame, Error> {
    match v {
        Value::Object(members) => if field(members@, "method"@) is Some {
            request_of(members@)
        } else {
            response_of(members@)
        },
        _ => Err(Error::BadEnvelope),
    }
}

proof fn lemma_envelope_keys_distinct()
    ensures
        "id"@ != "method"@,
        "id"@ != "params"@,
        "id"@ != "result"@,
        "id"@ != "error"@,
        "method"@ != "params"@,
        "method"@ != "result"@,
        "method"@ != "error"@,
        "params"@ != "result"@,
        "params"@ != "error"@,
        "result"@ != "error"@,
{
    reveal_strlit("id");
    reveal_strlit("method");
    reveal_strlit("params");
    reveal_strlit("result");
    reveal_strlit("error");
    assert("id"@.len() == 2 && "error"@.len() == 5 && "method"@.len() == 6);
    assert("params"@.len() == 6 && "result"@.len() == 6);
    assert("params"@[0] != "result"@[0]);
    assert("method"@[0] != "result"@[0]);
    assert("method"@[0] != "params"@[0]);
}

/// A response payload is built exactly when one of result and error is
/// given, a null counting as not given; both is refused as neither is.
pub proof fn lemma_response_result_xor_error(result: Option<Value>, error: Option<Value>)
    ensures
        ResponsePayload::spec_new(result, error) is Ok <==> present(result) != present(error),
        ResponsePayload::spec_new(result, error) is Err ==> ResponsePayload::spec_new(
            result,
            error,
        )->Err_0 == Error::ResultXorError,
        present(result) && !present(error) ==> ResponsePayload::spec_new(result, error)
            == Ok::<ResponsePayload, Error>(ResponsePayload::Success(result->Some_0)),
        present(error) && !present(result) ==> ResponsePayload::spec_new(result, error)
            == Ok::<ResponsePayload, Error>(ResponsePayload::Failure(error->Some_0)),
{
}

/// Reads a frame from a structured value.
pub fn parse_frame(v: Value) -> (r: Result<Frame, Error>)
    ensures
        r == frame_of(v),
{
    let mut members = match v {
        Value::Object(m) => m,
        _ => return Err(Error::BadEnvelope),
    };
    let ghost e = members@;
    let k_id = String::from_str("id");
    let k_method = String::from_str("method");
    let k_params = String::from_str("params");
    let k_result = String::from_str("result");
    let k_error = String::from_str("error");
    proof {
        lemma_envelope_keys_distinct();
    }
    let mut id: Option<Value> = None;
    let mut method: Option<Value> = None;
    let mut params: Option<Value> = None;
    let mut result: Option<Value> = None;
    let mut error: Option<Value> = None;
    while members.len() > 0
        invariant
            k_id@ == "id"@,
            k_method@ == "method"@,
            k_params@ == "params"@,
            k_result@ == "result"@,
            k_error@ == "error"@,
            field(e, "id"@) == (if id is Some { id } else { field(members@, "id"@) }),
            field(e, "method"@) == (if method is Some { method } else { field(members@, "method"@) }),
            field(e, "params"@) == (if params is Some { params } else { field(members@, "params"@) }),
            field(e, "result"@) == (if result is Some { result } else { field(members@, "result"@) }),
            field(e, "error"@) == (if error is Some { error } else { field(members@, "error"@) }),
        decreases members.len(),
    {
        let ghost before = members@;
        proof {
            lemma_envelope_keys_distinct();
        }
        let (k, x) = members.pop().unwrap();
        assert(members@ =~= before.drop_last());
        if id.is_none() && k == k_id {
            id = Some(x);
        } else if method.is_none() && k == k_method {
            method = Some(x);
        } else if params.is_none() && k == k_params {
            params = Some(x);
        } else if result.is_none() && k == k_result {
            result = Some(x);
        } else if error.is_none() && k == k_error {
            error = Some(x);
        }
    }
    if method.is_some() {
        let id = match id {
            None => None,
            Some(Value::Null) => None,
            Some(Value::Int(n)) => Some(n),
            _ => return Err(Error::BadEnvelope),
        };
        let name = match method {
            Some(Value::Str(name)) => name,
            _ => return Err(Error::BadEnvelope),
        };
        let params = match params {
            Some(Value::Array(items)) => Value::Array(items),
            _ => return Err(Error::BadEnvelope),
        };
        match Method::from_name(&name) {
            Some(m) => Ok(Frame::Request(Request { id, payload: RequestPayload { method: m, params } })),
            None => Err(Error::BadEnvelope),
        }
    } else {
        let id = match id {
            Some(Value::Int(n)) => n,
            _ => return Err(Error::BadEnvelope),
        };
        match ResponsePayload::new(result, error) {
            Ok(p) => Ok(Frame::Response(Response { id, payload: p })),
            Err(x) => Err(x),
        }
    }
}

/// `e` are the members that the frame `f` is written as, in this order:
/// `id`, `method`, `params` for a request, with a null id for a
/// notification; `id`, `result`, `error` for a response, with null for the
/// one not given.
pub open spec fn writes_frame(e: Seq<(String, Value)>, f: Frame) -> bool {
    &&& e.len() == 3
    &&& e[0].0@ == "id"@
    &&& match f {
        Frame::Request(q) => {
            &&& e[0].1 == (match q.id {
                Some(n) => Value::Int(n),
                None => Value::Null,
            })
            &&& e[1].0@ == "method"@
            &&& is_str(e[1].1, q.payload.method.spec_name())
            &&& e[2].0@ == "params"@
            &&& e[2].1 == q.payload.params
        },
        Frame::Response(p) => {
            &&& e[0].1 == Value::Int(p.id)
            &&& e[1].0@ == "result"@
            &&& e[1].1 == (match p.payload {
                ResponsePayload::Success(v) => v,
                ResponsePayload::Failure(_) => Value::Null,
            })
            &&& e[2].0@ == "error"@
            &&& e[2].1 == (match p.payload {
                ResponsePayload::Success(_) => Value::Null,
                ResponsePayload::Failure(v) => v,
            })
        },
    }
}

impl Frame {
    /// Whether the frame reads back from its structured value: a request's
    /// parameters form an array, and a response's result or error is not null.
    pub open spec fn wf(self) -> bool {
        match self {
            Frame::Request(q) => q.payload.params is Array,
            Frame::Response(p) => match p.payload {
                ResponsePayload::Success(v) => !(v is Null),
                ResponsePayload::Failure(v) => !(v is Null),
            },
        }
    }

    /// Writes the frame as a structured value: `id`, `method` and `params`
    /// for a request; `id`, `result` and `error` for a response, with null
    /// in place of the one not given.
    pub fn into_value(self) -> (r: Value)
        ensures
            r is Object,
            writes_frame(r->Object_0@, self),
            self.wf() ==> frame_of(r) == Ok::<Frame, Error>(self),
    {
        proof {
            lemma_envelope_keys_distinct();
            reveal_with_fuel(field, 4);
        }
        let mut m: Vec<(String, Value)> = Vec::new();
        match self {
            Frame::Request(q) => {
                let id = match q.id {
                    Some(n) => Value::Int(n),
                    None => Value::Null,
                };
                proof {
                    lemma_method_name_round_trip(q.payload.method);
                }
                m.push((String::from_str("id"), id));
                m.push((String::from_str("method"), Value::Str(q.payload.method.name())));
                m.push((String::from_str("params"), q.payload.params));
                assert(m@.drop_last().drop_last().drop_last() =~= Seq::<(String, Value)>::empty());
            },
            Frame::Response(p) => {
                let (result, error) = match p.payload {
                    ResponsePayload::Success(v) => (v, Value::Null),
                    ResponsePayload::Failure(v) => (Value::Null, v),
                };
                m.push((String::from_str("id"), Value::Int(p.id)));
                m.push((String::from_str("result"), result));
                m.push((String::from_str("error"), error));
                assert(m@.drop_last().drop_last().drop_last() =~= Seq::<(String, Value)>::empty());
            },
        }
        Value::Object(m)
    }
}

} // verus!
