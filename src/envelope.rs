use vstd::prelude::*;
use vstd::string::StringExecFns;

use crate::text::{
    decimal, decimal_string, json_escaped, json_quoted, json_string, lemma_decimal_facts,
    lemma_decimal_injective, lemma_json_escaped_quotes, lemma_json_quoted_injective,
};

verus! {

/// The transport status of every envelope response, whatever its logical code.
pub const STATUS_OK: u16 = 200;

/// The transport status of an uncaught failure.
pub const STATUS_BAD_REQUEST: u16 = 400;

/// The content type that a wire response declares.
pub enum ContentKind {
    Json,
    Html,
}

/// A transport response: status, content type and body.
pub struct WireResponse {
    pub status: u16,
    pub content: ContentKind,
    pub body: String,
}

/// The uniform response envelope: a logical code, an optional payload and a message.
pub struct Response<T> {
    pub code: i32,
    pub data: Option<T>,
    pub msg: String,
}

/// The message of a successful envelope.
pub open spec fn success_text() -> Seq<char> {
    "成功"@
}

/// The message of a failed envelope.
pub open spec fn failure_text() -> Seq<char> {
    "失败"@
}

/// The message of an envelope that refuses access.
pub open spec fn denied_text() -> Seq<char> {
    "无权限访问"@
}

/// The JSON text of the absent payload.
pub open spec fn null_text() -> Seq<char> {
    "null"@
}

/// The JSON body of an envelope: `{"code":<code>,"data":<data>,"msg":<msg>}`, where
/// `data` is the payload's JSON text and `msg` is written as a JSON string.
pub open spec fn envelope_text(code: int, data: Seq<char>, msg: Seq<char>) -> Seq<char> {
    "{\"code\":"@ + decimal(code) + ",\"data\":"@ + data + ",\"msg\":"@ + json_quoted(msg)
        + "}"@
}

/// `w` is the JSON response of the envelope with these fields: transport status 200.
pub open spec fn is_envelope_response(
    w: WireResponse,
    code: int,
    data: Seq<char>,
    msg: Seq<char>,
) -> bool {
    &&& w.status == STATUS_OK
    &&& w.content is Json
    &&& w.body@ == envelope_text(code, data, msg)
}

/// An envelope body reads back as it was written: two bodies that are the same text
/// were written from the same code, the same payload text and the same message.
pub proof fn lemma_envelope_text_round_trip(
    c1: int,
    d1: Seq<char>,
    m1: Seq<char>,
    c2: int,
    d2: Seq<char>,
    m2: Seq<char>,
)
    requires
        envelope_text(c1, d1, m1) == envelope_text(c2, d2, m2),
    ensures
        c1 == c2,
        d1 == d2,
        m1 == m2,
{
    reveal_strlit("{\"code\":");
    reveal_strlit(",\"data\":");
    reveal_strlit(",\"msg\":");
    reveal_strlit("}");
    let pre = "{\"code\":"@;
    let dat = ",\"data\":"@;
    let mk = ",\"msg\":"@;
    let close = "}"@;
    let b = envelope_text(c1, d1, m1);
    let x1 = decimal(c1);
    let x2 = decimal(c2);
    let q1 = json_quoted(m1);
    let q2 = json_quoted(m2);
    lemma_decimal_facts(c1);
    lemma_decimal_facts(c2);
    let t1 = dat + d1 + mk + q1 + close;
    let t2 = dat + d2 + mk + q2 + close;
    assert(b =~= pre + x1 + t1);
    assert(b =~= pre + x2 + t2);
    if x1.len() < x2.len() {
        assert(b[8 + x1.len() as int] == ',');
        assert(b[8 + x1.len() as int] == x2[x1.len() as int]);
    }
    if x2.len() < x1.len() {
        assert(b[8 + x2.len() as int] == ',');
        assert(b[8 + x2.len() as int] == x1[x2.len() as int]);
    }
    assert(x1 =~= b.subrange(8, 8 + x1.len() as int));
    assert(x2 =~= b.subrange(8, 8 + x2.len() as int));
    lemma_decimal_injective(c1, c2);
    let u1 = d1 + mk;
    let u2 = d2 + mk;
    let w1 = u1 + q1;
    let w2 = u2 + q2;
    assert(w1 =~= b.subrange(8 + x1.len() as int + 8, b.len() - 1));
    assert(w2 =~= b.subrange(8 + x1.len() as int + 8, b.len() - 1));
    let w = w1;
    lemma_json_escaped_quotes(m1);
    lemma_json_escaped_quotes(m2);
    if q1.len() < q2.len() {
        let p = w.len() - q1.len();
        let j = p - (w.len() - q2.len());
        assert(w[p] == '"');
        assert(w[p - 1] == ':');
        assert(q2[j] == w[p]);
        assert(q2[j - 1] == w[p - 1]);
        assert(json_escaped(m2)[j - 1] == q2[j]);
        if j >= 2 {
            assert(json_escaped(m2)[j - 2] == q2[j - 1]);
        }
    }
    if q2.len() < q1.len() {
        let p = w.len() - q2.len();
        let j = p - (w.len() - q1.len());
        assert(w2[p] == '"');
        assert(w2[p - 1] == ':');
        assert(q1[j] == w[p]);
        assert(q1[j - 1] == w[p - 1]);
        assert(json_escaped(m1)[j - 1] == q1[j]);
        if j >= 2 {
            assert(json_escaped(m1)[j - 2] == q1[j - 1]);
        }
    }
    assert(q1 =~= w.subrange(w.len() - q1.len(), w.len() as int));
    assert(q2 =~= w.subrange(w.len() - q2.len(), w.len() as int));
    lemma_json_quoted_injective(m1, m2);
    assert(d1 =~= w.subrange(0, d1.len() as int));
    assert(d2 =~= w.subrange(0, d2.len() as int));
}

/// The JSON body of an envelope from its three parts.
pub fn envelope_body(code: i64, data_json: &str, msg: &str) -> (r: String)
    ensures
        r@ == envelope_text(code as int, data_json@, msg@),
{
    let mut out = String::from_str("{\"code\":");
    let digits = decimal_string(code);
    out.append(digits.as_str());
    out.append(",\"data\":");
    out.append(data_json);
    out.append(",\"msg\":");
    let quoted = json_string(msg);
    out.append(quoted.as_str());
    out.append("}");
    out
}

/// The JSON response of an envelope from its three parts: transport status 200.
pub fn envelope_response(code: i64, data_json: &str, msg: &str) -> (r: WireResponse)
    ensures
        is_envelope_response(r, code as int, data_json@, msg@),
{
    WireResponse { status: STATUS_OK, content: ContentKind::Json, body: envelope_body(code, data_json, msg) }
}

impl<T> Response<T> {
    /// The JSON text that stands for the payload in the body: `payload_json`, the
    /// payload's own JSON text, when there is a payload, else `null`.
    pub open spec fn data_text(&self, payload_json: Seq<char>) -> Seq<char> {
        if self.data is Some {
            payload_json
        } else {
            null_text()
        }
    }

    /// The JSON body of this envelope; `payload_json` is the JSON text of the
    /// payload and is read only when there is one.
    pub fn body_json(&self, payload_json: &str) -> (r: String)
        ensures
            r@ == envelope_text(self.code as int, self.data_text(payload_json@), self.msg@),
    {
        if self.data.is_some() {
            envelope_body(self.code as i64, payload_json, self.msg.as_str())
        } else {
            envelope_body(self.code as i64, "null", self.msg.as_str())
        }
    }

    /// The wire response of this envelope: always transport status 200 with a JSON body.
    pub fn respond_to(&self, payload_json: &str) -> (r: WireResponse)
        ensures
            is_envelope_response(r, self.code as int, self.data_text(payload_json@), self.msg@),
    {
        WireResponse { status: STATUS_OK, content: ContentKind::Json, body: self.body_json(payload_json) }
    }
}

/// A successful envelope: code 200 and the given payload.
pub fn success<T>(data: Option<T>) -> (r: Response<T>)
    ensures
        r.code == 200,
        r.data == data,
        r.msg@ == success_text(),
{
    Response { data, msg: String::from_str("成功"), code: 200 }
}

/// The wire response of a successful envelope; `payload_json` is the payload's JSON text.
pub fn success_respond_to<T>(data: Option<T>, payload_json: &str) -> (r: WireResponse)
    ensures
        is_envelope_response(
            r,
            200,
            if data is Some { payload_json@ } else { null_text() },
            success_text(),
        ),
{
    success(data).respond_to(payload_json)
}

/// A failed envelope: the generic failure code 0 and the given payload.
pub fn error<T>(data: Option<T>) -> (r: Response<T>)
    ensures
        r.code == 0,
        r.data == data,
        r.msg@ == failure_text(),
{
    Response { data, msg: String::from_str("失败"), code: 0 }
}

/// The wire response of a failed envelope; `payload_json` is the payload's JSON text.
pub fn error_respond_to<T>(data: Option<T>, payload_json: &str) -> (r: WireResponse)
    ensures
        is_envelope_response(
            r,
            0,
            if data is Some { payload_json@ } else { null_text() },
            failure_text(),
        ),
{
    error(data).respond_to(payload_json)
}

/// The wire response that refuses access: code 0, no payload, whatever payload type
/// the handler would otherwise return.
pub fn unauthorized() -> (r: WireResponse)
    ensures
        is_envelope_response(r, 0, null_text(), denied_text()),
{
    let e: Response<()> = Response { data: None, msg: String::from_str("无权限访问"), code: 0 };
    e.respond_to("null")
}

} // verus!
