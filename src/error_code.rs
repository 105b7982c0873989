use vstd::prelude::*;
use vstd::string::StringExecFns;

use crate::envelope::{envelope_response, is_envelope_response, null_text, WireResponse};
use crate::text::{decimal, decimal_string, substitute, substitute_placeholder};

verus! {

/// A catalogued application error: a numeric code and a message template that may
/// hold a `%s` placeholder. The code 0 is kept for the generic failure envelope.
#[derive(Clone, Debug, Default)]
pub struct ErrorCode {
    pub code: i64,
    pub message: &'static str,
}

impl ErrorCode {
    pub fn new(code: i64, message: &'static str) -> (r: ErrorCode)
        ensures
            r.code == code,
            r.message == message,
    {
        ErrorCode { code, message }
    }

    pub fn code(&self) -> (r: i64)
        ensures
            r == self.code,
    {
        self.code
    }

    /// The code in decimal.
    pub fn code_string(&self) -> (r: Option<String>)
        ensures
            r is Some,
            r->0@ == decimal(self.code as int),
    {
        Some(decimal_string(self.code))
    }

    /// The raw template, placeholder included.
    pub fn message(&self) -> (r: &'static str)
        ensures
            r == self.message,
    {
        self.message
    }

    /// The text of this error: `(<code>, <message>)`.
    pub fn describe(&self) -> (r: String)
        ensures
            r@ == "("@ + decimal(self.code as int) + ", "@ + self.message@ + ")"@,
    {
        let mut out = String::from_str("(");
        let digits = decimal_string(self.code);
        out.append(digits.as_str());
        out.append(", ");
        out.append(self.message);
        out.append(")");
        out
    }

    /// The template with every `%s` replaced by `tips`.
    pub fn tips(&self, tips: &'static str) -> (r: String)
        ensures
            r@ == substitute(self.message@, tips@),
    {
        substitute_placeholder(self.message(), tips)
    }

    /// The wire response of this error with its raw template as message and no payload.
    pub fn throw(&self) -> (r: WireResponse)
        ensures
            is_envelope_response(r, self.code as int, null_text(), self.message@),
    {
        envelope_response(self.code(), "null", self.message())
    }

    /// The wire response of this error with `%s` replaced by `tips` and no payload.
    pub fn throw_tips(&self, tips: &'static str) -> (r: WireResponse)
        ensures
            is_envelope_response(r, self.code as int, null_text(), substitute(self.message@, tips@)),
    {
        let msg = self.tips(tips);
        envelope_response(self.code(), "null", msg.as_str())
    }
}

/// The wire response of `ec` with its raw template as message.
pub fn throw(ec: ErrorCode) -> (r: WireResponse)
    ensures
        is_envelope_response(r, ec.code as int, null_text(), ec.message@),
{
    ec.throw()
}

/// The wire response of `ec` with `%s` replaced by `tips`.
pub fn throw_tips(ec: ErrorCode, tips: &'static str) -> (r: WireResponse)
    ensures
        is_envelope_response(
            r,
            ec.code as int,
            null_text(),
            substitute(ec.message@, tips@),
        ),
{
    ec.throw_tips(tips)
}

} // verus!
