use vstd::prelude::*;
use vstd::string::StringExecFns;

use crate::envelope::{ContentKind, WireResponse, STATUS_BAD_REQUEST};
use crate::text::{decimal, decimal_string};

verus! {

/// An unexpected failure, with the source location where it arose.
#[derive(Debug)]
pub struct Error {
    pub file: &'static str,
    pub line: u32,
    pub message: String,
}

/// The text of a failure: `<file>:<line> <message>`.
pub open spec fn failure_line(file: Seq<char>, line: int, message: Seq<char>) -> Seq<char> {
    file + ":"@ + decimal(line) + " "@ + message
}

impl Error {
    pub fn new(file: &'static str, line: u32, message: String) -> (r: Self)
        ensures
            r.file == file,
            r.line == line,
            r.message == message,
    {
        Self { file, line, message }
    }

    /// The text of this failure.
    pub fn render(&self) -> (r: String)
        ensures
            r@ == failure_line(self.file@, self.line as int, self.message@),
    {
        let mut out = String::from_str(self.file);
        out.append(":");
        let digits = decimal_string(self.line as i64);
        out.append(digits.as_str());
        out.append(" ");
        out.append(self.message.as_str());
        out
    }

    /// The wire response of this failure: transport status 400 with an HTML body.
    pub fn respond_to(&self) -> (r: WireResponse)
        ensures
            r.status == STATUS_BAD_REQUEST,
            r.content is Html,
            r.body@ == failure_line(self.file@, self.line as int, self.message@),
    {
        WireResponse { status: STATUS_BAD_REQUEST, content: ContentKind::Html, body: self.render() }
    }
}

} // verus!
