//! The library's error type, and the evaluation of the status codes that
//! OpenCL calls report.

use vstd::prelude::*;

use crate::status::{ClStatus, status_of};
use crate::text::{decimal, decimal_string};

verus! {

/// What went wrong in an OpenCL call or around it.
#[derive(Debug)]
pub enum Error {
    /// An error described by a message.
    Message(String),
    /// A name holds a nul byte at this byte position, so it cannot be passed
    /// to OpenCL as a C string.
    Nul(usize),
}

/// The text of an error message.
pub open spec fn message_of(e: Error) -> Option<Seq<char>> {
    match e {
        Error::Message(m) => Some(m@),
        Error::Nul(_) => None,
    }
}

/// Whether `r` is an error whose message is `text`.
pub open spec fn fails_with<T>(r: Result<T, Error>, text: Seq<char>) -> bool {
    r matches Err(e) && message_of(e) == Some(text)
}

impl Error {
    /// An `Err` that carries `desc` as its message.
    pub fn err<T>(desc: String) -> (r: Result<T, Error>)
        ensures
            fails_with(r, desc@),
    {
        Err(Error::Message(desc))
    }
}

/// The text that names `errcode`: the status's name where OpenCL defines one,
/// else the code itself in decimal.
pub open spec fn errcode_text(errcode: i32) -> Seq<char> {
    match status_of(errcode) {
        Some(s) => s.spec_name(),
        None => "[Unknown Error Code: "@ + decimal(errcode as int) + "]"@,
    }
}

/// The message of a failed call described by `message` that reported `errcode`.
pub open spec fn failure_text(message: Seq<char>, errcode: i32) -> Seq<char> {
    "\n\nOPENCL ERROR: "@ + message + " failed with code: "@ + errcode_text(errcode) + "\n\n"@
}

/// The text that names `errcode`.
pub fn errcode_string(errcode: i32) -> (r: String)
    ensures
        r@ == errcode_text(errcode),
{
    match ClStatus::from_i32(errcode) {
        Some(cls) => cls.name().to_owned(),
        None => {
            let mut s = "[Unknown Error Code: ".to_owned();
            let digits = decimal_string(errcode as i64);
            s.append(digits.as_str());
            s.append("]");
            s
        },
    }
}

/// Evaluates `errcode` and returns an `Err` if it is not 0.
pub fn errcode_try(message: &str, errcode: i32) -> (r: Result<(), Error>)
    ensures
        r is Ok <==> errcode == 0,
        errcode != 0 ==> fails_with(r, failure_text(message@, errcode)),
{
    if errcode != ClStatus::CL_SUCCESS.code() {
        let mut desc = "\n\nOPENCL ERROR: ".to_owned();
        desc.append(message);
        desc.append(" failed with code: ");
        let code_text = errcode_string(errcode);
        desc.append(code_text.as_str());
        desc.append("\n\n");
        Error::err(desc)
    } else {
        Ok(())
    }
}

/// Evaluates `errcode`, which must be 0: OpenCL reported success.
pub fn errcode_assert(message: &str, errcode: i32)
    requires
        errcode == 0,
{
    errcode_try(message, errcode).unwrap();
}

} // verus!
