//! The decisions taken while a program is built: when to look for build
//! logs, and which log makes the build an error.

use vstd::prelude::*;
use vstd::utf8::{decode_utf8, valid_utf8};

use crate::error::{Error, errcode_try, fails_with, failure_text};
use crate::utf8::{string_from_utf8, utf8_error_text};

verus! {

/// The message that shows a program's build log `log`.
pub open spec fn build_log_text(log: Seq<char>) -> Seq<char> {
    "\n\n###################### OPENCL PROGRAM BUILD DEBUG OUTPUT ######################\n\n"@
        + log + "\n###############################################################################\n\n"@
}

/// What follows a call that builds a program and reported `errcode`:
/// `None` where the build failed (a negative code) and the build logs are
/// to be searched for the error; else the result of the build.
pub fn build_outcome(errcode: i32) -> (r: Option<Result<(), Error>>)
    ensures
        r is None <==> errcode < 0,
        r matches Some(res) ==> (res is Ok <==> errcode == 0),
        errcode > 0 ==> (r matches Some(res) && fails_with(
            res,
            failure_text("clBuildProgram()"@, errcode),
        )),
{
    if errcode < 0 {
        None
    } else {
        Some(errcode_try("clBuildProgram()", errcode))
    }
}

/// The error that a device's build log gives, from the log as decoded:
/// the framed log where it is text, else the decoding error's text.
pub fn build_log_error(decoded: Result<String, String>) -> (r: Result<(), Error>)
    ensures
        match decoded {
            Ok(s) => fails_with(r, build_log_text(s@)),
            Err(m) => fails_with(r, m@),
        },
{
    match decoded {
        Ok(pbi_nonull) => {
            let mut desc = "\n\n###################### OPENCL PROGRAM BUILD DEBUG OUTPUT ######################\n\n".to_owned();
            desc.append(pbi_nonull.as_str());
            desc.append("\n###############################################################################\n\n");
            Error::err(desc)
        },
        Err(m) => Error::err(m),
    }
}

/// Evaluates one device's build log `log`, of the reported size `size`:
/// a log longer than its terminating nul is an error that shows it.
pub fn program_build_log(size: usize, log: Vec<u8>) -> (r: Result<(), Error>)
    ensures
        size <= 1 ==> r is Ok,
        size > 1 && valid_utf8(log@) ==> fails_with(r, build_log_text(decode_utf8(log@))),
        size > 1 && !valid_utf8(log@) ==> fails_with(r, utf8_error_text(log@)),
{
    if size > 1 {
        let decoded = string_from_utf8(log);
        return build_log_error(decoded);
    }
    Ok(())
}

} // verus!
