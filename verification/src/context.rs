//! The checks made on a context's information, by which an object that is
//! not a context is detected.

use vstd::prelude::*;

use crate::error::{Error, errcode_try, fails_with, failure_text};

verus! {

/// The `cl_context_info` that asks for a context's devices.
pub const CL_CONTEXT_DEVICES: u32 = 0x1081;

/// The largest size of a context's information that a valid context is
/// believed to report.
pub const CONTEXT_INFO_SIZE_MAX: usize = 10000;

/// The message of the error by which an object is taken for no context.
pub open spec fn invalid_context_text() -> Seq<char> {
    "\n\nocl::raw::context_info(): Possible invalid context detected. \nContext info result size is either '> 10k bytes' or '== 0'. Almost certainly an \ninvalid context object. If not, please file an issue at: \nhttps://github.com/cogciprocate/ocl/issues.\n\n"@
}

/// Whether a context's information of kind `info_kind` and size
/// `result_size` marks the object as no context: a size over the largest,
/// or no device at all.
pub open spec fn context_size_suspect(info_kind: u32, result_size: usize) -> bool {
    result_size > CONTEXT_INFO_SIZE_MAX || (result_size == 0 && info_kind == CL_CONTEXT_DEVICES)
}

/// A context's information is taken for no context exactly when its size is
/// over 10000 bytes, or when it is the device list and is empty: a device
/// list of 1 to 10000 bytes, and any other information of at most 10000
/// bytes, is accepted.
pub proof fn lemma_context_size_bounds(info_kind: u32, result_size: usize)
    ensures
        context_size_suspect(info_kind, result_size) <==> (result_size > 10000 || (result_size
            == 0 && info_kind == 0x1081)),
        1 <= result_size <= 10000 ==> !context_size_suspect(info_kind, result_size),
        info_kind == 0x1081 && result_size == 0 ==> context_size_suspect(info_kind, result_size),
{
}

/// Checks the answer to the query for the size of a context's information
/// of kind `info_kind`: the status `errcode` it reported and the size
/// `result_size`. Gives the size of the buffer for the second query.
pub fn context_info_size(info_kind: u32, errcode: i32, result_size: usize) -> (r: Result<
    usize,
    Error,
>)
    ensures
        errcode != 0 ==> fails_with(r, failure_text("clGetContextInfo"@, errcode)),
        errcode == 0 && context_size_suspect(info_kind, result_size) ==> fails_with(
            r,
            invalid_context_text(),
        ),
        errcode == 0 && !context_size_suspect(info_kind, result_size) ==> r == Ok::<
            usize,
            Error,
        >(result_size),
        errcode == 0 ==> (r is Err <==> (result_size > 10000 || (result_size == 0 && info_kind
            == 0x1081))),
        errcode == 0 && 1 <= result_size <= 10000 ==> r == Ok::<usize, Error>(result_size),
        errcode == 0 && result_size == 0 && info_kind != 0x1081 ==> r == Ok::<usize, Error>(0),
{
    errcode_try("clGetContextInfo", errcode)?;
    let err_if_zero_result_size = info_kind == CL_CONTEXT_DEVICES;
    if result_size > CONTEXT_INFO_SIZE_MAX || (result_size == 0 && err_if_zero_result_size) {
        return Error::err(
            "\n\nocl::raw::context_info(): Possible invalid context detected. \nContext info result size is either '> 10k bytes' or '== 0'. Almost certainly an \ninvalid context object. If not, please file an issue at: \nhttps://github.com/cogciprocate/ocl/issues.\n\n".to_owned(),
        );
    }
    Ok(result_size)
}

} // verus!
