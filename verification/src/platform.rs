//! The text that describes a platform.

use vstd::prelude::*;
use vstd::utf8::{decode_utf8, valid_utf8};

use crate::text::{decimal, decimal_string};
use crate::utf8::string_from_utf8;

verus! {

/// The `cl_platform_info` that asks for a platform's name.
pub const CL_PLATFORM_NAME: u32 = 0x0902;

/// The line that shows the value `value` of a platform's information of
/// kind `info`.
pub open spec fn platform_info_text(info: u32, value: Seq<char>) -> Seq<char> {
    "*** Platform Name ("@ + decimal(info as int) + "): "@ + value
}

/// The line for a platform's information holds every character of the value,
/// after the prefix that names the information: its length is the prefix's
/// length plus the value's, and it ends with the value itself.
pub proof fn lemma_platform_info_text_holds_value(info: u32, value: Seq<char>)
    ensures
        platform_info_text(info, value).len() == 22 + decimal(info as int).len() + value.len(),
        platform_info_text(info, value).subrange(
            22 + decimal(info as int).len() as int,
            platform_info_text(info, value).len() as int,
        ) == value,
        platform_info_text(info, value).take(19) == "*** Platform Name ("@,
{
    reveal_strlit("*** Platform Name (");
    reveal_strlit("): ");
    let t = platform_info_text(info, value);
    let k: int = 22 + decimal(info as int).len() as int;
    assert(t.subrange(k, t.len() as int) =~= value);
    assert(t.take(19) =~= "*** Platform Name ("@);
}

/// The line that shows the value `value`, as bytes, of a platform's
/// information of kind `info`; `None` where the bytes are no UTF-8 text.
pub fn platform_info_line(info: u32, value: Vec<u8>) -> (r: Option<String>)
    ensures
        r is Some <==> valid_utf8(value@),
        r matches Some(line) ==> line@ == platform_info_text(info, decode_utf8(value@)),
        r matches Some(line) ==> line@ == "*** Platform Name ("@ + decimal(info as int) + "): "@
            + decode_utf8(value@),
        r matches Some(line) ==> line@.len() == 22 + decimal(info as int).len() + decode_utf8(
            value@,
        ).len(),
{
    let name = match string_from_utf8(value) {
        Ok(s) => s,
        Err(_) => {
            return None;
        },
    };
    let mut line = "*** Platform Name (".to_owned();
    let info_digits = decimal_string(info as i64);
    line.append(info_digits.as_str());
    line.append("): ");
    line.append(name.as_str());
    proof {
        reveal_strlit("*** Platform Name (");
        reveal_strlit("): ");
    }
    Some(line)
}

} // verus!
