//! The names of kernels, as OpenCL takes them and as error messages show them.

use vstd::prelude::*;
use vstd::string::StringSliceAdditionalSpecFns;

use crate::error::Error;

verus! {

/// Whether `p` is the position of the first nul byte in `bytes`.
pub open spec fn is_first_nul(bytes: Seq<u8>, p: int) -> bool {
    &&& 0 <= p < bytes.len()
    &&& bytes[p] == 0
    &&& forall|i: int| 0 <= i < p ==> bytes[i] != 0
}

/// Checks that `name` can be handed to OpenCL as a C string: it holds no nul
/// byte. Else the error gives the position of the first one.
pub fn check_c_name(name: &str) -> (r: Result<(), Error>)
    ensures
        r is Ok <==> !name.spec_bytes().contains(0u8),
        r matches Err(e) ==> (e matches Error::Nul(p) && is_first_nul(name.spec_bytes(), p as int)),
{
    let bytes = name.as_bytes();
    let mut i: usize = 0;
    while i < bytes.len()
        invariant
            bytes@ == name.spec_bytes(),
            i <= bytes@.len(),
            forall|j: int| 0 <= j < i ==> bytes@[j] != 0,
        decreases bytes@.len() - i,
    {
        if bytes[i] == 0 {
            return Err(Error::Nul(i));
        }
        i = i + 1;
    }
    proof {
        assert(!name.spec_bytes().contains(0u8)) by {
            if name.spec_bytes().contains(0u8) {
                let k = choose|k: int| 0 <= k < bytes@.len() && bytes@[k] == 0u8;
                assert(bytes@[k] != 0);
            }
        }
    }
    Ok(())
}

/// The prefix of the message of a failed kernel creation.
pub open spec fn create_kernel_text(name: Seq<char>) -> Seq<char> {
    "clCreateKernel('"@ + name + "'):"@
}

/// The prefix of the message of a failed kernel creation.
pub fn create_kernel_label(name: &str) -> (r: String)
    ensures
        r@ == create_kernel_text(name@),
{
    let mut s = "clCreateKernel('".to_owned();
    s.append(name);
    s.append("'):");
    s
}

/// The prefix of the message of a failed kernel launch.
pub open spec fn enqueue_kernel_text(kernel_name: Option<Seq<char>>) -> Seq<char> {
    "ocl::Kernel::enqueue()["@ + match kernel_name {
        Some(n) => n,
        None => Seq::empty(),
    } + "]:"@
}

/// The prefix of the message of a failed kernel launch, which names the
/// kernel where its name is known.
pub fn enqueue_kernel_label(kernel_name: Option<&str>) -> (r: String)
    ensures
        r@ == enqueue_kernel_text(
            match kernel_name {
                Some(n) => Some(n@),
                None => None,
            },
        ),
{
    let mut s = "ocl::Kernel::enqueue()[".to_owned();
    match kernel_name {
        Some(n) => s.append(n),
        None => {},
    }
    s.append("]:");
    proof {
        reveal_strlit("");
    }
    s
}

} // verus!
