//! The choices made when a platform's devices are listed.

use vstd::prelude::*;

verus! {

/// The `cl_device_type` of graphics processors.
pub const CL_DEVICE_TYPE_GPU: u64 = 4;

/// The device type that is asked for where the caller names none.
pub const DEFAULT_DEVICE_TYPE: u64 = CL_DEVICE_TYPE_GPU;

/// The largest number of devices that one listing receives.
pub const DEVICES_MAX: u32 = 16;

/// The device type to ask for: the one given, else the default.
pub fn resolve_device_type(device_types_opt: Option<u64>) -> (r: u64)
    ensures
        r == match device_types_opt {
            Some(t) => t,
            None => DEFAULT_DEVICE_TYPE,
        },
{
    match device_types_opt {
        Some(t) => t,
        None => DEFAULT_DEVICE_TYPE,
    }
}

/// The devices that a listing found: the first `devices_available` entries
/// of the array that OpenCL filled.
pub fn device_id_list<D: Copy>(devices_array: &[D], devices_available: u32) -> (r: Vec<D>)
    requires
        devices_available <= devices_array@.len(),
    ensures
        r@ == devices_array@.take(devices_available as int),
{
    let count: usize = devices_available as usize;
    let mut device_ids: Vec<D> = Vec::with_capacity(count);
    let mut i: usize = 0;
    while i < count
        invariant
            count == devices_available,
            count <= devices_array@.len(),
            i <= count,
            device_ids@ == devices_array@.take(i as int),
        decreases count - i,
    {
        device_ids.push(devices_array[i]);
        i = i + 1;
        proof {
            assert(device_ids@ =~= devices_array@.take(i as int));
        }
    }
    device_ids
}

} // verus!
