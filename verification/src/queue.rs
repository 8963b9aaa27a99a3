//! What a queued command hands to OpenCL besides its data: its wait list,
//! the place for its new event, its work sizes and its byte counts.

use vstd::prelude::*;

use crate::error::Error;

verus! {

/// The wait list and new-event arguments of a queued command, as OpenCL
/// takes them: a length, and whether each pointer is given or null.
#[derive(Debug, Clone, Copy, PartialEq, Eq, Structural)]
pub struct QueueOpts {
    /// The number of events in the wait list (0 where there is none).
    pub wait_list_len: u32,
    /// Whether the wait list pointer points at the events (else it is null).
    pub wait_list_given: bool,
    /// Whether the new-event pointer points at a place to store the event
    /// (else it is null).
    pub new_event_given: bool,
}

/// The wait list arguments for `wait_list`: its length and a pointer to it
/// where it holds an event; 0 and null where it is absent or empty.
pub open spec fn wait_list_args<E>(wait_list: Option<&[E]>) -> (u32, bool) {
    match wait_list {
        Some(wl) => if wl@.len() > 0 {
            (wl@.len() as u32, true)
        } else {
            (0u32, false)
        },
        None => (0u32, false),
    }
}

/// An empty wait list is handed to OpenCL as no wait list at all: length 0
/// and a null pointer.
pub proof fn lemma_empty_wait_list_is_none<E>(wl: &[E])
    requires
        wl@.len() == 0,
    ensures
        wait_list_args(Some(wl)) == wait_list_args::<E>(None),
{
}

/// A wait list of at least one event is handed to OpenCL whole: its length
/// (as a `u32`) and a pointer to it; only an absent or empty list gives
/// length 0 and a null pointer.
pub proof fn lemma_wait_list_args_given<E>(wait_list: Option<&[E]>)
    ensures
        wait_list matches Some(wl) ==> (wl@.len() >= 1 ==> wait_list_args(wait_list) == (
        wl@.len() as u32, true)),
        (wait_list is None || wait_list->0@.len() == 0) ==> wait_list_args(wait_list) == (
        0u32, false),
        wait_list_args(wait_list).1 <==> (wait_list matches Some(wl) && wl@.len() >= 1),
{
}

/// Maps options of slices to pointers and a length.
pub fn resolve_queue_opts<E>(wait_list: Option<&[E]>, dest_event: Option<&mut E>) -> (r: Result<
    QueueOpts,
    Error,
>)
    ensures
        r matches Ok(q) && q.wait_list_len == wait_list_args(wait_list).0 && q.wait_list_given
            == wait_list_args(wait_list).1 && q.new_event_given == (dest_event is Some),
        dest_event matches Some(d) ==> *final(d) == *d,
        wait_list matches Some(wl) ==> (wl@.len() >= 1 ==> (r matches Ok(q) && q.wait_list_len
            == wl@.len() as u32 && q.wait_list_given)),
        (wait_list is None || wait_list->0@.len() == 0) ==> (r matches Ok(q) && q.wait_list_len
            == 0 && !q.wait_list_given),
{
    let (wait_list_len, wait_list_given): (u32, bool) = match wait_list {
        Some(wl) => {
            if wl.len() > 0 {
                (#[verifier::truncate] (wl.len() as u32), true)
            } else {
                (0, false)
            }
        },
        None => (0, false),
    };
    let new_event_given = match dest_event {
        Some(_) => true,
        None => false,
    };
    Ok(QueueOpts { wait_list_len, wait_list_given, new_event_given })
}

/// The work sizes to hand to OpenCL: the sizes themselves where given,
/// else nothing (a null pointer).
pub fn resolve_work_dims(work_dims: &Option<[usize; 3]>) -> (r: Option<&[usize; 3]>)
    ensures
        r is Some <==> work_dims is Some,
        r matches Some(w) ==> *w == work_dims->0,
{
    match work_dims {
        Some(w) => Some(w),
        None => None,
    }
}

/// The number of bytes that `count` values of type `T` occupy.
pub fn byte_len<T>(count: usize) -> (r: usize)
    requires
        count * vstd::layout::size_of::<T>() <= usize::MAX,
    ensures
        r == count * vstd::layout::size_of::<T>(),
{
    let elem: usize = core::mem::size_of::<T>();
    count * elem
}

/// The size in bytes of a buffer of `len` values of type `T`, whose initial
/// data, where given, must hold exactly `len` values.
pub fn buffer_byte_len<T>(len: usize, data: Option<&[T]>) -> (r: usize)
    requires
        data matches Some(d) ==> d@.len() == len,
        len * vstd::layout::size_of::<T>() <= usize::MAX,
    ensures
        r == len * vstd::layout::size_of::<T>(),
{
    byte_len::<T>(len)
}

} // verus!
