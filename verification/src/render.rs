//! The adapter between the engine's render call and the typed callback.

use vstd::prelude::*;
use crate::action_flags::{truncated, ActionFlags};
use crate::buffer::{AudioBuffer, Buffer};
use crate::error::{os_status, status_of, OSStatus};

verus! {

/// What a render callback is given on each call.
pub struct Args<B, T> {
    /// The view of the engine's buffers, in the callback's buffer type.
    pub buffer: B,
    /// The time of the call, as the engine gave it.
    pub time_stamp: T,
    /// The phase of rendering in which the callback is called.
    pub flags: ActionFlags,
    /// The bus that the call is for.
    pub bus_number: u32,
    /// The number of frames in the buffer.
    pub num_frames: usize,
}

/// A render callback as it is kept while it is registered.
pub struct InputProcFnWrapper<F> {
    callback: F,
}

impl<B, T> Args<B, T> {
    /// Whether `self` is what a callback is given for a render call with
    /// these arguments.
    pub open spec fn is_for<'a>(
        &self,
        io_action_flags: u32,
        in_time_stamp: T,
        in_bus_number: u32,
        in_number_frames: u32,
        io_data: Seq<AudioBuffer<'a, B::Sample>>,
    ) -> bool where B: Buffer<'a> {
        &&& self.buffer.views(in_number_frames, io_data)
        &&& self.time_stamp == in_time_stamp
        &&& self.flags@ == truncated(io_action_flags)
        &&& self.bus_number == in_bus_number
        &&& self.num_frames == in_number_frames
    }

    /// Puts together what a callback is given for one render call: the view
    /// of the buffers, and the flags of `io_action_flags` that have a name.
    pub fn from_input_proc<'a>(
        io_action_flags: u32,
        in_time_stamp: T,
        in_bus_number: u32,
        in_number_frames: u32,
        io_data: &'a mut [AudioBuffer<'a, B::Sample>],
    ) -> (args: Self) where B: Buffer<'a>
        requires
            B::args_fit(in_number_frames, old(io_data)@),
        ensures
            args.is_for(
                io_action_flags,
                in_time_stamp,
                in_bus_number,
                in_number_frames,
                old(io_data)@,
            ),
    {
        Args {
            buffer: B::from_input_proc_args(in_number_frames, io_data),
            time_stamp: in_time_stamp,
            flags: ActionFlags::from_bits_truncate(io_action_flags),
            bus_number: in_bus_number,
            num_frames: in_number_frames as usize,
        }
    }
}

impl<F> InputProcFnWrapper<F> {
    /// The callback that is kept.
    pub closed spec fn callback(&self) -> F {
        self.callback
    }

    /// Wraps a callback for registration.
    pub fn new(callback: F) -> (wrapper: Self)
        ensures
            wrapper.callback() == callback,
    {
        InputProcFnWrapper { callback }
    }
}

/// Serves one render call of the engine: builds the callback's view of the
/// buffers, calls the callback, and translates its outcome into a status.
///
/// The buffer list has to fit the callback's buffer type: the engine and the
/// registration agreed on a format, and a list of another shape means that
/// one of them broke it.
pub fn input_proc<'a, B, T, F>(
    wrapper: &mut InputProcFnWrapper<F>,
    io_action_flags: u32,
    in_time_stamp: T,
    in_bus_number: u32,
    in_number_frames: u32,
    io_data: &'a mut [AudioBuffer<'a, B::Sample>],
) -> (status: OSStatus) where B: Buffer<'a>, F: FnMut(Args<B, T>) -> Result<(), ()>
    requires
        B::args_fit(in_number_frames, old(io_data)@),
        forall|args: Args<B, T>|
            args.is_for(
                io_action_flags,
                in_time_stamp,
                in_bus_number,
                in_number_frames,
                old(io_data)@,
            ) ==> call_requires(old(wrapper).callback(), (args,)),
    ensures
        exists|args: Args<B, T>, outcome: Result<(), ()>|
            args.is_for(
                io_action_flags,
                in_time_stamp,
                in_bus_number,
                in_number_frames,
                old(io_data)@,
            ) && call_ensures(old(wrapper).callback(), (args,), outcome) && status == status_of(
                outcome,
            ),
{
    let args = Args::<B, T>::from_input_proc(
        io_action_flags,
        in_time_stamp,
        in_bus_number,
        in_number_frames,
        io_data,
    );
    let ghost given = args;
    let outcome = (wrapper.callback)(args);
    assert(call_ensures(old(wrapper).callback(), (given,), outcome));
    os_status(outcome)
}

/// Serves one render call of the engine if its buffer list fits the
/// callback's buffer type, as [`input_proc`] does. If the list does not fit,
/// the callback is not called and `None` is returned: the caller has met a
/// broken agreement, and no status can mend it.
pub fn checked_input_proc<'a, B, T, F>(
    wrapper: &mut InputProcFnWrapper<F>,
    io_action_flags: u32,
    in_time_stamp: T,
    in_bus_number: u32,
    in_number_frames: u32,
    io_data: &'a mut [AudioBuffer<'a, B::Sample>],
) -> (status: Option<OSStatus>) where B: Buffer<'a>, F: FnMut(Args<B, T>) -> Result<(), ()>
    requires
        forall|args: Args<B, T>|
            args.is_for(
                io_action_flags,
                in_time_stamp,
                in_bus_number,
                in_number_frames,
                old(io_data)@,
            ) ==> call_requires(old(wrapper).callback(), (args,)),
    ensures
        status is Some == B::args_fit(in_number_frames, old(io_data)@),
        status is Some ==> exists|args: Args<B, T>, outcome: Result<(), ()>|
            args.is_for(
                io_action_flags,
                in_time_stamp,
                in_bus_number,
                in_number_frames,
                old(io_data)@,
            ) && call_ensures(old(wrapper).callback(), (args,), outcome) && status == Some(
                status_of(outcome),
            ),
        status is None ==> final(wrapper).callback() == old(wrapper).callback(),
        status is None ==> final(io_data)@ == old(io_data)@,
{
    if B::do_input_proc_args_fit(in_number_frames, &*io_data) {
        Some(
            input_proc::<B, T, F>(
                wrapper,
                io_action_flags,
                in_time_stamp,
                in_bus_number,
                in_number_frames,
                io_data,
            ),
        )
    } else {
        None
    }
}

} // verus!
