//! The callback-boundary protocol.
//!
//! The native driver accepts one opaque pointer and a fixed-signature native
//! function per registered event.  The unverified glue boxes the caller's
//! typed state and function into a [`CallbackWrapper`], hands the driver the
//! box as that opaque pointer, and recovers it inside the native trampoline.
//! Exactly one side holds that box at any instant; [`CallbackSlot`] is the
//! model of that custody, and the `settle_*` functions are the decisions the
//! trampolines take when an invocation ends: re-arm the callback on success,
//! or tear the task down and drop the callback for good on any failure.

use vstd::prelude::*;
use crate::task_handle::TaskHandle;
use crate::SCAN_WARNING;

verus! {

/// One piece of caller-supplied state plus the typed function that consumes
/// it, boxed as the single allocation that crosses the native boundary.
pub struct CallbackWrapper<T, F> {
    pub data: T,
    pub func: F,
}

impl<T, F> CallbackWrapper<T, F> {
    pub fn new(data: T, func: F) -> (r: Box<Self>)
        ensures
            r.data == data,
            r.func == func,
    {
        Box::new(CallbackWrapper { data, func })
    }
}

/// Who currently owns the boxed callback of one registered event.
#[derive(Clone, Copy, PartialEq, Eq, Structural, Debug)]
pub enum CallbackCustody {
    /// The driver holds the opaque pointer and may invoke the trampoline.
    Driver,
    /// A trampoline invocation has reclaimed the box and is running.
    Callback,
    /// The box has been dropped; the pointer must never be touched again.
    Released,
}

/// Custody record of one registered callback's boxed state.
pub struct CallbackSlot {
    custody: CallbackCustody,
}

impl CallbackSlot {
    pub closed spec fn driver_holds(&self) -> bool {
        self.custody == CallbackCustody::Driver
    }

    pub closed spec fn callback_holds(&self) -> bool {
        self.custody == CallbackCustody::Callback
    }

    pub closed spec fn released(&self) -> bool {
        self.custody == CallbackCustody::Released
    }

    /// Registration transferred the box to the driver.
    pub fn handed_to_driver() -> (r: CallbackSlot)
        ensures
            r.driver_holds(),
    {
        CallbackSlot { custody: CallbackCustody::Driver }
    }

    /// A trampoline invocation begins: the box is reclaimed from the opaque
    /// pointer.  Until the invocation settles, nobody else may touch it.
    pub fn enter_callback(&mut self)
        requires
            old(self).driver_holds(),
        ensures
            final(self).callback_holds(),
    {
        self.custody = CallbackCustody::Callback;
    }

    /// The box is re-wrapped and leaked back to the driver, so the next
    /// invocation can reuse it.
    pub fn rearm(&mut self)
        requires
            old(self).callback_holds(),
        ensures
            final(self).driver_holds(),
    {
        self.custody = CallbackCustody::Driver;
    }

    /// The box is dropped for good; no further invocation may occur.
    pub fn release(&mut self)
        requires
            old(self).callback_holds(),
        ensures
            final(self).released(),
    {
        self.custody = CallbackCustody::Released;
    }
}

/// What one read-callback invocation came to.
#[derive(Clone, Copy, PartialEq, Eq, Structural, Debug)]
pub enum ReadOutcome {
    /// Every sample of the batch was reconstructed and forwarded.
    Forwarded,
    /// The driver reported a negative error code; the task has been torn
    /// down and its extended diagnostic text should be fetched.
    DriverFault(i32),
    /// The read reported success but returned fewer samples than requested;
    /// nothing was forwarded.
    ScanWarning,
    /// The read reported a positive, advisory status; nothing was forwarded.
    Advisory(i32),
    /// The transport's consuming side has been released; stop producing.
    ConsumerGone,
}

impl ReadOutcome {
    /// Only a driver fault takes the fatal path (diagnostic fetch and abort);
    /// a released consumer or a short read merely stops the task.
    pub fn is_fatal(&self) -> (r: bool)
        ensures
            r == (*self is DriverFault),
    {
        matches!(self, ReadOutcome::DriverFault(_))
    }
}

/// Classifies what a synchronous batch read reported: reading exactly the
/// requested number of samples with a zero code is the only success; a zero
/// code with any other count is the distinguished short-read warning; any
/// other code is handed back as is.
pub fn classify_read(err_code: i32, samples_read: i32, requested: u32) -> (r: Result<(), i32>)
    requires
        requested <= i32::MAX,
    ensures
        r is Ok <==> (err_code == 0 && samples_read == requested),
        err_code == 0 && samples_read != requested ==> r == Err::<(), i32>(SCAN_WARNING),
        err_code != 0 ==> r == Err::<(), i32>(err_code),
{
    if err_code == 0 {
        if samples_read == requested as i32 {
            Ok(())
        } else {
            Err(SCAN_WARNING)
        }
    } else {
        Err(err_code)
    }
}

/// The read trampoline's closing decision.  On a fully forwarded batch the
/// box goes back to the driver and the task keeps running; on any failure the
/// box is dropped and the task is torn down (a driver fault has already torn
/// it down by the time the invocation settles).
pub fn settle_read_callback(
    outcome: ReadOutcome,
    task: &mut TaskHandle,
    slot: &mut CallbackSlot,
)
    requires
        old(slot).callback_holds(),
        outcome is DriverFault ==> old(task).is_cleared(),
        !(outcome is DriverFault) ==> old(task).is_running(),
    ensures
        outcome is Forwarded ==> final(slot).driver_holds() && *final(task) == *old(task),
        !(outcome is Forwarded) ==> final(slot).released() && final(task).is_cleared(),
{
    match outcome {
        ReadOutcome::Forwarded => {
            slot.rearm();
        }
        ReadOutcome::DriverFault(_) => {
            // the central error check already tore the task down
            slot.release();
        }
        _ => {
            task.clear_task();
            slot.release();
        }
    }
}

/// The done trampoline's closing decision: the box is always dropped (a done
/// event never re-arms), and the completion code goes through the central
/// error check if the task is still alive.
pub fn settle_done_callback(
    err_code: i32,
    task: &mut TaskHandle,
    slot: &mut CallbackSlot,
) -> (fatal: bool)
    requires
        old(slot).callback_holds(),
        old(task).live(),
    ensures
        final(slot).released(),
        fatal <==> err_code < 0,
        fatal ==> final(task).is_cleared(),
        !fatal ==> *final(task) == *old(task),
{
    let fatal = task.chk_err_code(err_code);
    slot.release();
    fatal
}

} // verus!
