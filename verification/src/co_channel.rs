//! Pulse-frequency output channel.
//!
//! It exists solely to drive another channel's sample clock: it is created,
//! given implicit continuous timing, and started immediately, before the
//! channel that consumes its signal configures its own sample clock.  The
//! frequency and duty cycle handed to the driver are configuration data of
//! the unverified glue; the protocol — which driver calls, in which order,
//! and what each reported code means — is decided here.

use vstd::prelude::*;
use crate::callback_utils::CallbackSlot;
use crate::task_handle::TaskHandle;

verus! {

/// One running clock-source channel and the task it exclusively owns.
pub struct CoFreqChannel {
    task_handle: TaskHandle,
}

impl CoFreqChannel {
    /// The owned task.
    pub closed spec fn spec_task(&self) -> TaskHandle {
        self.task_handle
    }

    /// The channel's task has been started and not torn down.
    pub open spec fn is_running(&self) -> bool {
        self.spec_task().is_running()
    }

    /// Builds the channel from the driver's reported results for task
    /// creation, pulse-channel creation, implicit-timing configuration and
    /// done-event registration, in that order; a negative code anywhere
    /// stops the construction there and tears the task down.  On success the
    /// channel is already running and the returned slot records that the
    /// driver holds the done callback's box.
    pub fn new(
        create_code: i32,
        chan_code: i32,
        timing_code: i32,
        done_reg_code: i32,
    ) -> (r: Result<(CoFreqChannel, CallbackSlot), i32>)
        ensures
            r is Ok <==> create_code >= 0 && chan_code >= 0 && timing_code >= 0
                && done_reg_code >= 0,
            r is Ok ==> r->Ok_0.0.is_running() && r->Ok_0.1.driver_holds(),
            r is Err ==> r->Err_0 == (if create_code < 0 {
                create_code
            } else if chan_code < 0 {
                chan_code
            } else if timing_code < 0 {
                timing_code
            } else {
                done_reg_code
            }),
    {
        let mut task_handle = match TaskHandle::new(create_code) {
            Ok(h) => h,
            Err(e) => {
                return Err(e);
            }
        };
        match task_handle.create_co_freq_chan(chan_code) {
            Ok(()) => (),
            Err(e) => {
                return Err(e);
            }
        }
        match task_handle.configure_implicit_timing(timing_code) {
            Ok(()) => (),
            Err(e) => {
                return Err(e);
            }
        }
        let done_slot = match task_handle.register_done_callback(done_reg_code) {
            Ok(slot) => slot,
            Err(e) => {
                return Err(e);
            }
        };
        task_handle.launch();
        Ok((CoFreqChannel { task_handle }, done_slot))
    }
}

} // verus!
