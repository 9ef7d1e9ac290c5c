//! Lifecycle and error protocol of one native acquisition/generation task.
//!
//! The native driver itself is reached only from unverified glue: every
//! configuration call there returns a signed error code, and the glue reports
//! that code to the model kept here.  The model decides what the code means
//! (negative codes are fatal, zero is success, positive codes are advisory),
//! tracks how far the task's configuration has progressed, and rules out, by
//! precondition, every operation on a task that has already been torn down.

use vstd::prelude::*;
use crate::callback_utils::CallbackSlot;

verus! {

/// Where a native task stands in its life.
#[derive(Clone, Copy, PartialEq, Eq, Structural, Debug)]
pub enum TaskState {
    /// Created and being configured; not yet started.
    Setup,
    /// Started: the driver may invoke registered callbacks at any time.
    Running,
    /// Stopped and released; no further operation may touch it.
    Cleared,
}

/// Model of one exclusively owned native task.
pub struct TaskHandle {
    state: TaskState,
    has_channel: bool,
    has_timing: bool,
    has_read_event: bool,
    has_done_event: bool,
}

impl TaskHandle {
    /// Where the task stands in its life.
    pub closed spec fn lifecycle(&self) -> TaskState {
        self.state
    }

    /// The task has not been released.
    pub open spec fn live(&self) -> bool {
        self.lifecycle() != TaskState::Cleared
    }

    pub open spec fn is_setup(&self) -> bool {
        self.lifecycle() == TaskState::Setup
    }

    pub open spec fn is_running(&self) -> bool {
        self.lifecycle() == TaskState::Running
    }

    pub open spec fn is_cleared(&self) -> bool {
        self.lifecycle() == TaskState::Cleared
    }

    /// A channel exists on the native task.
    pub closed spec fn channel_ready(&self) -> bool {
        self.has_channel
    }

    /// Sample-clock or implicit timing has been configured.
    pub closed spec fn timing_ready(&self) -> bool {
        self.has_timing
    }

    pub closed spec fn read_event_ready(&self) -> bool {
        self.has_read_event
    }

    pub closed spec fn done_event_ready(&self) -> bool {
        self.has_done_event
    }

    /// Accepts the result of the driver's task-creation call.  A negative
    /// code (or, checked by the caller, a null resource) is unrecoverable:
    /// no handle exists afterwards.
    pub fn new(create_code: i32) -> (r: Result<TaskHandle, i32>)
        ensures
            r is Ok <==> create_code >= 0,
            r is Ok ==> ({
                let h = r->Ok_0;
                h.is_setup() && !h.channel_ready() && !h.timing_ready()
                    && !h.read_event_ready() && !h.done_event_ready()
            }),
            r is Err ==> r == Err::<TaskHandle, i32>(create_code),
    {
        if create_code < 0 {
            Err(create_code)
        } else {
            Ok(TaskHandle {
                state: TaskState::Setup,
                has_channel: false,
                has_timing: false,
                has_read_event: false,
                has_done_event: false,
            })
        }
    }

    /// Central error check: a negative driver code tears the task down, once
    /// and for all; zero and positive (advisory) codes leave it untouched.
    pub fn chk_err_code(&mut self, err_code: i32) -> (fatal: bool)
        requires
            old(self).live(),
        ensures
            fatal <==> err_code < 0,
            fatal ==> final(self).is_cleared(),
            !fatal ==> *final(self) == *old(self),
    {
        let failed = err_code < 0;
        if failed {
            self.clear_task();
        }
        failed
    }

    /// Stops and releases the native task.  Callable at most once: afterwards
    /// the handle is cleared and no operation's precondition admits it.
    pub fn clear_task(&mut self)
        requires
            old(self).live(),
        ensures
            final(self).is_cleared(),
    {
        self.state = TaskState::Cleared;
    }

    /// Accepts the result of the driver call that makes a multi-line
    /// analog-voltage input channel.
    pub fn create_ai_volt_chan(&mut self, err_code: i32) -> (r: Result<(), i32>)
        requires
            old(self).is_setup(),
            !old(self).channel_ready(),
        ensures
            r is Ok <==> err_code >= 0,
            r is Ok ==> final(self).is_setup() && final(self).channel_ready()
                && final(self).timing_ready() == old(self).timing_ready()
                && final(self).read_event_ready() == old(self).read_event_ready()
                && final(self).done_event_ready() == old(self).done_event_ready(),
            r is Err ==> r == Err::<(), i32>(err_code) && final(self).is_cleared(),
    {
        if self.chk_err_code(err_code) {
            Err(err_code)
        } else {
            self.has_channel = true;
            Ok(())
        }
    }

    /// Accepts the result of the driver call that makes a pulse-frequency
    /// output channel.
    pub fn create_co_freq_chan(&mut self, err_code: i32) -> (r: Result<(), i32>)
        requires
            old(self).is_setup(),
            !old(self).channel_ready(),
        ensures
            r is Ok <==> err_code >= 0,
            r is Ok ==> final(self).is_setup() && final(self).channel_ready()
                && final(self).timing_ready() == old(self).timing_ready()
                && final(self).read_event_ready() == old(self).read_event_ready()
                && final(self).done_event_ready() == old(self).done_event_ready(),
            r is Err ==> r == Err::<(), i32>(err_code) && final(self).is_cleared(),
    {
        if self.chk_err_code(err_code) {
            Err(err_code)
        } else {
            self.has_channel = true;
            Ok(())
        }
    }

    /// Accepts the result of the driver call that makes an angular/quadrature
    /// encoder counter channel.
    pub fn create_ci_ang_encoder_chan(&mut self, err_code: i32) -> (r: Result<(), i32>)
        requires
            old(self).is_setup(),
            !old(self).channel_ready(),
        ensures
            r is Ok <==> err_code >= 0,
            r is Ok ==> final(self).is_setup() && final(self).channel_ready()
                && final(self).timing_ready() == old(self).timing_ready()
                && final(self).read_event_ready() == old(self).read_event_ready()
                && final(self).done_event_ready() == old(self).done_event_ready(),
            r is Err ==> r == Err::<(), i32>(err_code) && final(self).is_cleared(),
    {
        if self.chk_err_code(err_code) {
            Err(err_code)
        } else {
            self.has_channel = true;
            Ok(())
        }
    }

    /// Accepts the result of configuring the task's sample clock (source,
    /// rate and buffer depth are handed to the driver by the caller).
    pub fn configure_sample_clock(&mut self, err_code: i32) -> (r: Result<(), i32>)
        requires
            old(self).is_setup(),
            old(self).channel_ready(),
            !old(self).timing_ready(),
        ensures
            r is Ok <==> err_code >= 0,
            r is Ok ==> final(self).is_setup() && final(self).channel_ready()
                && final(self).timing_ready()
                && final(self).read_event_ready() == old(self).read_event_ready()
                && final(self).done_event_ready() == old(self).done_event_ready(),
            r is Err ==> r == Err::<(), i32>(err_code) && final(self).is_cleared(),
    {
        if self.chk_err_code(err_code) {
            Err(err_code)
        } else {
            self.has_timing = true;
            Ok(())
        }
    }

    /// Accepts the result of configuring implicit continuous timing (used by
    /// generation tasks whose pacing the driver manages itself).
    pub fn configure_implicit_timing(&mut self, err_code: i32) -> (r: Result<(), i32>)
        requires
            old(self).is_setup(),
            old(self).channel_ready(),
            !old(self).timing_ready(),
        ensures
            r is Ok <==> err_code >= 0,
            r is Ok ==> final(self).is_setup() && final(self).channel_ready()
                && final(self).timing_ready()
                && final(self).read_event_ready() == old(self).read_event_ready()
                && final(self).done_event_ready() == old(self).done_event_ready(),
            r is Err ==> r == Err::<(), i32>(err_code) && final(self).is_cleared(),
    {
        if self.chk_err_code(err_code) {
            Err(err_code)
        } else {
            self.has_timing = true;
            Ok(())
        }
    }

    /// Accepts the result of registering the per-batch read callback.  On
    /// success the boxed callback has been handed to the driver, which the
    /// returned custody slot records.
    pub fn register_read_callback(&mut self, err_code: i32) -> (r: Result<CallbackSlot, i32>)
        requires
            old(self).is_setup(),
            old(self).timing_ready(),
            !old(self).read_event_ready(),
        ensures
            r is Ok <==> err_code >= 0,
            r is Ok ==> final(self).is_setup() && final(self).read_event_ready()
                && final(self).channel_ready() == old(self).channel_ready()
                && final(self).timing_ready()
                && final(self).done_event_ready() == old(self).done_event_ready()
                && r->Ok_0.driver_holds(),
            r is Err ==> r == Err::<CallbackSlot, i32>(err_code) && final(self).is_cleared(),
    {
        if self.chk_err_code(err_code) {
            Err(err_code)
        } else {
            self.has_read_event = true;
            Ok(CallbackSlot::handed_to_driver())
        }
    }

    /// Accepts the result of registering the task-done callback.
    pub fn register_done_callback(&mut self, err_code: i32) -> (r: Result<CallbackSlot, i32>)
        requires
            old(self).is_setup(),
            old(self).timing_ready(),
            !old(self).done_event_ready(),
        ensures
            r is Ok <==> err_code >= 0,
            r is Ok ==> final(self).is_setup() && final(self).done_event_ready()
                && final(self).channel_ready() == old(self).channel_ready()
                && final(self).timing_ready()
                && final(self).read_event_ready() == old(self).read_event_ready()
                && r->Ok_0.driver_holds(),
            r is Err ==> r == Err::<CallbackSlot, i32>(err_code) && final(self).is_cleared(),
    {
        if self.chk_err_code(err_code) {
            Err(err_code)
        } else {
            self.has_done_event = true;
            Ok(CallbackSlot::handed_to_driver())
        }
    }

    /// Starts the task.  Configuration and callback registration must be
    /// complete: from this point the driver may deliver events at any time.
    pub fn launch(&mut self)
        requires
            old(self).is_setup(),
            old(self).timing_ready(),
            old(self).done_event_ready(),
        ensures
            final(self).is_running(),
            final(self).channel_ready() == old(self).channel_ready(),
            final(self).timing_ready(),
            final(self).read_event_ready() == old(self).read_event_ready(),
            final(self).done_event_ready(),
    {
        self.state = TaskState::Running;
    }

    /// The model of the task view a trampoline reconstructs from the opaque
    /// task pointer the driver handed it: the driver only invokes callbacks
    /// of a task it has started, so the view stands for a running task.  As
    /// with the pointer itself, the caller answers for using it only while
    /// the driver-thread side holds the callback's box.
    pub fn from_raw() -> (r: TaskHandle)
        ensures
            r.is_running(),
            r.channel_ready(),
            r.timing_ready(),
            r.read_event_ready(),
            r.done_event_ready(),
    {
        TaskHandle {
            state: TaskState::Running,
            has_channel: true,
            has_timing: true,
            has_read_event: true,
            has_done_event: true,
        }
    }

    /// A non-owning view of a running task, for a driver-thread callback
    /// context: it mirrors how a trampoline reconstructs a handle view from
    /// the driver's opaque task pointer.  Only whichever side currently holds
    /// the callback's box touches the task, so the view and the owner are
    /// never mutated concurrently.
    pub fn driver_view(&self) -> (r: TaskHandle)
        requires
            self.is_running(),
        ensures
            r == *self,
    {
        TaskHandle {
            state: self.state,
            has_channel: self.has_channel,
            has_timing: self.has_timing,
            has_read_event: self.has_read_event,
            has_done_event: self.has_done_event,
        }
    }

    /// Exec mirror of `live`, for callers that must test before acting.
    pub fn is_live(&self) -> (r: bool)
        ensures
            r == self.live(),
    {
        !matches!(self.state, TaskState::Cleared)
    }
}

/// Extracts the driver's extended diagnostic text from the fixed-size buffer
/// it was written to.  The driver does not guarantee a terminator, so the
/// buffer's last byte is treated as one defensively: the result is the
/// buffer's longest NUL-free prefix that leaves that last position out.
pub fn extract_error_text(buf: &Vec<u8>) -> (r: Vec<u8>)
    requires
        buf@.len() >= 1,
    ensures
        r@.len() < buf@.len(),
        r@ == buf@.take(r@.len() as int),
        forall|j: int| 0 <= j < r@.len() ==> r@[j] != 0,
        r@.len() < buf@.len() - 1 ==> buf@[r@.len() as int] == 0,
{
    let mut text: Vec<u8> = Vec::new();
    let end = buf.len() - 1;
    let mut i: usize = 0;
    while i < end
        invariant
            i <= end,
            end == buf@.len() - 1,
            text@.len() == i,
            text@ == buf@.take(i as int),
            forall|j: int| 0 <= j < i ==> text@[j] != 0,
        decreases end - i,
    {
        let b = buf[i];
        if b == 0 {
            return text;
        }
        text.push(b);
        proof {
            assert(text@ == buf@.take(i + 1 as int));
        }
        i += 1;
    }
    text
}

} // verus!
