//! Angular/quadrature encoder counter input: batch data and its per-sample
//! expansion.

use vstd::prelude::*;
use vstd::string::StringExecFns;
use crate::callback_utils::{classify_read, CallbackSlot, ReadOutcome};
use crate::co_channel::CoFreqChannel;
use crate::spec_decimal;
use crate::task_handle::TaskHandle;
use crate::timing::{reconstruct_timestamps, spec_sample_ts};
use crate::transport::{encoder_queue, send_encoder_reading};

verus! {

/// One raw counter value as the driver delivers it.
pub type EncoderTick = i32;

/// One reconstructed, timestamped encoder position.
#[derive(Clone, Copy, PartialEq, Eq, Structural, Debug)]
pub struct EncoderReading {
    pub timestamp: u64,
    pub pos: EncoderTick,
}

impl EncoderReading {
    pub fn new(timestamp: u64, pos: EncoderTick) -> (r: EncoderReading)
        ensures
            r.timestamp == timestamp,
            r.pos == pos,
    {
        EncoderReading { timestamp, pos }
    }
}

/// One driver callback's worth of counter values plus the single arrival
/// timestamp of its last value.
pub struct BatchedScan {
    pub data: Vec<EncoderTick>,
    pub timestamp: u64,
}

impl BatchedScan {
    pub fn new(data: Vec<EncoderTick>, timestamp: u64) -> (r: BatchedScan)
        ensures
            r.data == data,
            r.timestamp == timestamp,
    {
        BatchedScan { data, timestamp }
    }

    /// Expands the batch into individually timestamped readings, in
    /// increasing time order: every position of the batch appears exactly
    /// once, at its original position, under its reconstructed timestamp.
    pub fn as_encoder_readings(&self, sample_rate: u64) -> (r: Vec<EncoderReading>)
        requires
            1 <= sample_rate,
            self.data@.len() * 1_000_000_000 <= u64::MAX,
            spec_sample_ts(
                self.timestamp as int,
                sample_rate as int,
                self.data@.len() as int,
                0,
            ) >= 0,
        ensures
            r@.len() == self.data@.len(),
            forall|i: int|
                0 <= i < r@.len() ==> #[trigger] r@[i].pos == self.data@[i]
                    && r@[i].timestamp == spec_sample_ts(
                    self.timestamp as int,
                    sample_rate as int,
                    self.data@.len() as int,
                    i,
                ),
            r@ == spec_encoder_expansion(self.data@, self.timestamp as int, sample_rate as int),
    {
        let n = self.data.len();
        let timestamps = reconstruct_timestamps(self.timestamp, sample_rate, n);
        let mut r: Vec<EncoderReading> = Vec::new();
        let mut i: usize = 0;
        while i < n
            invariant
                i <= n,
                n == self.data@.len(),
                timestamps@.len() == n,
                forall|j: int|
                    0 <= j < n ==> timestamps@[j] == spec_sample_ts(
                        self.timestamp as int,
                        sample_rate as int,
                        n as int,
                        j,
                    ),
                r@.len() == i,
                forall|j: int|
                    0 <= j < i ==> #[trigger] r@[j].pos == self.data@[j]
                        && r@[j].timestamp == spec_sample_ts(
                        self.timestamp as int,
                        sample_rate as int,
                        n as int,
                        j,
                    ),
            decreases n - i,
        {
            r.push(EncoderReading::new(timestamps[i], self.data[i]));
            proof {
                assert(r@[i as int].pos == self.data@[i as int]);
                assert(r@[i as int].timestamp == timestamps@[i as int]);
            }
            i += 1;
        }
        proof {
            let exp = spec_encoder_expansion(
                self.data@,
                self.timestamp as int,
                sample_rate as int,
            );
            assert forall|j: int| 0 <= j < n implies r@[j] == exp[j] by {
                let ts = spec_sample_ts(self.timestamp as int, sample_rate as int, n as int, j);
                assert(r@[j].pos == self.data@[j]);
                assert(r@[j].timestamp == ts);
                assert(0 <= ts <= u64::MAX);
                assert(exp[j].timestamp == ts as u64);
                assert(exp[j].pos == self.data@[j]);
            }
            assert(r@ =~= exp);
        }
        r
    }
}

/// Terminal that carries the clock-source channel's output back in as the
/// encoder task's sample clock.
pub const CLK_SRC_OUTPUT_PFI_ID: u8 = 13;

/// Counter that generates the encoder task's sample clock.
pub const CLK_SRC_COUNTER_ID: u8 = 1;

/// Counter that reads the encoder itself.
pub const ENCODER_COUNTER_ID: u8 = 0;

/// Encoder pulses per revolution, as configured on the counter channel.
pub const PULSE_PER_REV: u32 = 500;

/// One configured encoder-counter channel: its own task plus the
/// pulse-frequency channel that produces its sample clock.  Quadrature
/// encoder channels have no native sample-clock input, so the clock channel
/// must be running before this channel's sample clock is configured, and must
/// stay alive — owned here — for as long as the encoder task runs.
pub struct CiEncoderChannel {
    task_handle: TaskHandle,
    co_channel: CoFreqChannel,
    sample_rate: usize,
    batch_size: usize,
}

impl CiEncoderChannel {
    /// The owned task.
    pub closed spec fn spec_task(&self) -> TaskHandle {
        self.task_handle
    }

    /// The owned clock-source channel.
    pub closed spec fn spec_co_channel(&self) -> CoFreqChannel {
        self.co_channel
    }

    pub closed spec fn spec_sample_rate(&self) -> usize {
        self.sample_rate
    }

    pub closed spec fn spec_batch_size(&self) -> usize {
        self.batch_size
    }

    /// Configured and ready to register callbacks, with the clock source
    /// still running.
    pub open spec fn is_configured(&self) -> bool {
        self.spec_task().is_setup() && self.spec_task().channel_ready()
            && self.spec_task().timing_ready() && !self.spec_task().read_event_ready()
            && !self.spec_task().done_event_ready() && self.spec_co_channel().is_running()
    }

    pub fn sample_rate(&self) -> (r: usize)
        ensures
            r == self.spec_sample_rate(),
    {
        self.sample_rate
    }

    /// How many samples the driver is asked to deliver per callback.
    pub fn batch_size(&self) -> (r: usize)
        ensures
            r == self.spec_batch_size(),
    {
        self.batch_size
    }

    /// A driver-thread view of the running task, for a callback context.
    pub fn driver_view(&self) -> (r: TaskHandle)
        requires
            self.spec_task().is_running(),
        ensures
            r == self.spec_task(),
    {
        self.task_handle.driver_view()
    }

    /// Builds the channel from an already running clock-source channel, whose
    /// ownership it takes, and the driver's reported results for task
    /// creation, encoder-channel creation and sample-clock configuration, in
    /// that order; a negative code anywhere stops the construction there and
    /// tears the encoder task down.  The batch size is one callback period's
    /// worth of samples.
    pub fn new(
        sample_rate: usize,
        co_channel: CoFreqChannel,
        create_code: i32,
        chan_code: i32,
        clk_code: i32,
    ) -> (r: Result<CiEncoderChannel, i32>)
        requires
            co_channel.is_running(),
        ensures
            r is Ok <==> create_code >= 0 && chan_code >= 0 && clk_code >= 0,
            r is Ok ==> ({
                let c = r->Ok_0;
                c.is_configured() && c.spec_co_channel() == co_channel
                    && c.spec_sample_rate() == sample_rate && c.spec_batch_size() == sample_rate
                    / crate::DAQ_CALLBACK_FREQ
            }),
            r is Err ==> r->Err_0 == (if create_code < 0 {
                create_code
            } else if chan_code < 0 {
                chan_code
            } else {
                clk_code
            }),
    {
        let mut task_handle = match TaskHandle::new(create_code) {
            Ok(h) => h,
            Err(e) => {
                return Err(e);
            }
        };
        match task_handle.create_ci_ang_encoder_chan(chan_code) {
            Ok(()) => (),
            Err(e) => {
                return Err(e);
            }
        }
        match task_handle.configure_sample_clock(clk_code) {
            Ok(()) => (),
            Err(e) => {
                return Err(e);
            }
        }
        Ok(CiEncoderChannel {
            task_handle,
            co_channel,
            sample_rate,
            batch_size: sample_rate / crate::DAQ_CALLBACK_FREQ,
        })
    }

    /// Turns the configured channel into its asynchronous form, from the
    /// driver's reported results for read- and done-event registration: on
    /// success the task is running, the driver holds both callback boxes
    /// (first slot: read, second: done), and the returned stream end wraps
    /// the owning channel — clock source included — together with the
    /// transport's receiving half.
    pub fn make_async(
        self,
        read_reg_code: i32,
        done_reg_code: i32,
        recv: futures::sync::mpsc::UnboundedReceiver<EncoderReading>,
    ) -> (r: Result<(AsyncEncoderChannel, CallbackSlot, CallbackSlot), i32>)
        requires
            self.is_configured(),
        ensures
            r is Ok <==> read_reg_code >= 0 && done_reg_code >= 0,
            r is Ok ==> ({
                let (chan, read_slot, done_slot) = r->Ok_0;
                chan.encoder_chan.spec_task().is_running()
                    && chan.encoder_chan.spec_co_channel().is_running()
                    && chan.encoder_chan.spec_sample_rate() == self.spec_sample_rate()
                    && chan.encoder_chan.spec_batch_size() == self.spec_batch_size()
                    && read_slot.driver_holds() && done_slot.driver_holds()
            }),
            r is Err ==> r->Err_0 == (if read_reg_code < 0 {
                read_reg_code
            } else {
                done_reg_code
            }),
    {
        let CiEncoderChannel { mut task_handle, co_channel, sample_rate, batch_size } = self;
        let read_slot = match task_handle.register_read_callback(read_reg_code) {
            Ok(slot) => slot,
            Err(e) => {
                return Err(e);
            }
        };
        let done_slot = match task_handle.register_done_callback(done_reg_code) {
            Ok(slot) => slot,
            Err(e) => {
                return Err(e);
            }
        };
        task_handle.launch();
        let encoder_chan = CiEncoderChannel { task_handle, co_channel, sample_rate, batch_size };
        Ok((AsyncEncoderChannel { encoder_chan, recv }, read_slot, done_slot))
    }
}

/// The consumer-facing asynchronous form of an encoder-counter channel: the
/// owning channel (clock source included), kept alive for the stream's whole
/// lifetime, plus the receiving half of the sample transport that unverified
/// consumer code polls.
pub struct AsyncEncoderChannel {
    pub encoder_chan: CiEncoderChannel,
    pub recv: futures::sync::mpsc::UnboundedReceiver<EncoderReading>,
}

/// The fully expanded form of a counter batch: position `i` under its
/// reconstructed timestamp.
pub open spec fn spec_encoder_expansion(
    data: Seq<EncoderTick>,
    base_ts: int,
    sample_rate: int,
) -> Seq<EncoderReading> {
    Seq::new(
        data.len(),
        |i: int|
            EncoderReading {
                timestamp: spec_sample_ts(base_ts, sample_rate, data.len() as int, i) as u64,
                pos: data[i],
            },
    )
}

/// The typed per-batch read callback for an encoder-counter channel, invoked
/// (through the unverified trampoline) with what the synchronous driver read
/// reported.  It behaves exactly as the voltage channel's callback does, over
/// encoder readings.
#[verifier::loop_isolation(false)]
pub fn async_read_callback_impl(
    task_handle: &mut TaskHandle,
    sender: &mut futures::sync::mpsc::UnboundedSender<EncoderReading>,
    sample_rate: u64,
    requested: u32,
    batch: &BatchedScan,
    samples_read: i32,
    err_code: i32,
) -> (r: ReadOutcome)
    requires
        old(task_handle).is_running(),
        requested <= i32::MAX,
        1 <= sample_rate,
        err_code == 0 && samples_read == requested ==> batch.data@.len() == requested
            && spec_sample_ts(
            batch.timestamp as int,
            sample_rate as int,
            requested as int,
            0,
        ) >= 0,
    ensures
        err_code < 0 ==> r == ReadOutcome::DriverFault(err_code)
            && final(task_handle).is_cleared()
            && encoder_queue(*final(sender)) == encoder_queue(*old(sender)),
        err_code > 0 ==> r == ReadOutcome::Advisory(err_code)
            && *final(task_handle) == *old(task_handle)
            && encoder_queue(*final(sender)) == encoder_queue(*old(sender)),
        err_code == 0 && samples_read != requested ==> r == ReadOutcome::ScanWarning
            && *final(task_handle) == *old(task_handle)
            && encoder_queue(*final(sender)) == encoder_queue(*old(sender)),
        err_code == 0 && samples_read == requested ==> *final(task_handle) == *old(task_handle)
            && (r == ReadOutcome::Forwarded || r == ReadOutcome::ConsumerGone)
            && (r == ReadOutcome::Forwarded ==> encoder_queue(*final(sender)) == encoder_queue(
            *old(sender),
        ) + spec_encoder_expansion(batch.data@, batch.timestamp as int, sample_rate as int))
            && (r == ReadOutcome::ConsumerGone ==> exists|k: int|
            0 <= k < batch.data@.len() && encoder_queue(*final(sender)) == encoder_queue(
                *old(sender),
            ) + spec_encoder_expansion(
                batch.data@,
                batch.timestamp as int,
                sample_rate as int,
            ).take(k)),
{
    match classify_read(err_code, samples_read, requested) {
        Err(code) => {
            let fatal = task_handle.chk_err_code(code);
            if fatal {
                ReadOutcome::DriverFault(code)
            } else if err_code == 0 {
                ReadOutcome::ScanWarning
            } else {
                ReadOutcome::Advisory(code)
            }
        }
        Ok(()) => {
            let ghost expansion = spec_encoder_expansion(
                batch.data@,
                batch.timestamp as int,
                sample_rate as int,
            );
            let readings = batch.as_encoder_readings(sample_rate);
            let n = readings.len();
            let mut i: usize = 0;
            while i < n
                invariant
                    i <= n,
                    n == batch.data@.len(),
                    readings@ == expansion,
                    expansion.len() == n,
                    encoder_queue(*sender) == encoder_queue(*old(sender)) + expansion.take(
                        i as int,
                    ),
                decreases n - i,
            {
                let reading = readings[i];
                let sent = send_encoder_reading(sender, reading);
                if sent.is_err() {
                    return ReadOutcome::ConsumerGone;
                }
                proof {
                    assert(expansion.take(i as int).push(expansion[i as int]) =~= expansion.take(
                        i as int + 1,
                    ));
                }
                i += 1;
            }
            proof {
                assert(expansion.take(n as int) =~= expansion);
            }
            ReadOutcome::Forwarded
        }
    }
}

/// Physical descriptor of the terminal that carries the clock-source
/// channel's output signal.
pub fn generate_clock_src_desc(pfi_id: u8) -> (desc: String)
    ensures
        desc@ == "/Dev1/PFI"@ + spec_decimal(pfi_id as nat),
{
    let mut desc = String::from_str("/Dev1/PFI");
    crate::append_decimal(&mut desc, pfi_id);
    desc
}

} // verus!
