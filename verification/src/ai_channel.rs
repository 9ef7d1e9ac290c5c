//! Multi-line analog-voltage input: batch data and its per-sample expansion.

use vstd::prelude::*;
use crate::callback_utils::{classify_read, CallbackSlot, ReadOutcome};
use crate::task_handle::TaskHandle;
use crate::timing::{reconstruct_timestamps, spec_sample_ts};
use crate::transport::{scan_queue, send_scan};

verus! {

/// Number of voltage lines read by one scan.
pub const NUM_CHANNELS: usize = 2;

/// One scan's raw values: the driver's 64-bit words, one per line.  The
/// verified core only moves these words; interpreting them as voltages is the
/// unverified glue's business.
pub type RawScanData = [u64; NUM_CHANNELS];

/// One reconstructed, timestamped scan.
#[derive(Clone, Copy, PartialEq, Debug)]
pub struct ScanData {
    pub data: RawScanData,
    pub timestamp: u64,
}

impl ScanData {
    pub fn new(data: RawScanData, timestamp: u64) -> (r: ScanData)
        ensures
            r.data == data,
            r.timestamp == timestamp,
    {
        ScanData { data, timestamp }
    }
}

/// One driver callback's worth of scans plus the single arrival timestamp of
/// its last scan.
pub struct BatchedScan {
    pub data: Vec<RawScanData>,
    pub timestamp: u64,
}

impl BatchedScan {
    pub fn new(data: Vec<RawScanData>, timestamp: u64) -> (r: BatchedScan)
        ensures
            r.data == data,
            r.timestamp == timestamp,
    {
        BatchedScan { data, timestamp }
    }

    /// Expands the batch into individually timestamped scans, in increasing
    /// time order: every scan of the batch appears exactly once, at its
    /// original position, under its reconstructed timestamp.
    pub fn as_scan_data(&self, sample_rate: u64) -> (r: Vec<ScanData>)
        requires
            1 <= sample_rate,
            self.data@.len() * 1_000_000_000 <= u64::MAX,
            spec_sample_ts(
                self.timestamp as int,
                sample_rate as int,
                self.data@.len() as int,
                0,
            ) >= 0,
        ensures
            r@.len() == self.data@.len(),
            forall|i: int|
                0 <= i < r@.len() ==> #[trigger] r@[i].data == self.data@[i]
                    && r@[i].timestamp == spec_sample_ts(
                    self.timestamp as int,
                    sample_rate as int,
                    self.data@.len() as int,
                    i,
                ),
            r@ == spec_scan_expansion(self.data@, self.timestamp as int, sample_rate as int),
    {
        let n = self.data.len();
        let timestamps = reconstruct_timestamps(self.timestamp, sample_rate, n);
        let mut r: Vec<ScanData> = Vec::new();
        let mut i: usize = 0;
        while i < n
            invariant
                i <= n,
                n == self.data@.len(),
                timestamps@.len() == n,
                forall|j: int|
                    0 <= j < n ==> timestamps@[j] == spec_sample_ts(
                        self.timestamp as int,
                        sample_rate as int,
                        n as int,
                        j,
                    ),
                r@.len() == i,
                forall|j: int|
                    0 <= j < i ==> #[trigger] r@[j].data == self.data@[j]
                        && r@[j].timestamp == spec_sample_ts(
                        self.timestamp as int,
                        sample_rate as int,
                        n as int,
                        j,
                    ),
            decreases n - i,
        {
            r.push(ScanData::new(self.data[i], timestamps[i]));
            i += 1;
        }
        proof {
            let exp = spec_scan_expansion(self.data@, self.timestamp as int, sample_rate as int);
            assert forall|j: int| 0 <= j < n implies r@[j] == exp[j] by {
                let ts = spec_sample_ts(self.timestamp as int, sample_rate as int, n as int, j);
                assert(r@[j].data == self.data@[j]);
                assert(r@[j].timestamp == ts);
                assert(0 <= ts <= u64::MAX);
                assert(exp[j].timestamp == ts as u64);
                assert(exp[j].data == self.data@[j]);
            }
            assert(r@ =~= exp);
        }
        r
    }
}

/// One configured voltage-input channel and the task it exclusively owns.
pub struct AiChannel {
    task_handle: TaskHandle,
    sample_rate: usize,
    batch_size: usize,
}

impl AiChannel {
    /// The owned task.
    pub closed spec fn spec_task(&self) -> TaskHandle {
        self.task_handle
    }

    pub closed spec fn spec_sample_rate(&self) -> usize {
        self.sample_rate
    }

    pub closed spec fn spec_batch_size(&self) -> usize {
        self.batch_size
    }

    /// Configured and ready to register callbacks: the channel and its
    /// sample clock are set up and the task has not been started.
    pub open spec fn is_configured(&self) -> bool {
        self.spec_task().is_setup() && self.spec_task().channel_ready()
            && self.spec_task().timing_ready() && !self.spec_task().read_event_ready()
            && !self.spec_task().done_event_ready()
    }

    pub fn sample_rate(&self) -> (r: usize)
        ensures
            r == self.spec_sample_rate(),
    {
        self.sample_rate
    }

    /// How many samples the driver is asked to deliver per callback.
    pub fn batch_size(&self) -> (r: usize)
        ensures
            r == self.spec_batch_size(),
    {
        self.batch_size
    }

    /// A driver-thread view of the running task, for a callback context.
    pub fn driver_view(&self) -> (r: TaskHandle)
        requires
            self.spec_task().is_running(),
        ensures
            r == self.spec_task(),
    {
        self.task_handle.driver_view()
    }

    /// Builds the channel from the driver's reported results for task
    /// creation, voltage-channel creation and sample-clock configuration, in
    /// that order; a negative code anywhere stops the construction there and
    /// tears the task down.  The batch size is one callback period's worth
    /// of samples.
    pub fn new(
        sample_rate: usize,
        create_code: i32,
        chan_code: i32,
        clk_code: i32,
    ) -> (r: Result<AiChannel, i32>)
        ensures
            r is Ok <==> create_code >= 0 && chan_code >= 0 && clk_code >= 0,
            r is Ok ==> ({
                let c = r->Ok_0;
                c.is_configured() && c.spec_sample_rate() == sample_rate && c.spec_batch_size()
                    == sample_rate / crate::DAQ_CALLBACK_FREQ
            }),
            r is Err ==> r->Err_0 == (if create_code < 0 {
                create_code
            } else if chan_code < 0 {
                chan_code
            } else {
                clk_code
            }),
    {
        let mut task_handle = match TaskHandle::new(create_code) {
            Ok(h) => h,
            Err(e) => {
                return Err(e);
            }
        };
        match task_handle.create_ai_volt_chan(chan_code) {
            Ok(()) => (),
            Err(e) => {
                return Err(e);
            }
        }
        match task_handle.configure_sample_clock(clk_code) {
            Ok(()) => (),
            Err(e) => {
                return Err(e);
            }
        }
        Ok(AiChannel { task_handle, sample_rate, batch_size: sample_rate / crate::DAQ_CALLBACK_FREQ })
    }

    /// Turns the configured channel into its asynchronous form, from the
    /// driver's reported results for read- and done-event registration: on
    /// success the task is running, the driver holds both callback boxes
    /// (first slot: read, second: done), and the returned stream end wraps
    /// the owning channel together with the transport's receiving half.
    pub fn make_async(
        self,
        read_reg_code: i32,
        done_reg_code: i32,
        recv: futures::sync::mpsc::UnboundedReceiver<ScanData>,
    ) -> (r: Result<(AsyncAiChannel, CallbackSlot, CallbackSlot), i32>)
        requires
            self.is_configured(),
        ensures
            r is Ok <==> read_reg_code >= 0 && done_reg_code >= 0,
            r is Ok ==> ({
                let (chan, read_slot, done_slot) = r->Ok_0;
                chan.ai_chan.spec_task().is_running()
                    && chan.ai_chan.spec_sample_rate() == self.spec_sample_rate()
                    && chan.ai_chan.spec_batch_size() == self.spec_batch_size()
                    && read_slot.driver_holds() && done_slot.driver_holds()
            }),
            r is Err ==> r->Err_0 == (if read_reg_code < 0 {
                read_reg_code
            } else {
                done_reg_code
            }),
    {
        let AiChannel { mut task_handle, sample_rate, batch_size } = self;
        let read_slot = match task_handle.register_read_callback(read_reg_code) {
            Ok(slot) => slot,
            Err(e) => {
                return Err(e);
            }
        };
        let done_slot = match task_handle.register_done_callback(done_reg_code) {
            Ok(slot) => slot,
            Err(e) => {
                return Err(e);
            }
        };
        task_handle.launch();
        let ai_chan = AiChannel { task_handle, sample_rate, batch_size };
        Ok((AsyncAiChannel { ai_chan, recv }, read_slot, done_slot))
    }
}

/// The consumer-facing asynchronous form of a voltage-input channel: the
/// owning channel, kept alive for the stream's whole lifetime, plus the
/// receiving half of the sample transport that unverified consumer code
/// polls.
pub struct AsyncAiChannel {
    pub ai_chan: AiChannel,
    pub recv: futures::sync::mpsc::UnboundedReceiver<ScanData>,
}

/// The fully expanded form of a batch: scan `i` under its reconstructed
/// timestamp.
pub open spec fn spec_scan_expansion(
    data: Seq<RawScanData>,
    base_ts: int,
    sample_rate: int,
) -> Seq<ScanData> {
    Seq::new(
        data.len(),
        |i: int|
            ScanData {
                data: data[i],
                timestamp: spec_sample_ts(base_ts, sample_rate, data.len() as int, i) as u64,
            },
    )
}

/// The typed per-batch read callback for a voltage-input channel, as invoked
/// (through the unverified trampoline) with what the synchronous driver read
/// reported: the raw batch, the count actually read, and the read's error
/// code.
///
/// Exactly one of four things happens, and the returned outcome says which:
/// a negative code tears the task down at once and forwards nothing; a
/// positive (advisory) code and the short read (zero code, wrong count)
/// forward nothing and leave the task to the trampoline's teardown; a full
/// read forwards every scan of the batch, in increasing time order, unless
/// the transport's consumer is gone, in which case forwarding stops at the
/// first refused scan.
#[verifier::loop_isolation(false)]
pub fn async_read_callback_impl(
    task_handle: &mut TaskHandle,
    sender: &mut futures::sync::mpsc::UnboundedSender<ScanData>,
    sample_rate: u64,
    requested: u32,
    batch: &BatchedScan,
    samples_read: i32,
    err_code: i32,
) -> (r: ReadOutcome)
    requires
        old(task_handle).is_running(),
        requested <= i32::MAX,
        1 <= sample_rate,
        err_code == 0 && samples_read == requested ==> batch.data@.len() == requested
            && spec_sample_ts(
            batch.timestamp as int,
            sample_rate as int,
            requested as int,
            0,
        ) >= 0,
    ensures
        err_code < 0 ==> r == ReadOutcome::DriverFault(err_code)
            && final(task_handle).is_cleared()
            && scan_queue(*final(sender)) == scan_queue(*old(sender)),
        err_code > 0 ==> r == ReadOutcome::Advisory(err_code)
            && *final(task_handle) == *old(task_handle)
            && scan_queue(*final(sender)) == scan_queue(*old(sender)),
        err_code == 0 && samples_read != requested ==> r == ReadOutcome::ScanWarning
            && *final(task_handle) == *old(task_handle)
            && scan_queue(*final(sender)) == scan_queue(*old(sender)),
        err_code == 0 && samples_read == requested ==> *final(task_handle) == *old(task_handle)
            && (r == ReadOutcome::Forwarded || r == ReadOutcome::ConsumerGone)
            && (r == ReadOutcome::Forwarded ==> scan_queue(*final(sender)) == scan_queue(
            *old(sender),
        ) + spec_scan_expansion(batch.data@, batch.timestamp as int, sample_rate as int))
            && (r == ReadOutcome::ConsumerGone ==> exists|k: int|
            0 <= k < batch.data@.len() && scan_queue(*final(sender)) == scan_queue(*old(sender))
                + spec_scan_expansion(
                batch.data@,
                batch.timestamp as int,
                sample_rate as int,
            ).take(k)),
{
    match classify_read(err_code, samples_read, requested) {
        Err(code) => {
            let fatal = task_handle.chk_err_code(code);
            if fatal {
                ReadOutcome::DriverFault(code)
            } else if err_code == 0 {
                ReadOutcome::ScanWarning
            } else {
                ReadOutcome::Advisory(code)
            }
        }
        Ok(()) => {
            let ghost expansion = spec_scan_expansion(
                batch.data@,
                batch.timestamp as int,
                sample_rate as int,
            );
            let scans = batch.as_scan_data(sample_rate);
            let n = scans.len();
            let mut i: usize = 0;
            while i < n
                invariant
                    i <= n,
                    n == batch.data@.len(),
                    scans@ == expansion,
                    expansion.len() == n,
                    scan_queue(*sender) == scan_queue(*old(sender)) + expansion.take(i as int),
                decreases n - i,
            {
                let scan = scans[i];
                let sent = send_scan(sender, scan);
                if sent.is_err() {
                    return ReadOutcome::ConsumerGone;
                }
                proof {
                    assert(expansion.take(i as int).push(expansion[i as int]) =~= expansion.take(
                        i as int + 1,
                    ));
                }
                i += 1;
            }
            proof {
                assert(expansion.take(n as int) =~= expansion);
            }
            ReadOutcome::Forwarded
        }
    }
}

} // verus!
