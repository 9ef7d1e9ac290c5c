//! End-to-end and unit tests of the acquisition bridge, run with the real
//! transport crate linked.

use futures::stream::Stream;

use nidaqmx::ai_channel::{AiChannel, AsyncAiChannel, BatchedScan, ScanData};
use nidaqmx::callback_utils::{
    classify_read, settle_done_callback, settle_read_callback, CallbackSlot, CallbackWrapper,
    ReadOutcome,
};
use nidaqmx::ci_encoder_channel::{CiEncoderChannel, EncoderReading};
use nidaqmx::co_channel::CoFreqChannel;
use nidaqmx::task_handle::{extract_error_text, TaskHandle};
use nidaqmx::timing::reconstruct_timestamps;
use nidaqmx::{counter_generate_chan_desc, SCAN_WARNING};

const BASE_TS: u64 = 1_000_000_000_000;

#[test]
fn timestamps_at_rate_1000() {
    let ts = reconstruct_timestamps(BASE_TS, 1000, 10);
    assert_eq!(ts.len(), 10);
    for (i, t) in ts.iter().enumerate() {
        assert_eq!(*t, BASE_TS - (9 - i as u64) * 1_000_000);
    }
    assert_eq!(*ts.last().unwrap(), BASE_TS);
}

#[test]
fn timestamps_strictly_increase_at_awkward_rate() {
    // 3 Hz does not divide one second; order and the anchor must still hold
    let ts = reconstruct_timestamps(BASE_TS, 3, 7);
    assert_eq!(ts.len(), 7);
    for w in ts.windows(2) {
        assert!(w[0] < w[1]);
    }
    assert_eq!(*ts.last().unwrap(), BASE_TS);
    assert_eq!(ts[5], BASE_TS - 333_333_333);
}

#[test]
fn single_sample_batch_carries_the_arrival_time() {
    let ts = reconstruct_timestamps(BASE_TS, 500, 1);
    assert_eq!(ts, vec![BASE_TS]);
}

#[test]
fn batch_expansion_preserves_every_scan() {
    let data: Vec<[u64; 2]> = (0..10u64).map(|i| [i, 100 + i]).collect();
    let batch = BatchedScan::new(data.clone(), BASE_TS);
    let scans = batch.as_scan_data(1000);
    assert_eq!(scans.len(), 10);
    for (i, scan) in scans.iter().enumerate() {
        assert_eq!(scan.data, data[i]);
        assert_eq!(scan.timestamp, BASE_TS - (9 - i as u64) * 1_000_000);
    }
}

#[test]
fn voltages_survive_the_bit_level_round_trip() {
    let volts = [1.25f64, -3.5f64];
    let raw = [volts[0].to_bits(), volts[1].to_bits()];
    let batch = BatchedScan::new(vec![raw], BASE_TS);
    let scans = batch.as_scan_data(1000);
    assert_eq!(f64::from_bits(scans[0].data[0]), 1.25);
    assert_eq!(f64::from_bits(scans[0].data[1]), -3.5);
}

#[test]
fn classify_read_cases() {
    assert_eq!(classify_read(0, 10, 10), Ok(()));
    assert_eq!(classify_read(0, 5, 10), Err(SCAN_WARNING));
    assert_eq!(classify_read(0, 11, 10), Err(SCAN_WARNING));
    assert_eq!(classify_read(-200_279, 10, 10), Err(-200_279));
    assert_eq!(classify_read(4, 10, 10), Err(4));
}

#[test]
fn negative_code_tears_the_task_down() {
    let mut task = TaskHandle::new(0).unwrap();
    assert!(task.is_live());
    assert!(!task.chk_err_code(0));
    assert!(!task.chk_err_code(7));
    assert!(task.is_live());
    assert!(task.chk_err_code(-1));
    assert!(!task.is_live());
}

#[test]
fn task_creation_fails_on_negative_code() {
    assert_eq!(TaskHandle::new(-88705).err(), Some(-88705));
}

#[test]
fn channel_construction_stops_at_the_first_failure() {
    assert_eq!(AiChannel::new(1000, -1, 0, 0).err(), Some(-1));
    assert_eq!(AiChannel::new(1000, 0, -88705, 0).err(), Some(-88705));
    assert_eq!(AiChannel::new(1000, 0, 0, -200_077).err(), Some(-200_077));
    assert_eq!(CoFreqChannel::new(0, 0, -3, 0).err(), Some(-3));
}

#[test]
fn configured_channel_reports_its_batch_size() {
    let chan = AiChannel::new(1000, 0, 0, 0).unwrap();
    assert_eq!(chan.sample_rate(), 1000);
    assert_eq!(chan.batch_size(), 10);
}

#[test]
fn voltage_channel_end_to_end() {
    // a 2-line voltage input at 1000 Hz, batch size 10
    let chan = AiChannel::new(1000, 0, 0, 0).unwrap();
    assert_eq!(chan.batch_size(), 10);
    let (sender, recv) = futures::sync::mpsc::unbounded();
    let (async_chan, mut read_slot, _done_slot) = chan.make_async(0, 0, recv).unwrap();
    let AsyncAiChannel { ai_chan, recv } = async_chan;

    // one simulated driver callback delivering a full batch at BASE_TS
    let mut task_view = ai_chan.driver_view();
    let mut sender = sender;
    read_slot.enter_callback();
    let data: Vec<[u64; 2]> = (0..10u64).map(|i| [2 * i, 2 * i + 1]).collect();
    let batch = BatchedScan::new(data.clone(), BASE_TS);
    let outcome =
        nidaqmx::ai_channel::async_read_callback_impl(
            &mut task_view,
            &mut sender,
            1000,
            10,
            &batch,
            10,
            0,
        );
    assert_eq!(outcome, ReadOutcome::Forwarded);
    settle_read_callback(outcome, &mut task_view, &mut read_slot);
    assert!(task_view.is_live());

    drop(sender);
    let produced: Vec<ScanData> = recv.wait().map(|r| r.unwrap()).collect();
    assert_eq!(produced.len(), 10);
    for (i, scan) in produced.iter().enumerate() {
        assert_eq!(scan.timestamp, BASE_TS - 9_000_000 + i as u64 * 1_000_000);
        assert_eq!(scan.data, data[i]);
    }
}

#[test]
fn short_read_forwards_nothing_and_reports() {
    let chan = AiChannel::new(1000, 0, 0, 0).unwrap();
    let (sender, recv) = futures::sync::mpsc::unbounded();
    let (async_chan, mut read_slot, _done_slot) = chan.make_async(0, 0, recv).unwrap();
    let AsyncAiChannel { ai_chan, recv } = async_chan;

    let mut task_view = ai_chan.driver_view();
    let mut sender = sender;
    read_slot.enter_callback();
    let batch = BatchedScan::new(vec![[0, 0]; 10], BASE_TS);
    let outcome =
        nidaqmx::ai_channel::async_read_callback_impl(
            &mut task_view,
            &mut sender,
            1000,
            10,
            &batch,
            6,
            0,
        );
    assert_eq!(outcome, ReadOutcome::ScanWarning);
    assert!(!outcome.is_fatal());
    // the trampoline stops the task, without the fatal diagnostic path
    settle_read_callback(outcome, &mut task_view, &mut read_slot);
    assert!(!task_view.is_live());

    drop(sender);
    let produced: Vec<ScanData> = recv.wait().map(|r| r.unwrap()).collect();
    assert!(produced.is_empty());
}

#[test]
fn driver_fault_takes_the_fatal_path_once() {
    let chan = AiChannel::new(1000, 0, 0, 0).unwrap();
    let (sender, recv) = futures::sync::mpsc::unbounded();
    let (async_chan, mut read_slot, _done_slot) = chan.make_async(0, 0, recv).unwrap();
    let AsyncAiChannel { ai_chan, recv } = async_chan;

    let mut task_view = ai_chan.driver_view();
    let mut sender = sender;
    read_slot.enter_callback();
    let batch = BatchedScan::new(vec![[0, 0]; 10], BASE_TS);
    let outcome =
        nidaqmx::ai_channel::async_read_callback_impl(
            &mut task_view,
            &mut sender,
            1000,
            10,
            &batch,
            10,
            -200_279,
        );
    assert_eq!(outcome, ReadOutcome::DriverFault(-200_279));
    assert!(outcome.is_fatal());
    // torn down already, inside the callback
    assert!(!task_view.is_live());
    settle_read_callback(outcome, &mut task_view, &mut read_slot);
    assert!(!task_view.is_live());

    drop(sender);
    let produced: Vec<ScanData> = recv.wait().map(|r| r.unwrap()).collect();
    assert!(produced.is_empty());
}

#[test]
fn released_consumer_stops_production_quietly() {
    let chan = AiChannel::new(1000, 0, 0, 0).unwrap();
    let (sender, recv) = futures::sync::mpsc::unbounded();
    let (async_chan, mut read_slot, _done_slot) = chan.make_async(0, 0, recv).unwrap();
    let AsyncAiChannel { ai_chan, recv } = async_chan;

    // the consumer goes away before the batch is processed
    drop(recv);

    let mut task_view = ai_chan.driver_view();
    let mut sender = sender;
    read_slot.enter_callback();
    let batch = BatchedScan::new(vec![[1, 2]; 10], BASE_TS);
    let outcome =
        nidaqmx::ai_channel::async_read_callback_impl(
            &mut task_view,
            &mut sender,
            1000,
            10,
            &batch,
            10,
            0,
        );
    assert_eq!(outcome, ReadOutcome::ConsumerGone);
    assert!(!outcome.is_fatal());
    // the task was fine the whole way through the callback
    assert!(task_view.is_live());
    settle_read_callback(outcome, &mut task_view, &mut read_slot);
    assert!(!task_view.is_live());
}

#[test]
fn advisory_code_stops_without_the_fatal_path() {
    let chan = AiChannel::new(1000, 0, 0, 0).unwrap();
    let (sender, recv) = futures::sync::mpsc::unbounded();
    let (async_chan, mut read_slot, _done_slot) = chan.make_async(0, 0, recv).unwrap();
    let AsyncAiChannel { ai_chan, recv } = async_chan;

    let mut task_view = ai_chan.driver_view();
    let mut sender = sender;
    read_slot.enter_callback();
    let batch = BatchedScan::new(vec![[0, 0]; 10], BASE_TS);
    let outcome =
        nidaqmx::ai_channel::async_read_callback_impl(
            &mut task_view,
            &mut sender,
            1000,
            10,
            &batch,
            10,
            42,
        );
    assert_eq!(outcome, ReadOutcome::Advisory(42));
    assert!(!outcome.is_fatal());
    assert!(task_view.is_live());
    settle_read_callback(outcome, &mut task_view, &mut read_slot);
    assert!(!task_view.is_live());

    drop(sender);
    let produced: Vec<ScanData> = recv.wait().map(|r| r.unwrap()).collect();
    assert!(produced.is_empty());
}

#[test]
fn registration_failure_propagates() {
    let chan = AiChannel::new(1000, 0, 0, 0).unwrap();
    let (_sender, recv) = futures::sync::mpsc::unbounded();
    assert_eq!(chan.make_async(-5, 0, recv).err(), Some(-5));

    let chan = AiChannel::new(1000, 0, 0, 0).unwrap();
    let (_sender, recv) = futures::sync::mpsc::unbounded();
    assert_eq!(chan.make_async(0, -6, recv).err(), Some(-6));
}

#[test]
fn encoder_channel_rides_its_own_clock_source() {
    // the clock channel must be running before the counter channel is built
    let (co, _co_done_slot) = CoFreqChannel::new(0, 0, 0, 0).unwrap();
    let chan = CiEncoderChannel::new(500, co, 0, 0, 0).unwrap();
    assert_eq!(chan.sample_rate(), 500);
    assert_eq!(chan.batch_size(), 5);

    let (sender, recv) = futures::sync::mpsc::unbounded();
    let (async_chan, mut read_slot, _done_slot) = chan.make_async(0, 0, recv).unwrap();
    let encoder_chan = async_chan.encoder_chan;
    let recv = async_chan.recv;

    let mut task_view = encoder_chan.driver_view();
    let mut sender = sender;
    read_slot.enter_callback();
    let positions: Vec<i32> = vec![-2, -1, 0, 1, 2];
    let batch = nidaqmx::ci_encoder_channel::BatchedScan::new(positions.clone(), BASE_TS);
    let outcome =
        nidaqmx::ci_encoder_channel::async_read_callback_impl(
            &mut task_view,
            &mut sender,
            500,
            5,
            &batch,
            5,
            0,
        );
    assert_eq!(outcome, ReadOutcome::Forwarded);
    settle_read_callback(outcome, &mut task_view, &mut read_slot);

    drop(sender);
    let produced: Vec<EncoderReading> = recv.wait().map(|r| r.unwrap()).collect();
    assert_eq!(produced.len(), 5);
    for (i, reading) in produced.iter().enumerate() {
        assert_eq!(reading.pos, positions[i]);
        assert_eq!(reading.timestamp, BASE_TS - (4 - i as u64) * 2_000_000);
    }
}

#[test]
fn done_callback_checks_the_completion_code() {
    let mut task = TaskHandle::new(0).unwrap();
    let mut slot = CallbackSlot::handed_to_driver();
    slot.enter_callback();
    assert!(!settle_done_callback(3, &mut task, &mut slot));
    assert!(task.is_live());

    let mut task2 = TaskHandle::new(0).unwrap();
    let mut slot2 = CallbackSlot::handed_to_driver();
    slot2.enter_callback();
    assert!(settle_done_callback(-1, &mut task2, &mut slot2));
    assert!(!task2.is_live());
}

#[test]
fn callback_wrapper_keeps_state_and_function() {
    let wrapper = CallbackWrapper::new(42u64, 7u32);
    assert_eq!(wrapper.data, 42);
    assert_eq!(wrapper.func, 7);
}

#[test]
fn channel_descriptors() {
    assert_eq!(counter_generate_chan_desc(0), "Dev1/ctr0");
    assert_eq!(counter_generate_chan_desc(1), "Dev1/ctr1");
    assert_eq!(counter_generate_chan_desc(255), "Dev1/ctr255");
    assert_eq!(nidaqmx::ci_encoder_channel::generate_clock_src_desc(13), "/Dev1/PFI13");
    assert_eq!(nidaqmx::ci_encoder_channel::generate_clock_src_desc(99), "/Dev1/PFI99");
}

#[test]
fn error_text_stops_at_the_first_terminator() {
    let mut buf = vec![0u8; 2048];
    buf[0] = b'b';
    buf[1] = b'a';
    buf[2] = b'd';
    let text = extract_error_text(&buf);
    assert_eq!(text, b"bad");
}

#[test]
fn error_text_is_terminated_defensively() {
    // the driver left no terminator: the last byte is treated as one
    let buf = vec![b'x'; 16];
    let text = extract_error_text(&buf);
    assert_eq!(text.len(), 15);
    assert!(text.iter().all(|b| *b == b'x'));
}
