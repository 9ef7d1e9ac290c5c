//! The sample transport: the unbounded, ordered producer/consumer channel
//! that carries reconstructed samples from the driver-thread callback to the
//! application-facing stream.
//!
//! The channel itself comes from the `futures` crate.  Its sending half is
//! given one spec-level name per carried type — everything ever sent through
//! that half, in order — and the send wrappers state how one call moves that
//! sequence.  The receiving half is polled only by unverified consumer code,
//! so no operation on it is declared here beyond the type itself.

use vstd::prelude::*;
use crate::ai_channel::ScanData;
use crate::ci_encoder_channel::EncoderReading;

verus! {

#[verifier::external_type_specification]
#[verifier::external_body]
#[verifier::reject_recursive_types(T)]
pub struct ExUnboundedSender<T>(futures::sync::mpsc::UnboundedSender<T>);

#[verifier::external_type_specification]
#[verifier::external_body]
#[verifier::reject_recursive_types(T)]
pub struct ExUnboundedReceiver<T>(futures::sync::mpsc::UnboundedReceiver<T>);

/// Everything ever sent through this sending half of a scan transport, in
/// sending order.
pub uninterp spec fn scan_queue(
    s: futures::sync::mpsc::UnboundedSender<ScanData>,
) -> Seq<ScanData>;

/// Everything ever sent through this sending half of an encoder-reading
/// transport, in sending order.
pub uninterp spec fn encoder_queue(
    s: futures::sync::mpsc::UnboundedSender<EncoderReading>,
) -> Seq<EncoderReading>;

/// Relies on futures::sync::mpsc::UnboundedSender::unbounded_send: the value
/// is enqueued, in order and without blocking, unless the receiving half has
/// already been dropped, in which case the value comes back in the error and
/// nothing is enqueued.  The channel is unbounded by design; the producer's
/// rate is hardware-clocked, and exhausting memory aborts the process.
#[verifier::external_body]
pub(crate) fn send_scan(
    sender: &mut futures::sync::mpsc::UnboundedSender<ScanData>,
    scan: ScanData,
) -> (r: Result<(), ()>)
    ensures
        r is Ok ==> scan_queue(*final(sender)) == scan_queue(*old(sender)).push(scan),
        r is Err ==> scan_queue(*final(sender)) == scan_queue(*old(sender)),
{
    match sender.unbounded_send(scan) {
        Ok(()) => Ok(()),
        Err(_) => Err(()),
    }
}

/// Relies on futures::sync::mpsc::UnboundedSender::unbounded_send, as
/// `send_scan` does.
#[verifier::external_body]
pub(crate) fn send_encoder_reading(
    sender: &mut futures::sync::mpsc::UnboundedSender<EncoderReading>,
    reading: EncoderReading,
) -> (r: Result<(), ()>)
    ensures
        r is Ok ==> encoder_queue(*final(sender)) == encoder_queue(*old(sender)).push(reading),
        r is Err ==> encoder_queue(*final(sender)) == encoder_queue(*old(sender)),
{
    match sender.unbounded_send(reading) {
        Ok(()) => Ok(()),
        Err(_) => Err(()),
    }
}

} // verus!
