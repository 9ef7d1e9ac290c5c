//! Verified core of a bridge between a callback-driven hardware
//! data-acquisition driver and a pull-based, timestamped sample stream.
//!
//! The native driver is reached only from unverified glue: it hands that glue
//! raw batches, signed error codes and callback invocations.  Everything the
//! bridge *decides* — task lifecycle and error protocol, callback custody,
//! read classification, per-sample timestamp reconstruction, and forwarding
//! into the sample transport — lives here, with contracts.

use vstd::prelude::*;
use vstd::string::StringExecFns;

pub mod ai_channel;
pub mod callback_utils;
pub mod ci_encoder_channel;
pub mod co_channel;
pub mod task_handle;
pub mod timing;
pub mod transport;

verus! {

/// How many times per second the driver is asked to deliver a batch.
pub const DAQ_CALLBACK_FREQ: usize = 100;

/// Sentinel error value for a synchronous read that reported success but
/// returned fewer samples than requested.
pub const SCAN_WARNING: i32 = i32::MAX;

/// The character of one decimal digit.
pub open spec fn spec_digit_char(d: nat) -> char {
    if d == 0 {
        '0'
    } else if d == 1 {
        '1'
    } else if d == 2 {
        '2'
    } else if d == 3 {
        '3'
    } else if d == 4 {
        '4'
    } else if d == 5 {
        '5'
    } else if d == 6 {
        '6'
    } else if d == 7 {
        '7'
    } else if d == 8 {
        '8'
    } else {
        '9'
    }
}

/// Decimal digits of `n`, most significant first, without leading zeros.
pub open spec fn spec_decimal(n: nat) -> Seq<char>
    decreases n,
{
    if n < 10 {
        seq![spec_digit_char(n)]
    } else {
        spec_decimal(n / 10) + seq![spec_digit_char(n % 10)]
    }
}

/// The one-character string of one decimal digit.
fn digit_str(d: u8) -> (r: &'static str)
    requires
        d < 10,
    ensures
        r@ == seq![spec_digit_char(d as nat)],
{
    proof {
        reveal_strlit("0");
        reveal_strlit("1");
        reveal_strlit("2");
        reveal_strlit("3");
        reveal_strlit("4");
        reveal_strlit("5");
        reveal_strlit("6");
        reveal_strlit("7");
        reveal_strlit("8");
        reveal_strlit("9");
    }
    match d {
        0 => "0",
        1 => "1",
        2 => "2",
        3 => "3",
        4 => "4",
        5 => "5",
        6 => "6",
        7 => "7",
        8 => "8",
        _ => "9",
    }
}

/// Appends the decimal digits of `n` to `s`.
pub(crate) fn append_decimal(s: &mut String, n: u8)
    ensures
        final(s)@ == old(s)@ + spec_decimal(n as nat),
{
    if n >= 100 {
        s.append(digit_str(n / 100));
    }
    if n >= 10 {
        s.append(digit_str((n / 10) % 10));
    }
    s.append(digit_str(n % 10));
    proof {
        let m = n as nat;
        if m < 10 {
            assert(m % 10 == m) by {
                vstd::arithmetic::div_mod::lemma_small_mod(m, 10);
            }
            assert(final(s)@ =~= old(s)@ + spec_decimal(m));
        } else if m < 100 {
            assert(m / 10 < 10);
            assert((m / 10) % 10 == m / 10) by {
                vstd::arithmetic::div_mod::lemma_small_mod((m / 10) as nat, 10);
            }
            assert(spec_decimal(m / 10) == seq![spec_digit_char(m / 10)]);
            assert(final(s)@ =~= old(s)@ + spec_decimal(m));
        } else {
            assert((m / 10) / 10 == m / 100) by {
                vstd::arithmetic::div_mod::lemma_div_denominator(m as int, 10, 10);
            }
            assert(m / 100 < 10);
            assert(spec_decimal(m / 100) == seq![spec_digit_char(m / 100)]);
            assert(spec_decimal(m / 10) == spec_decimal(m / 100) + seq![
                spec_digit_char((m / 10) % 10),
            ]);
            assert(final(s)@ =~= old(s)@ + spec_decimal(m));
        }
    }
}

/// Physical descriptor of the device's counter `counter_id`.
pub fn counter_generate_chan_desc(counter_id: u8) -> (desc: String)
    ensures
        desc@ == "Dev1/ctr"@ + spec_decimal(counter_id as nat),
{
    let mut desc = String::from_str("Dev1/ctr");
    append_decimal(&mut desc, counter_id);
    desc
}

} // verus!
