//! TimeSync commands sent to the bridge: `[0x01][session_time_us: u64 LE]`,
//! COBS-framed.

use vstd::prelude::*;
use vstd::bytes::spec_u64_to_le_bytes;
use crate::cobs_frame::{cobs_decoding, frame_message, framed};
use crate::board::usb::protocol::{usb_command_of, UsbCommand};
use crate::wire::lemma_le_facts;

verus! {

/// Command byte of a TimeSync.
const CMD_TIME_SYNC: u8 = 0x01;

/// The unframed TimeSync command for a session time.
pub open spec fn timesync_command_bytes(session_time_us: u64) -> Seq<u8> {
    seq![0x01u8] + spec_u64_to_le_bytes(session_time_us)
}

/// Builds the COBS-framed TimeSync command: the encoding of
/// `[0x01, session_time_us LE]` followed by 0x00.
pub fn encode_timesync_command(session_time_us: u64) -> (r: Vec<u8>)
    ensures
        r@ == framed(timesync_command_bytes(session_time_us)),
        r@.len() >= 1 && r@.last() == 0u8,
        forall|i: int| 0 <= i < r@.len() - 1 ==> r@[i] != 0u8,
        r@.len() <= 11,
        cobs_decoding(r@.drop_last()) == Some(timesync_command_bytes(session_time_us)),
{
    proof { lemma_le_facts(); }
    let mut raw = vstd::bytes::u64_to_le_bytes(session_time_us);
    raw.insert(0, CMD_TIME_SYNC);
    assert(raw@ =~= timesync_command_bytes(session_time_us));
    frame_message(raw.as_slice())
}

/// The bridge reads a TimeSync command as the session time it was built from.
pub proof fn lemma_timesync_command_parses(session_time_us: u64)
    ensures
        usb_command_of(timesync_command_bytes(session_time_us))
            == Ok::<UsbCommand, crate::board::usb::protocol::ForwardError>(UsbCommand::TimeSync { session_time_us }),
{
    lemma_le_facts();
    let b = timesync_command_bytes(session_time_us);
    assert(b.subrange(1, 9) =~= spec_u64_to_le_bytes(session_time_us));
}

} // verus!
