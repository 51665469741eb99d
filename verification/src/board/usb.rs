//! USB serial link between the bridge and the host: COBS-framed messages.

pub mod protocol;

use vstd::prelude::*;
use crate::cobs_frame::{framed, frame_message, cobs_decode, cobs_decoding};
use protocol::{parse_usb_command, usb_command_of};
pub use protocol::UsbCommand;

verus! {

/// Maximum size of a single message before COBS encoding.
pub const MAX_MESSAGE_SIZE: usize = 128;

/// COBS adds at most one byte per 254, plus the overhead byte and the delimiter.
pub const MAX_ENCODED_SIZE: usize = 130;

/// Decoded-buffer size for incoming commands (the largest command is 9 bytes).
pub const USB_RX_DECODED_BUF_SIZE: usize = 32;

/// Largest COBS-encoded command frame accumulated before it is discarded.
pub const USB_RX_FRAME_MAX: usize = 64;

/// USB serial errors.
#[derive(Debug, Clone, Copy, PartialEq, Eq, Structural)]
pub enum UsbError {
    /// Message exceeds the maximum allowed size.
    MessageTooLarge,
    /// USB host not ready.
    NotReady,
}

/// The bytes the bridge writes to the host for one message: refused when longer
/// than `MAX_MESSAGE_SIZE`, otherwise its COBS encoding and the 0x00 delimiter.
pub fn usb_frame(data: &[u8]) -> (r: Result<Vec<u8>, UsbError>)
    ensures
        data@.len() > MAX_MESSAGE_SIZE ==> r == Err::<Vec<u8>, UsbError>(UsbError::MessageTooLarge),
        data@.len() <= MAX_MESSAGE_SIZE ==> (r matches Ok(f) && f@ == framed(data@) && f@.len() <= MAX_ENCODED_SIZE
            && f@.last() == 0u8 && (forall|i: int| 0 <= i < f@.len() - 1 ==> f@[i] != 0u8)
            && (data@.len() > 0 ==> cobs_decoding(f@.drop_last()) == Some(data@))),
{
    if data.len() > MAX_MESSAGE_SIZE {
        return Err(UsbError::MessageTooLarge);
    }
    Ok(frame_message(data))
}

/// Accumulates COBS-framed commands arriving from the host, byte by byte.
pub struct UsbRxFramer {
    frame: Vec<u8>,
}

impl UsbRxFramer {
    /// The encoded bytes of the frame received so far.
    pub closed spec fn pending(&self) -> Seq<u8> {
        self.frame@
    }

    /// Well-formedness: the pending frame never exceeds `USB_RX_FRAME_MAX`.
    pub closed spec fn wf(&self) -> bool {
        self.frame@.len() <= USB_RX_FRAME_MAX
    }

    /// A framer with nothing received.
    pub fn new() -> (f: UsbRxFramer)
        ensures
            f.wf(),
            f.pending() == Seq::<u8>::empty(),
    {
        UsbRxFramer { frame: Vec::new() }
    }

    /// Feeds one received byte. A 0x00 ends the pending frame (an empty one is
    /// ignored): it is decoded and parsed, and the command is returned when both
    /// succeed; a malformed frame is dropped. Any other byte is added to the
    /// pending frame, or, when `USB_RX_FRAME_MAX` bytes are pending already,
    /// the pending frame is discarded.
    pub fn push_byte(&mut self, byte: u8) -> (r: Option<UsbCommand>)
        requires
            old(self).wf(),
        ensures
            final(self).wf(),
            (final(self).pending(), r) == usb_rx_step(old(self).pending(), byte),
    {
        if byte == 0 {
            if self.frame.len() == 0 {
                return None;
            }
            let decoded = cobs_decode(self.frame.as_slice(), USB_RX_DECODED_BUF_SIZE);
            self.frame = Vec::new();
            match decoded {
                Ok(msg) => match parse_usb_command(msg.as_slice()) {
                    Ok(cmd) => Some(cmd),
                    Err(_) => None,
                },
                Err(_) => None,
            }
        } else {
            if self.frame.len() < USB_RX_FRAME_MAX {
                self.frame.push(byte);
            } else {
                self.frame = Vec::new();
            }
            None
        }
    }
}

/// One received byte: the new pending frame and the command completed, if any.
/// A 0x00 ends the pending frame (an empty one is ignored); another byte is
/// added, unless `USB_RX_FRAME_MAX` bytes are pending, which discards them.
pub open spec fn usb_rx_step(pending: Seq<u8>, byte: u8) -> (Seq<u8>, Option<UsbCommand>) {
    if byte == 0 {
        if pending.len() == 0 {
            (pending, None)
        } else {
            (Seq::empty(), command_of_frame(pending))
        }
    } else if pending.len() < USB_RX_FRAME_MAX {
        (pending.push(byte), None)
    } else {
        (Seq::empty(), None)
    }
}

/// Feeding a run of bytes: the pending frame left and the commands completed.
pub open spec fn usb_rx_all(pending: Seq<u8>, bytes: Seq<u8>) -> (Seq<u8>, Seq<UsbCommand>)
    decreases bytes.len(),
{
    if bytes.len() == 0 {
        (pending, Seq::empty())
    } else {
        let (p1, c1) = usb_rx_step(pending, bytes[0]);
        let (p2, cs) = usb_rx_all(p1, bytes.drop_first());
        match c1 {
            Some(c) => (p2, seq![c] + cs),
            None => (p2, cs),
        }
    }
}

/// A run of non-zero bytes that fits the frame limit only grows the pending frame.
proof fn lemma_usb_rx_nonzero_run(pending: Seq<u8>, run: Seq<u8>, rest: Seq<u8>)
    requires
        forall|i: int| 0 <= i < run.len() ==> run[i] != 0u8,
        pending.len() + run.len() <= USB_RX_FRAME_MAX,
    ensures
        usb_rx_all(pending, run + rest) == usb_rx_all(pending + run, rest),
    decreases run.len(),
{
    if run.len() == 0 {
        assert(run + rest =~= rest);
        assert(pending + run =~= pending);
    } else {
        assert((run + rest).drop_first() =~= run.drop_first() + rest);
        assert((run + rest)[0] == run[0]);
        lemma_usb_rx_nonzero_run(pending.push(run[0]), run.drop_first(), rest);
        assert(pending.push(run[0]) + run.drop_first() =~= pending + run);
    }
}

/// Host to bridge: a link frame (non-zero encoded bytes of at most
/// `USB_RX_FRAME_MAX`, then 0x00) whose COBS decoding is a command buffer that
/// fits the decode buffer is delivered, between frames, as exactly the command
/// that buffer parses to, and nothing stays pending.
pub proof fn law_host_command_reaches_bridge(link: Seq<u8>, command: Seq<u8>)
    requires
        2 <= link.len() <= USB_RX_FRAME_MAX + 1,
        link.last() == 0u8,
        forall|i: int| 0 <= i < link.len() - 1 ==> link[i] != 0u8,
        cobs_decoding(link.drop_last()) == Some(command),
        command.len() <= USB_RX_DECODED_BUF_SIZE,
    ensures
        usb_rx_all(Seq::empty(), link) == (Seq::<u8>::empty(), match usb_command_of(command) {
            Ok(c) => seq![c],
            Err(_) => Seq::<UsbCommand>::empty(),
        }),
{
    let enc = link.drop_last();
    let one = seq![0u8];
    assert(enc + one =~= link);
    lemma_usb_rx_nonzero_run(Seq::empty(), enc, one);
    assert(Seq::<u8>::empty() + enc =~= enc);
    assert(one.drop_first() =~= Seq::<u8>::empty());
    assert(usb_rx_all(Seq::<u8>::empty(), Seq::<u8>::empty()) == (Seq::<u8>::empty(), Seq::<UsbCommand>::empty()));
    match usb_command_of(command) {
        Ok(c) => {
            assert(seq![c] + Seq::<UsbCommand>::empty() =~= seq![c]);
        },
        Err(_) => {},
    }
}

/// The command a completed frame carries: its COBS decoding, when that exists
/// and fits the decode buffer, parsed as a command.
pub open spec fn command_of_frame(frame: Seq<u8>) -> Option<UsbCommand> {
    match cobs_decoding(frame) {
        Some(m) => if m.len() <= USB_RX_DECODED_BUF_SIZE {
            match usb_command_of(m) {
                Ok(c) => Some(c),
                Err(_) => None,
            }
        } else {
            None
        },
        None => None,
    }
}

} // verus!
