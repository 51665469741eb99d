//! Bridge decisions: node identifiers assigned in MAC discovery order, the
//! floating-GPS forwarding window, and the handling of host commands.
//!
//! The bridge keeps its tables in `heapless` FNV index maps of 16 entries;
//! the decisions around them are verified against what those maps hold.

use vstd::prelude::*;
use heapless::index_map::FnvIndexMap;
use crate::board::types::{CarPosition, NodeId, position_code, position_of_code, lemma_position_code_round_trip};
use crate::board::aircomm::message::{SensorMessage, SensorPayload};
use crate::board::usb::protocol::{forwardable, forwarded_bytes, lemma_forwarded_fits, serialize_forwarded_message, MAX_USB_MESSAGE_SIZE};
use crate::board::aircomm::message::TimeSyncData;
use crate::board::aircomm::protocol::{air_frame, serialize_request_gps_capture, serialize_timesync};
use crate::board::usb::{UsbCommand, UsbError};
use crate::board::hmi::{after_expiry, CapturePhase, HmiStateData};
use crate::board::timebase::TimeBase;

verus! {

/// Entries a bridge table holds at most (the capacity of its index maps).
pub const TABLE_CAPACITY: usize = 16;

/// Node identifiers by MAC address, each stored as `(position code, instance)`,
/// in a `heapless` FNV index map of 16 entries.
#[verifier::external_body]
pub struct NodeTable {
    map: FnvIndexMap<[u8; 6], (u8, u8), 16>,
}

/// What a node table holds.
pub uninterp spec fn node_entries(t: NodeTable) -> Map<[u8; 6], (u8, u8)>;

/// `FnvIndexMap::new`: an empty map.
#[verifier::external_body]
fn node_table_new() -> (r: NodeTable)
    ensures
        node_entries(r).dom() == Set::<[u8; 6]>::empty(),
{
    NodeTable { map: FnvIndexMap::new() }
}

/// `FnvIndexMap::get`: the value stored under the key, if there is one.
#[verifier::external_body]
fn node_table_get(t: &NodeTable, mac: &[u8; 6]) -> (r: Option<(u8, u8)>)
    ensures
        r == (if node_entries(*t).dom().contains(*mac) {
            Some(node_entries(*t)[*mac])
        } else {
            None
        }),
{
    t.map.get(mac).copied()
}

/// `FnvIndexMap::contains_key`: whether a value is stored under the key.
#[verifier::external_body]
fn node_table_contains(t: &NodeTable, mac: &[u8; 6]) -> (r: bool)
    ensures
        r == node_entries(*t).dom().contains(*mac),
{
    t.map.contains_key(mac)
}

/// `FnvIndexMap::insert`: a present key keeps its place and gets the new value
/// (the old one is returned in `Ok(Some(..))`); a new key is added while fewer
/// than 16 entries are stored (`Ok(None)`); otherwise the map is full and the
/// pair comes back in `Err`, the map unchanged. The map never holds more than
/// 16 entries.
#[verifier::external_body]
fn node_table_insert(t: &mut NodeTable, mac: [u8; 6], v: (u8, u8)) -> (r: Result<Option<(u8, u8)>, ([u8; 6], (u8, u8))>)
    ensures
        node_entries(*old(t)).dom().contains(mac) ==> (r matches Ok(Some(o)) && o == node_entries(*old(t))[mac]
            && node_entries(*final(t)) == node_entries(*old(t)).insert(mac, v)),
        !node_entries(*old(t)).dom().contains(mac) && node_entries(*old(t)).len() < 16 ==> (r matches Ok(None)
            && node_entries(*final(t)) == node_entries(*old(t)).insert(mac, v)),
        !node_entries(*old(t)).dom().contains(mac) && node_entries(*old(t)).len() >= 16 ==> (r matches Err(e)
            && e == (mac, v) && node_entries(*final(t)) == node_entries(*old(t))),
        node_entries(*final(t)).dom().finite(),
        node_entries(*final(t)).len() <= 16,
{
    t.map.insert(mac, v)
}

/// Next instance number per position code, in a `heapless` FNV index map of
/// 16 entries.
#[verifier::external_body]
pub struct InstanceTable {
    map: FnvIndexMap<u8, u8, 16>,
}

/// What an instance table holds.
pub uninterp spec fn instance_entries(t: InstanceTable) -> Map<u8, u8>;

/// `FnvIndexMap::new`: an empty map.
#[verifier::external_body]
fn instance_table_new() -> (r: InstanceTable)
    ensures
        instance_entries(r).dom() == Set::<u8>::empty(),
{
    InstanceTable { map: FnvIndexMap::new() }
}

/// `FnvIndexMap::get`: the value stored under the key, if there is one.
#[verifier::external_body]
fn instance_table_get(t: &InstanceTable, code: u8) -> (r: Option<u8>)
    ensures
        r == (if instance_entries(*t).dom().contains(code) {
            Some(instance_entries(*t)[code])
        } else {
            None
        }),
{
    t.map.get(&code).copied()
}

/// `FnvIndexMap::insert`, as for the node table: replace a present key, add a
/// new one while fewer than 16 entries are stored, otherwise leave the map
/// unchanged and hand the pair back.
#[verifier::external_body]
fn instance_table_insert(t: &mut InstanceTable, code: u8, v: u8) -> (r: Result<Option<u8>, (u8, u8)>)
    ensures
        instance_entries(*old(t)).dom().contains(code) ==> (r matches Ok(Some(o)) && o == instance_entries(*old(t))[code]
            && instance_entries(*final(t)) == instance_entries(*old(t)).insert(code, v)),
        !instance_entries(*old(t)).dom().contains(code) && instance_entries(*old(t)).len() < 16 ==> (r matches Ok(None)
            && instance_entries(*final(t)) == instance_entries(*old(t)).insert(code, v)),
        !instance_entries(*old(t)).dom().contains(code) && instance_entries(*old(t)).len() >= 16 ==> (r matches Err(e)
            && e == (code, v) && instance_entries(*final(t)) == instance_entries(*old(t))),
        instance_entries(*final(t)).dom().finite(),
        instance_entries(*final(t)).len() <= 16,
{
    t.map.insert(code, v)
}

/// Inserting into a table of 16 entries: a new key is refused, leaving the
/// table as it was, when the table is full.
pub open spec fn bounded_insert<K, V>(m: Map<K, V>, k: K, v: V) -> Map<K, V> {
    if m.dom().contains(k) || m.len() < TABLE_CAPACITY {
        m.insert(k, v)
    } else {
        m
    }
}

/// The next instance number for a position code: the stored counter, or 0.
pub open spec fn next_instance_of(inst: Map<u8, u8>, code: u8) -> u8 {
    if inst.dom().contains(code) {
        inst[code]
    } else {
        0
    }
}

/// The tables after a heartbeat from `mac` announcing the position `code`.
/// An unknown MAC gets the next instance of its position (if the table has
/// room); a known MAC that announces another position is re-assigned the next
/// instance of that position; the position's counter then advances (wrapping).
pub open spec fn after_heartbeat(nodes: Map<[u8; 6], (u8, u8)>, inst: Map<u8, u8>, mac: [u8; 6], code: u8)
    -> (Map<[u8; 6], (u8, u8)>, Map<u8, u8>)
{
    let n = next_instance_of(inst, code);
    let bumped = bounded_insert(inst, code, vstd::wrapping::u8_specs::wrapping_add(n, 1));
    if !nodes.dom().contains(mac) {
        if nodes.len() < TABLE_CAPACITY {
            (nodes.insert(mac, (code, n)), bumped)
        } else {
            (nodes, inst)
        }
    } else if nodes[mac].0 != code {
        (nodes.insert(mac, (code, n)), bumped)
    } else {
        (nodes, inst)
    }
}

/// The node identifier the bridge reports for a MAC: the stored one, or
/// `Custom` instance 0 for a MAC it does not know.
pub open spec fn reported_node_id(nodes: Map<[u8; 6], (u8, u8)>, mac: [u8; 6]) -> NodeId {
    if nodes.dom().contains(mac) {
        NodeId { position: position_of_code(nodes[mac].0), instance: nodes[mac].1 }
    } else {
        NodeId { position: CarPosition::Custom, instance: 0 }
    }
}

/// Whether a message is forwarded, and the floating node's MAC afterwards.
/// While floating GPS samples are awaited, only GPS messages from the floating
/// node (the first GPS sender) go through; otherwise everything does.
pub open spec fn forward_decision(remaining: u8, floating_mac: Option<[u8; 6]>, src: [u8; 6], is_gps: bool)
    -> (bool, Option<[u8; 6]>)
{
    if remaining > 0 {
        if is_gps {
            let is_floating = match floating_mac {
                Some(m) => m == src,
                None => true,
            };
            (is_floating, if is_floating && floating_mac is None { Some(src) } else { floating_mac })
        } else {
            (false, floating_mac)
        }
    } else {
        (true, floating_mac)
    }
}

/// The tables after a received message: only a heartbeat changes them.
pub open spec fn tables_after_message(nodes: Map<[u8; 6], (u8, u8)>, inst: Map<u8, u8>, msg: SensorMessage)
    -> (Map<[u8; 6], (u8, u8)>, Map<u8, u8>)
{
    match msg.payload {
        SensorPayload::Heartbeat(h) => after_heartbeat(nodes, inst, msg.src_address, position_code(h.node_id.position)),
        _ => (nodes, inst),
    }
}

/// How long a capture result (success or timeout) stays on the LED, in ms.
pub const CAPTURE_FEEDBACK_MS: u64 = 1000;

/// Floating GPS messages forwarded in answer to one request.
pub const FLOATING_GPS_SAMPLES: u8 = 5;

/// The HMI state after a host command: a request shows orange, arming and
/// ending set the armed flag, a capture result is shown for one second.
pub open spec fn hmi_after_command(hmi: HmiStateData, cmd: UsbCommand, now_ms: u64) -> HmiStateData {
    match cmd {
        UsbCommand::TimeSync { .. } => hmi,
        UsbCommand::RequestFloatingGps => HmiStateData { capture_led_phase: CapturePhase::RequestSent, ..hmi },
        UsbCommand::ArmTrack => HmiStateData { track_armed: true, ..hmi },
        UsbCommand::EndTrack => HmiStateData { track_armed: false, ..hmi },
        UsbCommand::CaptureSuccess => HmiStateData {
            capture_led_phase: CapturePhase::Success,
            capture_phase_deadline_ms: Some((now_ms + CAPTURE_FEEDBACK_MS) as u64),
            ..hmi
        },
        UsbCommand::CaptureTimeout => HmiStateData {
            capture_led_phase: CapturePhase::Timeout,
            capture_phase_deadline_ms: Some((now_ms + CAPTURE_FEEDBACK_MS) as u64),
            ..hmi
        },
    }
}

/// What the bridge tells the radio to do after a host command.
#[derive(Debug, Clone, Copy, PartialEq, Eq, Structural)]
pub enum BridgeAction {
    /// Nothing to send.
    Nothing,
    /// Broadcast a time synchronization carrying the host's session time.
    BroadcastTimeSync { session_time_us: u64 },
    /// Broadcast a request for GPS samples to the floating node.
    BroadcastRequestGpsCapture,
}

/// The air frame the bridge broadcasts for an action, stamped
/// `timestamp_us`: a time synchronization carrying the host's session time,
/// or a capture request; nothing for `Nothing`.
pub fn broadcast_frame(action: BridgeAction, timestamp_us: u64) -> (r: Option<Vec<u8>>)
    ensures
        action is Nothing ==> r is None,
        action matches BridgeAction::BroadcastTimeSync { session_time_us } ==> (r matches Some(v)
            && v@ == air_frame(timestamp_us, SensorPayload::TimeSync(TimeSyncData { session_time_us }))),
        action is BroadcastRequestGpsCapture ==> (r matches Some(v)
            && v@ == air_frame(timestamp_us, SensorPayload::RequestGpsCapture)),
{
    match action {
        BridgeAction::Nothing => None,
        BridgeAction::BroadcastTimeSync { session_time_us } => {
            let mut buffer = vec![0u8; 17];
            let data = TimeSyncData::new(session_time_us);
            let _ = serialize_timesync(timestamp_us, &data, buffer.as_mut_slice());
            proof { crate::wire::lemma_le_facts(); }
            assert(buffer@ =~= air_frame(timestamp_us, SensorPayload::TimeSync(data)));
            Some(buffer)
        },
        BridgeAction::BroadcastRequestGpsCapture => {
            let mut buffer = vec![0u8; 9];
            let _ = serialize_request_gps_capture(timestamp_us, buffer.as_mut_slice());
            proof { crate::wire::lemma_le_facts(); }
            assert(buffer@ =~= air_frame(timestamp_us, SensorPayload::RequestGpsCapture));
            Some(buffer)
        },
    }
}

/// The bridge's state between loop iterations.
pub struct BridgeState {
    nodes: NodeTable,
    next_instance: InstanceTable,
    floating_gps_remaining: u8,
    floating_gps_mac: Option<[u8; 6]>,
    messages_forwarded: u32,
    errors: u32,
    timesync_count: u32,
}

impl BridgeState {
    /// The node table: MAC to `(position code, instance)`.
    pub closed spec fn nodes(&self) -> Map<[u8; 6], (u8, u8)> {
        node_entries(self.nodes)
    }

    /// The instance counters by position code.
    pub closed spec fn instances(&self) -> Map<u8, u8> {
        instance_entries(self.next_instance)
    }

    /// GPS messages still awaited from the floating node.
    pub closed spec fn remaining(&self) -> u8 {
        self.floating_gps_remaining
    }

    /// The floating node, once its first GPS message arrived.
    pub closed spec fn floating_mac(&self) -> Option<[u8; 6]> {
        self.floating_gps_mac
    }

    /// Messages forwarded to the host so far (wrapping).
    pub closed spec fn forwarded(&self) -> u32 {
        self.messages_forwarded
    }

    /// Serialization and write errors so far (wrapping).
    pub closed spec fn error_count(&self) -> u32 {
        self.errors
    }

    /// Time synchronizations received from the host so far (wrapping).
    pub closed spec fn timesyncs(&self) -> u32 {
        self.timesync_count
    }

    /// Both tables are finite and within their capacity.
    pub open spec fn wf(&self) -> bool {
        &&& self.nodes().dom().finite()
        &&& self.nodes().len() <= TABLE_CAPACITY
        &&& self.instances().dom().finite()
        &&& self.instances().len() <= TABLE_CAPACITY
    }

    /// A bridge that knows no node and awaits nothing.
    pub fn new() -> (b: BridgeState)
        ensures
            b.wf(),
            b.nodes() == Map::<[u8; 6], (u8, u8)>::empty(),
            b.instances() == Map::<u8, u8>::empty(),
            b.remaining() == 0,
            b.floating_mac() is None,
            b.forwarded() == 0,
            b.error_count() == 0,
            b.timesyncs() == 0,
    {
        BridgeState {
            nodes: node_table_new(),
            next_instance: instance_table_new(),
            floating_gps_remaining: 0,
            floating_gps_mac: None,
            messages_forwarded: 0,
            errors: 0,
            timesync_count: 0,
        }
    }

    /// Records the position a node announces in its heartbeat.
    pub fn on_heartbeat(&mut self, src_mac: [u8; 6], position: CarPosition)
        requires
            old(self).wf(),
        ensures
            final(self).wf(),
            (final(self).nodes(), final(self).instances())
                == after_heartbeat(old(self).nodes(), old(self).instances(), src_mac, position_code(position)),
            final(self).remaining() == old(self).remaining(),
            final(self).floating_mac() == old(self).floating_mac(),
            final(self).forwarded() == old(self).forwarded(),
            final(self).error_count() == old(self).error_count(),
            final(self).timesyncs() == old(self).timesyncs(),
    {
        let code = position.to_u8();
        let instance = match instance_table_get(&self.next_instance, code) {
            Some(n) => n,
            None => 0,
        };
        let assigned = (code, instance);
        if !node_table_contains(&self.nodes, &src_mac) {
            match node_table_insert(&mut self.nodes, src_mac, assigned) {
                Ok(_) => {
                    let _ = instance_table_insert(&mut self.next_instance, code, instance.wrapping_add(1));
                },
                Err(_) => {},
            }
        } else {
            let stored = node_table_get(&self.nodes, &src_mac);
            match stored {
                Some((stored_code, _)) => {
                    if stored_code != code {
                        let _ = node_table_insert(&mut self.nodes, src_mac, assigned);
                        let _ = instance_table_insert(&mut self.next_instance, code, instance.wrapping_add(1));
                    }
                },
                None => {},
            }
        }
    }

    /// The node identifier reported for a MAC.
    pub fn node_id_for(&self, src_mac: &[u8; 6]) -> (id: NodeId)
        ensures
            id == reported_node_id(self.nodes(), *src_mac),
    {
        match node_table_get(&self.nodes, src_mac) {
            Some((code, instance)) => NodeId::new(CarPosition::from_u8(code), instance),
            None => NodeId::new(CarPosition::Custom, 0),
        }
    }

    /// Handles a message received over the air, stamped with the bridge's
    /// synchronized time: a heartbeat updates the node table; the message is
    /// then serialized for the host if the forwarding window lets it through.
    pub fn on_air_message(&mut self, msg: &SensorMessage, timestamp_us: u64) -> (r: Option<Vec<u8>>)
        requires
            old(self).wf(),
        ensures
            final(self).wf(),
            (final(self).nodes(), final(self).instances())
                == tables_after_message(old(self).nodes(), old(self).instances(), *msg),
            ({
                let (fwd, fmac) = forward_decision(
                    old(self).remaining(), old(self).floating_mac(), msg.src_address, msg.payload is Gps);
                &&& final(self).floating_mac() == fmac
                &&& (fwd && forwardable(msg.payload)) ==> (r matches Some(v) && v@ == forwarded_bytes(
                    msg.src_address@, reported_node_id(final(self).nodes(), msg.src_address), timestamp_us, msg.payload))
                &&& !(fwd && forwardable(msg.payload)) ==> r is None
            }),
            final(self).remaining() == old(self).remaining(),
            final(self).forwarded() == old(self).forwarded(),
            final(self).error_count() == old(self).error_count(),
            final(self).timesyncs() == old(self).timesyncs(),
    {
        let src_mac = msg.src_address;
        match msg.payload {
            SensorPayload::Heartbeat(h) => self.on_heartbeat(src_mac, h.node_id.position),
            _ => {},
        }
        let node_id = self.node_id_for(&src_mac);
        let is_gps = match msg.payload {
            SensorPayload::Gps(_) => true,
            _ => false,
        };
        let should_forward = if self.floating_gps_remaining > 0 {
            if is_gps {
                let is_floating = match self.floating_gps_mac {
                    Some(m) => crate::wire::mac_equal(&m, &src_mac),
                    None => true,
                };
                if is_floating && self.floating_gps_mac.is_none() {
                    self.floating_gps_mac = Some(src_mac);
                }
                is_floating
            } else {
                false
            }
        } else {
            true
        };
        if !should_forward {
            return None;
        }
        let mut buffer = vec![0u8; MAX_USB_MESSAGE_SIZE];
        let ghost f = forwarded_bytes(src_mac@, node_id, timestamp_us, msg.payload);
        match serialize_forwarded_message(&src_mac, &node_id, timestamp_us, &msg.payload, buffer.as_mut_slice()) {
            Ok(len) => {
                proof { lemma_forwarded_fits(src_mac@, node_id, timestamp_us, msg.payload); }
                buffer.truncate(len);
                assert(buffer@ =~= f);
                Some(buffer)
            },
            Err(_) => None,
        }
    }

    /// Records a message written to the host: counts it, and while floating
    /// GPS samples are awaited, counts a GPS message down; the window closes
    /// (forgetting the floating node) at zero.
    pub fn on_forwarded(&mut self, payload: &SensorPayload)
        ensures
            final(self).forwarded() == vstd::wrapping::u32_specs::wrapping_add(old(self).forwarded(), 1),
            (*payload is Gps && old(self).remaining() > 0) ==> final(self).remaining() == old(self).remaining() - 1
                && final(self).floating_mac() == (if old(self).remaining() == 1 { None } else { old(self).floating_mac() }),
            !(*payload is Gps && old(self).remaining() > 0) ==> final(self).remaining() == old(self).remaining()
                && final(self).floating_mac() == old(self).floating_mac(),
            final(self).nodes() == old(self).nodes(),
            final(self).instances() == old(self).instances(),
            final(self).error_count() == old(self).error_count(),
            final(self).timesyncs() == old(self).timesyncs(),
    {
        self.messages_forwarded = self.messages_forwarded.wrapping_add(1);
        if let SensorPayload::Gps(_) = payload {
            if self.floating_gps_remaining > 0 {
                self.floating_gps_remaining = self.floating_gps_remaining - 1;
                if self.floating_gps_remaining == 0 {
                    self.floating_gps_mac = None;
                }
            }
        }
    }

    /// Records a failed write to the host; a host that is not ready is no error.
    pub fn on_write_error(&mut self, e: UsbError)
        ensures
            final(self).error_count() == (if e == UsbError::NotReady {
                old(self).error_count()
            } else {
                vstd::wrapping::u32_specs::wrapping_add(old(self).error_count(), 1)
            }),
            final(self).nodes() == old(self).nodes(),
            final(self).instances() == old(self).instances(),
            final(self).remaining() == old(self).remaining(),
            final(self).floating_mac() == old(self).floating_mac(),
            final(self).forwarded() == old(self).forwarded(),
            final(self).timesyncs() == old(self).timesyncs(),
    {
        match e {
            UsbError::NotReady => {},
            _ => {
                self.errors = self.errors.wrapping_add(1);
            },
        }
    }

    /// Handles a command from the host at local time `local_us` (`now_ms` in
    /// milliseconds): a time synchronization is applied and counted, the HMI
    /// state follows the command, and the radio action is returned.
    pub fn on_command(&mut self, cmd: UsbCommand, hmi: &mut HmiStateData, tb: &mut TimeBase, local_us: u64, now_ms: u64)
        -> (a: BridgeAction)
        requires
            now_ms <= u64::MAX - CAPTURE_FEEDBACK_MS,
        ensures
            *final(hmi) == hmi_after_command(*old(hmi), cmd, now_ms),
            a == (match cmd {
                UsbCommand::TimeSync { session_time_us } => BridgeAction::BroadcastTimeSync { session_time_us },
                UsbCommand::RequestFloatingGps => BridgeAction::BroadcastRequestGpsCapture,
                _ => BridgeAction::Nothing,
            }),
            cmd matches UsbCommand::TimeSync { session_time_us } ==> ({
                &&& final(tb).offset() == vstd::wrapping::u64_specs::wrapping_sub(session_time_us, local_us)
                &&& final(tb).synced()
                &&& final(tb).start_ms() == old(tb).start_ms()
                &&& final(self).timesyncs() == vstd::wrapping::u32_specs::wrapping_add(old(self).timesyncs(), 1)
            }),
            !(cmd is TimeSync) ==> *final(tb) == *old(tb) && final(self).timesyncs() == old(self).timesyncs(),
            final(self).nodes() == old(self).nodes(),
            final(self).instances() == old(self).instances(),
            final(self).remaining() == old(self).remaining(),
            final(self).floating_mac() == old(self).floating_mac(),
            final(self).forwarded() == old(self).forwarded(),
            final(self).error_count() == old(self).error_count(),
    {
        match cmd {
            UsbCommand::TimeSync { session_time_us } => {
                self.timesync_count = self.timesync_count.wrapping_add(1);
                tb.apply_sync(session_time_us, local_us);
                BridgeAction::BroadcastTimeSync { session_time_us }
            },
            UsbCommand::RequestFloatingGps => {
                hmi.capture_led_phase = CapturePhase::RequestSent;
                BridgeAction::BroadcastRequestGpsCapture
            },
            UsbCommand::ArmTrack => {
                hmi.track_armed = true;
                BridgeAction::Nothing
            },
            UsbCommand::EndTrack => {
                hmi.track_armed = false;
                BridgeAction::Nothing
            },
            UsbCommand::CaptureSuccess => {
                hmi.capture_led_phase = CapturePhase::Success;
                hmi.capture_phase_deadline_ms = Some(now_ms + CAPTURE_FEEDBACK_MS);
                BridgeAction::Nothing
            },
            UsbCommand::CaptureTimeout => {
                hmi.capture_led_phase = CapturePhase::Timeout;
                hmi.capture_phase_deadline_ms = Some(now_ms + CAPTURE_FEEDBACK_MS);
                BridgeAction::Nothing
            },
        }
    }

    /// The request for floating GPS went out: await five GPS messages from the
    /// first node that sends one.
    pub fn on_gps_request_sent(&mut self)
        ensures
            final(self).remaining() == FLOATING_GPS_SAMPLES,
            final(self).floating_mac() is None,
            final(self).nodes() == old(self).nodes(),
            final(self).instances() == old(self).instances(),
            final(self).forwarded() == old(self).forwarded(),
            final(self).error_count() == old(self).error_count(),
            final(self).timesyncs() == old(self).timesyncs(),
    {
        self.floating_gps_remaining = FLOATING_GPS_SAMPLES;
        self.floating_gps_mac = None;
    }

    /// GPS messages still awaited from the floating node.
    pub fn floating_gps_remaining(&self) -> (r: u8)
        ensures
            r == self.remaining(),
    {
        self.floating_gps_remaining
    }

    /// The floating node, once its first GPS message arrived.
    pub fn floating_gps_mac(&self) -> (r: Option<[u8; 6]>)
        ensures
            r == self.floating_mac(),
    {
        self.floating_gps_mac
    }

    /// Messages forwarded to the host so far.
    pub fn messages_forwarded(&self) -> (r: u32)
        ensures
            r == self.forwarded(),
    {
        self.messages_forwarded
    }

    /// Write errors so far.
    pub fn errors(&self) -> (r: u32)
        ensures
            r == self.error_count(),
    {
        self.errors
    }

    /// Time synchronizations received so far.
    pub fn timesync_count(&self) -> (r: u32)
        ensures
            r == self.timesyncs(),
    {
        self.timesync_count
    }
}

/// The forwarding of the first bridge task, which kept no node table: every
/// sensor message or heartbeat goes to the host under this build's default
/// node identifier and the sender's own timestamp; a control message is not
/// forwarded.
pub fn forward_with_default_id(msg: &SensorMessage) -> (r: Option<Vec<u8>>)
    ensures
        forwardable(msg.payload) ==> (r matches Some(v)
            && v@ == forwarded_bytes(msg.src_address@, NodeId::default_spec(), msg.timestamp_us, msg.payload)),
        !forwardable(msg.payload) ==> r is None,
{
    let node_id = NodeId::default();
    let mut buffer = vec![0u8; MAX_USB_MESSAGE_SIZE];
    let ghost f = forwarded_bytes(msg.src_address@, node_id, msg.timestamp_us, msg.payload);
    match serialize_forwarded_message(&msg.src_address, &node_id, msg.timestamp_us, &msg.payload, buffer.as_mut_slice()) {
        Ok(len) => {
            proof { lemma_forwarded_fits(msg.src_address@, node_id, msg.timestamp_us, msg.payload); }
            buffer.truncate(len);
            assert(buffer@ =~= f);
            Some(buffer)
        },
        Err(_) => None,
    }
}

/// A heartbeat fixes the position the bridge reports for its sender: after a
/// heartbeat from a MAC that the bridge knows or has room for, the MAC is
/// reported at the announced position.
pub proof fn law_heartbeat_sets_reported_position(
    nodes: Map<[u8; 6], (u8, u8)>,
    inst: Map<u8, u8>,
    mac: [u8; 6],
    position: CarPosition,
)
    requires
        nodes.dom().contains(mac) || nodes.len() < TABLE_CAPACITY,
    ensures
        reported_node_id(after_heartbeat(nodes, inst, mac, position_code(position)).0, mac).position == position,
{
    lemma_position_code_round_trip(position);
}

/// Instance numbers follow discovery order: two new nodes announcing the same
/// position get consecutive instances, starting from that position's counter.
pub proof fn law_instances_in_discovery_order(
    nodes: Map<[u8; 6], (u8, u8)>,
    inst: Map<u8, u8>,
    mac1: [u8; 6],
    mac2: [u8; 6],
    code: u8,
)
    requires
        nodes.dom().finite(),
        mac1 != mac2,
        !nodes.dom().contains(mac1),
        !nodes.dom().contains(mac2),
        nodes.len() + 2 <= TABLE_CAPACITY,
        inst.dom().contains(code) || inst.len() < TABLE_CAPACITY,
        next_instance_of(inst, code) < 255,
    ensures
        ({
            let first = after_heartbeat(nodes, inst, mac1, code);
            let second = after_heartbeat(first.0, first.1, mac2, code);
            &&& second.0[mac1] == (code, next_instance_of(inst, code))
            &&& second.0[mac2] == (code, (next_instance_of(inst, code) + 1) as u8)
        }),
{
    let n = next_instance_of(inst, code);
    let first = after_heartbeat(nodes, inst, mac1, code);
    assert(first.0 == nodes.insert(mac1, (code, n)));
    assert(first.1 == inst.insert(code, (n + 1) as u8));
    assert(next_instance_of(first.1, code) == n + 1);
    assert(first.0.len() == nodes.len() + 1);
}

/// A repeated heartbeat changes nothing: the tables after two identical
/// heartbeats are the tables after one.
pub proof fn law_repeated_heartbeat_is_stable(
    nodes: Map<[u8; 6], (u8, u8)>,
    inst: Map<u8, u8>,
    mac: [u8; 6],
    code: u8,
)
    ensures
        ({
            let once = after_heartbeat(nodes, inst, mac, code);
            after_heartbeat(once.0, once.1, mac, code) == once
        }),
{
}

/// A capture result from the host shows on the LED for exactly one second:
/// before its deadline the phase stays, from the deadline on it is idle again.
pub proof fn law_capture_feedback_lasts_one_second(hmi: HmiStateData, now_ms: u64, later_ms: u64, success: bool)
    requires
        now_ms <= u64::MAX - CAPTURE_FEEDBACK_MS,
    ensures
        ({
            let cmd = if success { UsbCommand::CaptureSuccess } else { UsbCommand::CaptureTimeout };
            let shown = hmi_after_command(hmi, cmd, now_ms);
            let phase = if success { CapturePhase::Success } else { CapturePhase::Timeout };
            &&& shown.capture_led_phase == phase
            &&& (later_ms < now_ms + CAPTURE_FEEDBACK_MS ==> after_expiry(shown, later_ms).capture_led_phase == phase)
            &&& (later_ms >= now_ms + CAPTURE_FEEDBACK_MS ==> after_expiry(shown, later_ms).capture_led_phase == CapturePhase::Idle)
        }),
{
}

/// While floating GPS samples are awaited and the floating node is known, only
/// its GPS messages are forwarded, and it stays the floating node.
pub proof fn law_floating_window_single_sender(remaining: u8, floating: [u8; 6], src: [u8; 6], is_gps: bool)
    requires
        remaining > 0,
    ensures
        forward_decision(remaining, Some(floating), src, is_gps) == (is_gps && src == floating, Some(floating)),
{
}

} // verus!
