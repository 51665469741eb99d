//! GPS receiver support: configuration commands (NMEA `$PUBX` and UBX
//! frames), the assembly of NMEA sentences from UART chunks, and the cache of
//! the latest fix values from which GPS samples are built.

use vstd::prelude::*;
use vstd::bytes::spec_u16_to_le_bytes;
use crate::board::types::{GpsData, GpsTime};
use crate::board::hmi::HmiStateData;

verus! {

/// Longest NMEA 0183 sentence, in bytes.
pub const NMEA_0183_MAX_LENGTH: usize = 83;

/// Capacity of a formatted `$PUBX` command.
pub const NMEA_COMMAND_CAPACITY: usize = 128;

/// The XOR of all bytes: the NMEA checksum.
pub open spec fn xor_all(s: Seq<u8>) -> u8
    decreases s.len(),
{
    if s.len() == 0 {
        0
    } else {
        xor_all(s.drop_last()) ^ s.last()
    }
}

/// The NMEA checksum of `data`: the XOR of all its bytes.
pub fn calculate_nmea_checksum(data: &[u8]) -> (c: u8)
    ensures
        c == xor_all(data@),
{
    let mut checksum: u8 = 0;
    let mut i: usize = 0;
    while i < data.len()
        invariant
            i <= data@.len(),
            checksum == xor_all(data@.take(i as int)),
        decreases data@.len() - i,
    {
        assert(data@.take(i as int + 1).drop_last() =~= data@.take(i as int));
        checksum = checksum ^ data[i];
        i += 1;
    }
    assert(data@.take(data@.len() as int) =~= data@);
    checksum
}

/// The ASCII uppercase hexadecimal digit of a value below 16.
pub open spec fn hex_ascii(n: int) -> u8 {
    if n < 10 { (48 + n) as u8 } else { (55 + n) as u8 }
}

fn hex_ascii_of(n: u8) -> (c: u8)
    requires
        n < 16,
    ensures
        c == hex_ascii(n as int),
{
    if n < 10 { 48 + n } else { 55 + n }
}

/// A configuration command as sent to the receiver: `$`, the payload, `*`,
/// the checksum as two uppercase hexadecimal digits, CR LF.
pub open spec fn nmea_command_bytes(payload: Seq<u8>) -> Seq<u8> {
    let cs = xor_all(payload);
    seq![36u8] + payload + seq![42u8, hex_ascii(cs as int / 16), hex_ascii(cs as int % 16), 13u8, 10u8]
}

/// Formats the command for `payload` (the text between `$` and `*`); `None`
/// when it does not fit the 128-byte command buffer, in which case nothing is
/// sent.
pub fn nmea_command(payload: &[u8]) -> (r: Option<Vec<u8>>)
    ensures
        payload@.len() + 6 <= NMEA_COMMAND_CAPACITY ==> (r matches Some(v) && v@ == nmea_command_bytes(payload@)),
        payload@.len() + 6 > NMEA_COMMAND_CAPACITY ==> r is None,
{
    if payload.len() > NMEA_COMMAND_CAPACITY - 6 {
        return None;
    }
    let checksum = calculate_nmea_checksum(payload);
    let mut out: Vec<u8> = Vec::new();
    out.push(36u8);
    let mut i: usize = 0;
    while i < payload.len()
        invariant
            i <= payload@.len(),
            out@ == seq![36u8] + payload@.take(i as int),
        decreases payload@.len() - i,
    {
        out.push(payload[i]);
        assert(out@ =~= seq![36u8] + payload@.take(i as int + 1));
        i += 1;
    }
    assert(payload@.take(payload@.len() as int) =~= payload@);
    out.push(42u8);
    out.push(hex_ascii_of(checksum / 16));
    out.push(hex_ascii_of(checksum % 16));
    out.push(13u8);
    out.push(10u8);
    assert(out@ =~= nmea_command_bytes(payload@));
    Some(out)
}

/// `PUBX,40,` followed by a three-letter sentence name and `,0,0,0,0,0,0`:
/// the payload that sets the output rate of that sentence to zero on all ports.
pub open spec fn pubx_disable_payload(name: Seq<u8>) -> Seq<u8> {
    seq![80u8, 85u8, 66u8, 88u8, 44u8, 52u8, 48u8, 44u8] + name
        + seq![44u8, 48u8, 44u8, 48u8, 44u8, 48u8, 44u8, 48u8, 44u8, 48u8, 44u8, 48u8]
}

fn pubx_disable(name: [u8; 3]) -> (v: Vec<u8>)
    ensures
        v@ == pubx_disable_payload(name@),
{
    let v: Vec<u8> = vec![80u8, 85u8, 66u8, 88u8, 44u8, 52u8, 48u8, 44u8, name[0], name[1], name[2],
        44u8, 48u8, 44u8, 48u8, 44u8, 48u8, 44u8, 48u8, 44u8, 48u8, 44u8, 48u8];
    assert(v@ =~= pubx_disable_payload(name@));
    v
}

/// The NMEA names of the sentences the receiver is told to stop sending.
pub open spec fn disabled_sentence(i: int) -> Seq<u8> {
    if i == 0 {
        seq![71u8, 83u8, 65u8]
    } else if i == 1 {
        seq![71u8, 83u8, 86u8]
    } else {
        seq![71u8, 76u8, 76u8]
    }
}

/// The commands sent when the receiver is configured: disable GSA, GSV and
/// GLL output.
pub fn init_gps_commands() -> (cmds: Vec<Vec<u8>>)
    ensures
        cmds@.len() == 3,
        forall|i: int| 0 <= i < 3 ==> #[trigger] cmds@[i]@ == nmea_command_bytes(pubx_disable_payload(disabled_sentence(i))),
{
    let names: [[u8; 3]; 3] = [[71u8, 83u8, 65u8], [71u8, 83u8, 86u8], [71u8, 76u8, 76u8]];
    let mut cmds: Vec<Vec<u8>> = Vec::new();
    let mut i: usize = 0;
    while i < 3
        invariant
            i <= 3,
            names@[0]@ == disabled_sentence(0),
            names@[1]@ == disabled_sentence(1),
            names@[2]@ == disabled_sentence(2),
            cmds@.len() == i,
            forall|j: int| 0 <= j < i ==> #[trigger] cmds@[j]@ == nmea_command_bytes(pubx_disable_payload(disabled_sentence(j))),
        decreases 3 - i,
    {
        let payload = pubx_disable(names[i]);
        match nmea_command(payload.as_slice()) {
            Some(cmd) => cmds.push(cmd),
            None => {},
        }
        i += 1;
    }
    cmds
}

/// First UBX sync character.
pub const UBX_SYNC_1: u8 = 0xB5;

/// Second UBX sync character.
pub const UBX_SYNC_2: u8 = 0x62;

/// Capacity of the buffer holding the checksummed part of a UBX packet.
pub const UBX_BODY_CAPACITY: usize = 128;

/// The Fletcher-8 checksum `(CK_A, CK_B)` of UBX over `s`.
pub open spec fn fletcher8(s: Seq<u8>) -> (u8, u8)
    decreases s.len(),
{
    if s.len() == 0 {
        (0, 0)
    } else {
        let prev = fletcher8(s.drop_last());
        let a = vstd::wrapping::u8_specs::wrapping_add(prev.0, s.last());
        (a, vstd::wrapping::u8_specs::wrapping_add(prev.1, a))
    }
}

/// The checksummed part of a UBX packet: class, id, the payload length (16
/// bits, little-endian) and the payload, which is left out when it does not
/// fit the 128-byte buffer.
pub open spec fn ubx_body(class: u8, id: u8, payload: Seq<u8>) -> Seq<u8> {
    seq![class, id] + spec_u16_to_le_bytes(payload.len() as u16)
        + (if 4 + payload.len() <= UBX_BODY_CAPACITY { payload } else { Seq::empty() })
}

/// A UBX packet: the two sync characters, the body and its checksum.
pub open spec fn ubx_packet_bytes(class: u8, id: u8, payload: Seq<u8>) -> Seq<u8> {
    let body = ubx_body(class, id, payload);
    let ck = fletcher8(body);
    seq![UBX_SYNC_1, UBX_SYNC_2] + body + seq![ck.0, ck.1]
}

/// The checksummed part of a UBX packet, in a `heapless::Vec` of 128 bytes.
#[verifier::external_body]
pub struct UbxBodyBuffer {
    v: heapless::Vec<u8, 128>,
}

/// What a UBX body buffer holds.
pub uninterp spec fn ubx_body_contents(b: UbxBodyBuffer) -> Seq<u8>;

/// `heapless::Vec::new`: an empty vector.
#[verifier::external_body]
fn ubx_body_new() -> (r: UbxBodyBuffer)
    ensures
        ubx_body_contents(r) == Seq::<u8>::empty(),
{
    UbxBodyBuffer { v: heapless::Vec::new() }
}

/// `heapless::Vec::push`: appends while fewer than 128 bytes are held;
/// otherwise the vector is unchanged and the byte comes back.
#[verifier::external_body]
fn ubx_body_push(b: &mut UbxBodyBuffer, x: u8) -> (r: Result<(), u8>)
    ensures
        ubx_body_contents(*old(b)).len() < 128 ==> (r is Ok && ubx_body_contents(*final(b)) == ubx_body_contents(*old(b)).push(x)),
        ubx_body_contents(*old(b)).len() >= 128 ==> (r matches Err(e) && e == x && ubx_body_contents(*final(b)) == ubx_body_contents(*old(b))),
        ubx_body_contents(*final(b)).len() <= 128,
{
    b.v.push(x)
}

/// `heapless::Vec::extend_from_slice`: appends all of `s` if it fits in the
/// 128 bytes, otherwise changes nothing; `true` when it appended.
#[verifier::external_body]
fn ubx_body_extend(b: &mut UbxBodyBuffer, s: &[u8]) -> (r: bool)
    ensures
        ubx_body_contents(*old(b)).len() + s@.len() <= 128 ==> (r && ubx_body_contents(*final(b)) == ubx_body_contents(*old(b)) + s@),
        ubx_body_contents(*old(b)).len() + s@.len() > 128 ==> (!r && ubx_body_contents(*final(b)) == ubx_body_contents(*old(b))),
        ubx_body_contents(*final(b)).len() <= 128,
{
    b.v.extend_from_slice(s).is_ok()
}

/// `heapless::Vec::as_slice`, copied out.
#[verifier::external_body]
fn ubx_body_bytes(b: &UbxBodyBuffer) -> (r: Vec<u8>)
    ensures
        r@ == ubx_body_contents(*b),
{
    b.v.as_slice().to_vec()
}

/// A whole UBX packet, in a `heapless::Vec` of 134 bytes.
#[verifier::external_body]
pub struct UbxFrameBuffer {
    v: heapless::Vec<u8, 134>,
}

/// What a UBX frame buffer holds.
pub uninterp spec fn ubx_frame_contents(b: UbxFrameBuffer) -> Seq<u8>;

/// `heapless::Vec::new`: an empty vector.
#[verifier::external_body]
fn ubx_frame_new() -> (r: UbxFrameBuffer)
    ensures
        ubx_frame_contents(r) == Seq::<u8>::empty(),
{
    UbxFrameBuffer { v: heapless::Vec::new() }
}

/// `heapless::Vec::push`: appends while fewer than 134 bytes are held;
/// otherwise the vector is unchanged and the byte comes back.
#[verifier::external_body]
fn ubx_frame_push(b: &mut UbxFrameBuffer, x: u8) -> (r: Result<(), u8>)
    ensures
        ubx_frame_contents(*old(b)).len() < 134 ==> (r is Ok && ubx_frame_contents(*final(b)) == ubx_frame_contents(*old(b)).push(x)),
        ubx_frame_contents(*old(b)).len() >= 134 ==> (r matches Err(e) && e == x && ubx_frame_contents(*final(b)) == ubx_frame_contents(*old(b))),
        ubx_frame_contents(*final(b)).len() <= 134,
{
    b.v.push(x)
}

/// `heapless::Vec::extend_from_slice`: appends all of `s` if it fits in the
/// 134 bytes, otherwise changes nothing; `true` when it appended.
#[verifier::external_body]
fn ubx_frame_extend(b: &mut UbxFrameBuffer, s: &[u8]) -> (r: bool)
    ensures
        ubx_frame_contents(*old(b)).len() + s@.len() <= 134 ==> (r && ubx_frame_contents(*final(b)) == ubx_frame_contents(*old(b)) + s@),
        ubx_frame_contents(*old(b)).len() + s@.len() > 134 ==> (!r && ubx_frame_contents(*final(b)) == ubx_frame_contents(*old(b))),
        ubx_frame_contents(*final(b)).len() <= 134,
{
    b.v.extend_from_slice(s).is_ok()
}

/// `heapless::Vec::as_slice`, copied out.
#[verifier::external_body]
fn ubx_frame_bytes(b: &UbxFrameBuffer) -> (r: Vec<u8>)
    ensures
        r@ == ubx_frame_contents(*b),
{
    b.v.as_slice().to_vec()
}

/// Builds the UBX packet of class `class`, id `id` and `payload`, as written
/// to the receiver.
pub fn ubx_packet(class: u8, id: u8, payload: &[u8]) -> (r: Vec<u8>)
    ensures
        r@ == ubx_packet_bytes(class, id, payload@),
{
    let len = payload.len() as u16;
    let len_bytes = vstd::bytes::u16_to_le_bytes(len);
    let mut body = ubx_body_new();
    let _ = ubx_body_push(&mut body, class);
    let _ = ubx_body_push(&mut body, id);
    let _ = ubx_body_extend(&mut body, len_bytes.as_slice());
    let _ = ubx_body_extend(&mut body, payload);
    let body_bytes = ubx_body_bytes(&body);
    assert(body_bytes@ =~= ubx_body(class, id, payload@));

    let mut ck_a: u8 = 0;
    let mut ck_b: u8 = 0;
    let mut i: usize = 0;
    while i < body_bytes.len()
        invariant
            i <= body_bytes@.len(),
            (ck_a, ck_b) == fletcher8(body_bytes@.take(i as int)),
        decreases body_bytes@.len() - i,
    {
        assert(body_bytes@.take(i as int + 1).drop_last() =~= body_bytes@.take(i as int));
        ck_a = ck_a.wrapping_add(body_bytes[i]);
        ck_b = ck_b.wrapping_add(ck_a);
        i += 1;
    }
    assert(body_bytes@.take(body_bytes@.len() as int) =~= body_bytes@);

    let mut frame = ubx_frame_new();
    let _ = ubx_frame_push(&mut frame, UBX_SYNC_1);
    let _ = ubx_frame_push(&mut frame, UBX_SYNC_2);
    let _ = ubx_frame_extend(&mut frame, body_bytes.as_slice());
    let _ = ubx_frame_push(&mut frame, ck_a);
    let _ = ubx_frame_push(&mut frame, ck_b);
    let out = ubx_frame_bytes(&frame);
    assert(out@ =~= ubx_packet_bytes(class, id, payload@));
    out
}

/// UBX-CFG-VALSET payload setting CFG-RATE-MEAS to 100 ms (10 Hz), kept in
/// RAM, battery-backed RAM and flash.
pub open spec fn cfg_rate_10hz_payload() -> Seq<u8> {
    seq![0x00u8, 0x07u8, 0x00u8, 0x00u8, 0x01u8, 0x00u8, 0x21u8, 0x30u8, 0x64u8, 0x00u8]
}

/// UBX-CFG-VALSET payload setting CFG-UART1-BAUDRATE to 460800, kept in RAM,
/// battery-backed RAM and flash.
pub open spec fn cfg_baud_460800_payload() -> Seq<u8> {
    seq![0x00u8, 0x07u8, 0x00u8, 0x00u8, 0x01u8, 0x00u8, 0x52u8, 0x40u8, 0x00u8, 0x08u8, 0x07u8, 0x00u8]
}

/// UBX class of configuration messages.
pub const UBX_CLASS_CFG: u8 = 0x06;

/// UBX id of CFG-VALSET.
pub const UBX_ID_VALSET: u8 = 0x8A;

/// The packet that sets the receiver to 10 measurements per second.
pub fn cfg_rate_10hz_packet() -> (r: Vec<u8>)
    ensures
        r@ == ubx_packet_bytes(UBX_CLASS_CFG, UBX_ID_VALSET, cfg_rate_10hz_payload()),
{
    let payload: [u8; 10] = [0x00, 0x07, 0x00, 0x00, 0x01, 0x00, 0x21, 0x30, 0x64, 0x00];
    assert(payload@ =~= cfg_rate_10hz_payload());
    ubx_packet(UBX_CLASS_CFG, UBX_ID_VALSET, payload.as_slice())
}

/// The packet that sets the receiver's UART1 to 460800 baud.
pub fn cfg_baud_460800_packet() -> (r: Vec<u8>)
    ensures
        r@ == ubx_packet_bytes(UBX_CLASS_CFG, UBX_ID_VALSET, cfg_baud_460800_payload()),
{
    let payload: [u8; 12] = [0x00, 0x07, 0x00, 0x00, 0x01, 0x00, 0x52, 0x40, 0x00, 0x08, 0x07, 0x00];
    assert(payload@ =~= cfg_baud_460800_payload());
    ubx_packet(UBX_CLASS_CFG, UBX_ID_VALSET, payload.as_slice())
}

/// Bytes read from the UART per chunk: room for six sentences of 85 bytes.
pub const CHUNK_BUFF_SIZE: usize = 510;

/// Capacity of the buffer of not yet processed text: two chunks.
pub const UNPROCESSED_BUFF_SIZE: usize = 1020;

/// An ASCII whitespace byte: space, tab, line feed, vertical tab, form feed,
/// carriage return.
pub open spec fn is_space(b: u8) -> bool {
    b == 32 || (9 <= b && b <= 13)
}

/// Whether three bytes are the UTF-8 encoding of a three-byte Unicode
/// whitespace character: U+1680, U+2000 to U+200A, U+2028, U+2029, U+202F,
/// U+205F, U+3000.
pub open spec fn is_space3(x: u8, y: u8, z: u8) -> bool {
    ||| (x == 0xE1 && y == 0x9A && z == 0x80)
    ||| (x == 0xE2 && y == 0x80 && ((0x80 <= z && z <= 0x8A) || z == 0xA8 || z == 0xA9 || z == 0xAF))
    ||| (x == 0xE2 && y == 0x81 && z == 0x9F)
    ||| (x == 0xE3 && y == 0x80 && z == 0x80)
}

/// The length of the Unicode whitespace character (White_Space, as
/// `char::is_whitespace` has it) encoded at the start of UTF-8 text, or 0
/// when the text does not start with one. U+0085 and U+00A0 take two bytes.
pub open spec fn space_len_at_start(s: Seq<u8>) -> int {
    if s.len() >= 1 && is_space(s[0]) {
        1
    } else if s.len() >= 2 && s[0] == 0xC2 && (s[1] == 0x85 || s[1] == 0xA0) {
        2
    } else if s.len() >= 3 && is_space3(s[0], s[1], s[2]) {
        3
    } else {
        0
    }
}

/// The length of the Unicode whitespace character encoded at the end of
/// UTF-8 text, or 0 when the text does not end with one.
pub open spec fn space_len_at_end(s: Seq<u8>) -> int {
    let n = s.len() as int;
    if n >= 1 && is_space(s[n - 1]) {
        1
    } else if n >= 2 && s[n - 2] == 0xC2 && (s[n - 1] == 0x85 || s[n - 1] == 0xA0) {
        2
    } else if n >= 3 && is_space3(s[n - 3], s[n - 2], s[n - 1]) {
        3
    } else {
        0
    }
}

/// `s` without its leading whitespace.
pub open spec fn trim_start(s: Seq<u8>) -> Seq<u8>
    decreases s.len(),
{
    if space_len_at_start(s) > 0 {
        trim_start(s.skip(space_len_at_start(s)))
    } else {
        s
    }
}

/// `s` without its trailing whitespace.
pub open spec fn trim_end(s: Seq<u8>) -> Seq<u8>
    decreases s.len(),
{
    if space_len_at_end(s) > 0 {
        trim_end(s.take(s.len() - space_len_at_end(s)))
    } else {
        s
    }
}

/// `s` without leading and trailing whitespace (`str::trim` on UTF-8 text).
pub open spec fn trimmed(s: Seq<u8>) -> Seq<u8> {
    trim_end(trim_start(s))
}

/// Whether a trimmed line has the length of an NMEA sentence: 5 to 83 bytes.
pub open spec fn sentence_length_ok(s: Seq<u8>) -> bool {
    5 <= s.len() <= NMEA_0183_MAX_LENGTH
}

/// Splits text at line feeds: the trimmed complete lines of NMEA sentence
/// length, in order, and the unfinished last line.
pub open spec fn scan_sentences(s: Seq<u8>) -> (Seq<Seq<u8>>, Seq<u8>)
    decreases s.len(),
{
    if s.len() == 0 {
        (Seq::empty(), Seq::empty())
    } else {
        let prev = scan_sentences(s.drop_last());
        if s.last() == 10 {
            let t = trimmed(prev.1);
            (if sentence_length_ok(t) { prev.0.push(t) } else { prev.0 }, Seq::empty())
        } else {
            (prev.0, prev.1.push(s.last()))
        }
    }
}

/// The views of a sequence of byte vectors.
pub open spec fn byte_views(vs: Seq<Vec<u8>>) -> Seq<Seq<u8>> {
    vs.map_values(|v: Vec<u8>| v@)
}

/// `core::str::from_utf8(bytes).is_ok()`: whether the bytes are valid UTF-8.
#[verifier::external_body]
fn is_utf8(bytes: &[u8]) -> (r: bool)
    ensures
        r == vstd::utf8::valid_utf8(bytes@),
{
    core::str::from_utf8(bytes).is_ok()
}

/// Text received from the GPS and not yet processed, in a `heapless` vector of
/// 1020 bytes (the bytes of a `heapless::String` of that capacity).
#[verifier::external_body]
pub struct NmeaTextBuffer {
    v: heapless::Vec<u8, 1020>,
}

/// What an NMEA text buffer holds.
pub uninterp spec fn nmea_text_contents(b: NmeaTextBuffer) -> Seq<u8>;

/// `heapless::Vec::new`: an empty vector.
#[verifier::external_body]
fn nmea_text_new() -> (r: NmeaTextBuffer)
    ensures
        nmea_text_contents(r) == Seq::<u8>::empty(),
{
    NmeaTextBuffer { v: heapless::Vec::new() }
}

/// `heapless::Vec::extend_from_slice` (what `String::push_str` does with the
/// bytes of its argument): appends all of `s` if it fits in the 1020 bytes,
/// otherwise changes nothing; `true` when it appended.
#[verifier::external_body]
fn nmea_text_extend(b: &mut NmeaTextBuffer, s: &[u8]) -> (r: bool)
    ensures
        nmea_text_contents(*old(b)).len() + s@.len() <= 1020 ==> (r && nmea_text_contents(*final(b)) == nmea_text_contents(*old(b)) + s@),
        nmea_text_contents(*old(b)).len() + s@.len() > 1020 ==> (!r && nmea_text_contents(*final(b)) == nmea_text_contents(*old(b))),
        nmea_text_contents(*final(b)).len() <= 1020,
{
    b.v.extend_from_slice(s).is_ok()
}

/// `heapless::Vec::clear`: the vector becomes empty.
#[verifier::external_body]
fn nmea_text_clear(b: &mut NmeaTextBuffer)
    ensures
        nmea_text_contents(*final(b)) == Seq::<u8>::empty(),
{
    b.v.clear()
}

/// `heapless::Vec::as_slice`, copied out.
#[verifier::external_body]
fn nmea_text_bytes(b: &NmeaTextBuffer) -> (r: Vec<u8>)
    ensures
        r@ == nmea_text_contents(*b),
{
    b.v.as_slice().to_vec()
}

/// The length of the whitespace character encoded at `s[a..b]`'s start.
fn space_at_start(s: &[u8], a: usize, b: usize) -> (k: usize)
    requires
        a <= b <= s@.len(),
    ensures
        k == space_len_at_start(s@.subrange(a as int, b as int)),
{
    let ghost t = s@.subrange(a as int, b as int);
    let n = b - a;
    if n >= 1 && (s[a] == 32 || (9 <= s[a] && s[a] <= 13)) {
        assert(t[0] == s@[a as int]);
        1
    } else if n >= 2 && s[a] == 0xC2 && (s[a + 1] == 0x85 || s[a + 1] == 0xA0) {
        assert(t[0] == s@[a as int] && t[1] == s@[a + 1]);
        2
    } else if n >= 3 && ((s[a] == 0xE1 && s[a + 1] == 0x9A && s[a + 2] == 0x80)
        || (s[a] == 0xE2 && s[a + 1] == 0x80 && ((0x80 <= s[a + 2] && s[a + 2] <= 0x8A) || s[a + 2] == 0xA8
            || s[a + 2] == 0xA9 || s[a + 2] == 0xAF))
        || (s[a] == 0xE2 && s[a + 1] == 0x81 && s[a + 2] == 0x9F)
        || (s[a] == 0xE3 && s[a + 1] == 0x80 && s[a + 2] == 0x80)) {
        assert(t[0] == s@[a as int] && t[1] == s@[a + 1] && t[2] == s@[a + 2]);
        3
    } else {
        assert(n >= 1 ==> t[0] == s@[a as int]);
        assert(n >= 2 ==> t[1] == s@[a + 1]);
        assert(n >= 3 ==> t[2] == s@[a + 2]);
        0
    }
}

/// The length of the whitespace character encoded at `s[a..b]`'s end.
fn space_at_end(s: &[u8], a: usize, b: usize) -> (k: usize)
    requires
        a <= b <= s@.len(),
    ensures
        k == space_len_at_end(s@.subrange(a as int, b as int)),
{
    let ghost t = s@.subrange(a as int, b as int);
    let n = b - a;
    if n >= 1 && (s[b - 1] == 32 || (9 <= s[b - 1] && s[b - 1] <= 13)) {
        assert(t[n - 1] == s@[b - 1]);
        1
    } else if n >= 2 && s[b - 2] == 0xC2 && (s[b - 1] == 0x85 || s[b - 1] == 0xA0) {
        assert(t[n - 1] == s@[b - 1] && t[n - 2] == s@[b - 2]);
        2
    } else if n >= 3 && ((s[b - 3] == 0xE1 && s[b - 2] == 0x9A && s[b - 1] == 0x80)
        || (s[b - 3] == 0xE2 && s[b - 2] == 0x80 && ((0x80 <= s[b - 1] && s[b - 1] <= 0x8A) || s[b - 1] == 0xA8
            || s[b - 1] == 0xA9 || s[b - 1] == 0xAF))
        || (s[b - 3] == 0xE2 && s[b - 2] == 0x81 && s[b - 1] == 0x9F)
        || (s[b - 3] == 0xE3 && s[b - 2] == 0x80 && s[b - 1] == 0x80)) {
        assert(t[n - 1] == s@[b - 1] && t[n - 2] == s@[b - 2] && t[n - 3] == s@[b - 3]);
        3
    } else {
        assert(n >= 1 ==> t[n - 1] == s@[b - 1]);
        assert(n >= 2 ==> t[n - 2] == s@[b - 2]);
        assert(n >= 3 ==> t[n - 3] == s@[b - 3]);
        0
    }
}

/// Removes leading and trailing whitespace, Unicode whitespace included.
pub fn trim_bytes(s: &[u8]) -> (r: Vec<u8>)
    ensures
        r@ == trimmed(s@),
{
    let n = s.len();
    let mut a: usize = 0;
    assert(s@.subrange(0, n as int) =~= s@);
    loop
        invariant
            n == s@.len(),
            a <= n,
            trim_start(s@) == trim_start(s@.subrange(a as int, n as int)),
        ensures
            a <= n,
            trim_start(s@) == s@.subrange(a as int, n as int),
        decreases n - a,
    {
        let k = space_at_start(s, a, n);
        if k == 0 {
            break;
        }
        assert(s@.subrange(a as int, n as int).skip(k as int) =~= s@.subrange(a + k, n as int));
        a = a + k;
    }
    let ghost st = s@.subrange(a as int, n as int);
    let mut b: usize = n;
    loop
        invariant
            n == s@.len(),
            a <= b <= n,
            st == s@.subrange(a as int, n as int),
            trim_end(st) == trim_end(s@.subrange(a as int, b as int)),
        ensures
            a <= b <= n,
            trim_end(st) == s@.subrange(a as int, b as int),
        decreases b - a,
    {
        let k = space_at_end(s, a, b);
        if k == 0 {
            break;
        }
        assert(s@.subrange(a as int, b as int).take((b - a) - k) =~= s@.subrange(a as int, b - k));
        b = b - k;
    }
    let mut out: Vec<u8> = Vec::new();
    let mut i: usize = a;
    while i < b
        invariant
            a <= i <= b <= s@.len(),
            out@ == s@.subrange(a as int, i as int),
        decreases b - i,
    {
        out.push(s[i]);
        assert(out@ =~= s@.subrange(a as int, i as int + 1));
        i += 1;
    }
    out
}

/// Assembles NMEA sentences from the chunks read from the GPS UART.
pub struct NmeaAssembler {
    text: NmeaTextBuffer,
}

impl NmeaAssembler {
    /// The unfinished text kept for the next chunk.
    pub closed spec fn pending(&self) -> Seq<u8> {
        nmea_text_contents(self.text)
    }

    /// An assembler with no pending text.
    pub fn new() -> (a: NmeaAssembler)
        ensures
            a.pending() == Seq::<u8>::empty(),
    {
        NmeaAssembler { text: nmea_text_new() }
    }

    /// Takes a chunk: a chunk that is not valid UTF-8 counts as empty; one that
    /// would overflow the 1020-byte buffer is dropped (the flag is then
    /// `false`). Returns the complete sentences of valid length, trimmed, and
    /// keeps the unfinished last line.
    pub fn push_chunk(&mut self, chunk: &[u8]) -> (r: (Vec<Vec<u8>>, bool))
        ensures
            ({
                let c = if vstd::utf8::valid_utf8(chunk@) { chunk@ } else { Seq::<u8>::empty() };
                let fits = old(self).pending().len() + c.len() <= UNPROCESSED_BUFF_SIZE;
                let data = if fits { old(self).pending() + c } else { old(self).pending() };
                &&& r.1 == fits
                &&& byte_views(r.0@) == scan_sentences(data).0
                &&& final(self).pending() == scan_sentences(data).1
            }),
    {
        let empty: Vec<u8> = Vec::new();
        let pushed = if is_utf8(chunk) {
            nmea_text_extend(&mut self.text, chunk)
        } else {
            nmea_text_extend(&mut self.text, empty.as_slice())
        };
        let data = nmea_text_bytes(&self.text);
        let mut sentences: Vec<Vec<u8>> = Vec::new();
        let mut cur: Vec<u8> = Vec::new();
        let mut i: usize = 0;
        while i < data.len()
            invariant
                i <= data@.len(),
                data@.len() <= UNPROCESSED_BUFF_SIZE,
                cur@.len() <= i,
                (byte_views(sentences@), cur@) == scan_sentences(data@.take(i as int)),
            decreases data@.len() - i,
        {
            assert(data@.take(i as int + 1).drop_last() =~= data@.take(i as int));
            let b = data[i];
            if b == 10 {
                let t = trim_bytes(cur.as_slice());
                if 5 <= t.len() && t.len() <= NMEA_0183_MAX_LENGTH {
                    let ghost before = sentences@;
                    sentences.push(t);
                    assert(byte_views(sentences@) =~= byte_views(before).push(t@));
                }
                cur = Vec::new();
            } else {
                cur.push(b);
            }
            i += 1;
        }
        assert(data@.take(data@.len() as int) =~= data@);
        nmea_text_clear(&mut self.text);
        let _ = nmea_text_extend(&mut self.text, cur.as_slice());
        (sentences, pushed)
    }
}

/// The GPS sample built from the latest values, once a position is known:
/// missing altitude, speed and heading read as zero, a missing time as the
/// all-zero time.
pub open spec fn sample_of(
    lat: Option<u64>,
    lon: Option<u64>,
    alt: Option<u32>,
    speed_kts: Option<u32>,
    heading: Option<u16>,
    time: Option<GpsTime>,
) -> Option<GpsData> {
    match (lat, lon) {
        (Some(la), Some(lo)) => Some(GpsData {
            lat_bits: la,
            lon_bits: lo,
            alt_bits: match alt { Some(a) => a, None => 0 },
            speed_kts_bits: match speed_kts { Some(v) => v, None => 0 },
            heading: match heading { Some(h) => h, None => 0 },
            utc_time: match time {
                Some(t) => t,
                None => GpsTime { year: 0, month: 0, day: 0, hours: 0, minutes: 0, seconds: 0, millis: 0 },
            },
        }),
        _ => None,
    }
}

/// Builds the GPS sample to hand on, if latitude and longitude are known
/// (floats as their bit patterns: 0 is 0.0).
pub fn try_send_gps_data(
    lat: Option<u64>,
    lon: Option<u64>,
    alt: Option<u32>,
    speed_kts: Option<u32>,
    heading: Option<u16>,
    time: Option<GpsTime>,
) -> (r: Option<GpsData>)
    ensures
        r == sample_of(lat, lon, alt, speed_kts, heading, time),
{
    match (lat, lon) {
        (Some(la), Some(lo)) => Some(GpsData {
            lat_bits: la,
            lon_bits: lo,
            alt_bits: match alt { Some(a) => a, None => 0 },
            speed_kts_bits: match speed_kts { Some(v) => v, None => 0 },
            heading: match heading { Some(h) => h, None => 0 },
            utc_time: match time {
                Some(t) => t,
                None => GpsTime::zero(),
            },
        }),
        _ => None,
    }
}

/// A value replaced by a new reading when there is one.
pub open spec fn updated<T>(old: Option<T>, new: Option<T>) -> Option<T> {
    match new {
        Some(v) => Some(v),
        None => old,
    }
}

/// A reading that a sentence carries replaces the cached one, whatever was
/// cached before; a field the sentence leaves out keeps its cached value.
pub proof fn law_new_reading_replaces_cached<T>(old: Option<T>, v: T, new: Option<T>)
    ensures
        updated(old, Some(v)) == Some(v),
        updated(old, None::<T>) == old,
        new is Some ==> updated(old, new) == new,
        updated(updated(old, new), Some(v)) == Some(v),
{
}

fn update<T: Copy>(old: Option<T>, new: Option<T>) -> (r: Option<T>)
    ensures
        r == updated(old, new),
{
    match new {
        Some(v) => Some(v),
        None => old,
    }
}

/// The latest values read from the GPS sentences (floats as bit patterns).
#[derive(Debug, Clone, Copy, PartialEq, Eq, Structural)]
pub struct GpsFixCache {
    pub last_lat: Option<u64>,
    pub last_lon: Option<u64>,
    pub last_alt: Option<u32>,
    pub last_speed_kts: Option<u32>,
    pub last_heading: Option<u16>,
    pub last_time: Option<GpsTime>,
}

impl GpsFixCache {
    /// Nothing read yet.
    pub fn new() -> (c: GpsFixCache)
        ensures
            c == (GpsFixCache {
                last_lat: None,
                last_lon: None,
                last_alt: None,
                last_speed_kts: None,
                last_heading: None,
                last_time: None,
            }),
    {
        GpsFixCache {
            last_lat: None,
            last_lon: None,
            last_alt: None,
            last_speed_kts: None,
            last_heading: None,
            last_time: None,
        }
    }

    /// The sample the cache yields now.
    pub open spec fn sample(&self) -> Option<GpsData> {
        sample_of(self.last_lat, self.last_lon, self.last_alt, self.last_speed_kts, self.last_heading, self.last_time)
    }

    /// A GGA sentence was parsed at `now_ms`: its position and altitude update
    /// the cache, the sample built from it is returned, and the HMI records the
    /// time and whether the sentence carried a fix (latitude and longitude).
    pub fn on_gga(
        &mut self,
        lat: Option<u64>,
        lon: Option<u64>,
        alt: Option<u32>,
        hmi: &mut HmiStateData,
        now_ms: u64,
    ) -> (r: Option<GpsData>)
        ensures
            *final(self) == (GpsFixCache {
                last_lat: updated(old(self).last_lat, lat),
                last_lon: updated(old(self).last_lon, lon),
                last_alt: updated(old(self).last_alt, alt),
                ..*old(self)
            }),
            r == final(self).sample(),
            *final(hmi) == (HmiStateData { last_gps_ms: Some(now_ms), gps_fix: lat is Some && lon is Some, ..*old(hmi) }),
            lat is Some ==> final(self).last_lat == lat,
            lon is Some ==> final(self).last_lon == lon,
            alt is Some ==> final(self).last_alt == alt,
            lat is None ==> final(self).last_lat == old(self).last_lat,
            lon is None ==> final(self).last_lon == old(self).last_lon,
            alt is None ==> final(self).last_alt == old(self).last_alt,
            lat matches Some(la) ==> (lon matches Some(lo) ==> (r matches Some(d) && d.lat_bits == la && d.lon_bits == lo
                && (alt matches Some(a) ==> d.alt_bits == a))),
    {
        self.last_lat = update(self.last_lat, lat);
        self.last_lon = update(self.last_lon, lon);
        self.last_alt = update(self.last_alt, alt);
        let r = try_send_gps_data(self.last_lat, self.last_lon, self.last_alt, self.last_speed_kts, self.last_heading, self.last_time);
        hmi.last_gps_ms = Some(now_ms);
        hmi.gps_fix = lat.is_some() && lon.is_some();
        r
    }

    /// An RMC sentence was parsed: its time, position, speed and bearing
    /// update the cache. No sample is handed on.
    pub fn on_rmc(
        &mut self,
        time: Option<GpsTime>,
        lat: Option<u64>,
        lon: Option<u64>,
        speed_kts: Option<u32>,
        heading: Option<u16>,
    )
        ensures
            *final(self) == (GpsFixCache {
                last_lat: updated(old(self).last_lat, lat),
                last_lon: updated(old(self).last_lon, lon),
                last_alt: old(self).last_alt,
                last_speed_kts: updated(old(self).last_speed_kts, speed_kts),
                last_heading: updated(old(self).last_heading, heading),
                last_time: updated(old(self).last_time, time),
            }),
            time is Some ==> final(self).last_time == time,
            lat is Some ==> final(self).last_lat == lat,
            lon is Some ==> final(self).last_lon == lon,
            speed_kts is Some ==> final(self).last_speed_kts == speed_kts,
            heading is Some ==> final(self).last_heading == heading,
            time is None ==> final(self).last_time == old(self).last_time,
            lat is None ==> final(self).last_lat == old(self).last_lat,
            lon is None ==> final(self).last_lon == old(self).last_lon,
            speed_kts is None ==> final(self).last_speed_kts == old(self).last_speed_kts,
            heading is None ==> final(self).last_heading == old(self).last_heading,
    {
        self.last_time = update(self.last_time, time);
        self.last_lat = update(self.last_lat, lat);
        self.last_lon = update(self.last_lon, lon);
        self.last_speed_kts = update(self.last_speed_kts, speed_kts);
        self.last_heading = update(self.last_heading, heading);
    }

    /// A VTG sentence was parsed: its speed and course update the cache, and
    /// the sample built from it is returned.
    pub fn on_vtg(&mut self, speed_kts: Option<u32>, heading: Option<u16>) -> (r: Option<GpsData>)
        ensures
            *final(self) == (GpsFixCache {
                last_speed_kts: updated(old(self).last_speed_kts, speed_kts),
                last_heading: updated(old(self).last_heading, heading),
                ..*old(self)
            }),
            r == final(self).sample(),
            speed_kts is Some ==> final(self).last_speed_kts == speed_kts,
            heading is Some ==> final(self).last_heading == heading,
            speed_kts is None ==> final(self).last_speed_kts == old(self).last_speed_kts,
            heading is None ==> final(self).last_heading == old(self).last_heading,
            r matches Some(d) ==> (speed_kts matches Some(v) ==> d.speed_kts_bits == v),
            r matches Some(d) ==> (heading matches Some(h) ==> d.heading == h),
    {
        self.last_speed_kts = update(self.last_speed_kts, speed_kts);
        self.last_heading = update(self.last_heading, heading);
        try_send_gps_data(self.last_lat, self.last_lon, self.last_alt, self.last_speed_kts, self.last_heading, self.last_time)
    }
}

/// Records that `n` bytes arrived from the GPS at `now_ms`: any byte counts as
/// GPS traffic for the HMI.
pub fn on_gps_bytes(n: usize, hmi: &mut HmiStateData, now_ms: u64)
    ensures
        n > 0 ==> *final(hmi) == (HmiStateData { last_gps_rx_ms: Some(now_ms), ..*old(hmi) }),
        n == 0 ==> *final(hmi) == *old(hmi),
{
    if n > 0 {
        hmi.last_gps_rx_ms = Some(now_ms);
    }
}

/// Bytes kept of the last GGA sentence.
pub const LAST_RAW_GGA_CAP: usize = 84;

/// Whether a byte starts a UTF-8 character (it is not a continuation byte).
pub open spec fn is_char_start(b: u8) -> bool {
    b < 0x80 || b >= 0xC0
}

/// The byte index, at or after `i`, where character number `k` (counting
/// from 0 at `i`) starts, or the length when there are fewer characters.
pub open spec fn char_start_from(s: Seq<u8>, i: int, k: nat) -> int
    decreases s.len() - i,
{
    if i >= s.len() {
        s.len() as int
    } else if is_char_start(s[i]) {
        if k == 0 {
            i
        } else {
            char_start_from(s, i + 1, (k - 1) as nat)
        }
    } else {
        char_start_from(s, i + 1, k)
    }
}

/// What is kept of a GGA sentence: its first 83 characters, at most 84 bytes.
pub open spec fn kept_gga(sentence: Seq<u8>) -> Seq<u8> {
    let end = char_start_from(sentence, 0, NMEA_0183_MAX_LENGTH as nat);
    sentence.take(if end < LAST_RAW_GGA_CAP { end } else { LAST_RAW_GGA_CAP as int })
}

/// The last successfully parsed GGA sentence, kept for diagnostics when a
/// capture gets no samples.
pub struct RawGgaStore {
    bytes: Vec<u8>,
}

impl RawGgaStore {
    /// The stored bytes.
    pub closed spec fn stored(&self) -> Seq<u8> {
        self.bytes@
    }

    /// Nothing stored yet.
    pub fn new() -> (r: RawGgaStore)
        ensures
            r.stored() == Seq::<u8>::empty(),
    {
        RawGgaStore { bytes: Vec::new() }
    }

    /// Stores a parsed GGA sentence, truncated to 83 characters and 84 bytes.
    pub fn set_last_raw_gga(&mut self, sentence: &[u8])
        ensures
            final(self).stored() == kept_gga(sentence@),
    {
        let mut i: usize = 0;
        let mut k: usize = NMEA_0183_MAX_LENGTH;
        let mut end: usize = sentence.len();
        while i < sentence.len()
            invariant_except_break
                end == sentence@.len(),
            invariant
                i <= sentence@.len(),
                k <= NMEA_0183_MAX_LENGTH,
                char_start_from(sentence@, 0, NMEA_0183_MAX_LENGTH as nat) == char_start_from(sentence@, i as int, k as nat),
            ensures
                end == char_start_from(sentence@, 0, NMEA_0183_MAX_LENGTH as nat),
                end <= sentence@.len(),
            decreases sentence@.len() - i,
        {
            let b = sentence[i];
            if b < 0x80 || b >= 0xC0 {
                if k == 0 {
                    end = i;
                    break;
                }
                k = k - 1;
            }
            i += 1;
        }
        let len = if end < LAST_RAW_GGA_CAP { end } else { LAST_RAW_GGA_CAP };
        let mut out: Vec<u8> = Vec::new();
        let mut j: usize = 0;
        while j < len
            invariant
                j <= len <= sentence@.len(),
                out@ == sentence@.take(j as int),
            decreases len - j,
        {
            out.push(sentence[j]);
            assert(out@ =~= sentence@.take(j as int + 1));
            j += 1;
        }
        self.bytes = out;
    }

    /// The stored sentence, if one is stored and it is valid UTF-8.
    pub fn last_raw_gga(&self) -> (r: Option<Vec<u8>>)
        ensures
            r matches Some(v) ==> v@ == self.stored(),
            r is Some <==> (self.stored().len() > 0 && vstd::utf8::valid_utf8(self.stored())),
    {
        if self.bytes.len() > 0 && is_utf8(self.bytes.as_slice()) {
            Some(self.bytes.clone())
        } else {
            None
        }
    }
}

/// Whether every byte is ASCII.
pub open spec fn all_ascii(s: Seq<u8>) -> bool {
    forall|i: int| 0 <= i < s.len() ==> #[trigger] s[i] < 0x80
}

/// In ASCII text every byte starts a character, so character `k` from `i`
/// is at byte `i + k`, or the end.
proof fn lemma_ascii_char_start(s: Seq<u8>, i: int, k: nat)
    requires
        all_ascii(s),
        0 <= i <= s.len(),
    ensures
        char_start_from(s, i, k) == (if i + k < s.len() { i + k } else { s.len() as int }),
    decreases s.len() - i,
{
    if i < s.len() {
        assert(s[i] < 0x80);
        if k > 0 {
            lemma_ascii_char_start(s, i + 1, (k - 1) as nat);
        }
    }
}

/// ASCII text is valid UTF-8.
proof fn lemma_ascii_valid_utf8(s: Seq<u8>)
    requires
        all_ascii(s),
    ensures
        vstd::utf8::valid_utf8(s),
    decreases s.len(),
{
    if s.len() > 0 {
        assert(s[0] < 0x80);
        let rest = vstd::utf8::pop_first_scalar(s);
        assert(rest =~= s.subrange(1, s.len() as int));
        assert(all_ascii(rest)) by {
            assert forall|i: int| 0 <= i < rest.len() implies #[trigger] rest[i] < 0x80 by {
                assert(rest[i] == s[i + 1]);
            }
        }
        lemma_ascii_valid_utf8(rest);
    }
}

/// Of an ASCII GGA sentence the store keeps its first 83 characters (all of
/// it when shorter), and it gives the kept text back exactly when the
/// sentence was not empty: after `set_last_raw_gga(s)`, `last_raw_gga`
/// returns the first `min(len, 83)` bytes of `s`, or nothing for an empty `s`.
pub proof fn law_raw_gga_keeps_ascii_prefix(s: Seq<u8>)
    requires
        all_ascii(s),
    ensures
        kept_gga(s) == s.take(if s.len() < NMEA_0183_MAX_LENGTH { s.len() as int } else { NMEA_0183_MAX_LENGTH as int }),
        (kept_gga(s).len() > 0 && vstd::utf8::valid_utf8(kept_gga(s))) <==> s.len() > 0,
{
    lemma_ascii_char_start(s, 0, NMEA_0183_MAX_LENGTH as nat);
    let k = kept_gga(s);
    assert(all_ascii(k)) by {
        assert forall|i: int| 0 <= i < k.len() implies #[trigger] k[i] < 0x80 by {
            assert(k[i] == s[i]);
        }
    }
    lemma_ascii_valid_utf8(k);
}

/// Baud rates tried, in order, when detecting the GPS receiver's rate.
pub open spec fn detect_baud_rates() -> Seq<u32> {
    seq![9600u32, 38400u32, 115200u32, 460800u32]
}

/// The baud rates tried when detecting the receiver's rate.
pub fn detect_baud_rate_list() -> (r: Vec<u32>)
    ensures
        r@ == detect_baud_rates(),
{
    let r: Vec<u32> = vec![9600u32, 38400u32, 115200u32, 460800u32];
    assert(r@ =~= detect_baud_rates());
    r
}

/// The baud rate used after detection: the detected one, or 9600.
pub fn chosen_baud(detected: Option<u32>) -> (b: u32)
    ensures
        b == (match detected { Some(d) => d, None => 9600u32 }),
{
    match detected {
        Some(d) => d,
        None => 9600,
    }
}

/// The first rate, in the order tried, at which a GGA sentence parsed.
pub fn first_detected_baud(rates: &[u32], got_gga: &[bool]) -> (r: Option<u32>)
    requires
        rates@.len() == got_gga@.len(),
    ensures
        r is None <==> (forall|i: int| 0 <= i < got_gga@.len() ==> !#[trigger] got_gga@[i]),
        r matches Some(b) ==> (exists|i: int| 0 <= i < got_gga@.len() && #[trigger] got_gga@[i] && b == rates@[i]
            && forall|j: int| 0 <= j < i ==> !#[trigger] got_gga@[j]),
{
    let mut i: usize = 0;
    while i < got_gga.len()
        invariant
            rates@.len() == got_gga@.len(),
            i <= got_gga@.len(),
            forall|j: int| 0 <= j < i ==> !#[trigger] got_gga@[j],
        decreases got_gga@.len() - i,
    {
        if got_gga[i] {
            assert(got_gga@[i as int]);
            return Some(rates[i]);
        }
        i = i + 1;
    }
    None
}

/// The rate the receiver runs at after detection, from the outcome at each
/// rate of `detect_baud_rates` in turn: the first rate at which a GGA
/// sentence parsed, or 9600 when none did.
pub fn detected_gps_baud(got_gga: &[bool]) -> (b: u32)
    requires
        got_gga@.len() == detect_baud_rates().len(),
    ensures
        (forall|i: int| 0 <= i < got_gga@.len() ==> !#[trigger] got_gga@[i]) ==> b == 9600u32,
        (exists|i: int| 0 <= i < got_gga@.len() && #[trigger] got_gga@[i]) ==> (exists|i: int|
            0 <= i < got_gga@.len() && #[trigger] got_gga@[i] && b == detect_baud_rates()[i]
            && forall|j: int| 0 <= j < i ==> !#[trigger] got_gga@[j]),
{
    let rates = detect_baud_rate_list();
    let d = first_detected_baud(rates.as_slice(), got_gga);
    chosen_baud(d)
}

/// Whether a trimmed line may be a GGA sentence: at least 7 bytes, starting
/// with `$GPGGA` or `$GNGGA`.
pub open spec fn gga_candidate(s: Seq<u8>) -> bool {
    &&& s.len() >= 7
    &&& s[0] == 36u8 && s[1] == 71u8 && (s[2] == 80u8 || s[2] == 78u8)
    &&& s[3] == 71u8 && s[4] == 71u8 && s[5] == 65u8
}

/// Whether a trimmed line may be a GGA sentence.
pub fn is_gga_candidate(s: &[u8]) -> (r: bool)
    ensures
        r == gga_candidate(s@),
{
    s.len() >= 7 && s[0] == 36 && s[1] == 71 && (s[2] == 80 || s[2] == 78) && s[3] == 71 && s[4] == 71 && s[5] == 65
}

/// The UTF-8 encoding of the character whose code is the byte `b` (as
/// `b as char`).
pub open spec fn latin1_utf8(b: u8) -> Seq<u8> {
    if b < 0x80 {
        seq![b]
    } else {
        seq![(0xC0 | (b >> 6)) as u8, (0x80 | (b & 0x3F)) as u8]
    }
}

/// A line of the rate detection, in a `heapless::String` of 85 bytes.
#[verifier::external_body]
pub struct DetectLineBuffer {
    s: heapless::String<85>,
}

/// The bytes a detection line holds.
pub uninterp spec fn detect_line_contents(b: DetectLineBuffer) -> Seq<u8>;

/// `heapless::String::new`: an empty string.
#[verifier::external_body]
fn detect_line_new() -> (r: DetectLineBuffer)
    ensures
        detect_line_contents(r) == Seq::<u8>::empty(),
{
    DetectLineBuffer { s: heapless::String::new() }
}

/// `heapless::String::push` of `b as char`: appends the character's UTF-8
/// bytes if they fit in the 85 bytes, otherwise changes nothing; `true` when
/// it appended.
#[verifier::external_body]
fn detect_line_push(b: &mut DetectLineBuffer, x: u8) -> (r: bool)
    ensures
        detect_line_contents(*old(b)).len() + latin1_utf8(x).len() <= 85 ==> (r
            && detect_line_contents(*final(b)) == detect_line_contents(*old(b)) + latin1_utf8(x)),
        detect_line_contents(*old(b)).len() + latin1_utf8(x).len() > 85 ==> (!r
            && detect_line_contents(*final(b)) == detect_line_contents(*old(b))),
{
    b.s.push(x as char).is_ok()
}

/// `heapless::String::clear`: the string becomes empty.
#[verifier::external_body]
fn detect_line_clear(b: &mut DetectLineBuffer)
    ensures
        detect_line_contents(*final(b)) == Seq::<u8>::empty(),
{
    b.s.clear()
}

/// `heapless::String::as_bytes`, copied out.
#[verifier::external_body]
fn detect_line_bytes(b: &DetectLineBuffer) -> (r: Vec<u8>)
    ensures
        r@ == detect_line_contents(*b),
{
    b.s.as_bytes().to_vec()
}

/// Collects the lines read while detecting the receiver's baud rate.
pub struct DetectLines {
    line: DetectLineBuffer,
}

impl DetectLines {
    /// The bytes of the current line.
    pub closed spec fn line(&self) -> Seq<u8> {
        detect_line_contents(self.line)
    }

    /// No line started.
    pub fn new() -> (d: DetectLines)
        ensures
            d.line() == Seq::<u8>::empty(),
    {
        DetectLines { line: detect_line_new() }
    }

    /// Takes one received byte. A CR or LF ends a non-empty line: the line is
    /// cleared and, trimmed, returned when it may be a GGA sentence. Any other
    /// byte is appended as a character; a line that overflows is dropped.
    pub fn push_byte(&mut self, b: u8) -> (r: Option<Vec<u8>>)
        ensures
            (b == 10 || b == 13) ==> ({
                &&& (old(self).line().len() > 0 ==> final(self).line() == Seq::<u8>::empty())
                &&& (old(self).line().len() == 0 ==> final(self).line() == old(self).line())
                &&& (r matches Some(v) ==> v@ == trimmed(old(self).line()))
                &&& (r is Some <==> (old(self).line().len() > 0 && gga_candidate(trimmed(old(self).line()))))
            }),
            !(b == 10 || b == 13) ==> ({
                &&& r is None
                &&& final(self).line() == (if old(self).line().len() + latin1_utf8(b).len() <= 85 {
                    old(self).line() + latin1_utf8(b)
                } else {
                    Seq::<u8>::empty()
                })
            }),
    {
        if b == 10 || b == 13 {
            let bytes = detect_line_bytes(&self.line);
            if bytes.len() > 0 {
                let sentence = trim_bytes(bytes.as_slice());
                detect_line_clear(&mut self.line);
                if is_gga_candidate(sentence.as_slice()) {
                    return Some(sentence);
                }
            }
            None
        } else {
            if !detect_line_push(&mut self.line, b) {
                detect_line_clear(&mut self.line);
            }
            None
        }
    }
}

/// The unfinished line left by a scan holds no line feed.
pub proof fn lemma_scan_rest_has_no_newline(s: Seq<u8>)
    ensures
        forall|i: int| 0 <= i < scan_sentences(s).1.len() ==> scan_sentences(s).1[i] != 10,
    decreases s.len(),
{
    if s.len() > 0 {
        lemma_scan_rest_has_no_newline(s.drop_last());
        let prev = scan_sentences(s.drop_last()).1;
        if s.last() != 10 {
            assert forall|i: int| 0 <= i < prev.push(s.last()).len() implies prev.push(s.last())[i] != 10 by {
                if i < prev.len() {
                    assert(prev.push(s.last())[i] == prev[i]);
                }
            }
        }
    }
}

/// Text without a line feed yields no sentence and stays unfinished.
pub proof fn lemma_scan_without_newline(r: Seq<u8>)
    requires
        forall|i: int| 0 <= i < r.len() ==> r[i] != 10,
    ensures
        scan_sentences(r) == (Seq::<Seq<u8>>::empty(), r),
    decreases r.len(),
{
    if r.len() > 0 {
        lemma_scan_without_newline(r.drop_last());
        assert(r.drop_last().push(r.last()) =~= r);
    }
}

/// Chunk boundaries do not matter: scanning `x` and then the unfinished rest
/// followed by `y` gives the sentences, and the rest, of scanning `x + y`.
pub proof fn law_scan_chunks_compose(x: Seq<u8>, y: Seq<u8>)
    ensures
        scan_sentences(x + y).0 == scan_sentences(x).0 + scan_sentences(scan_sentences(x).1 + y).0,
        scan_sentences(x + y).1 == scan_sentences(scan_sentences(x).1 + y).1,
    decreases y.len(),
{
    let r = scan_sentences(x).1;
    if y.len() == 0 {
        assert(x + y =~= x);
        assert(r + y =~= r);
        lemma_scan_rest_has_no_newline(x);
        lemma_scan_without_newline(r);
        assert(scan_sentences(x).0 + Seq::<Seq<u8>>::empty() =~= scan_sentences(x).0);
    } else {
        let y0 = y.drop_last();
        law_scan_chunks_compose(x, y0);
        assert((x + y).drop_last() =~= x + y0);
        assert((r + y).drop_last() =~= r + y0);
        assert((x + y).last() == y.last());
        assert((r + y).last() == y.last());
        let a = scan_sentences(x).0;
        let b = scan_sentences(r + y0);
        if y.last() == 10 {
            let t = trimmed(b.1);
            if sentence_length_ok(t) {
                assert(a + b.0.push(t) =~= (a + b.0).push(t));
            }
        }
    }
}

} // verus!
