//! Packets for the AniMe matrix display, and which display a board has.
use vstd::prelude::*;

verus! {

/// Size in bytes of every packet the display takes.
pub const PACKET_SIZE: usize = 640;

/// The USB page that every packet starts with.
pub const DEV_PAGE: u8 = 0x5e;

pub const VENDOR_ID: u16 = 0x0b05;

pub const PROD_ID: u16 = 0x193b;

/// A packet of `PACKET_SIZE` bytes that starts with `head` and is zero after it.
pub open spec fn packet_of(head: Seq<u8>) -> Seq<u8> {
    Seq::new(PACKET_SIZE as nat, |i: int| if i < head.len() { head[i] } else { 0u8 })
}

/// The bytes of the vendor name sent at initialisation: "ASUS Tech.Inc.".
pub open spec fn vendor_name() -> Seq<u8> {
    seq![0x41u8, 0x53, 0x55, 0x53, 0x20, 0x54, 0x65, 0x63, 0x68, 0x2e, 0x49, 0x6e, 0x63, 0x2e]
}

/// A zeroed packet whose first four bytes are `a`, `b`, `c`, `d`.
fn packet4(a: u8, b: u8, c: u8, d: u8) -> (r: [u8; PACKET_SIZE])
    ensures
        r@ == packet_of(seq![a, b, c, d]),
{
    let mut pkt = [0u8; PACKET_SIZE];
    pkt[0] = a;
    pkt[1] = b;
    pkt[2] = c;
    pkt[3] = d;
    assert(pkt@ =~= packet_of(seq![a, b, c, d]));
    pkt
}

/// The two packets that start the device after the laptop boots.
pub fn pkts_for_init() -> (r: [[u8; PACKET_SIZE]; 2])
    ensures
        r[0]@ == packet_of(seq![DEV_PAGE] + vendor_name()),
        r[1]@ == packet_of(seq![DEV_PAGE, 0xc2u8]),
{
    let name: [u8; 14] = [0x41, 0x53, 0x55, 0x53, 0x20, 0x54, 0x65, 0x63, 0x68, 0x2e, 0x49, 0x6e, 0x63, 0x2e];
    let mut first = [0u8; PACKET_SIZE];
    first[0] = DEV_PAGE;
    let mut count: usize = 0;
    while count < 14
        invariant
            count <= 14,
            name@ == vendor_name(),
            first@[0] == DEV_PAGE,
            forall|i: int| 1 <= i <= count ==> first@[i] == name@[i - 1],
            forall|i: int| count + 1 <= i < PACKET_SIZE ==> first@[i] == 0,
        decreases 14 - count,
    {
        first[count + 1] = name[count];
        count = count + 1;
    }
    assert(first@ =~= packet_of(seq![DEV_PAGE] + vendor_name()));
    let second = packet4(DEV_PAGE, 0xc2, 0, 0);
    assert(packet_of(seq![DEV_PAGE, 0xc2u8, 0u8, 0u8]) =~= packet_of(seq![DEV_PAGE, 0xc2u8]));
    [first, second]
}

/// Written after the display data, to show it.
pub fn pkt_for_flush() -> (r: [u8; PACKET_SIZE])
    ensures
        r@ == packet_of(seq![DEV_PAGE, 0xc0u8, 0x03u8]),
{
    let r = packet4(DEV_PAGE, 0xc0, 0x03, 0);
    assert(packet_of(seq![DEV_PAGE, 0xc0u8, 0x03u8, 0u8]) =~= packet_of(seq![DEV_PAGE, 0xc0u8, 0x03u8]));
    r
}

/// Turns the display on (`true`) or off at boot.
pub fn pkt_for_set_boot(status: bool) -> (r: [u8; PACKET_SIZE])
    ensures
        r@ == packet_of(seq![DEV_PAGE, 0xc3u8, 0x01u8, if status { 0x00u8 } else { 0x80u8 }]),
{
    packet4(DEV_PAGE, 0xc3, 0x01, if status { 0x00 } else { 0x80 })
}

/// Turns the display's brightness on (`true`) or off.
pub fn pkt_for_set_brightness(on: bool) -> (r: [u8; PACKET_SIZE])
    ensures
        r@ == packet_of(seq![DEV_PAGE, 0xc0u8, 0x04u8, if on { 0x03u8 } else { 0x00u8 }]),
{
    packet4(DEV_PAGE, 0xc0, 0x04, if on { 0x03 } else { 0x00 })
}

/// Turns the display on (`true`) or off while the machine is awake.
pub fn pkt_for_set_awake_enabled(enable: bool) -> (r: [u8; PACKET_SIZE])
    ensures
        r@ == packet_of(seq![DEV_PAGE, 0xc3u8, 0x01u8, if enable { 0x80u8 } else { 0x00u8 }]),
{
    packet4(DEV_PAGE, 0xc3, 0x01, if enable { 0x80 } else { 0x00 })
}

/// Applies a device setting.
pub fn pkt_for_enable_animation() -> (r: [u8; PACKET_SIZE])
    ensures
        r@ == packet_of(seq![DEV_PAGE, 0xc4u8, 0x01u8, 0x80u8]),
{
    packet4(DEV_PAGE, 0xc4, 0x01, 0x80)
}

/// The kinds of AniMe display.
#[derive(Debug, Clone, Copy, PartialEq, Eq, Structural)]
pub enum AnimeType {
    GA401,
    GA402,
    GU604,
    Unknown,
}

/// Whether `needle` occurs in `hay`.
pub open spec fn has_substring(hay: Seq<char>, needle: Seq<char>) -> bool {
    exists|i: int|
        0 <= i && i + needle.len() <= hay.len() && #[trigger] hay.subrange(i, i + needle.len())
            == needle
}

/// Relies on `str::contains` with a `&str` pattern: true exactly when
/// `needle` occurs in `hay`.
#[verifier::external_body]
fn str_contains(hay: &str, needle: &str) -> (r: bool)
    ensures
        r == has_substring(hay@, needle@),
{
    hay.contains(needle)
}

/// The display that a board of name `board` carries.
pub open spec fn anime_type_of(board: Seq<char>) -> AnimeType {
    if has_substring(board, "GA401I"@) || has_substring(board, "GA401Q"@) {
        AnimeType::GA401
    } else if has_substring(board, "GA402R"@) {
        AnimeType::GA402
    } else if has_substring(board, "GU604V"@) {
        AnimeType::GU604
    } else {
        AnimeType::Unknown
    }
}

/// The display that a board carries, by its DMI board name. The match is on
/// part of the name only, so the USB device must still be looked for.
pub fn get_anime_type(board_name: &str) -> (r: AnimeType)
    ensures
        r == anime_type_of(board_name@),
{
    if str_contains(board_name, "GA401I") || str_contains(board_name, "GA401Q") {
        AnimeType::GA401
    } else if str_contains(board_name, "GA402R") {
        AnimeType::GA402
    } else if str_contains(board_name, "GU604V") {
        AnimeType::GU604
    } else {
        AnimeType::Unknown
    }
}

} // verus!
