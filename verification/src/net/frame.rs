//! Ethernet/IPv4/UDP framing of DHCP client messages, and the reading of
//! received frames down to their UDP payload.

use vstd::prelude::*;
use crate::error::SrunError;
use pnet::packet::ipv4::Ipv4Packet;
use pnet::packet::udp::UdpPacket;

verus! {

/// UDP port of DHCP clients.
pub const DHCP_CLIENT_PORT: u16 = 68;

/// UDP port of DHCP servers.
pub const DHCP_SERVER_PORT: u16 = 67;

/// Length of an Ethernet header.
pub const ETH_HEADER_LEN: usize = 14;

/// The largest DHCP message that fits one IPv4 packet with its headers.
pub const MAX_DHCP_PAYLOAD: usize = 65507;

/// `pnet::packet::udp::ipv4_checksum` of the UDP segment `segment` sent from
/// `source` to `destination` (addresses as host-order integers).
pub uninterp spec fn udp_ipv4_checksum(segment: Seq<u8>, source: u32, destination: u32) -> u16;

/// `pnet::packet::ipv4::checksum` of the IPv4 packet `packet`.
pub uninterp spec fn ipv4_header_checksum(packet: Seq<u8>) -> u16;

/// `pnet::packet::udp::ipv4_checksum`: the UDP checksum of a segment. The
/// segment must hold a whole UDP header.
#[verifier::external_body]
fn udp_checksum(segment: &[u8], source: u32, destination: u32) -> (r: u16)
    requires
        segment.len() >= 8,
        segment.len() <= MAX_DHCP_PAYLOAD + 8,
    ensures
        r == udp_ipv4_checksum(segment@, source, destination),
{
    let packet = UdpPacket::new(segment).unwrap();
    pnet::packet::udp::ipv4_checksum(
        &packet,
        &core::net::Ipv4Addr::from(source),
        &core::net::Ipv4Addr::from(destination),
    )
}

/// `pnet::packet::ipv4::checksum`: the header checksum of an IPv4 packet. The
/// packet must hold a whole minimal header.
#[verifier::external_body]
fn ipv4_checksum(packet: &[u8]) -> (r: u16)
    requires
        packet.len() >= 20,
    ensures
        r == ipv4_header_checksum(packet@),
{
    pnet::packet::ipv4::checksum(&Ipv4Packet::new(packet).unwrap())
}

/// Big-endian bytes of a 16-bit value.
pub open spec fn be16(x: u16) -> Seq<u8> {
    seq![(x / 256) as u8, (x % 256) as u8]
}

/// The 16-bit big-endian value at `i`.
pub open spec fn be16_at(s: Seq<u8>, i: int) -> nat {
    s[i] as nat * 256 + s[i + 1] as nat
}

/// A UDP segment from the client port to the server port with the given
/// checksum field.
pub open spec fn udp_segment(payload: Seq<u8>, checksum: u16) -> Seq<u8> {
    be16(DHCP_CLIENT_PORT) + be16(DHCP_SERVER_PORT) + be16((8 + payload.len()) as u16) + be16(
        checksum,
    ) + payload
}

/// An IPv4 header without options from 0.0.0.0 to 255.255.255.255 carrying
/// UDP, TTL 64, with the given total length and checksum field.
pub open spec fn ipv4_header(total_len: u16, checksum: u16) -> Seq<u8> {
    seq![0x45u8, 0u8] + be16(total_len) + seq![0u8, 0u8, 0u8, 0u8, 64u8, 17u8] + be16(checksum)
        + seq![0u8, 0u8, 0u8, 0u8, 255u8, 255u8, 255u8, 255u8]
}

/// The broadcast Ethernet header for IPv4 sent from `mac`.
pub open spec fn eth_header(mac: Seq<u8>) -> Seq<u8> {
    seq![0xffu8, 0xffu8, 0xffu8, 0xffu8, 0xffu8, 0xffu8] + mac + seq![0x08u8, 0x00u8]
}

/// The IPv4 total length of a packet carrying `payload` in UDP.
pub open spec fn total_length(payload: Seq<u8>) -> u16 {
    (28 + payload.len()) as u16
}

/// The broadcast frame that carries `payload` from `mac` with the given UDP and
/// IPv4 checksum fields.
pub open spec fn framed(payload: Seq<u8>, mac: Seq<u8>, udp_sum: u16, ip_sum: u16) -> Seq<u8> {
    eth_header(mac) + ipv4_header(total_length(payload), ip_sum) + udp_segment(payload, udp_sum)
}

/// The broadcast frame that carries `payload` from `mac`: Ethernet, IPv4 and
/// UDP headers with both checksums computed by `pnet`.
pub open spec fn dhcp_frame_bytes(payload: Seq<u8>, mac: Seq<u8>) -> Seq<u8> {
    let udp_sum = udp_ipv4_checksum(udp_segment(payload, 0), 0, 0xffff_ffff);
    let ip_sum = ipv4_header_checksum(ipv4_header(total_length(payload), 0) + udp_segment(payload, udp_sum));
    framed(payload, mac, udp_sum, ip_sum)
}

fn push_be16(v: &mut Vec<u8>, x: u16)
    ensures
        final(v)@ == old(v)@ + be16(x),
{
    v.push((x / 256) as u8);
    v.push((x % 256) as u8);
    assert(final(v)@ =~= old(v)@ + be16(x));
}

fn push_all(v: &mut Vec<u8>, s: &[u8])
    ensures
        final(v)@ == old(v)@ + s@,
{
    let mut i: usize = 0;
    let ghost start = v@;
    while i < s.len()
        invariant
            i <= s.len(),
            v@ == start + s@.take(i as int),
        decreases s.len() - i,
    {
        v.push(s[i]);
        i = i + 1;
        assert(v@ =~= start + s@.take(i as int));
    }
    assert(s@.take(s.len() as int) =~= s@);
}

fn udp_bytes(payload: &[u8], checksum: u16) -> (r: Vec<u8>)
    requires
        payload.len() <= MAX_DHCP_PAYLOAD,
    ensures
        r@ == udp_segment(payload@, checksum),
{
    let mut v: Vec<u8> = Vec::new();
    push_be16(&mut v, DHCP_CLIENT_PORT);
    push_be16(&mut v, DHCP_SERVER_PORT);
    push_be16(&mut v, (8 + payload.len()) as u16);
    push_be16(&mut v, checksum);
    push_all(&mut v, payload);
    v
}

fn ipv4_header_bytes(v: &mut Vec<u8>, total_len: u16, checksum: u16)
    ensures
        final(v)@ == old(v)@ + ipv4_header(total_len, checksum),
{
    let ghost start = v@;
    v.push(0x45);
    v.push(0);
    push_be16(v, total_len);
    v.push(0);
    v.push(0);
    v.push(0);
    v.push(0);
    v.push(64);
    v.push(17);
    push_be16(v, checksum);
    v.push(0);
    v.push(0);
    v.push(0);
    v.push(0);
    v.push(255);
    v.push(255);
    v.push(255);
    v.push(255);
    assert(v@ =~= start + ipv4_header(total_len, checksum));
}

/// The broadcast frame carrying `payload` from `mac`, given the UDP and IPv4
/// checksums to write into it.
pub fn frame_with_checksums(payload: &[u8], mac: &[u8; 6], udp_sum: u16, ip_sum: u16) -> (r: Vec<u8>)
    requires
        payload.len() <= MAX_DHCP_PAYLOAD,
    ensures
        r@ == framed(payload@, mac@, udp_sum, ip_sum),
{
    let mut frame: Vec<u8> = Vec::new();
    let mut k: usize = 0;
    while k < 6
        invariant
            k <= 6,
            frame@ == Seq::new(k as nat, |i: int| 0xffu8),
        decreases 6 - k,
    {
        frame.push(0xff);
        k = k + 1;
        assert(frame@ =~= Seq::new(k as nat, |i: int| 0xffu8));
    }
    push_all(&mut frame, mac);
    frame.push(0x08);
    frame.push(0x00);
    assert(frame@ =~= eth_header(mac@));
    ipv4_header_bytes(&mut frame, (28 + payload.len()) as u16, ip_sum);
    let udp = udp_bytes(payload, udp_sum);
    push_all(&mut frame, udp.as_slice());
    frame
}

/// The broadcast Ethernet frame carrying the DHCP message `dhcp_buf` from
/// `mac`: UDP from port 68 to 67, IPv4 from 0.0.0.0 to 255.255.255.255.
pub fn build_eth_ipv4_udp(dhcp_buf: &[u8], mac: &[u8; 6]) -> (r: Result<Vec<u8>, SrunError>)
    requires
        dhcp_buf.len() <= MAX_DHCP_PAYLOAD,
    ensures
        r matches Ok(frame) && frame@ == dhcp_frame_bytes(dhcp_buf@, mac@),
{
    let unchecked = udp_bytes(dhcp_buf, 0);
    let udp_sum = udp_checksum(unchecked.as_slice(), 0, 0xffff_ffff);
    let udp = udp_bytes(dhcp_buf, udp_sum);
    let mut ip: Vec<u8> = Vec::new();
    ipv4_header_bytes(&mut ip, (28 + dhcp_buf.len()) as u16, 0);
    push_all(&mut ip, udp.as_slice());
    let ip_sum = ipv4_checksum(ip.as_slice());
    Ok(frame_with_checksums(dhcp_buf, mac, udp_sum, ip_sum))
}

/// The part of `ip` that pnet's `Ipv4Packet::payload` returns: from the end of
/// the header (at least 20 bytes) for `total_length` minus the header length
/// bytes, cut at the end of the buffer.
pub open spec fn ipv4_payload(ip: Seq<u8>) -> Seq<u8> {
    let hl = (ip[0] % 16) as nat * 4;
    let start = if hl < 20 {
        20
    } else {
        hl
    };
    let total = be16_at(ip, 2);
    let plen: nat = if total >= hl {
        (total - hl) as nat
    } else {
        0
    };
    let end = if start + plen < ip.len() {
        start + plen
    } else {
        ip.len() as nat
    };
    if ip.len() <= start {
        Seq::empty()
    } else {
        ip.subrange(start as int, end as int)
    }
}

/// The UDP payload of a frame that carries an IPv4 UDP datagram from the DHCP
/// server port to the DHCP client port; none for any other frame.
pub open spec fn dhcp_reply_payload(frame: Seq<u8>) -> Option<Seq<u8>> {
    if frame.len() < 14 || be16_at(frame, 12) != 0x0800 {
        None
    } else {
        let ip = frame.subrange(14, frame.len() as int);
        if ip.len() < 20 || ip[9] != 17 {
            None
        } else {
            let udp = ipv4_payload(ip);
            if udp.len() < 8 || be16_at(udp, 0) != DHCP_SERVER_PORT || be16_at(udp, 2)
                != DHCP_CLIENT_PORT {
                None
            } else {
                Some(udp.subrange(8, udp.len() as int))
            }
        }
    }
}

fn slice_range(s: &[u8], lo: usize, hi: usize) -> (r: Vec<u8>)
    requires
        lo <= hi <= s.len(),
    ensures
        r@ == s@.subrange(lo as int, hi as int),
{
    let mut v: Vec<u8> = Vec::new();
    let mut i = lo;
    while i < hi
        invariant
            lo <= i <= hi <= s.len(),
            v@ == s@.subrange(lo as int, i as int),
        decreases hi - i,
    {
        v.push(s[i]);
        i = i + 1;
        assert(v@ =~= s@.subrange(lo as int, i as int));
    }
    v
}

/// The DHCP payload of a received frame, if the frame is a UDP datagram from
/// port 67 to port 68 over IPv4.
pub fn dhcp_payload_of_frame(frame: &[u8]) -> (r: Option<Vec<u8>>)
    ensures
        match r {
            Some(p) => dhcp_reply_payload(frame@) == Some(p@),
            None => dhcp_reply_payload(frame@) is None,
        },
{
    let n = frame.len();
    if n < 14 || (frame[12] as u16) * 256 + frame[13] as u16 != 0x0800 {
        return None;
    }
    let ip = slice_range(frame, 14, n);
    if ip.len() < 20 || ip[9] != 17 {
        return None;
    }
    let hl: usize = ((ip[0] % 16) as usize) * 4;
    let start: usize = if hl < 20 { 20 } else { hl };
    let total: usize = (ip[2] as usize) * 256 + ip[3] as usize;
    let plen: usize = if total >= hl { total - hl } else { 0 };
    let end: usize = if start + plen < ip.len() { start + plen } else { ip.len() };
    let udp = if ip.len() <= start { Vec::new() } else { slice_range(ip.as_slice(), start, end) };
    assert(udp@ =~= ipv4_payload(ip@));
    if udp.len() < 8 || (udp[0] as u16) * 256 + udp[1] as u16 != DHCP_SERVER_PORT || (udp[2] as u16)
        * 256 + udp[3] as u16 != DHCP_CLIENT_PORT {
        return None;
    }
    Some(slice_range(udp.as_slice(), 8, udp.len()))
}

} // verus!
