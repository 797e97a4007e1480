//! DHCP client messages and replies as plain values, the checks a reply must
//! pass, and the decisions of a Discover/Offer/Request/Ack exchange.

use vstd::prelude::*;
use vstd::string::StringExecFns;
use crate::error::SrunError;
use crate::net::frame::{build_eth_ipv4_udp, dhcp_frame_bytes, dhcp_payload_of_frame, dhcp_reply_payload, MAX_DHCP_PAYLOAD};
use crate::random::random_u32;
use crate::service::checks::{contiguous_prefix, mask_prefix};
use crate::text::{blank, ipv4_string, ipv4_text, is_blank, owned};
use dhcproto::v4::{DhcpOption, DhcpOptions, Message, OptionCode};
use dhcproto::{Decodable, Encodable};

verus! {

/// DHCP message type codes.
pub const DHCP_DISCOVER: u8 = 1;
pub const DHCP_OFFER: u8 = 2;
pub const DHCP_REQUEST: u8 = 3;
pub const DHCP_ACK: u8 = 5;
pub const DHCP_NAK: u8 = 6;

/// The flags field with the broadcast bit set.
pub const BROADCAST_FLAGS: u16 = 0x8000;

/// How many times each of Discover and Request is sent before giving up.
pub const MAX_RETRIES: u32 = 3;

/// A lease: the address, its netmask and the default gateway, all host-order.
#[derive(Clone, Copy, PartialEq, Eq, Structural, Debug)]
pub struct DhcpInfo {
    pub ip: u32,
    pub netmask: u32,
    pub gateway: u32,
}

/// An option that this client puts in its messages.
pub enum ClientOption {
    MessageType(u8),
    ParameterRequestList(Vec<u8>),
    ClientIdentifier(Vec<u8>),
    RequestedIpAddress(u32),
    ServerIdentifier(u32),
}

/// A client message before encoding.
pub struct DhcpRequest {
    pub xid: u32,
    pub flags: u16,
    pub chaddr: Vec<u8>,
    pub options: Vec<ClientOption>,
}

/// What this client reads from a server's reply. An option is absent when the
/// reply lacks it or holds it in another form.
pub struct DhcpReply {
    pub xid: u32,
    pub chaddr: Vec<u8>,
    pub yiaddr: u32,
    pub msg_type: Option<u8>,
    pub server_id: Option<u32>,
    pub subnet_mask: Option<u32>,
    pub routers: Option<Vec<u32>>,
    pub message: Option<String>,
}

/// A client option as spec values.
pub enum OptionView {
    MessageType(u8),
    ParameterRequestList(Seq<u8>),
    ClientIdentifier(Seq<u8>),
    RequestedIpAddress(u32),
    ServerIdentifier(u32),
}

impl View for ClientOption {
    type V = OptionView;

    open spec fn view(&self) -> OptionView {
        match self {
            ClientOption::MessageType(t) => OptionView::MessageType(*t),
            ClientOption::ParameterRequestList(l) => OptionView::ParameterRequestList(l@),
            ClientOption::ClientIdentifier(id) => OptionView::ClientIdentifier(id@),
            ClientOption::RequestedIpAddress(a) => OptionView::RequestedIpAddress(*a),
            ClientOption::ServerIdentifier(a) => OptionView::ServerIdentifier(*a),
        }
    }
}

/// A client message as spec values.
pub struct RequestView {
    pub xid: u32,
    pub flags: u16,
    pub chaddr: Seq<u8>,
    pub options: Seq<OptionView>,
}

impl View for DhcpRequest {
    type V = RequestView;

    open spec fn view(&self) -> RequestView {
        RequestView {
            xid: self.xid,
            flags: self.flags,
            chaddr: self.chaddr@,
            options: self.options@.map_values(|o: ClientOption| o@),
        }
    }
}

/// A reply as spec values.
pub struct ReplyView {
    pub xid: u32,
    pub chaddr: Seq<u8>,
    pub yiaddr: u32,
    pub msg_type: Option<u8>,
    pub server_id: Option<u32>,
    pub subnet_mask: Option<u32>,
    pub routers: Option<Seq<u32>>,
    pub message: Option<Seq<char>>,
}

impl View for DhcpReply {
    type V = ReplyView;

    open spec fn view(&self) -> ReplyView {
        ReplyView {
            xid: self.xid,
            chaddr: self.chaddr@,
            yiaddr: self.yiaddr,
            msg_type: self.msg_type,
            server_id: self.server_id,
            subnet_mask: self.subnet_mask,
            routers: match self.routers {
                Some(v) => Some(v@),
                None => None,
            },
            message: match self.message {
                Some(m) => Some(m@),
                None => None,
            },
        }
    }
}

/// `dhcproto`'s encoding of the message built from `req`, or the encoder's
/// error text.
pub uninterp spec fn dhcp_encoding(req: RequestView) -> Result<Seq<u8>, Seq<char>>;

/// `Message::to_vec` (dhcproto) of the message with `req`'s transaction ID,
/// flags, hardware address and options.
#[verifier::external_body]
fn encode_dhcp(req: &DhcpRequest) -> (r: Result<Vec<u8>, String>)
    ensures
        match r {
            Ok(b) => dhcp_encoding(req@) == Ok::<Seq<u8>, Seq<char>>(b@),
            Err(e) => dhcp_encoding(req@) == Err::<Seq<u8>, Seq<char>>(e@),
        },
{
    let mut msg = Message::default();
    msg.set_xid(req.xid).set_flags(req.flags.into()).set_chaddr(&req.chaddr);
    for opt in &req.options {
        msg.opts_mut().insert(match opt {
            ClientOption::MessageType(t) => DhcpOption::MessageType((*t).into()),
            ClientOption::ParameterRequestList(l) => DhcpOption::ParameterRequestList(l.iter().map(|&c| c.into()).collect()),
            ClientOption::ClientIdentifier(id) => DhcpOption::ClientIdentifier(id.clone()),
            ClientOption::RequestedIpAddress(a) => DhcpOption::RequestedIpAddress((*a).into()),
            ClientOption::ServerIdentifier(a) => DhcpOption::ServerIdentifier((*a).into()),
        });
    }
    msg.to_vec().map_err(|e| e.to_string())
}

/// The length of a DHCP message's fixed part: the BOOTP header and the magic
/// cookie. The options follow it.
pub const DHCP_FIXED_LEN: usize = 240;

/// The 32-bit big-endian value at `i`.
pub open spec fn be32_at(s: Seq<u8>, i: int) -> u32 {
    (s[i] as nat * 16777216 + s[i + 1] as nat * 65536 + s[i + 2] as nat * 256 + s[i + 3] as nat) as u32
}

/// The fields of a message's fixed part that this client reads: the transaction
/// ID (bytes 4 to 8), the client hardware address (from byte 28, as long as the
/// third byte says) and the offered address (bytes 16 to 20).
pub open spec fn header_fields(bytes: Seq<u8>) -> (u32, Seq<u8>, u32) {
    (be32_at(bytes, 4), bytes.subrange(28, 28 + bytes[2] as int), be32_at(bytes, 16))
}

/// What `DhcpOptions::from_bytes` (dhcproto) reads from `raw`: the message
/// type, server identifier, subnet mask, routers and message text, each absent
/// when missing.
pub uninterp spec fn dhcp_options_decoding(raw: Seq<u8>) -> Option<(Option<u8>, Option<u32>, Option<u32>, Option<Seq<u32>>, Option<Seq<char>>)>;

/// `Message::from_bytes` (dhcproto): the transaction ID, client hardware
/// address and offered address of the message in `bytes`. Decoding reads the
/// fixed part field by field, big-endian, which fails only when fewer than
/// `DHCP_FIXED_LEN` bytes are there, and then decodes the options after it as
/// `DhcpOptions::from_bytes` does; it succeeds when both do. A hardware-address
/// length above 16 (the third byte) would make `chaddr` panic, so it is excluded.
#[verifier::external_body]
fn decode_dhcp_header(bytes: &[u8]) -> (r: Option<(u32, Vec<u8>, u32)>)
    requires
        bytes.len() > 2 ==> bytes[2] <= 16,
    ensures
        r is Some <==> (bytes@.len() >= DHCP_FIXED_LEN && dhcp_options_decoding(
            bytes@.skip(DHCP_FIXED_LEN as int),
        ) is Some),
        r matches Some(h) ==> (h.0, h.1@, h.2) == header_fields(bytes@),
{
    let m = Message::from_bytes(bytes).ok()?;
    Some((m.xid(), m.chaddr().to_vec(), m.yiaddr().into()))
}

/// `DhcpOptions::from_bytes` (dhcproto): the options in `raw` that this client
/// reads.
#[verifier::external_body]
fn decode_dhcp_options(raw: &[u8]) -> (r: Option<(Option<u8>, Option<u32>, Option<u32>, Option<Vec<u32>>, Option<String>)>)
    ensures
        match r {
            Some(o) => dhcp_options_decoding(raw@) == Some((o.0, o.1, o.2, match o.3 {
                Some(v) => Some(v@),
                None => None,
            }, match o.4 {
                Some(m) => Some(m@),
                None => None,
            })),
            None => dhcp_options_decoding(raw@) is None,
        },
{
    let o = DhcpOptions::from_bytes(raw).ok()?;
    let ip = |c| match o.get(c) {
        Some(DhcpOption::ServerIdentifier(a) | DhcpOption::SubnetMask(a)) => Some(u32::from(*a)),
        _ => None,
    };
    Some((o.msg_type().map(u8::from), ip(OptionCode::ServerIdentifier), ip(OptionCode::SubnetMask),
        match o.get(OptionCode::Router) { Some(DhcpOption::Router(v)) => Some(v.iter().map(|&a| a.into()).collect()), _ => None },
        match o.get(OptionCode::Message) { Some(DhcpOption::Message(s)) => Some(s.clone()), _ => None }))
}

/// What a DHCP payload decodes to: the fields of its fixed part and the
/// options after it, as `Message::decode` reads them.
pub open spec fn reply_decoding(bytes: Seq<u8>) -> Option<ReplyView> {
    if bytes.len() < DHCP_FIXED_LEN {
        None
    } else {
        let h = header_fields(bytes);
        match dhcp_options_decoding(bytes.skip(DHCP_FIXED_LEN as int)) {
            None => None,
            Some(o) => Some(
                ReplyView {
                    xid: h.0,
                    chaddr: h.1,
                    yiaddr: h.2,
                    msg_type: o.0,
                    server_id: o.1,
                    subnet_mask: o.2,
                    routers: o.3,
                    message: o.4,
                },
            ),
        }
    }
}

fn suffix(s: &[u8], lo: usize) -> (r: Vec<u8>)
    requires
        lo <= s.len(),
    ensures
        r@ == s@.skip(lo as int),
{
    let mut v: Vec<u8> = Vec::new();
    let mut i = lo;
    while i < s.len()
        invariant
            lo <= i <= s.len(),
            v@ == s@.subrange(lo as int, i as int),
        decreases s.len() - i,
    {
        v.push(s[i]);
        i = i + 1;
        assert(v@ =~= s@.subrange(lo as int, i as int));
    }
    assert(v@ =~= s@.skip(lo as int));
    v
}

/// The reply decoded from `bytes`, if they decode.
fn decode_reply(bytes: &[u8]) -> (r: Option<DhcpReply>)
    requires
        bytes.len() > 2 ==> bytes[2] <= 16,
    ensures
        match r {
            Some(m) => reply_decoding(bytes@) == Some(m@),
            None => reply_decoding(bytes@) is None,
        },
{
    let (xid, chaddr, yiaddr) = match decode_dhcp_header(bytes) {
        Some(h) => h,
        None => return None,
    };
    let raw = suffix(bytes, DHCP_FIXED_LEN);
    match decode_dhcp_options(raw.as_slice()) {
        Some(o) => {
            let (msg_type, server_id, subnet_mask, routers, message) = o;
            Some(DhcpReply { xid, chaddr, yiaddr, msg_type, server_id, subnet_mask, routers, message })
        },
        None => None,
    }
}

/// The options this client asks the server to supply: subnet mask, router,
/// DNS servers and domain name.
pub open spec fn requested_params() -> Seq<u8> {
    seq![1u8, 3u8, 6u8, 15u8]
}

/// `req` is a broadcast client message of type `msg_type` in transaction
/// `xid` from hardware address `chaddr`, asking for the usual parameters and
/// identifying the client by `chaddr`, with `extra` further options after those.
pub open spec fn is_client_message(req: DhcpRequest, xid: u32, chaddr: Seq<u8>, msg_type: u8, extra: nat) -> bool {
    &&& req.xid == xid
    &&& req.flags == BROADCAST_FLAGS
    &&& req.chaddr@ == chaddr
    &&& req.options@.len() == 3 + extra
    &&& req.options@[0] == ClientOption::MessageType(msg_type)
    &&& (req.options@[1] matches ClientOption::ParameterRequestList(l) && l@ == requested_params())
    &&& (req.options@[2] matches ClientOption::ClientIdentifier(id) && id@ == chaddr)
}

fn copy_bytes(v: &Vec<u8>) -> (r: Vec<u8>)
    ensures
        r@ == v@,
{
    let mut out: Vec<u8> = Vec::new();
    let mut i: usize = 0;
    while i < v.len()
        invariant
            i <= v.len(),
            out@ == v@.take(i as int),
        decreases v.len() - i,
    {
        out.push(v[i]);
        i = i + 1;
        assert(out@ =~= v@.take(i as int));
    }
    assert(v@.take(v.len() as int) =~= v@);
    out
}

fn client_message(xid: u32, chaddr: &Vec<u8>, msg_type: u8) -> (r: DhcpRequest)
    ensures
        is_client_message(r, xid, chaddr@, msg_type, 0),
{
    let mut params: Vec<u8> = Vec::new();
    params.push(1);
    params.push(3);
    params.push(6);
    params.push(15);
    assert(params@ =~= requested_params());
    let mut options: Vec<ClientOption> = Vec::new();
    options.push(ClientOption::MessageType(msg_type));
    options.push(ClientOption::ParameterRequestList(params));
    options.push(ClientOption::ClientIdentifier(copy_bytes(chaddr)));
    DhcpRequest { xid, flags: BROADCAST_FLAGS, chaddr: copy_bytes(chaddr), options }
}

/// The Discover message of transaction `xid`.
pub fn discover_message(xid: u32, chaddr: &Vec<u8>) -> (r: DhcpRequest)
    ensures
        is_client_message(r, xid, chaddr@, DHCP_DISCOVER, 0),
{
    client_message(xid, chaddr, DHCP_DISCOVER)
}

/// The Request message of transaction `xid` for the offered address from the
/// server `server_id`.
pub fn request_message(xid: u32, chaddr: &Vec<u8>, offered_ip: u32, server_id: u32) -> (r: DhcpRequest)
    ensures
        is_client_message(r, xid, chaddr@, DHCP_REQUEST, 2),
        r.options@[3] == ClientOption::RequestedIpAddress(offered_ip),
        r.options@[4] == ClientOption::ServerIdentifier(server_id),
{
    let mut msg = client_message(xid, chaddr, DHCP_REQUEST);
    msg.options.push(ClientOption::RequestedIpAddress(offered_ip));
    msg.options.push(ClientOption::ServerIdentifier(server_id));
    msg
}

/// The address an Offer proposes; an Offer without one is refused.
pub fn offered_ip(offer: &DhcpReply) -> (r: Result<u32, SrunError>)
    ensures
        offer.yiaddr != 0 ==> r == Ok::<u32, SrunError>(offer.yiaddr),
        offer.yiaddr == 0 ==> (r matches Err(SrunError::Dhcp(m))
            && m@ == "DHCP Offer did not include a usable offered IP address"@),
{
    if offer.yiaddr == 0 {
        return Err(SrunError::Dhcp(owned("DHCP Offer did not include a usable offered IP address")));
    }
    Ok(offer.yiaddr)
}

/// The server an Offer comes from; a missing or unspecified identifier is refused.
pub fn offer_server_id(offer: &DhcpReply) -> (r: Result<u32, SrunError>)
    ensures
        match offer.server_id {
            Some(ip) => if ip != 0 {
                r == Ok::<u32, SrunError>(ip)
            } else {
                r matches Err(SrunError::Dhcp(m)) && m@ == "DHCP Offer contained an unspecified Server Identifier"@
            },
            None => r matches Err(SrunError::Dhcp(m)) && m@ == "missing Server Identifier in Offer"@,
        },
{
    match offer.server_id {
        Some(ip) => if ip != 0 {
            Ok(ip)
        } else {
            Err(SrunError::Dhcp(owned("DHCP Offer contained an unspecified Server Identifier")))
        },
        None => Err(SrunError::Dhcp(owned("missing Server Identifier in Offer"))),
    }
}

/// The prefix length of `netmask` if it is contiguous (the empty mask has
/// prefix length 0).
pub fn netmask_prefix_len(netmask: u32) -> (r: Option<u8>)
    ensures
        match r {
            Some(k) => mask_prefix(netmask) == Some(k as nat),
            None => mask_prefix(netmask) is None,
        },
{
    contiguous_prefix(netmask)
}

/// The lease an Ack grants for the offered address, or why it cannot be used.
pub open spec fn lease_of(offered_ip: u32, ack: DhcpReply) -> Result<DhcpInfo, Seq<char>> {
    if offered_ip == 0 {
        Err("DHCP Offer did not include a usable offered IP address"@)
    } else {
        match ack.subnet_mask {
            None => Err("missing Subnet Mask in DHCP Ack"@),
            Some(mask) => if mask == 0 {
                Err("DHCP Ack contained an unspecified subnet mask"@)
            } else if mask_prefix(mask) is None {
                Err("DHCP Ack contained a non-contiguous subnet mask: "@ + ipv4_text(mask))
            } else {
                match ack.routers {
                    None => Err("missing Router in DHCP Ack"@),
                    Some(rs) => if rs@.len() == 0 {
                        Err("DHCP Ack contained an empty Router option"@)
                    } else if rs@[0] == 0 {
                        Err("DHCP Ack contained an unspecified router"@)
                    } else {
                        Ok(DhcpInfo { ip: offered_ip, netmask: mask, gateway: rs@[0] })
                    },
                }
            },
        }
    }
}

/// The lease granted for `offered_ip`: the Ack must carry a usable contiguous
/// netmask and a usable first router.
pub fn validated_lease(offered_ip: u32, ack: &DhcpReply) -> (r: Result<DhcpInfo, SrunError>)
    ensures
        match lease_of(offered_ip, *ack) {
            Ok(lease) => r == Ok::<DhcpInfo, SrunError>(lease),
            Err(m) => r matches Err(SrunError::Dhcp(e)) && e@ == m,
        },
{
    if offered_ip == 0 {
        return Err(SrunError::Dhcp(owned("DHCP Offer did not include a usable offered IP address")));
    }
    let netmask = match ack.subnet_mask {
        Some(mask) => {
            if mask == 0 {
                return Err(SrunError::Dhcp(owned("DHCP Ack contained an unspecified subnet mask")));
            }
            mask
        },
        None => {
            return Err(SrunError::Dhcp(owned("missing Subnet Mask in DHCP Ack")));
        },
    };
    if netmask_prefix_len(netmask).is_none() {
        let mut m = owned("DHCP Ack contained a non-contiguous subnet mask: ");
        let t = ipv4_string(netmask);
        m.append(t.as_str());
        return Err(SrunError::Dhcp(m));
    }
    let gateway = match &ack.routers {
        Some(routers) => {
            if routers.len() == 0 {
                return Err(SrunError::Dhcp(owned("DHCP Ack contained an empty Router option")));
            }
            routers[0]
        },
        None => {
            return Err(SrunError::Dhcp(owned("missing Router in DHCP Ack")));
        },
    };
    if gateway == 0 {
        return Err(SrunError::Dhcp(owned("DHCP Ack contained an unspecified router")));
    }
    Ok(DhcpInfo { ip: offered_ip, netmask, gateway })
}

/// What to do with a reply while waiting for a message of some type.
#[derive(PartialEq, Eq, Structural, Debug, Clone, Copy)]
pub enum ReplyDisposition {
    Accept,
    Reject,
    Ignore,
}

/// How a reply is treated while waiting for `expected_type` in transaction
/// `xid` of `chaddr`: another transaction or hardware address is ignored; the
/// expected type is accepted; a Nak rejects; anything else is ignored.
pub open spec fn disposition(msg: ReplyView, expected_type: u8, xid: u32, chaddr: Seq<u8>) -> ReplyDisposition {
    if msg.xid != xid || msg.chaddr != chaddr {
        ReplyDisposition::Ignore
    } else if msg.msg_type == Some(expected_type) {
        ReplyDisposition::Accept
    } else if msg.msg_type == Some(DHCP_NAK) {
        ReplyDisposition::Reject
    } else {
        ReplyDisposition::Ignore
    }
}

/// How a reply is treated once a server may have been chosen: with `selected`
/// naming the chosen server, a reply whose Server Identifier is not that server
/// is ignored; otherwise as `disposition`.
pub open spec fn disposition_from(msg: ReplyView, expected_type: u8, xid: u32, chaddr: Seq<u8>, selected: Option<u32>) -> ReplyDisposition {
    if selected is Some && msg.server_id != selected {
        ReplyDisposition::Ignore
    } else {
        disposition(msg, expected_type, xid, chaddr)
    }
}

/// Whether a reply's Server Identifier is `server`.
fn from_server(msg: &DhcpReply, server: u32) -> (r: bool)
    ensures
        r == (msg.server_id == Some(server)),
{
    match msg.server_id {
        Some(s) => s == server,
        None => false,
    }
}

fn bytes_eq(a: &[u8], b: &[u8]) -> (r: bool)
    ensures
        r == (a@ == b@),
{
    if a.len() != b.len() {
        return false;
    }
    let mut i: usize = 0;
    while i < a.len()
        invariant
            a.len() == b.len(),
            i <= a.len(),
            forall|k: int| 0 <= k < i ==> a@[k] == b@[k],
        decreases a.len() - i,
    {
        if a[i] != b[i] {
            return false;
        }
        i = i + 1;
    }
    assert(a@ =~= b@);
    true
}

/// How a reply is treated while waiting for `expected_type`.
pub fn classify_reply(msg: &DhcpReply, expected_type: u8, xid: u32, chaddr: &[u8]) -> (r: ReplyDisposition)
    ensures
        r == disposition(msg@, expected_type, xid, chaddr@),
{
    if msg.xid != xid || !bytes_eq(msg.chaddr.as_slice(), chaddr) {
        return ReplyDisposition::Ignore;
    }
    match msg.msg_type {
        Some(t) if t == expected_type => ReplyDisposition::Accept,
        Some(t) if t == DHCP_NAK => ReplyDisposition::Reject,
        _ => ReplyDisposition::Ignore,
    }
}

/// How a reply is treated while waiting for `expected_type`, ignoring any
/// reply that is not from the `selected` server when one has been chosen.
pub fn classify_reply_from(msg: &DhcpReply, expected_type: u8, xid: u32, chaddr: &[u8], selected: Option<u32>) -> (r: ReplyDisposition)
    ensures
        r == disposition_from(msg@, expected_type, xid, chaddr@, selected),
{
    match selected {
        Some(server) => if !from_server(msg, server) {
            return ReplyDisposition::Ignore;
        },
        None => {},
    }
    classify_reply(msg, expected_type, xid, chaddr)
}

/// The reason a Nak gives, or a generic one when it gives none.
pub open spec fn nak_reason_text(msg: DhcpReply) -> Seq<char> {
    match msg.message {
        Some(reason) => if !is_blank(reason@) {
            reason@
        } else {
            "the DHCP server rejected the requested address"@
        },
        None => "the DHCP server rejected the requested address"@,
    }
}

/// The reason a Nak gives.
pub fn nak_reason(msg: &DhcpReply) -> (r: String)
    ensures
        r@ == nak_reason_text(*msg),
{
    match &msg.message {
        Some(reason) if !blank(reason.as_str()) => reason.clone(),
        _ => owned("the DHCP server rejected the requested address"),
    }
}

/// The frame for an encoded client message: the encoding is framed if it fits
/// one packet; an encoder error is reported with its text.
pub fn frame_of_encoding(encoded: Result<Vec<u8>, String>, mac: &[u8; 6]) -> (r: Result<Vec<u8>, SrunError>)
    ensures
        match encoded {
            Ok(bytes) => if bytes@.len() <= MAX_DHCP_PAYLOAD {
                r matches Ok(f) && f@ == dhcp_frame_bytes(bytes@, mac@)
            } else {
                r matches Err(SrunError::PacketBuild)
            },
            Err(e) => r matches Err(SrunError::Dhcp(m)) && m@ == "DHCP encode error: "@ + e@,
        },
{
    match encoded {
        Ok(buf) => {
            if buf.len() > MAX_DHCP_PAYLOAD {
                return Err(SrunError::PacketBuild);
            }
            build_eth_ipv4_udp(buf.as_slice(), mac)
        },
        Err(e) => {
            let mut m = owned("DHCP encode error: ");
            m.append(e.as_str());
            Err(SrunError::Dhcp(m))
        },
    }
}

/// The frame that carries the client message `msg` from `mac`, or the
/// encoder's complaint.
pub fn dhcp_frame(msg: &DhcpRequest, mac: &[u8; 6]) -> (r: Result<Vec<u8>, SrunError>)
    ensures
        match dhcp_encoding(msg@) {
            Ok(bytes) => if bytes.len() <= MAX_DHCP_PAYLOAD {
                r matches Ok(f) && f@ == dhcp_frame_bytes(bytes, mac@)
            } else {
                r matches Err(SrunError::PacketBuild)
            },
            Err(e) => r matches Err(SrunError::Dhcp(m)) && m@ == "DHCP encode error: "@ + e,
        },
{
    frame_of_encoding(encode_dhcp(msg), mac)
}

/// What arrived while waiting for a reply.
pub enum ReceiveOutcome {
    Reply(DhcpReply),
    Nak(DhcpReply),
    Timeout,
}

/// How a received frame is read while waiting for `expected_type`: its DHCP
/// payload, decoded, kept if `disposition_from` accepts it (`false`) or rejects
/// it (`true`, a Nak). A payload whose hardware-address length exceeds 16 is
/// passed over.
pub open spec fn frame_outcome(frame: Seq<u8>, expected_type: u8, xid: u32, chaddr: Seq<u8>, selected: Option<u32>) -> Option<(bool, ReplyView)> {
    match dhcp_reply_payload(frame) {
        None => None,
        Some(p) => if p.len() > 2 && p[2] > 16 {
            None
        } else {
            match reply_decoding(p) {
                None => None,
                Some(msg) => match disposition_from(msg, expected_type, xid, chaddr, selected) {
                    ReplyDisposition::Accept => Some((false, msg)),
                    ReplyDisposition::Reject => Some((true, msg)),
                    ReplyDisposition::Ignore => None,
                },
            }
        },
    }
}

/// Whether a received outcome is the reading `o` of a frame.
pub open spec fn outcome_matches(r: Option<ReceiveOutcome>, o: Option<(bool, ReplyView)>) -> bool {
    match r {
        None => o is None,
        Some(ReceiveOutcome::Reply(m)) => o == Some((false, m@)),
        Some(ReceiveOutcome::Nak(m)) => o == Some((true, m@)),
        Some(ReceiveOutcome::Timeout) => false,
    }
}

/// Only replies of this transaction and hardware address, and from the chosen
/// server once there is one, settle a wait: an accepted reply has the awaited
/// type, a rejecting one is a Nak.
pub proof fn lemma_settling_replies_belong_to_the_exchange(frame: Seq<u8>, expected_type: u8, xid: u32, chaddr: Seq<u8>, selected: Option<u32>)
    requires
        frame_outcome(frame, expected_type, xid, chaddr, selected) is Some,
    ensures
        ({
            let (nak, msg) = frame_outcome(frame, expected_type, xid, chaddr, selected)->0;
            &&& msg.xid == xid
            &&& msg.chaddr == chaddr
            &&& selected is Some ==> msg.server_id == selected
            &&& !nak ==> msg.msg_type == Some(expected_type)
            &&& nak ==> msg.msg_type == Some(DHCP_NAK)
        }),
{
}

/// Reads a received frame while waiting for `expected_type` before any server
/// has been chosen; `None` when the frame is not a reply of this transaction
/// that settles the wait.
pub fn inspect_frame(frame: &[u8], expected_type: u8, xid: u32, chaddr: &[u8]) -> (r: Option<ReceiveOutcome>)
    ensures
        outcome_matches(r, frame_outcome(frame@, expected_type, xid, chaddr@, None)),
{
    inspect_frame_from(frame, expected_type, xid, chaddr, None)
}

/// Reads a received frame while waiting for `expected_type`; `None` when the
/// frame is not a reply of this transaction, from the `selected` server when one
/// has been chosen, that settles the wait.
pub fn inspect_frame_from(frame: &[u8], expected_type: u8, xid: u32, chaddr: &[u8], selected: Option<u32>) -> (r: Option<ReceiveOutcome>)
    ensures
        outcome_matches(r, frame_outcome(frame@, expected_type, xid, chaddr@, selected)),
{
    let payload = match dhcp_payload_of_frame(frame) {
        Some(p) => p,
        None => return None,
    };
    if payload.len() > 2 && payload[2] > 16 {
        return None;
    }
    let msg = match decode_reply(payload.as_slice()) {
        Some(m) => m,
        None => return None,
    };
    match classify_reply_from(&msg, expected_type, xid, chaddr, selected) {
        ReplyDisposition::Accept => Some(ReceiveOutcome::Reply(msg)),
        ReplyDisposition::Reject => Some(ReceiveOutcome::Nak(msg)),
        ReplyDisposition::Ignore => None,
    }
}

/// Where an exchange stands.
#[derive(PartialEq, Eq, Structural, Debug, Clone, Copy)]
pub enum ExchangePhase {
    Discovering,
    Requesting,
    Finished,
}

/// What the caller does next: send a message, keep waiting for the reply to
/// the message already sent, or stop with the lease or the reason there is none.
pub enum DhcpStep {
    Send(DhcpRequest),
    Wait,
    Done(Result<DhcpInfo, SrunError>),
}

/// A DHCP exchange: Discover until an Offer arrives, then Request until an Ack
/// arrives, each sent at most `MAX_RETRIES` times.
pub struct DhcpExchange {
    xid: u32,
    chaddr: Vec<u8>,
    phase: ExchangePhase,
    attempts: u32,
    offered_ip: u32,
    server_id: u32,
}

impl DhcpExchange {
    /// The transaction ID.
    pub closed spec fn xid_spec(&self) -> u32 {
        self.xid
    }

    /// The client's hardware address.
    pub closed spec fn chaddr_spec(&self) -> Seq<u8> {
        self.chaddr@
    }

    /// The current phase.
    pub closed spec fn phase_spec(&self) -> ExchangePhase {
        self.phase
    }

    /// How many times the current phase's message has been sent.
    pub closed spec fn attempts_spec(&self) -> u32 {
        self.attempts
    }

    /// The address and server of the accepted Offer (meaningful once requesting).
    pub closed spec fn offer_spec(&self) -> (u32, u32) {
        (self.offered_ip, self.server_id)
    }

    /// The exchange's consistency: a live phase has sent its message between
    /// one and `MAX_RETRIES` times.
    pub open spec fn wf(&self) -> bool {
        self.phase_spec() != ExchangePhase::Finished ==> 1 <= self.attempts_spec() <= MAX_RETRIES
    }

    /// The transaction ID.
    pub fn xid(&self) -> (r: u32)
        ensures
            r == self.xid_spec(),
    {
        self.xid
    }

    /// The client's hardware address.
    pub fn chaddr(&self) -> (r: &Vec<u8>)
        ensures
            r@ == self.chaddr_spec(),
    {
        &self.chaddr
    }

    /// The current phase.
    pub fn phase(&self) -> (r: ExchangePhase)
        ensures
            r == self.phase_spec(),
    {
        self.phase
    }

    /// The message type the exchange waits for: an Offer, then an Ack.
    pub fn expected_type(&self) -> (r: u8)
        ensures
            self.phase_spec() == ExchangePhase::Discovering ==> r == DHCP_OFFER,
            self.phase_spec() != ExchangePhase::Discovering ==> r == DHCP_ACK,
    {
        if self.phase == ExchangePhase::Discovering {
            DHCP_OFFER
        } else {
            DHCP_ACK
        }
    }

    /// Starts an exchange under a random transaction ID; the Discover to send
    /// comes with it.
    pub fn start(chaddr: Vec<u8>) -> (r: (DhcpExchange, DhcpRequest))
        ensures
            r.0.wf(),
            r.0.chaddr_spec() == chaddr@,
            r.0.phase_spec() == ExchangePhase::Discovering,
            r.0.attempts_spec() == 1,
            is_client_message(r.1, r.0.xid_spec(), chaddr@, DHCP_DISCOVER, 0),
    {
        let xid = random_u32();
        let discover = discover_message(xid, &chaddr);
        (DhcpExchange { xid, chaddr, phase: ExchangePhase::Discovering, attempts: 1, offered_ip: 0, server_id: 0 }, discover)
    }

    /// Takes what arrived while waiting and decides the next step. An Offer
    /// with a usable address and server moves on to the Request; while
    /// requesting, a reply or Nak that does not name the chosen server is
    /// ignored and the wait goes on; an Ack ends with the validated lease; a Nak
    /// ends with its reason; a timeout resends until the phase has sent
    /// `MAX_RETRIES` messages, then ends.
    pub fn on_outcome(&mut self, outcome: ReceiveOutcome) -> (step: DhcpStep)
        requires
            old(self).wf(),
            old(self).phase_spec() != ExchangePhase::Finished,
        ensures
            final(self).wf(),
            final(self).xid_spec() == old(self).xid_spec(),
            final(self).chaddr_spec() == old(self).chaddr_spec(),
            step is Done <==> final(self).phase_spec() == ExchangePhase::Finished,
            match outcome {
                ReceiveOutcome::Nak(msg) => if old(self).phase_spec() == ExchangePhase::Requesting
                    && msg.server_id != Some(old(self).offer_spec().1) {
                    step is Wait && *final(self) == *old(self)
                } else {
                    step matches DhcpStep::Done(Err(SrunError::DhcpRejected(m))) && m@ == nak_reason_text(msg)
                },
                ReceiveOutcome::Timeout => if old(self).attempts_spec() < MAX_RETRIES {
                    final(self).phase_spec() == old(self).phase_spec()
                        && final(self).attempts_spec() == old(self).attempts_spec() + 1
                        && final(self).offer_spec() == old(self).offer_spec()
                        && (step matches DhcpStep::Send(req) && if old(self).phase_spec() == ExchangePhase::Discovering {
                        is_client_message(req, old(self).xid_spec(), old(self).chaddr_spec(), DHCP_DISCOVER, 0)
                    } else {
                        is_client_message(req, old(self).xid_spec(), old(self).chaddr_spec(), DHCP_REQUEST, 2)
                            && req.options@[3] == ClientOption::RequestedIpAddress(old(self).offer_spec().0)
                            && req.options@[4] == ClientOption::ServerIdentifier(old(self).offer_spec().1)
                    })
                } else {
                    step matches DhcpStep::Done(Err(SrunError::DhcpTimeout { phase, attempts }))
                        && attempts == MAX_RETRIES && phase@ == (if old(self).phase_spec() == ExchangePhase::Discovering {
                        "offer"@
                    } else {
                        "ack"@
                    })
                },
                ReceiveOutcome::Reply(msg) => if old(self).phase_spec() == ExchangePhase::Discovering {
                    if msg.yiaddr == 0 {
                        step matches DhcpStep::Done(Err(SrunError::Dhcp(m)))
                            && m@ == "DHCP Offer did not include a usable offered IP address"@
                    } else {
                        match msg.server_id {
                            Some(sid) if sid != 0 => final(self).phase_spec() == ExchangePhase::Requesting
                                && final(self).attempts_spec() == 1 && final(self).offer_spec() == (msg.yiaddr, sid)
                                && (step matches DhcpStep::Send(req) && is_client_message(req, old(self).xid_spec(), old(self).chaddr_spec(), DHCP_REQUEST, 2)
                                && req.options@[3] == ClientOption::RequestedIpAddress(msg.yiaddr)
                                && req.options@[4] == ClientOption::ServerIdentifier(sid)),
                            Some(_) => step matches DhcpStep::Done(Err(SrunError::Dhcp(m)))
                                && m@ == "DHCP Offer contained an unspecified Server Identifier"@,
                            None => step matches DhcpStep::Done(Err(SrunError::Dhcp(m)))
                                && m@ == "missing Server Identifier in Offer"@,
                        }
                    }
                } else if msg.server_id != Some(old(self).offer_spec().1) {
                    step is Wait && *final(self) == *old(self)
                } else {
                    match lease_of(old(self).offer_spec().0, msg) {
                        Ok(lease) => step matches DhcpStep::Done(Ok(l)) && l == lease,
                        Err(m) => step matches DhcpStep::Done(Err(SrunError::Dhcp(e))) && e@ == m,
                    }
                },
            },
    {
        match outcome {
            ReceiveOutcome::Nak(msg) => {
                if self.phase == ExchangePhase::Requesting && !from_server(&msg, self.server_id) {
                    return DhcpStep::Wait;
                }
                self.phase = ExchangePhase::Finished;
                DhcpStep::Done(Err(SrunError::DhcpRejected(nak_reason(&msg))))
            },
            ReceiveOutcome::Timeout => {
                if self.attempts < MAX_RETRIES {
                    self.attempts = self.attempts + 1;
                    if self.phase == ExchangePhase::Discovering {
                        DhcpStep::Send(discover_message(self.xid, &self.chaddr))
                    } else {
                        DhcpStep::Send(request_message(self.xid, &self.chaddr, self.offered_ip, self.server_id))
                    }
                } else {
                    let phase = if self.phase == ExchangePhase::Discovering { "offer" } else { "ack" };
                    self.phase = ExchangePhase::Finished;
                    DhcpStep::Done(Err(SrunError::DhcpTimeout { phase, attempts: MAX_RETRIES }))
                }
            },
            ReceiveOutcome::Reply(msg) => {
                if self.phase == ExchangePhase::Discovering {
                    let ip = match offered_ip(&msg) {
                        Ok(ip) => ip,
                        Err(e) => {
                            self.phase = ExchangePhase::Finished;
                            return DhcpStep::Done(Err(e));
                        },
                    };
                    let sid = match offer_server_id(&msg) {
                        Ok(sid) => sid,
                        Err(e) => {
                            self.phase = ExchangePhase::Finished;
                            return DhcpStep::Done(Err(e));
                        },
                    };
                    self.offered_ip = ip;
                    self.server_id = sid;
                    self.phase = ExchangePhase::Requesting;
                    self.attempts = 1;
                    DhcpStep::Send(request_message(self.xid, &self.chaddr, ip, sid))
                } else {
                    if !from_server(&msg, self.server_id) {
                        return DhcpStep::Wait;
                    }
                    self.phase = ExchangePhase::Finished;
                    DhcpStep::Done(validated_lease(self.offered_ip, &msg))
                }
            },
        }
    }

    /// Reads a received frame against what this exchange waits for: an Offer
    /// from any server, then an Ack or Nak from the server of the accepted Offer.
    pub fn inspect(&self, frame: &[u8]) -> (r: Option<ReceiveOutcome>)
        ensures
            self.phase_spec() == ExchangePhase::Discovering ==> outcome_matches(
                r,
                frame_outcome(frame@, DHCP_OFFER, self.xid_spec(), self.chaddr_spec(), None),
            ),
            self.phase_spec() != ExchangePhase::Discovering ==> outcome_matches(
                r,
                frame_outcome(frame@, DHCP_ACK, self.xid_spec(), self.chaddr_spec(), Some(self.offer_spec().1)),
            ),
    {
        let expected = self.expected_type();
        let selected = if self.phase == ExchangePhase::Discovering {
            None
        } else {
            Some(self.server_id)
        };
        inspect_frame_from(frame, expected, self.xid, self.chaddr.as_slice(), selected)
    }
}

} // verus!
