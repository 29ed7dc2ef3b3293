use vstd::prelude::*;
use vstd::string::StringSliceAdditionalSpecFns;

verus! {

/// Octets of an IPv4 header as the raw socket delivers it.
pub const IPV4_HEADER_LEN: usize = 20;

/// Octets of the EoIP header.
pub const EOIP_HEADER_LEN: usize = 8;

/// Total length of a keepalive datagram: IPv4 header and EoIP header only.
pub const KEEPALIVE_LEN: usize = 28;

/// Why a header template was refused.
#[derive(Clone, Copy, Debug, PartialEq, Eq, Structural)]
pub enum ConfigError {
    /// The text is not hexadecimal.
    InvalidHex,
    /// The text decodes, but not to eight octets.
    WrongLength,
}

/// Why a datagram was refused.
#[derive(Clone, Copy, Debug, PartialEq, Eq, Structural)]
pub enum PacketError {
    /// Shorter than an IPv4 header followed by an EoIP header.
    Malformed,
}

/// The unsigned 16-bit value of two octets in little-endian order.
pub open spec fn le_u16(lo: u8, hi: u8) -> u16 {
    (lo as int + 256 * (hi as int)) as u16
}

/// The tunnel-id carried by a received datagram (octets 26 and 27).
pub open spec fn tunnel_id_of(datagram: Seq<u8>) -> u16
    recommends
        datagram.len() >= 28,
{
    le_u16(datagram[26], datagram[27])
}

/// The IPv4 source address of a received datagram (octets 12 to 15), as the
/// big-endian number that the dotted form writes.
pub open spec fn source_of(datagram: Seq<u8>) -> u32
    recommends
        datagram.len() >= 16,
{
    (datagram[12] as int * 0x1000000 + datagram[13] as int * 0x10000 + datagram[14] as int
        * 0x100 + datagram[15] as int) as u32
}

/// A header with `id` written at octets 6 and 7, little-endian.
pub open spec fn stamped(header: Seq<u8>, id: u16) -> Seq<u8> {
    header.update(6, (id % 256) as u8).update(7, (id / 256) as u8)
}

/// The octets of `datagram` from `from` to its end; none where it is shorter.
pub open spec fn tail_from(datagram: Seq<u8>, from: int) -> Seq<u8> {
    if datagram.len() >= from {
        datagram.subrange(from, datagram.len() as int)
    } else {
        Seq::empty()
    }
}

/// Writes `id` into octets 6 and 7 of `header`, little-endian.
pub fn stamp_tunnel_id(header: &mut Vec<u8>, id: u16)
    requires
        old(header)@.len() >= 8,
    ensures
        final(header)@ == stamped(old(header)@, id),
{
    header[6] = (id % 256) as u8;
    header[7] = (id / 256) as u8;
}

/// Reads the tunnel-id of a received datagram.
pub fn extract_tunnel_id(datagram: &[u8]) -> (r: Result<u16, PacketError>)
    ensures
        datagram@.len() < KEEPALIVE_LEN ==> r == Err::<u16, PacketError>(PacketError::Malformed),
        datagram@.len() >= KEEPALIVE_LEN ==> r == Ok::<u16, PacketError>(tunnel_id_of(datagram@)),
{
    if datagram.len() < KEEPALIVE_LEN {
        return Err(PacketError::Malformed);
    }
    Ok((datagram[26] as u16) + (datagram[27] as u16) * 256)
}

/// Reads the IPv4 source address of a received datagram.
pub fn source_address(datagram: &[u8]) -> (r: u32)
    requires
        datagram@.len() >= 16,
    ensures
        r == source_of(datagram@),
{
    (datagram[12] as u32) * 0x1000000 + (datagram[13] as u32) * 0x10000 + (datagram[14] as u32)
        * 0x100 + (datagram[15] as u32)
}

/// The octets of `datagram` from `from` to its end.
pub fn copy_tail(datagram: &[u8], from: usize) -> (r: Vec<u8>)
    ensures
        r@ == tail_from(datagram@, from as int),
{
    let mut r: Vec<u8> = Vec::new();
    if datagram.len() < from {
        return r;
    }
    let mut i: usize = from;
    while i < datagram.len()
        invariant
            from <= i <= datagram@.len(),
            r@ == datagram@.subrange(from as int, i as int),
        decreases datagram@.len() - i,
    {
        r.push(datagram[i]);
        i = i + 1;
    }
    r
}

/// The Ethernet payload of a received datagram: octets 28 to its end, none
/// for a keepalive or a shorter datagram.
pub fn payload_slice(datagram: &[u8]) -> (r: Vec<u8>)
    ensures
        r@ == tail_from(datagram@, KEEPALIVE_LEN as int),
{
    copy_tail(datagram, KEEPALIVE_LEN)
}

/// Stamping a tunnel-id into an eight-octet header and reading it back from
/// the keepalive made of any IPv4 header and that header gives the id.
pub proof fn lemma_stamp_then_extract(template: Seq<u8>, ip_header: Seq<u8>, id: u16)
    requires
        template.len() == 8,
        ip_header.len() == 20,
    ensures
        (ip_header + stamped(template, id)).len() == KEEPALIVE_LEN,
        tunnel_id_of(ip_header + stamped(template, id)) == id,
{
    let d = ip_header + stamped(template, id);
    assert(d[26] == stamped(template, id)[6]);
    assert(d[27] == stamped(template, id)[7]);
}

/// Space, tab, line feed or carriage return.
pub open spec fn is_whitespace(b: u8) -> bool {
    b == 32 || b == 9 || b == 10 || b == 13
}

/// `text` with its whitespace octets left out.
pub open spec fn without_whitespace(text: Seq<u8>) -> Seq<u8>
    decreases text.len(),
{
    if text.len() == 0 {
        Seq::empty()
    } else if is_whitespace(text.last()) {
        without_whitespace(text.drop_last())
    } else {
        without_whitespace(text.drop_last()).push(text.last())
    }
}

/// What hexadecimal text decodes to, if it is valid.
pub uninterp spec fn hex_decoding(text: Seq<u8>) -> Option<Seq<u8>>;

/// hexhex::FromHexError, carried opaquely from the decoder and mapped to
/// `ConfigError::InvalidHex`.
#[verifier::external_type_specification]
#[verifier::external_body]
pub struct ExFromHexError(hexhex::FromHexError);

/// Relies on hexhex::decode_ascii: whether the text decodes, and to what,
/// depends on the text alone.
#[verifier::external_body]
fn decode_hex(text: &[u8]) -> (r: Result<Vec<u8>, hexhex::FromHexError>)
    ensures
        match r {
            Ok(bytes) => hex_decoding(text@) == Some(bytes@),
            Err(_) => hex_decoding(text@) is None,
        },
{
    hexhex::decode_ascii(text)
}

/// Whether `r` is the header template that `decoded` gives: the decoded
/// octets when there are eight of them.
pub open spec fn is_template_of(decoded: Option<Seq<u8>>, r: Result<Vec<u8>, ConfigError>) -> bool {
    match decoded {
        Some(bytes) => if bytes.len() == 8 {
            r is Ok && r->Ok_0@ == bytes
        } else {
            r == Err::<Vec<u8>, ConfigError>(ConfigError::WrongLength)
        },
        None => r == Err::<Vec<u8>, ConfigError>(ConfigError::InvalidHex),
    }
}

/// Leaves out the whitespace octets of `text`.
pub fn strip_whitespace(text: &[u8]) -> (r: Vec<u8>)
    ensures
        r@ == without_whitespace(text@),
{
    let mut r: Vec<u8> = Vec::new();
    let mut i: usize = 0;
    while i < text.len()
        invariant
            i <= text@.len(),
            r@ == without_whitespace(text@.subrange(0, i as int)),
        decreases text@.len() - i,
    {
        let b = text[i];
        proof {
            let next = text@.subrange(0, i + 1);
            assert(next.drop_last() == text@.subrange(0, i as int));
            assert(next.last() == b);
        }
        if !(b == 32 || b == 9 || b == 10 || b == 13) {
            r.push(b);
        }
        i = i + 1;
    }
    assert(text@.subrange(0, text@.len() as int) == text@);
    r
}

/// The header template given by the decoded configuration text: accepted
/// when it is eight octets long.
pub fn template_from_decoded(decoded: Option<Vec<u8>>) -> (r: Result<Vec<u8>, ConfigError>)
    ensures
        is_template_of(
            match decoded {
                Some(b) => Some(b@),
                None => None,
            },
            r,
        ),
{
    match decoded {
        Some(bytes) => if bytes.len() == EOIP_HEADER_LEN {
            Ok(bytes)
        } else {
            Err(ConfigError::WrongLength)
        },
        None => Err(ConfigError::InvalidHex),
    }
}

/// Builds the EoIP header template from its hexadecimal text, whitespace
/// ignored.
pub fn build_header_template(hex: &str) -> (r: Result<Vec<u8>, ConfigError>)
    ensures
        is_template_of(hex_decoding(without_whitespace(hex.spec_bytes())), r),
{
    let text = strip_whitespace(hex.as_bytes());
    let decoded = match decode_hex(text.as_slice()) {
        Ok(bytes) => Some(bytes),
        Err(_) => None,
    };
    template_from_decoded(decoded)
}

/// The EoIP header of tunnel `id`: the template with the id stamped in. It
/// is also the whole keepalive frame.
pub fn tunnel_header(template: &Vec<u8>, id: u16) -> (r: Vec<u8>)
    requires
        template@.len() == 8,
    ensures
        r@ == stamped(template@, id),
{
    let mut r = template.clone();
    stamp_tunnel_id(&mut r, id);
    r
}

/// An Ethernet frame read from a TAP device, with the tunnel's header in
/// front, as it is sent to the peer.
pub fn encapsulate(header: &[u8], frame: &[u8]) -> (r: Vec<u8>)
    ensures
        r@ == header@ + frame@,
{
    let mut r = copy_tail(header, 0);
    let mut i: usize = 0;
    while i < frame.len()
        invariant
            i <= frame@.len(),
            r@ == header@ + frame@.subrange(0, i as int),
        decreases frame@.len() - i,
    {
        r.push(frame[i]);
        i = i + 1;
    }
    assert(frame@.subrange(0, frame@.len() as int) == frame@);
    r
}

} // verus!
