use vstd::prelude::*;
use crate::aead::{
    is_sealing_of, lemma_sealed_frame_is_sealing, open_frame, random_nonce, seal_with_nonce,
    sealed_frame,
};
use crate::packet_decoder::PacketDecoder;
use crate::packet_encoder::PacketEncoder;
use crate::registry::{lookup_tunnel, lookup_udp, Endpoint, SessionRegistry};
use crate::wire::{decode_bytes, encode_primitive, u32_from_be, Primitive};

verus! {

/// The largest datagram or tunnel frame that is forwarded; longer ones are
/// dropped.
pub const MAX_FRAME_LEN: usize = 2048;

/// The destination address of an IPv4 packet: header bytes 16..20, network
/// order. `None` for a frame too short for an IPv4 header or of another version.
pub open spec fn ipv4_destination_of(frame: Seq<u8>) -> Option<u32> {
    if frame.len() >= 20 && (frame[0] >> 4u8) == 4u8 {
        Some(u32_from_be(frame[16], frame[17], frame[18], frame[19]))
    } else {
        None
    }
}

/// The IP frame that an inbound datagram from `source` carries: the datagram
/// must fit the buffer, come from a registered UDP endpoint, open under that
/// session's key, and hold a `string`.
pub open spec fn inbound_frame(
    entries: Seq<(crate::registry::SessionIdentity, crate::session_payload::SessionPayload)>,
    datagram: Seq<u8>,
    source: Endpoint,
) -> Option<Seq<u8>> {
    if datagram.len() > MAX_FRAME_LEN {
        None
    } else {
        match lookup_udp(entries, source) {
            Some((_, payload)) => match payload.less_safe_key {
                Some(k) => match open_frame(k@, datagram) {
                    Some(plain) => match decode_bytes(plain) {
                        Some((frame, _)) => Some(frame),
                        None => None,
                    },
                    None => None,
                },
                None => None,
            },
            None => None,
        }
    }
}

/// Where an outbound tunnel frame goes: the UDP endpoint of the session whose
/// tunnel address is the frame's IPv4 destination, with that session's key and
/// the plaintext to seal (the frame as a `string`).
pub open spec fn outbound_route(
    entries: Seq<(crate::registry::SessionIdentity, crate::session_payload::SessionPayload)>,
    frame: Seq<u8>,
) -> Option<(Endpoint, Seq<u8>, Seq<u8>)> {
    if frame.len() > MAX_FRAME_LEN {
        None
    } else {
        match ipv4_destination_of(frame) {
            Some(dst) => match lookup_tunnel(entries, dst) {
                Some((id, payload)) => match payload.less_safe_key {
                    Some(k) => Some((id.udp, k@, encode_primitive(Primitive::Bytes(frame)))),
                    None => None,
                },
                None => None,
            },
            None => None,
        }
    }
}

/// Reads the IPv4 destination address of a tunnel frame.
pub fn ipv4_destination(frame: &[u8]) -> (r: Option<u32>)
    ensures
        r == ipv4_destination_of(frame@),
{
    if frame.len() < 20 || (frame[0] >> 4u8) != 4u8 {
        return None;
    }
    Some(((frame[16] as u32) << 24u32) | ((frame[17] as u32) << 16u32) | ((frame[18] as u32) << 8u32)
        | (frame[19] as u32))
}

/// Inbound step: the IP frame to write to the tunnel for a datagram received
/// from `source`, or `None` when the datagram is dropped.
pub fn route_inbound(registry: &SessionRegistry, datagram: &[u8], source: Endpoint) -> (r: Option<Vec<u8>>)
    ensures
        r is Some == inbound_frame(registry@, datagram@, source) is Some,
        r matches Some(f) ==> inbound_frame(registry@, datagram@, source) == Some(f@),
{
    if datagram.len() > MAX_FRAME_LEN {
        return None;
    }
    let key = match registry.find_by_udp_endpoint(source) {
        Some((_, payload)) => match payload.less_safe_key() {
            Some(k) => k,
            None => return None,
        },
        None => return None,
    };
    let mut packet = match PacketDecoder::new(datagram, Some(key)) {
        Some(d) => d,
        None => return None,
    };
    packet.read_string()
}

/// Outbound step with a given nonce: the client endpoint and the sealed
/// datagram for a frame read from the tunnel, or `None` when it is dropped.
pub fn route_outbound_with_nonce(registry: &SessionRegistry, frame: &[u8], nonce: [u8; 12]) -> (r: Option<(Endpoint, Vec<u8>)>)
    ensures
        r is Some == outbound_route(registry@, frame@) is Some,
        r matches Some((ep, d)) ==> (outbound_route(registry@, frame@) matches Some((to, k, plain))
            && ep == to && d@ == sealed_frame(k, nonce@, plain)),
{
    if frame.len() > MAX_FRAME_LEN {
        return None;
    }
    let dst = match ipv4_destination(frame) {
        Some(d) => d,
        None => return None,
    };
    let (to, key) = match registry.find_by_tunnel_ipv4(dst) {
        Some((id, payload)) => match payload.less_safe_key() {
            Some(k) => (id.udp, k),
            None => return None,
        },
        None => return None,
    };
    let mut packet = PacketEncoder::new();
    packet.write_string(frame);
    let plain = match packet.to_bytes(None) {
        Some(b) => b,
        None => return None,
    };
    Some((to, seal_with_nonce(&key, nonce, plain.as_slice())))
}

/// Outbound step: as `route_outbound_with_nonce`, with a fresh random nonce.
/// A frame is also dropped when no nonce could be had.
pub fn route_outbound(registry: &SessionRegistry, frame: &[u8]) -> (r: Option<(Endpoint, Vec<u8>)>)
    ensures
        outbound_route(registry@, frame@) is None ==> r is None,
        r matches Some((ep, d)) ==> (outbound_route(registry@, frame@) matches Some((to, k, plain))
            && ep == to && is_sealing_of(k, d@, plain)),
{
    match random_nonce() {
        Some(nonce) => {
            let r = route_outbound_with_nonce(registry, frame, nonce);
            proof {
                if r is Some {
                    let route = outbound_route(registry@, frame@)->0;
                    lemma_sealed_frame_is_sealing(route.1, nonce@, route.2);
                }
            }
            r
        },
        None => None,
    }
}

} // verus!
