//! Construction of the downstream OSC datagrams.
//!
//! A decoded state change goes out as one OSC message — an address
//! string and a typed argument — serialised into the bytes of one UDP
//! datagram. The serialisation itself is rosc's; sending the datagram is
//! transport work outside the library.

use vstd::prelude::*;

verus! {

/// The OSC serialisation of a message carrying one boolean argument at
/// an address.
pub uninterp spec fn osc_bool_encoding(address: Seq<char>, value: bool) -> Seq<u8>;

/// Relies on rosc::encoder::encode: the OSC serialisation of a message
/// packet is a function of its address and arguments alone, and encoding
/// into a byte vector cannot fail.
#[verifier::external_body]
fn encode_bool_packet(address: &String, value: bool) -> (r: Vec<u8>)
    ensures
        r@ == osc_bool_encoding(address@, value),
{
    let packet = rosc::OscPacket::Message(rosc::OscMessage {
        addr: address.clone(),
        args: vec![rosc::OscType::Bool(value)],
    });
    rosc::encoder::encode(&packet).unwrap()
}

/// The UDP datagram that reports a boolean value at an OSC address.
pub fn osc_bool_datagram(address: &String, value: bool) -> (r: Vec<u8>)
    ensures
        r@ == osc_bool_encoding(address@, value),
{
    encode_bool_packet(address, value)
}

} // verus!
