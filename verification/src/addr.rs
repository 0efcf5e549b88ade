//! Socket addresses, and the form in which they cross the capability
//! interface.
//!
//! On the interface an IPv4 address is a `u32` and a port a `u16`, both laid
//! out most significant byte first in the memory of a little-endian plugin.
//! As numbers they are therefore the byte-reversed address and port.

use vstd::prelude::*;

verus! {

/// An IPv4 socket address on the capability interface.
#[derive(Clone, Copy, Debug, PartialEq, Eq, Structural)]
pub struct Addr {
    pub addr: u32,
    pub port: u16,
}

/// An IP address. An IPv4 address is its four octets read as one number, the
/// first octet most significant; an IPv6 address likewise with sixteen.
#[derive(Clone, Copy, Debug, PartialEq, Eq, Structural)]
pub enum IpAddr {
    V4(u32),
    V6(u128),
}

/// An IP address with a port.
#[derive(Clone, Copy, Debug, PartialEq, Eq, Structural)]
pub struct SocketAddr {
    pub ip: IpAddr,
    pub port: u16,
}

/// The octet of `bits` at `index`, counting from the most significant.
pub open spec fn octet(bits: u32, index: int) -> u8 {
    ((bits >> ((3 - index) * 8) as u32) & 0xff) as u8
}

/// A 32-bit number with its four bytes in reverse order.
pub open spec fn reversed32(x: u32) -> u32 {
    ((x & 0xff) << 24) | ((x & 0xff00) << 8) | ((x >> 8) & 0xff00) | (x >> 24)
}

/// A 16-bit number with its two bytes in reverse order.
pub open spec fn reversed16(x: u16) -> u16 {
    ((x & 0xff) << 8) | (x >> 8)
}

/// Reverses the four bytes of `x`.
pub fn reverse32(x: u32) -> (r: u32)
    ensures
        r == reversed32(x),
{
    ((x & 0xff) << 24) | ((x & 0xff00) << 8) | ((x >> 8) & 0xff00) | (x >> 24)
}

/// Reverses the two bytes of `x`.
pub fn reverse16(x: u16) -> (r: u16)
    ensures
        r == reversed16(x),
{
    ((x & 0xff) << 8) | (x >> 8)
}

impl Addr {
    /// The interface form of the IPv4 address `bits` with `port`.
    pub open spec fn spec_encode(bits: u32, port: u16) -> Addr {
        Addr { addr: reversed32(bits), port: reversed16(port) }
    }

    /// The socket address that this interface form stands for.
    pub open spec fn spec_decode(self) -> SocketAddr {
        SocketAddr { ip: IpAddr::V4(reversed32(self.addr)), port: reversed16(self.port) }
    }

    /// Puts an IPv4 address and a port into interface form.
    pub fn encode(bits: u32, port: u16) -> (addr: Addr)
        ensures
            addr == Addr::spec_encode(bits, port),
    {
        Addr { addr: reverse32(bits), port: reverse16(port) }
    }

    /// Reads an interface form back into a socket address; it is always an
    /// IPv4 address.
    pub fn decode(&self) -> (addr: SocketAddr)
        ensures
            addr == self.spec_decode(),
    {
        SocketAddr { ip: IpAddr::V4(reverse32(self.addr)), port: reverse16(self.port) }
    }
}

/// Reversing the bytes twice gives the number back.
pub proof fn lemma_reversed32_involution(x: u32)
    ensures
        reversed32(reversed32(x)) == x,
{
    assert(reversed32(reversed32(x)) == x) by (bit_vector);
}

/// Reversing the bytes twice gives the number back.
pub proof fn lemma_reversed16_involution(x: u16)
    ensures
        reversed16(reversed16(x)) == x,
{
    assert(reversed16(reversed16(x)) == x) by (bit_vector);
}

/// The least significant byte of the interface form is the first octet of the
/// address, and so on to the most significant, which is the last.
pub proof fn lemma_reversed32_octets(bits: u32)
    ensures
        reversed32(bits) & 0xff == octet(bits, 0),
        (reversed32(bits) >> 8) & 0xff == octet(bits, 1),
        (reversed32(bits) >> 16) & 0xff == octet(bits, 2),
        (reversed32(bits) >> 24) & 0xff == octet(bits, 3),
{
    assert(reversed32(bits) & 0xff == ((bits >> 24u32) & 0xff) as u8) by (bit_vector);
    assert((reversed32(bits) >> 8) & 0xff == ((bits >> 16u32) & 0xff) as u8) by (bit_vector);
    assert((reversed32(bits) >> 16) & 0xff == ((bits >> 8u32) & 0xff) as u8) by (bit_vector);
    assert((reversed32(bits) >> 24) & 0xff == ((bits >> 0u32) & 0xff) as u8) by (bit_vector);
}

/// Decoding an encoded IPv4 address and port gives them back.
pub proof fn lemma_decode_encode(bits: u32, port: u16)
    ensures
        Addr::spec_encode(bits, port).spec_decode() == (SocketAddr {
            ip: IpAddr::V4(bits),
            port,
        }),
{
    lemma_reversed32_involution(bits);
    lemma_reversed16_involution(port);
}

/// Encoding what an interface form decodes to gives the form back.
pub proof fn lemma_encode_decode(addr: Addr)
    ensures
        addr.spec_decode().ip == IpAddr::V4(reversed32(addr.addr)),
        Addr::spec_encode(reversed32(addr.addr), addr.spec_decode().port) == addr,
{
    lemma_reversed32_involution(addr.addr);
    lemma_reversed16_involution(addr.port);
}

} // verus!
