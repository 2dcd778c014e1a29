//! IPv4 socket addresses as plain values, and the codec between the
//! family-specific payload bytes and a `(port, ip)` pair.

use vstd::prelude::*;

verus! {

/// The address family whose payload layout is understood (`AF_INET`).
pub const AF_INET: u16 = 2;

/// The four bytes of the low 32 bits of `u`, most significant first.
pub open spec fn ip_of(u: int) -> Seq<u8> {
    seq![
        ((u / 0x100_0000) % 256) as u8,
        ((u / 0x1_0000) % 256) as u8,
        ((u / 0x100) % 256) as u8,
        (u % 256) as u8,
    ]
}

/// The number that four address bytes denote, most significant first.
pub open spec fn ip_value(ip: Seq<u8>) -> int {
    ip[0] as int * 0x100_0000 + ip[1] as int * 0x1_0000 + ip[2] as int * 0x100 + ip[3] as int
}

/// The `AF_INET` payload for `(port, ip)`: the port in network order, the
/// address, then eight zero bytes of padding.
pub open spec fn sa_data_of(port: u16, ip: Seq<u8>) -> Seq<u8> {
    seq![
        (port / 256) as u8,
        (port % 256) as u8,
        ip[0],
        ip[1],
        ip[2],
        ip[3],
        0u8,
        0u8,
        0u8,
        0u8,
        0u8,
        0u8,
        0u8,
        0u8,
    ]
}

/// The port that an `AF_INET` payload holds.
pub open spec fn port_in(data: Seq<u8>) -> u16 {
    (data[0] as int * 256 + data[1] as int) as u16
}

/// The address that an `AF_INET` payload holds.
pub open spec fn ip_in(data: Seq<u8>) -> Seq<u8> {
    data.subrange(2, 6)
}

pub proof fn lemma_ip_round_trip(u: int)
    requires
        0 <= u < 0x1_0000_0000,
    ensures
        ip_value(ip_of(u)) == u,
        ip_of(u).len() == 4,
{
    assert(ip_value(ip_of(u)) == u) by (nonlinear_arith)
        requires
            0 <= u < 0x1_0000_0000,
            ip_of(u)[0] == (u / 0x100_0000) % 256,
            ip_of(u)[1] == (u / 0x1_0000) % 256,
            ip_of(u)[2] == (u / 0x100) % 256,
            ip_of(u)[3] == u % 256,
    ;
}

pub proof fn lemma_value_round_trip(ip: Seq<u8>)
    requires
        ip.len() == 4,
    ensures
        0 <= ip_value(ip) < 0x1_0000_0000,
        ip_of(ip_value(ip)) == ip,
{
    let v = ip_value(ip);
    let (b0, b1, b2, b3) = (ip[0] as int, ip[1] as int, ip[2] as int, ip[3] as int);
    assert(0 <= v < 0x1_0000_0000 && (v / 0x100_0000) % 256 == b0 && (v / 0x1_0000) % 256 == b1
        && (v / 0x100) % 256 == b2 && v % 256 == b3) by (nonlinear_arith)
        requires
            0 <= b0 < 256,
            0 <= b1 < 256,
            0 <= b2 < 256,
            0 <= b3 < 256,
            v == b0 * 0x100_0000 + b1 * 0x1_0000 + b2 * 0x100 + b3,
    ;
    assert(ip_of(v) =~= ip);
}

/// The payload that `(port, ip)` encodes to decodes back to `(port, ip)`.
pub proof fn lemma_sa_data_round_trip(port: u16, ip: Seq<u8>)
    requires
        ip.len() == 4,
    ensures
        port_in(sa_data_of(port, ip)) == port,
        ip_in(sa_data_of(port, ip)) == ip,
        sa_data_of(port, ip).len() == 14,
{
    assert(ip_in(sa_data_of(port, ip)) =~= ip);
}

/// Distinct numbers below 2^32 give distinct addresses.
pub proof fn lemma_ip_of_injective(u: int, v: int)
    requires
        0 <= u < 0x1_0000_0000,
        0 <= v < 0x1_0000_0000,
        u != v,
    ensures
        ip_of(u) != ip_of(v),
{
    lemma_ip_round_trip(u);
    lemma_ip_round_trip(v);
}

/// A generic socket address: the family tag and fourteen bytes of
/// family-specific payload.
#[derive(Clone, Copy, Debug)]
pub struct SockAddr {
    pub family: u16,
    pub data: [u8; 14],
}

impl SockAddr {
    /// An `AF_INET` address for `(port, ip)`.
    pub fn inet(port: u16, ip: [u8; 4]) -> (r: SockAddr)
        ensures
            r.family == AF_INET,
            r.data@ == sa_data_of(port, ip@),
    {
        SockAddr { family: AF_INET, data: port_ip_to_sa_data(port, ip) }
    }

    /// The `(port, ip)` pair that the payload holds, read as `AF_INET`.
    pub fn port_ip(&self) -> (r: (u16, [u8; 4]))
        ensures
            r.0 == port_in(self.data@),
            r.1@ == ip_in(self.data@),
    {
        let d = &self.data;
        let port: u16 = (d[0] as u16) * 256 + d[1] as u16;
        let ip: [u8; 4] = [d[2], d[3], d[4], d[5]];
        assert(ip@ =~= ip_in(self.data@));
        (port, ip)
    }
}

/// One address record of a name resolution, as `getaddrinfo` reports it.
#[derive(Clone, Copy, Debug)]
pub struct AddrInfo {
    pub flags: i32,
    pub family: i32,
    pub socktype: i32,
    pub protocol: i32,
    pub addrlen: u32,
    pub addr: SockAddr,
}

/// Relies on plumber::util::usize_to_ip: the low four bytes of `u`, most
/// significant first.
#[verifier::external_body]
pub(crate) fn usize_to_ip(u: usize) -> (r: [u8; 4])
    ensures
        r@ == ip_of(u as int),
{
    plumber::util::usize_to_ip(u)
}

/// Relies on plumber::util::ip_to_usize: the number that four address bytes
/// denote, most significant first.
#[verifier::external_body]
pub(crate) fn ip_to_usize(ip: [u8; 4]) -> (r: usize)
    ensures
        r as int == ip_value(ip@),
{
    plumber::util::ip_to_usize(ip)
}

/// Relies on plumber::util::port_ip_to_sa_data: the port in network order, the
/// four address bytes, then zeros.
#[verifier::external_body]
pub(crate) fn port_ip_to_sa_data(port: u16, ip: [u8; 4]) -> (r: [u8; 14])
    ensures
        r@ == sa_data_of(port, ip@),
{
    plumber::util::port_ip_to_sa_data(port, ip)
}

} // verus!
