//! The name/address registry, the synthetic address allocator, and the
//! handlers run at resolution time and at the point of use.

use vstd::prelude::*;
use vstd::string::*;

use crate::addr::{
    ip_in, ip_of, ip_to_usize, ip_value, lemma_ip_of_injective, lemma_ip_round_trip,
    lemma_sa_data_round_trip, lemma_value_round_trip, port_in, port_ip_to_sa_data, sa_data_of,
    usize_to_ip, AddrInfo, SockAddr, AF_INET,
};

verus! {

/// The first synthetic address, 250.0.0.0: the block 250/8 is reserved by
/// IANA for future use, so no real host answers there.
pub const FIRST_IP: u64 = 0xFA00_0000;

/// One past the last value that the allocator can hand out: the counter maps
/// onto the 32-bit address space and is never wrapped.
pub const IP_LIMIT: u64 = 0x1_0000_0000;

/// The port that synthetic records carry until the point of use.
pub const PLACEHOLDER_PORT: u16 = 8080;

/// `SOCK_STREAM`, the socket type of synthetic records.
pub const SOCK_STREAM: i32 = 1;

/// `IPPROTO_TCP`, the protocol of synthetic records.
pub const IPPROTO_TCP: i32 = 6;

/// The size of an IPv4 socket address, the record's address length.
pub const SOCKADDR_IN_LEN: u32 = 16;

/// Names that denote an SRV query start with an underscore
/// (`_service._proto.domain`).
pub open spec fn is_discovery_name(n: Seq<char>) -> bool {
    n.len() > 0 && n[0] == '_'
}

/// The record handed out for a discovery name whose synthetic address is `ip`.
pub open spec fn is_placeholder_for(info: AddrInfo, ip: Seq<u8>) -> bool {
    &&& info.flags == 0
    &&& info.family == AF_INET as i32
    &&& info.socktype == SOCK_STREAM
    &&& info.protocol == IPPROTO_TCP
    &&& info.addrlen == SOCKADDR_IN_LEN
    &&& info.addr.family == AF_INET
    &&& info.addr.data@ == sa_data_of(PLACEHOLDER_PORT, ip)
}

/// What the resolution handler does with a name.
#[derive(Clone, Copy, Debug)]
pub enum Resolution {
    /// Not a discovery name: the real resolver answers it, untouched.
    Delegate,
    /// A discovery name: this one record, pointing at its synthetic address.
    Synthetic(AddrInfo),
    /// A new discovery name, but every synthetic address has been handed out.
    Exhausted,
}

/// What the point-of-use handler did to a destination address.
#[derive(Clone, Debug)]
pub enum Rewrite {
    /// The address is not a synthetic one; it was left alone.
    NotSynthetic,
    /// The payload now holds the host and port that the SRV lookup gave.
    Rewritten,
    /// The lookup succeeded but the buffer's family is not `AF_INET`, so its
    /// payload was left alone.
    UnsupportedFamily,
    /// The SRV lookup failed with this message; the address was left alone.
    LookupFailed(String),
}

/// Process-wide state: the allocator's counter and the table of service names.
/// The name at position `i` owns the synthetic address `FIRST_IP + i`, so the
/// table is at once the map from addresses to names and, by its positions, the
/// map from names to addresses.
pub struct SRVHook {
    max_ip: u64,
    magic_ip_to_host: Vec<String>,
}

impl SRVHook {
    /// The service names, in the order their addresses were allocated.
    pub closed spec fn names(&self) -> Seq<Seq<char>> {
        self.magic_ip_to_host@.map_values(|s: String| s@)
    }

    /// The counter: the value behind the next address to hand out.
    pub closed spec fn counter(&self) -> int {
        self.max_ip as int
    }

    /// Every name holds the address of its position, the counter has not run
    /// past the 32-bit space, and no name is listed twice.
    pub open spec fn wf(&self) -> bool {
        &&& self.counter() == FIRST_IP + self.names().len()
        &&& self.counter() <= IP_LIMIT
        &&& self.names().no_duplicates()
    }

    /// Whether a new name can still get an address.
    pub open spec fn can_allocate(&self) -> bool {
        self.counter() < IP_LIMIT
    }

    /// The synthetic address of a name, if it has one.
    pub open spec fn address_of(&self, n: Seq<char>) -> Option<Seq<u8>> {
        if self.names().contains(n) {
            Some(ip_of(FIRST_IP + self.names().index_of(n)))
        } else {
            None
        }
    }

    /// The name that a synthetic address stands for, if it is one.
    pub open spec fn name_at(&self, a: Seq<u8>) -> Option<Seq<char>> {
        if a.len() == 4 && FIRST_IP <= ip_value(a) < FIRST_IP + self.names().len() {
            Some(self.names()[ip_value(a) - FIRST_IP])
        } else {
            None
        }
    }

    /// `post` and `r` are what resolving `n` in state `self` gives: the known
    /// address of a known name; a fresh address for a new name; nothing once
    /// the addresses are used up. Earlier entries are never changed.
    pub open spec fn resolves(&self, n: Seq<char>, post: &SRVHook, r: Option<[u8; 4]>) -> bool {
        &&& post.wf()
        &&& match self.address_of(n) {
            Some(a) => r is Some && r->0@ == a && post.names() == self.names(),
            None => if self.can_allocate() {
                &&& r is Some
                &&& r->0@ == ip_of(self.counter())
                &&& post.names() == self.names().push(n)
            } else {
                r is None && post.names() == self.names()
            },
        }
    }

    /// An empty registry whose allocator starts at `FIRST_IP`.
    pub fn new() -> (r: SRVHook)
        ensures
            r.wf(),
            r.names() == Seq::<Seq<char>>::empty(),
    {
        let r = SRVHook { max_ip: FIRST_IP, magic_ip_to_host: Vec::new() };
        assert(r.names() =~= Seq::<Seq<char>>::empty());
        r
    }

    /// The number of names that hold an address.
    pub fn len(&self) -> (r: usize)
        ensures
            r == self.names().len(),
    {
        self.magic_ip_to_host.len()
    }

    /// Hands out the address of the counter and advances it by one.
    fn next_ip(&mut self) -> (r: Option<[u8; 4]>)
        ensures
            final(self).magic_ip_to_host == old(self).magic_ip_to_host,
            old(self).max_ip < IP_LIMIT ==> {
                &&& r is Some
                &&& r->0@ == ip_of(old(self).max_ip as int)
                &&& final(self).max_ip == old(self).max_ip + 1
            },
            old(self).max_ip >= IP_LIMIT ==> r is None && final(self).max_ip == old(self).max_ip,
    {
        if self.max_ip < IP_LIMIT {
            let id = self.max_ip as usize;
            let ip = usize_to_ip(id);
            self.max_ip = self.max_ip + 1;
            Some(ip)
        } else {
            None
        }
    }

    /// The synthetic address of `name`, allocated on its first request.
    pub fn resolve_or_allocate(&mut self, name: &String) -> (r: Option<[u8; 4]>)
        requires
            old(self).wf(),
        ensures
            old(self).resolves(name@, final(self), r),
    {
        let ghost names = self.names();
        let mut i: usize = 0;
        while i < self.magic_ip_to_host.len()
            invariant
                self.wf(),
                self.names() == names,
                0 <= i <= self.magic_ip_to_host.len(),
                forall|j: int| 0 <= j < i ==> names[j] != name@,
            decreases self.magic_ip_to_host.len() - i,
        {
            if self.magic_ip_to_host[i] == *name {
                assert(names[i as int] == name@);
                assert(names.contains(name@));
                let ghost k = names.index_of(name@);
                assert(k == i) by {
                    assert(names[k] == name@);
                }
                let id = (FIRST_IP as usize) + i;
                return Some(usize_to_ip(id));
            }
            i = i + 1;
        }
        assert(!names.contains(name@));
        match self.next_ip() {
            Some(ip) => {
                self.magic_ip_to_host.push(name.clone());
                assert(self.names() =~= names.push(name@));
                Some(ip)
            },
            None => None,
        }
    }

    /// The service name that a synthetic address stands for.
    pub fn lookup_name(&self, ip: [u8; 4]) -> (r: Option<String>)
        requires
            self.wf(),
        ensures
            match r {
                Some(s) => self.name_at(ip@) == Some(s@),
                None => self.name_at(ip@) is None,
            },
    {
        let v = ip_to_usize(ip);
        let n = self.magic_ip_to_host.len();
        if (FIRST_IP as usize) <= v && v - (FIRST_IP as usize) < n {
            Some(self.magic_ip_to_host[v - (FIRST_IP as usize)].clone())
        } else {
            None
        }
    }

    /// The resolution handler. A discovery name gets one record that points at
    /// its synthetic address with the placeholder port; any other name is left
    /// to the real resolver, and the registry is not touched.
    pub fn getaddrinfo(&mut self, node: &String) -> (r: Resolution)
        requires
            old(self).wf(),
        ensures
            !is_discovery_name(node@) ==> r is Delegate && *final(self) == *old(self),
            is_discovery_name(node@) ==> match r {
                Resolution::Synthetic(info) => exists|a: [u8; 4]|
                    old(self).resolves(node@, final(self), Some(a)) && is_placeholder_for(info, a@),
                Resolution::Exhausted => old(self).resolves(node@, final(self), None),
                Resolution::Delegate => false,
            },
    {
        let s = node.as_str();
        if s.is_empty() || s.get_char(0) != '_' {
            return Resolution::Delegate;
        }
        match self.resolve_or_allocate(node) {
            Some(ip) => {
                let info = AddrInfo {
                    flags: 0,
                    family: AF_INET as i32,
                    socktype: SOCK_STREAM,
                    protocol: IPPROTO_TCP,
                    addrlen: SOCKADDR_IN_LEN,
                    addr: SockAddr::inet(PLACEHOLDER_PORT, ip),
                };
                Resolution::Synthetic(info)
            },
            None => Resolution::Exhausted,
        }
    }

    /// The point-of-use handler, run before `connect` and `sendto`: when the
    /// destination is a synthetic address, the SRV record of its name is
    /// looked up through `resolve_srv` and the outcome applied to the
    /// destination. Any other destination is left alone and nothing is asked.
    pub fn set_sockaddr<F>(&self, address: &mut SockAddr, resolve_srv: F) -> (r: Rewrite)
        where
            F: Fn(&String) -> Result<(u16, [u8; 4]), String>,
        requires
            self.wf(),
            forall|n: &String| #[trigger] resolve_srv.requires((n,)),
        ensures
            r is NotSynthetic <==> self.name_at(ip_in(old(address).data@)) is None,
            r is NotSynthetic ==> *final(address) == *old(address),
            !(r is NotSynthetic) ==> exists|n: String, found: Result<(u16, [u8; 4]), String>|
                #[trigger] resolve_srv.ensures((&n,), found) && self.name_at(
                    ip_in(old(address).data@),
                ) == Some(n@) && srv_outcome(*old(address), found, *final(address), r),
    {
        let (_, ip) = address.port_ip();
        match self.lookup_name(ip) {
            Some(host) => {
                let found = resolve_srv(&host);
                apply_srv_result(address, found)
            },
            None => Rewrite::NotSynthetic,
        }
    }
}

/// In a list without duplicates, the one position of an element is its index.
proof fn lemma_index_unique(s: Seq<Seq<char>>, n: Seq<char>, k: int)
    requires
        s.no_duplicates(),
        0 <= k < s.len(),
        s[k] == n,
    ensures
        s.contains(n),
        s.index_of(n) == k,
{
    assert(s.contains(n));
    let j = s.index_of(n);
    assert(s[j] == n);
}

/// A resolution records its answer, and keeps every address given out before.
proof fn lemma_resolves_records(pre: SRVHook, n: Seq<char>, post: SRVHook, a: [u8; 4])
    requires
        pre.wf(),
        pre.resolves(n, &post, Some(a)),
    ensures
        post.address_of(n) == Some(a@),
        forall|m: Seq<char>| #[trigger] pre.address_of(m) is Some ==> post.address_of(m) == pre.address_of(m),
{
    if pre.address_of(n) is None {
        let k = pre.names().len() as int;
        lemma_index_unique(post.names(), n, k);
        assert forall|m: Seq<char>| #[trigger] pre.address_of(m) is Some implies post.address_of(m)
            == pre.address_of(m) by {
            let j = pre.names().index_of(m);
            assert(post.names()[j] == m);
            lemma_index_unique(post.names(), m, j);
        }
    }
}

/// The registry's two directions are inverse: a name has address `a` exactly
/// when `a` stands for that name.
pub proof fn lemma_registry_inverse(h: SRVHook, n: Seq<char>, a: Seq<u8>)
    requires
        h.wf(),
        a.len() == 4,
    ensures
        h.address_of(n) == Some(a) <==> h.name_at(a) == Some(n),
{
    if h.address_of(n) == Some(a) {
        let k = h.names().index_of(n);
        lemma_ip_round_trip(FIRST_IP + k);
    }
    if h.name_at(a) == Some(n) {
        let k = ip_value(a) - FIRST_IP;
        lemma_index_unique(h.names(), n, k);
        lemma_value_round_trip(a);
    }
}

/// Two different names get two different addresses, whatever order they come
/// in.
pub proof fn lemma_distinct_names_distinct_addresses(
    h0: SRVHook,
    h1: SRVHook,
    h2: SRVHook,
    n1: Seq<char>,
    n2: Seq<char>,
    a1: [u8; 4],
    a2: [u8; 4],
)
    requires
        h0.wf(),
        h0.resolves(n1, &h1, Some(a1)),
        h1.resolves(n2, &h2, Some(a2)),
        n1 != n2,
    ensures
        a1@ != a2@,
{
    lemma_resolves_records(h0, n1, h1, a1);
    lemma_resolves_records(h1, n2, h2, a2);
    assert(h1.address_of(n1) is Some);
    let s = h2.names();
    let i1 = s.index_of(n1);
    let i2 = s.index_of(n2);
    assert(s[i1] == n1 && s[i2] == n2);
    lemma_ip_of_injective(FIRST_IP + i1, FIRST_IP + i2);
}

/// Resolving a name again gives the same address and allocates nothing.
pub proof fn lemma_repeat_resolution(
    h0: SRVHook,
    h1: SRVHook,
    h2: SRVHook,
    n: Seq<char>,
    a: [u8; 4],
    r: Option<[u8; 4]>,
)
    requires
        h0.wf(),
        h0.resolves(n, &h1, Some(a)),
        h1.resolves(n, &h2, r),
    ensures
        r is Some,
        r->0@ == a@,
        h2.names() == h1.names(),
{
    lemma_resolves_records(h0, n, h1, a);
}

/// An address handed out for a name is looked up as exactly that name.
pub proof fn lemma_lookup_after_resolve(h0: SRVHook, h1: SRVHook, n: Seq<char>, a: [u8; 4])
    requires
        h0.wf(),
        h0.resolves(n, &h1, Some(a)),
    ensures
        h1.name_at(a@) == Some(n),
{
    lemma_resolves_records(h0, n, h1, a);
    lemma_registry_inverse(h1, n, a@);
}

/// The record handed out for a discovery name carries the placeholder port and
/// an address that the point-of-use handler maps back to that name; a found
/// `(port, ip)` written over it then reads back as `(port, ip)`.
pub proof fn lemma_placeholder_leads_back(
    h0: SRVHook,
    h1: SRVHook,
    n: Seq<char>,
    a: [u8; 4],
    info: AddrInfo,
    port: u16,
    ip: [u8; 4],
)
    requires
        h0.wf(),
        h0.resolves(n, &h1, Some(a)),
        is_placeholder_for(info, a@),
    ensures
        port_in(info.addr.data@) == PLACEHOLDER_PORT,
        h1.name_at(ip_in(info.addr.data@)) == Some(n),
        port_in(sa_data_of(port, ip@)) == port,
        ip_in(sa_data_of(port, ip@)) == ip@,
{
    lemma_sa_data_round_trip(PLACEHOLDER_PORT, a@);
    lemma_sa_data_round_trip(port, ip@);
    lemma_lookup_after_resolve(h0, h1, n, a);
}

/// What applying a lookup outcome does: on success an `AF_INET` payload is
/// replaced by the found host and port; any other family, and any failure,
/// leave the address as it was.
pub open spec fn srv_outcome(
    before: SockAddr,
    found: Result<(u16, [u8; 4]), String>,
    after: SockAddr,
    r: Rewrite,
) -> bool {
    match found {
        Ok((port, ip)) => if before.family == AF_INET {
            &&& r is Rewritten
            &&& after.family == AF_INET
            &&& after.data@ == sa_data_of(port, ip@)
        } else {
            r is UnsupportedFamily && after == before
        },
        Err(e) => r == Rewrite::LookupFailed(e) && after == before,
    }
}

/// Applies the outcome of an SRV lookup to a destination address.
pub fn apply_srv_result(address: &mut SockAddr, found: Result<(u16, [u8; 4]), String>) -> (r:
    Rewrite)
    ensures
        srv_outcome(*old(address), found, *final(address), r),
{
    match found {
        Ok((port, ip)) => {
            if address.family == AF_INET {
                address.data = port_ip_to_sa_data(port, ip);
                Rewrite::Rewritten
            } else {
                Rewrite::UnsupportedFamily
            }
        },
        Err(e) => Rewrite::LookupFailed(e),
    }
}

} // verus!
