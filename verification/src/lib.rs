//! Outbound request-routing core of a transparent sidecar proxy.
//!
//! The crate turns a logical destination (a DNS-style name or a socket
//! address) into a live pool of backend endpoints and routes requests over
//! that pool:
//!
//! - [`canonicalize`]: lazily resolves a name to its canonical form via a
//!   DNS collaborator, honoring TTLs, and republishes the routing target
//!   whenever the canonical name changes.
//! - [`resbal`]: adapts a stream of endpoint `Add`/`Remove` events into
//!   live backend services and tracks pool emptiness.
//! - [`pool`]: the keyed endpoint set with its emptiness flag.
//! - [`selector`]: latency-aware power-of-two-choices selection over the
//!   pool, fed by a peak-EWMA load estimate per endpoint.
//! - [`balance`]: the fallback composer that routes to a secondary path
//!   while the pool is empty.
//! - [`hedge`]: speculative retry of slow requests, bounded by a token
//!   budget.
//! - [`addr_info`]: plain-value modelling of raw socket addresses and the
//!   parsing of an original-destination socket option result.
//! - [`tls`]: connection-level TLS status descriptors.
//!
//! All waiting (DNS round trips, TTL expiry, channel receives) belongs to
//! the embedding runtime: the library exposes the decision logic as state
//! machines whose transitions are verified, and the runtime drives them.

use vstd::prelude::*;

pub mod addr_info;
pub mod balance;
pub mod canonicalize;
pub mod hedge;
pub mod pool;
pub mod resbal;
pub mod selector;
pub mod svc;
pub mod tls;

use crate::addr_info::SockAddr;

verus! {

/// A DNS-style name, stored as its ASCII bytes.
#[derive(Debug)]
pub struct Name {
    bytes: Vec<u8>,
}

impl View for Name {
    type V = Seq<u8>;

    closed spec fn view(&self) -> Seq<u8> {
        self.bytes@
    }
}

impl Clone for Name {
    fn clone(&self) -> (r: Self)
        ensures
            r@ == self@,
    {
        Name { bytes: self.bytes.clone() }
    }
}

impl Name {
    pub fn new(bytes: Vec<u8>) -> (r: Name)
        ensures
            r@ == bytes@,
    {
        Name { bytes }
    }

    pub fn as_bytes(&self) -> (r: &Vec<u8>)
        ensures
            r@ == self@,
    {
        &self.bytes
    }

    /// Byte-for-byte equality of two names.
    pub fn same(&self, other: &Name) -> (r: bool)
        ensures
            r == (self@ == other@),
    {
        if self.bytes.len() != other.bytes.len() {
            proof {
                assert(self@ != other@);
            }
            return false;
        }
        let n = self.bytes.len();
        let mut i: usize = 0;
        while i < n
            invariant
                n == self.bytes.len() == other.bytes.len(),
                i <= n,
                forall|j: int| 0 <= j < i ==> self@[j] == other@[j],
            decreases n - i,
        {
            if self.bytes[i] != other.bytes[i] {
                return false;
            }
            i += 1;
        }
        proof {
            assert(self@ =~= other@);
        }
        true
    }
}

/// Mathematical value of a [`NameAddr`].
pub struct NameAddrView {
    pub name: Seq<u8>,
    pub port: u16,
}

/// A named authority: a DNS-style name together with a port.
#[derive(Debug)]
pub struct NameAddr {
    name: Name,
    port: u16,
}

impl View for NameAddr {
    type V = NameAddrView;

    closed spec fn view(&self) -> NameAddrView {
        NameAddrView { name: self.name@, port: self.port }
    }
}

impl Clone for NameAddr {
    fn clone(&self) -> (r: Self)
        ensures
            r@ == self@,
    {
        NameAddr { name: self.name.clone(), port: self.port }
    }
}

impl NameAddr {
    pub fn new(name: Name, port: u16) -> (r: NameAddr)
        ensures
            r@ == (NameAddrView { name: name@, port }),
    {
        NameAddr { name, port }
    }

    pub fn name(&self) -> (r: &Name)
        ensures
            r@ == self@.name,
    {
        &self.name
    }

    pub fn port(&self) -> (r: u16)
        ensures
            r == self@.port,
    {
        self.port
    }

    pub fn same(&self, other: &NameAddr) -> (r: bool)
        ensures
            r == (self@ == other@),
    {
        let r = self.name.same(&other.name) && self.port == other.port;
        proof {
            if self@.name == other@.name && self@.port == other@.port {
                assert(self@ == other@);
            }
        }
        r
    }
}

/// Mathematical value of an [`Addr`].
pub enum AddrView {
    Name(NameAddrView),
    Socket(SockAddr),
}

/// A routing target: either a named authority that may still need DNS
/// canonicalization, or a concrete socket address that never will.
#[derive(Debug)]
pub enum Addr {
    Name(NameAddr),
    Socket(SockAddr),
}

impl View for Addr {
    type V = AddrView;

    closed spec fn view(&self) -> AddrView {
        match self {
            Addr::Name(na) => AddrView::Name(na@),
            Addr::Socket(sa) => AddrView::Socket(*sa),
        }
    }
}

impl Clone for Addr {
    fn clone(&self) -> (r: Self)
        ensures
            r@ == self@,
    {
        match self {
            Addr::Name(na) => Addr::Name(na.clone()),
            Addr::Socket(sa) => Addr::Socket(*sa),
        }
    }
}

impl Addr {
    /// The named authority held by this target, if any.
    pub fn name_addr(&self) -> (r: Option<&NameAddr>)
        ensures
            match r {
                Some(na) => self@ == AddrView::Name(na@),
                None => self@ is Socket,
            },
    {
        match self {
            Addr::Name(na) => Some(na),
            Addr::Socket(_) => None,
        }
    }

    pub fn same(&self, other: &Addr) -> (r: bool)
        ensures
            r == (self@ == other@),
    {
        match (self, other) {
            (Addr::Name(a), Addr::Name(b)) => a.same(b),
            (Addr::Socket(a), Addr::Socket(b)) => *a == *b,
            _ => false,
        }
    }
}

/// A value that is either present or withheld for a stated reason, used
/// to describe TLS state throughout the crate.
#[derive(Clone, Copy, Debug)]
pub enum Conditional<T, R> {
    Granted(T),
    Refused(R),
}

} // verus!
