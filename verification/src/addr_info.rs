//! Plain-value models of raw socket addresses, and the parsing of a
//! `SO_ORIGINAL_DST` socket-option result into one.
//!
//! The unsafe socket-option read itself lives outside the verified
//! library; the embedder copies the returned storage, field by field,
//! into [`SockaddrStorage`] and hands it to [`mk_addr`]. The fields hold
//! the raw values as loaded natively from the kernel's network-order
//! struct on a little-endian host, so host-order conversion is a byte
//! swap.

use vstd::prelude::*;

verus! {

/// Address family tag of an IPv4 socket address.
pub const AF_INET: u16 = 2;

/// Address family tag of an IPv6 socket address.
pub const AF_INET6: u16 = 10;

/// Byte length of a raw IPv4 socket-address struct.
pub const SOCKADDR_IN_LEN: usize = 16;

/// Byte length of a raw IPv6 socket-address struct.
pub const SOCKADDR_IN6_LEN: usize = 28;

/// A concrete socket address in host order.
#[derive(Clone, Copy, Debug, PartialEq, Eq, Structural)]
pub enum SockAddr {
    V4 { ip: u32, port: u16 },
    V6 { ip: u128, port: u16, flowinfo: u32, scope_id: u32 },
}

/// The fields of a raw socket-address storage block that the parser
/// reads, copied out as plain values.
pub struct SockaddrStorage {
    /// The address family tag.
    pub family: u16,
    /// The byte length the kernel reported for the block.
    pub len: usize,
    /// The IPv4 address word as stored (network order).
    pub v4_addr: u32,
    /// The IPv4 port as stored (network order).
    pub v4_port: u16,
    /// The 16 IPv6 address bytes in wire order.
    pub v6_addr: Vec<u8>,
    /// The IPv6 port as stored (network order).
    pub v6_port: u16,
    /// The IPv6 flow label, passed through unconverted.
    pub v6_flowinfo: u32,
    /// The IPv6 scope id, passed through unconverted.
    pub v6_scope_id: u32,
}

impl SockaddrStorage {
    /// The storage is large enough for the family it claims, and the
    /// IPv6 byte field is complete.
    pub open spec fn wf(&self) -> bool {
        &&& self.family == AF_INET ==> self.len >= SOCKADDR_IN_LEN
        &&& self.family == AF_INET6 ==> self.len >= SOCKADDR_IN6_LEN && self.v6_addr@.len() == 16
    }
}

/// Rejection of a storage block whose family is neither IPv4 nor IPv6.
#[derive(Clone, Copy, Debug, PartialEq, Eq, Structural)]
pub enum AddrError {
    InvalidFamily,
}

/// The two bytes of a network-order 16-bit field, swapped into host
/// order on a little-endian machine.
pub open spec fn host_order16(i: u16) -> u16 {
    ((i & 0xff) << 8) | (i >> 8)
}

/// The four bytes of a network-order 32-bit field, reversed into host
/// order on a little-endian machine.
pub open spec fn host_order32(i: u32) -> u32 {
    ((i & 0xff) << 24) | (((i >> 8) & 0xff) << 16) | (((i >> 16) & 0xff) << 8) | (i >> 24)
}

/// The big-endian integer value of a byte string.
pub open spec fn be_value(b: Seq<u8>) -> int
    decreases b.len(),
{
    if b.len() == 0 {
        0
    } else {
        be_value(b.drop_last()) * 256 + b.last()
    }
}

/// 256 raised to the `n`th power.
pub open spec fn pow256(n: nat) -> int
    decreases n,
{
    if n == 0 {
        1
    } else {
        256 * pow256((n - 1) as nat)
    }
}

proof fn lemma_pow256_pos(n: nat)
    ensures
        pow256(n) >= 1,
    decreases n,
{
    if n > 0 {
        lemma_pow256_pos((n - 1) as nat);
    }
}

/// Converts a 16-bit value read from a network-order (big-endian) field
/// on a little-endian host into its host-order value: a byte swap.
pub fn ntoh16(i: u16) -> (r: u16)
    ensures
        r == host_order16(i),
{
    ((i & 0xff) << 8) | (i >> 8)
}

/// Converts a 32-bit value read from a network-order (big-endian) field
/// on a little-endian host into its host-order value: a byte reversal.
pub fn ntoh32(i: u32) -> (r: u32)
    ensures
        r == host_order32(i),
{
    ((i & 0xff) << 24) | (((i >> 8) & 0xff) << 16) | (((i >> 16) & 0xff) << 8) | (i >> 24)
}

/// Parses a raw socket-address storage block into a concrete address.
///
/// IPv4 fields are byte-swapped into host order; the IPv6 address is
/// taken as the big-endian value of its 16 wire bytes; the flow label
/// and scope id pass through unconverted, as the kernel stores them in
/// host order already.
pub fn mk_addr(storage: &SockaddrStorage) -> (r: Result<SockAddr, AddrError>)
    requires
        storage.wf(),
    ensures
        storage.family == AF_INET ==> r == Ok::<SockAddr, AddrError>(
            SockAddr::V4 { ip: host_order32(storage.v4_addr), port: host_order16(storage.v4_port) },
        ),
        storage.family == AF_INET6 ==> r == Ok::<SockAddr, AddrError>(
            SockAddr::V6 {
                ip: be_value(storage.v6_addr@) as u128,
                port: host_order16(storage.v6_port),
                flowinfo: storage.v6_flowinfo,
                scope_id: storage.v6_scope_id,
            },
        ),
        storage.family != AF_INET && storage.family != AF_INET6 ==> r == Err::<SockAddr, AddrError>(
            AddrError::InvalidFamily,
        ),
{
    if storage.family == AF_INET {
        let ip = ntoh32(storage.v4_addr);
        let port = ntoh16(storage.v4_port);
        Ok(SockAddr::V4 { ip, port })
    } else if storage.family == AF_INET6 {
        let mut acc: u128 = 0;
        let mut i: usize = 0;
        while i < 16
            invariant
                i <= 16,
                storage.v6_addr@.len() == 16,
                acc == be_value(storage.v6_addr@.subrange(0, i as int)),
                acc < pow256(i as nat),
            decreases 16 - i,
        {
            proof {
                lemma_pow256_mono(i as nat, 16);
                lemma_pow256_16();
                assert(acc * 256 + storage.v6_addr@[i as int] < pow256((i + 1) as nat))
                    by (nonlinear_arith)
                    requires
                        0 <= acc < pow256(i as nat),
                        storage.v6_addr@[i as int] < 256,
                        pow256((i + 1) as nat) == 256 * pow256(i as nat),
                ;
                lemma_pow256_mono((i + 1) as nat, 16);
                assert(storage.v6_addr@.subrange(0, i + 1).drop_last() =~= storage.v6_addr@
                    .subrange(0, i as int));
                assert(storage.v6_addr@.subrange(0, i + 1).last() == storage.v6_addr@[i as int]);
            }
            acc = acc * 256 + storage.v6_addr[i] as u128;
            i += 1;
        }
        proof {
            assert(storage.v6_addr@.subrange(0, 16) =~= storage.v6_addr@);
        }
        let port = ntoh16(storage.v6_port);
        Ok(
            SockAddr::V6 {
                ip: acc,
                port,
                flowinfo: storage.v6_flowinfo,
                scope_id: storage.v6_scope_id,
            },
        )
    } else {
        Err(AddrError::InvalidFamily)
    }
}

proof fn lemma_pow256_16()
    ensures
        pow256(16) == 0x1_0000_0000_0000_0000_0000_0000_0000_0000,
{
    reveal_with_fuel(pow256, 17);
}

proof fn lemma_pow256_mono(m: nat, n: nat)
    requires
        m <= n,
    ensures
        pow256(m) <= pow256(n),
    decreases n,
{
    if m < n {
        lemma_pow256_mono(m, (n - 1) as nat);
        lemma_pow256_pos((n - 1) as nat);
    }
}

/// Reads the original destination of a redirected connection through the
/// `SO_ORIGINAL_DST` socket option; the embedder implements the raw read
/// and parses its result with [`mk_addr`].
#[derive(Clone, Copy, Debug)]
pub struct SoOriginalDst;

} // verus!
