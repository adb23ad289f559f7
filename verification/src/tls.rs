//! Whether a connection was secured with TLS and, when it was not, the
//! reason why; and the identities negotiated when it was.
//!
//! The negotiation itself belongs to the transport layer outside this
//! crate; these types describe its outcome to the routing core.

use vstd::prelude::*;

use crate::Name;

verus! {

/// A TLS-related value that is either present or withheld for one of
/// the reasons no TLS was established.
pub type Conditional<T> = crate::Conditional<T, ReasonForNoTls>;

/// Whether the connection was secured with TLS.
pub type Status = Conditional<()>;

/// The peer's negotiated identity name, when there is one.
pub type PeerIdentity = Conditional<Name>;

/// An identity that is either known or withheld for one of the reasons
/// no client identity was presented.
pub type Identity<T> = crate::Conditional<T, ReasonForNoClientIdentity>;

/// The value of a [`PeerIdentity`], with the name as its bytes.
pub open spec fn peer_identity_view_of(c: PeerIdentity) -> crate::Conditional<
    Seq<u8>,
    ReasonForNoTls,
> {
    match c {
        crate::Conditional::Granted(n) => crate::Conditional::Granted(n@),
        crate::Conditional::Refused(r) => crate::Conditional::Refused(r),
    }
}

/// The value of an [`Identity`] over names, with the name as its
/// bytes.
pub open spec fn identity_view_of(c: Identity<Name>) -> crate::Conditional<
    Seq<u8>,
    ReasonForNoClientIdentity,
> {
    match c {
        crate::Conditional::Granted(n) => crate::Conditional::Granted(n@),
        crate::Conditional::Refused(r) => crate::Conditional::Refused(r),
    }
}

/// Exposes whether the connection carries TLS at all.
pub trait HasStatus {
    spec fn tls_status_spec(&self) -> Status;

    fn tls_status(&self) -> (r: Status)
        ensures
            r == self.tls_status_spec(),
    ;
}

/// Exposes the peer's negotiated identity.
pub trait HasPeerIdentity {
    spec fn peer_identity_view(&self) -> crate::Conditional<Seq<u8>, ReasonForNoTls>;

    fn peer_identity(&self) -> (r: PeerIdentity)
        ensures
            peer_identity_view_of(r) == self.peer_identity_view(),
    ;
}

/// Anything that knows its peer identity knows its TLS status: secured
/// exactly when an identity was negotiated, withheld for the same
/// reason otherwise.
impl<T: HasPeerIdentity> HasStatus for T {
    open spec fn tls_status_spec(&self) -> Status {
        match self.peer_identity_view() {
            crate::Conditional::Granted(_) => crate::Conditional::Granted(()),
            crate::Conditional::Refused(r) => crate::Conditional::Refused(r),
        }
    }

    fn tls_status(&self) -> (r: Status) {
        match self.peer_identity() {
            crate::Conditional::Granted(_) => crate::Conditional::Granted(()),
            crate::Conditional::Refused(r) => crate::Conditional::Refused(r),
        }
    }
}

/// Exposes the client identity presented on the connection.
pub trait HasIdentity {
    spec fn identity_spec(&self) -> crate::Conditional<Seq<u8>, ReasonForNoClientIdentity>;

    fn identity(&self) -> (r: Identity<Name>)
        ensures
            identity_view_of(r) == self.identity_spec(),
    ;
}

/// Exposes the full TLS state of the connection, when TLS was
/// established.
pub trait HasConditional {
    spec fn tls_spec(&self) -> crate::Conditional<TlsStateView, ReasonForNoTls>;

    fn tls(&self) -> (r: Conditional<TlsState>)
        ensures
            (match r {
                crate::Conditional::Granted(s) => crate::Conditional::<
                    TlsStateView,
                    ReasonForNoTls,
                >::Granted(s@),
                crate::Conditional::Refused(x) => crate::Conditional::Refused(x),
            }) == self.tls_spec(),
    ;
}

/// Why the remote peer has no identity.
#[derive(Clone, Copy, Debug, Eq, Hash, PartialEq, Structural)]
pub enum ReasonForNoIdentity {
    /// Identity is administratively disabled.
    Disabled,
    /// The remote peer does not have a known identity name.
    NoPeerName(ReasonForNoPeerName),
}

/// Why no peer name is known for a connection.
#[derive(Clone, Copy, Debug, Eq, Hash, PartialEq, Structural)]
pub enum ReasonForNoPeerName {
    /// The connection is a non-HTTP connection so nothing is known
    /// about the destination besides its address.
    NotHttp,
    /// The connection is for HTTP but the request carries no authority
    /// to extract the identity from.
    NoAuthorityInHttpRequest,
    /// The destination service withheld the identity: its way of
    /// saying no TLS should be done for this endpoint.
    NotProvidedByServiceDiscovery,
    /// A loopback connection, which neither needs nor supports TLS.
    Loopback,
    /// The remote peer did not provide an identity.
    NotProvidedByRemote,
}

/// Why a connection was not secured with TLS.
#[derive(Clone, Copy, Debug, Eq, Hash, PartialEq, Structural)]
pub enum ReasonForNoTls {
    /// TLS is administratively disabled.
    Disabled,
    /// The client does not have a known identity.
    NoClientIdentity(ReasonForNoClientIdentity),
}

/// Why the client presented no identity.
#[derive(Clone, Copy, Debug, Eq, Hash, PartialEq, Structural)]
pub enum ReasonForNoClientIdentity {
    /// A loopback connection, which neither needs nor supports TLS.
    Loopback,
    /// The connection is for HTTP but the request carries no authority
    /// to extract the identity from.
    NoAuthorityInHttpRequest,
    /// The connection is a non-HTTP connection so nothing is known
    /// about the destination besides its address.
    NotHttp,
    /// The client did not provide an identity.
    NotProvidedByClient,
    /// The destination service withheld the identity: its way of
    /// saying no TLS should be done for this endpoint.
    NotProvidedByServiceDiscovery,
}

impl From<ReasonForNoPeerName> for ReasonForNoIdentity {
    fn from(r: ReasonForNoPeerName) -> (s: Self) {
        ReasonForNoIdentity::NoPeerName(r)
    }
}

impl vstd::std_specs::convert::FromSpecImpl<ReasonForNoPeerName> for ReasonForNoIdentity {
    open spec fn obeys_from_spec() -> bool {
        true
    }

    open spec fn from_spec(r: ReasonForNoPeerName) -> Self {
        ReasonForNoIdentity::NoPeerName(r)
    }
}

impl From<ReasonForNoClientIdentity> for ReasonForNoTls {
    fn from(r: ReasonForNoClientIdentity) -> (s: Self) {
        ReasonForNoTls::NoClientIdentity(r)
    }
}

impl vstd::std_specs::convert::FromSpecImpl<ReasonForNoClientIdentity> for ReasonForNoTls {
    open spec fn obeys_from_spec() -> bool {
        true
    }

    open spec fn from_spec(r: ReasonForNoClientIdentity) -> Self {
        ReasonForNoTls::NoClientIdentity(r)
    }
}

/// Mathematical value of a [`TlsState`].
pub struct TlsStateView {
    pub server_identity: Seq<u8>,
    pub client_identity: crate::Conditional<Seq<u8>, ReasonForNoClientIdentity>,
}

/// The outcome of an established TLS session: the local (server)
/// identity it was accepted under, and the client identity presented,
/// if any.
#[derive(Debug)]
pub struct TlsState {
    server_identity: Name,
    client_identity: Identity<Name>,
}

impl View for TlsState {
    type V = TlsStateView;

    closed spec fn view(&self) -> TlsStateView {
        TlsStateView {
            server_identity: self.server_identity@,
            client_identity: identity_view_of(self.client_identity),
        }
    }
}

impl Clone for TlsState {
    fn clone(&self) -> (r: Self)
        ensures
            r@ == self@,
    {
        TlsState {
            server_identity: self.server_identity.clone(),
            client_identity: match &self.client_identity {
                crate::Conditional::Granted(n) => crate::Conditional::Granted(n.clone()),
                crate::Conditional::Refused(x) => crate::Conditional::Refused(*x),
            },
        }
    }
}

impl TlsState {
    pub fn new(server_identity: Name, client_identity: Identity<Name>) -> (r: TlsState)
        ensures
            r@ == (TlsStateView {
                server_identity: server_identity@,
                client_identity: identity_view_of(client_identity),
            }),
    {
        TlsState { server_identity, client_identity }
    }

    /// The client identity presented on this session, if any.
    pub fn client_identity(&self) -> (r: Identity<Name>)
        ensures
            identity_view_of(r) == self@.client_identity,
    {
        match &self.client_identity {
            crate::Conditional::Granted(n) => crate::Conditional::Granted(n.clone()),
            crate::Conditional::Refused(x) => crate::Conditional::Refused(*x),
        }
    }
}

impl HasPeerIdentity for TlsState {
    open spec fn peer_identity_view(&self) -> crate::Conditional<Seq<u8>, ReasonForNoTls> {
        crate::Conditional::Granted(self@.server_identity)
    }

    fn peer_identity(&self) -> (r: PeerIdentity) {
        crate::Conditional::Granted(self.server_identity.clone())
    }
}

impl HasIdentity for TlsState {
    open spec fn identity_spec(&self) -> crate::Conditional<Seq<u8>, ReasonForNoClientIdentity> {
        self@.client_identity
    }

    fn identity(&self) -> (r: Identity<Name>) {
        self.client_identity()
    }
}

impl Status {
    /// The status, spelled out: secured, or the reason it is not.
    pub fn describe(&self) -> (r: &'static str)
        ensures
            *self is Granted ==> r@ == "true"@,
            self matches crate::Conditional::Refused(x) ==> r@ == x.describe_spec(),
    {
        match self {
            crate::Conditional::Granted(()) => "true",
            crate::Conditional::Refused(x) => x.describe(),
        }
    }
}

impl ReasonForNoIdentity {
    pub open spec fn describe_spec(&self) -> Seq<char> {
        match self {
            ReasonForNoIdentity::Disabled => "disabled"@,
            ReasonForNoIdentity::NoPeerName(n) => n.describe_spec(),
        }
    }

    pub fn describe(&self) -> (r: &'static str)
        ensures
            r@ == self.describe_spec(),
    {
        match self {
            ReasonForNoIdentity::Disabled => "disabled",
            ReasonForNoIdentity::NoPeerName(n) => n.describe(),
        }
    }
}

impl ReasonForNoPeerName {
    pub open spec fn describe_spec(&self) -> Seq<char> {
        match self {
            ReasonForNoPeerName::Loopback => "loopback"@,
            ReasonForNoPeerName::NoAuthorityInHttpRequest => "no_authority_in_http_request"@,
            ReasonForNoPeerName::NotHttp => "not_http"@,
            ReasonForNoPeerName::NotProvidedByRemote => "not_provided_by_remote"@,
            ReasonForNoPeerName::NotProvidedByServiceDiscovery => {
                "not_provided_by_service_discovery"@
            },
        }
    }

    pub fn describe(&self) -> (r: &'static str)
        ensures
            r@ == self.describe_spec(),
    {
        match self {
            ReasonForNoPeerName::Loopback => "loopback",
            ReasonForNoPeerName::NoAuthorityInHttpRequest => "no_authority_in_http_request",
            ReasonForNoPeerName::NotHttp => "not_http",
            ReasonForNoPeerName::NotProvidedByRemote => "not_provided_by_remote",
            ReasonForNoPeerName::NotProvidedByServiceDiscovery => {
                "not_provided_by_service_discovery"
            },
        }
    }
}

impl ReasonForNoTls {
    pub open spec fn describe_spec(&self) -> Seq<char> {
        match self {
            ReasonForNoTls::Disabled => "disabled"@,
            ReasonForNoTls::NoClientIdentity(n) => n.describe_spec(),
        }
    }

    pub fn describe(&self) -> (r: &'static str)
        ensures
            r@ == self.describe_spec(),
    {
        match self {
            ReasonForNoTls::Disabled => "disabled",
            ReasonForNoTls::NoClientIdentity(n) => n.describe(),
        }
    }
}

impl ReasonForNoClientIdentity {
    pub open spec fn describe_spec(&self) -> Seq<char> {
        match self {
            ReasonForNoClientIdentity::Loopback => "loopback"@,
            ReasonForNoClientIdentity::NoAuthorityInHttpRequest => {
                "no_authority_in_http_request"@
            },
            ReasonForNoClientIdentity::NotHttp => "not_http"@,
            ReasonForNoClientIdentity::NotProvidedByClient => "not_provided_by_client"@,
            ReasonForNoClientIdentity::NotProvidedByServiceDiscovery => {
                "not_provided_by_service_discovery"@
            },
        }
    }

    pub fn describe(&self) -> (r: &'static str)
        ensures
            r@ == self.describe_spec(),
    {
        match self {
            ReasonForNoClientIdentity::Loopback => "loopback",
            ReasonForNoClientIdentity::NoAuthorityInHttpRequest => {
                "no_authority_in_http_request"
            },
            ReasonForNoClientIdentity::NotHttp => "not_http",
            ReasonForNoClientIdentity::NotProvidedByClient => "not_provided_by_client",
            ReasonForNoClientIdentity::NotProvidedByServiceDiscovery => {
                "not_provided_by_service_discovery"
            },
        }
    }
}

} // verus!
