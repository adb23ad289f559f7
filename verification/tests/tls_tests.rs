use outbound_core::tls::{
    HasIdentity, HasPeerIdentity, HasStatus, ReasonForNoClientIdentity, ReasonForNoIdentity,
    ReasonForNoPeerName, ReasonForNoTls, TlsState,
};
use outbound_core::{Conditional, Name};

fn name(s: &str) -> Name {
    Name::new(s.as_bytes().to_vec())
}

#[test]
fn reasons_spell_themselves_out() {
    assert_eq!(ReasonForNoIdentity::Disabled.describe(), "disabled");
    assert_eq!(
        ReasonForNoIdentity::NoPeerName(ReasonForNoPeerName::Loopback).describe(),
        "loopback"
    );
    assert_eq!(ReasonForNoPeerName::NotHttp.describe(), "not_http");
    assert_eq!(
        ReasonForNoPeerName::NoAuthorityInHttpRequest.describe(),
        "no_authority_in_http_request"
    );
    assert_eq!(
        ReasonForNoPeerName::NotProvidedByServiceDiscovery.describe(),
        "not_provided_by_service_discovery"
    );
    assert_eq!(
        ReasonForNoPeerName::NotProvidedByRemote.describe(),
        "not_provided_by_remote"
    );
    assert_eq!(ReasonForNoTls::Disabled.describe(), "disabled");
    assert_eq!(
        ReasonForNoTls::NoClientIdentity(ReasonForNoClientIdentity::NotProvidedByClient)
            .describe(),
        "not_provided_by_client"
    );
    assert_eq!(ReasonForNoClientIdentity::Loopback.describe(), "loopback");
    assert_eq!(ReasonForNoClientIdentity::NotHttp.describe(), "not_http");
    assert_eq!(
        ReasonForNoClientIdentity::NoAuthorityInHttpRequest.describe(),
        "no_authority_in_http_request"
    );
    assert_eq!(
        ReasonForNoClientIdentity::NotProvidedByServiceDiscovery.describe(),
        "not_provided_by_service_discovery"
    );
}

#[test]
fn reasons_convert_upward() {
    assert_eq!(
        ReasonForNoIdentity::from(ReasonForNoPeerName::NotHttp),
        ReasonForNoIdentity::NoPeerName(ReasonForNoPeerName::NotHttp)
    );
    assert_eq!(
        ReasonForNoTls::from(ReasonForNoClientIdentity::Loopback),
        ReasonForNoTls::NoClientIdentity(ReasonForNoClientIdentity::Loopback)
    );
}

#[test]
fn tls_state_exposes_its_identities() {
    let state = TlsState::new(
        name("server.example"),
        Conditional::Granted(name("client.example")),
    );
    match state.client_identity() {
        Conditional::Granted(n) => assert!(n.same(&name("client.example"))),
        Conditional::Refused(_) => panic!("a client identity was presented"),
    }
    match state.identity() {
        Conditional::Granted(n) => assert!(n.same(&name("client.example"))),
        Conditional::Refused(_) => panic!("a client identity was presented"),
    }
    match state.peer_identity() {
        Conditional::Granted(n) => assert!(n.same(&name("server.example"))),
        Conditional::Refused(_) => panic!("an established session has a peer"),
    }
    // Anything with a peer identity reports a secured status.
    assert!(matches!(state.tls_status(), Conditional::Granted(())));
    assert_eq!(state.tls_status().describe(), "true");
}

#[test]
fn withheld_identities_keep_their_reason() {
    let state = TlsState::new(
        name("server.example"),
        Conditional::Refused(ReasonForNoClientIdentity::NotProvidedByClient),
    );
    match state.client_identity() {
        Conditional::Granted(_) => panic!("no client identity was presented"),
        Conditional::Refused(r) => {
            assert_eq!(r, ReasonForNoClientIdentity::NotProvidedByClient)
        }
    }
}

#[test]
fn status_describes_refusals() {
    let status: outbound_core::tls::Status =
        Conditional::Refused(ReasonForNoTls::NoClientIdentity(
            ReasonForNoClientIdentity::Loopback,
        ));
    assert_eq!(status.describe(), "loopback");
}
