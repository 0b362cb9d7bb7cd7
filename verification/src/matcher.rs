//! Matchers: predicates over a relay, one per endpoint kind, and the
//! relay-list filter that applies them together with the two-pass
//! `include_in_country` rule.

use vstd::prelude::*;

use crate::constraint::Constraint;
use crate::location::CustomListsSettings;
use crate::location::ResolvedLocationConstraint;
use crate::location::resolve_location_spec;
use crate::location::resolved_matches_spec;
use crate::net::TransportProtocol;
use crate::net::TunnelType;
use crate::relay_constraints::BridgeState;
use crate::relay_constraints::InternalBridgeConstraints;
use crate::relay_constraints::OpenVpnConstraintsFilter;
use crate::relay_constraints::Ownership;
use crate::relay_constraints::Providers;
use crate::relay_constraints::RelayConstraintsFilter;
use crate::relay_constraints::TransportPort;
use crate::relay_constraints::WireguardConstraintsFilter;
use crate::relay_list::OpenVpnEndpointData;
use crate::relay_list::Relay;
use crate::relay_list::WireguardEndpointData;

verus! {

/// Whether the relay is active.
pub open spec fn active_spec(relay: Relay) -> bool {
    relay.active
}

/// Returns whether `relay` is active.
pub fn filter_on_active(relay: &Relay) -> (r: bool)
    ensures
        r == active_spec(*relay),
{
    relay.active
}

/// Whether the relay satisfies the location constraint, ignoring
/// `include_in_country`: the first location pass of the pipeline.
pub open spec fn location_spec(filter: Constraint<ResolvedLocationConstraint>, relay: Relay) -> bool {
    resolved_matches_spec(filter, relay, true)
}

/// Returns whether `relay` satisfies the location constraint posed by
/// `filter`, ignoring `include_in_country`.
pub fn filter_on_location(filter: &Constraint<ResolvedLocationConstraint>, relay: &Relay) -> (r:
    bool)
    ensures
        r == location_spec(*filter, *relay),
{
    let ignore_include_in_countries = true;
    filter.matches_with_opts(relay, ignore_include_in_countries)
}

/// Whether the relay satisfies the ownership constraint.
pub open spec fn ownership_spec(filter: Constraint<Ownership>, relay: Relay) -> bool {
    match filter {
        Constraint::Any => true,
        Constraint::Only(o) => o.matches_spec(relay),
    }
}

/// Returns whether `relay` satisfies the ownership constraint posed by
/// `filter`.
pub fn filter_on_ownership(filter: &Constraint<Ownership>, relay: &Relay) -> (r: bool)
    ensures
        r == ownership_spec(*filter, *relay),
{
    match filter {
        Constraint::Any => true,
        Constraint::Only(o) => o.matches(relay),
    }
}

/// Whether the relay satisfies the providers constraint.
pub open spec fn providers_spec(filter: Constraint<Providers>, relay: Relay) -> bool {
    match filter {
        Constraint::Any => true,
        Constraint::Only(p) => p.matches_spec(relay),
    }
}

/// Returns whether `relay` satisfies the providers constraint posed by
/// `filter`.
pub fn filter_on_providers(filter: &Constraint<Providers>, relay: &Relay) -> (r: bool)
    ensures
        r == providers_spec(*filter, *relay),
{
    match filter {
        Constraint::Any => true,
        Constraint::Only(p) => p.matches(relay),
    }
}

/// Returns whether the relay is an OpenVPN relay.
pub fn filter_openvpn(relay: &Relay) -> (r: bool)
    ensures
        r == relay.endpoint_data.is_openvpn(),
{
    matches!(relay.endpoint_data, crate::relay_list::RelayEndpointData::Openvpn)
}

/// Returns whether the relay is a WireGuard relay.
pub fn filter_wireguard(relay: &Relay) -> (r: bool)
    ensures
        r == relay.endpoint_data.is_wireguard(),
{
    matches!(relay.endpoint_data, crate::relay_list::RelayEndpointData::Wireguard(_))
}

/// Returns whether the relay is a bridge.
pub fn filter_bridge(relay: &Relay) -> (r: bool)
    ensures
        r == relay.endpoint_data.is_bridge(),
{
    matches!(relay.endpoint_data, crate::relay_list::RelayEndpointData::Bridge)
}

/// Whether the offered port/protocol pairs hold one satisfying the
/// transport/port constraint.
pub open spec fn openvpn_port_seq_spec(port: Constraint<TransportPort>, ports: Seq<OpenVpnEndpoint>)
    -> bool {
    match port {
        Constraint::Any => true,
        Constraint::Only(tp) => exists|i: int|
            0 <= i < ports.len() && (#[trigger] ports[i]).protocol == tp.protocol && match tp.port {
                Constraint::Any => true,
                Constraint::Only(p) => ports[i].port == p,
            },
    }
}

/// Whether the catalog's OpenVPN block offers an endpoint satisfying the
/// transport/port constraint.
pub open spec fn openvpn_port_spec(port: Constraint<TransportPort>, data: OpenVpnEndpointData)
    -> bool {
    openvpn_port_seq_spec(port, data.ports@)
}

/// Returns whether the OpenVPN block offers an endpoint satisfying the
/// transport/port constraint posed by `port`.
#[verifier::loop_isolation(false)]
pub fn openvpn_filter_on_port(port: Constraint<TransportPort>, endpoint: &OpenVpnEndpointData)
    -> (r: bool)
    ensures
        r == openvpn_port_spec(port, *endpoint),
{
    match port {
        Constraint::Any => true,
        Constraint::Only(tp) => {
            let mut i: usize = 0;
            while i < endpoint.ports.len()
                invariant
                    i <= endpoint.ports.len(),
                    forall|m: int|
                        0 <= m < i ==> !(#[trigger] endpoint.ports@[m].protocol == tp.protocol
                            && match tp.port {
                            Constraint::Any => true,
                            Constraint::Only(p) => endpoint.ports@[m].port == p,
                        }),
                decreases endpoint.ports.len() - i,
            {
                let e = endpoint.ports[i];
                if e.protocol == tp.protocol {
                    let port_ok = match tp.port {
                        Constraint::Any => true,
                        Constraint::Only(p) => e.port == p,
                    };
                    if port_ok {
                        return true;
                    }
                }
                i = i + 1;
            }
            false
        },
    }
}

/// Returns whether two relays are distinct, judged by their hostnames.
pub fn are_distinct_relays(peer: &Relay, relay: &Relay) -> (r: bool)
    ensures
        r == (peer.hostname@ != relay.hostname@),
{
    !(peer.hostname == relay.hostname)
}

/// The endpoint-kind part of a matcher: a predicate over a relay's endpoints
/// that abstracts over tunnel-specific and bridge constraints.
pub trait EndpointMatcher: Sized {
    /// Whether the relay has endpoints this matcher accepts.
    spec fn matches_spec(&self, relay: Relay) -> bool;

    /// Returns whether the relay has matching endpoints.
    fn is_matching_relay(&self, relay: &Relay) -> (r: bool)
        ensures
            r == self.matches_spec(*relay),
    ;
}

/// Accepts WireGuard relays; with a peer set, only relays distinct from that
/// peer, for multihop.
pub struct WireguardMatcher {
    /// An already selected peer relay, excluded from further selection.
    pub peer: Option<Relay>,
    pub port: Constraint<u16>,
    pub ip_version: Constraint<IpVersion>,
    pub data: WireguardEndpointData,
}

use crate::net::IpVersion;

impl WireguardMatcher {
    /// Builds the matcher from the WireGuard part of a query.
    pub fn new(constraints: WireguardConstraintsFilter, data: WireguardEndpointData) -> (r: Self)
        ensures
            r.peer is None,
            r.port == constraints.port,
            r.ip_version == constraints.ip_version,
            r.data == data,
    {
        WireguardMatcher { peer: Option::None, port: constraints.port, ip_version: constraints.ip_version, data }
    }

    /// Builds a full relay matcher for WireGuard relays from a query.
    pub fn new_matcher(
        constraints: RelayConstraintsFilter,
        data: WireguardEndpointData,
        custom_lists: &CustomListsSettings,
    ) -> (r: RelayMatcher<WireguardMatcher>)
        ensures
            crate::constraint::cview(r.locations) == resolve_location_spec(
                constraints.location,
                custom_lists.custom_lists@,
            ),
            crate::constraint::cview(r.providers) == crate::constraint::cview(
                constraints.providers,
            ),
            r.ownership == constraints.ownership,
            r.endpoint_matcher.peer is None,
            r.endpoint_matcher.port == constraints.wireguard_constraints.port,
            r.endpoint_matcher.ip_version == constraints.wireguard_constraints.ip_version,
            r.endpoint_matcher.data == data,
    {
        RelayMatcher {
            locations: ResolvedLocationConstraint::from_constraint(
                constraints.location,
                custom_lists,
            ),
            providers: constraints.providers,
            ownership: constraints.ownership,
            endpoint_matcher: WireguardMatcher::new(constraints.wireguard_constraints, data),
        }
    }

    /// Like [`WireguardMatcher::new_matcher`], with the query's multihop entry
    /// location as the location constraint.
    pub fn new_entry_matcher(
        constraints: RelayConstraintsFilter,
        data: WireguardEndpointData,
        custom_lists: &CustomListsSettings,
    ) -> (r: RelayMatcher<WireguardMatcher>)
        ensures
            crate::constraint::cview(r.locations) == resolve_location_spec(
                constraints.wireguard_constraints.entry_location,
                custom_lists.custom_lists@,
            ),
            crate::constraint::cview(r.providers) == crate::constraint::cview(
                constraints.providers,
            ),
            r.ownership == constraints.ownership,
            r.endpoint_matcher.peer is None,
            r.endpoint_matcher.port == constraints.wireguard_constraints.port,
            r.endpoint_matcher.ip_version == constraints.wireguard_constraints.ip_version,
            r.endpoint_matcher.data == data,
    {
        let entry_location = match &constraints.wireguard_constraints.entry_location {
            Constraint::Any => Constraint::Any,
            Constraint::Only(l) => Constraint::Only(l.clone()),
        };
        let locations = ResolvedLocationConstraint::from_constraint(entry_location, custom_lists);
        RelayMatcher {
            locations,
            providers: constraints.providers,
            ownership: constraints.ownership,
            endpoint_matcher: WireguardMatcher::new(constraints.wireguard_constraints, data),
        }
    }

    /// Like [`WireguardMatcher::new_matcher`], with the port and IP version a
    /// multihop exit relay is reached at: the entry talks to the exit over
    /// IPv4, on any port.
    pub fn new_exit_matcher(
        constraints: RelayConstraintsFilter,
        data: WireguardEndpointData,
        custom_lists: &CustomListsSettings,
    ) -> (r: RelayMatcher<WireguardMatcher>)
        ensures
            crate::constraint::cview(r.locations) == resolve_location_spec(
                constraints.location,
                custom_lists.custom_lists@,
            ),
            crate::constraint::cview(r.providers) == crate::constraint::cview(
                constraints.providers,
            ),
            r.ownership == constraints.ownership,
            r.endpoint_matcher.peer is None,
            r.endpoint_matcher.port is Any,
            r.endpoint_matcher.ip_version == Constraint::<IpVersion>::Only(IpVersion::V4),
            r.endpoint_matcher.data == data,
    {
        let data2 = data.clone();
        let mut matcher = Self::new_matcher(constraints, data2, custom_lists);
        matcher.endpoint_matcher = crate::helpers::wireguard_exit_matcher(data);
        matcher
    }

    /// Builds a matcher from the catalog's WireGuard block alone.
    pub fn from_endpoint(data: WireguardEndpointData) -> (r: Self)
        ensures
            r.peer is None,
            r.port is Any,
            r.ip_version is Any,
            r.data == data,
    {
        WireguardMatcher {
            peer: Option::None,
            port: Constraint::Any,
            ip_version: Constraint::Any,
            data,
        }
    }
}

impl EndpointMatcher for WireguardMatcher {
    open spec fn matches_spec(&self, relay: Relay) -> bool {
        relay.endpoint_data.is_wireguard() && match self.peer {
            Option::Some(peer) => peer.hostname@ != relay.hostname@,
            Option::None => true,
        }
    }

    fn is_matching_relay(&self, relay: &Relay) -> (r: bool) {
        match &self.peer {
            Option::Some(peer) => filter_wireguard(relay) && are_distinct_relays(peer, relay),
            Option::None => filter_wireguard(relay),
        }
    }
}

/// Accepts OpenVPN relays whose catalog block offers a port satisfying the
/// query.
pub struct OpenVpnMatcher {
    pub constraints: OpenVpnConstraintsFilter,
    pub data: OpenVpnEndpointData,
}

impl OpenVpnMatcher {
    /// Builds the matcher from the OpenVPN part of a query. With bridges
    /// demanded and no port pinned, only TCP endpoints are accepted, since
    /// bridges carry only TCP.
    pub fn new(
        constraints: OpenVpnConstraintsFilter,
        data: OpenVpnEndpointData,
        bridge_state: BridgeState,
    ) -> (r: Self)
        ensures
            r.data == data,
            crate::constraint::cview(r.constraints.bridge_settings) == crate::constraint::cview(
                constraints.bridge_settings,
            ),
            r.constraints.port == if constraints.port is Any && bridge_state == BridgeState::On {
                Constraint::<TransportPort>::Only(
                    TransportPort { protocol: TransportProtocol::Tcp, port: Constraint::Any },
                )
            } else {
                constraints.port
            },
    {
        let mut constraints = constraints;
        if constraints.port.is_any() && bridge_state == BridgeState::On {
            constraints.port = Constraint::Only(
                TransportPort { protocol: TransportProtocol::Tcp, port: Constraint::Any },
            );
        }
        OpenVpnMatcher { constraints, data }
    }
}

impl EndpointMatcher for OpenVpnMatcher {
    open spec fn matches_spec(&self, relay: Relay) -> bool {
        relay.endpoint_data.is_openvpn() && openvpn_port_spec(self.constraints.port, self.data)
    }

    fn is_matching_relay(&self, relay: &Relay) -> (r: bool) {
        filter_openvpn(relay) && openvpn_filter_on_port(self.constraints.port, &self.data)
    }
}

/// Accepts relays of either tunnel kind, honouring a tunnel protocol
/// constraint when one is posed.
pub struct AnyTunnelMatcher {
    pub wireguard: WireguardMatcher,
    pub openvpn: OpenVpnMatcher,
    /// Even without a tunnel protocol in the query the selector may prefer
    /// one, so the constraint lives here.
    pub tunnel_type: Constraint<TunnelType>,
}

impl EndpointMatcher for AnyTunnelMatcher {
    open spec fn matches_spec(&self, relay: Relay) -> bool {
        match self.tunnel_type {
            Constraint::Any => self.wireguard.matches_spec(relay) || self.openvpn.matches_spec(
                relay,
            ),
            Constraint::Only(TunnelType::OpenVpn) => self.openvpn.matches_spec(relay),
            Constraint::Only(TunnelType::Wireguard) => self.wireguard.matches_spec(relay),
        }
    }

    fn is_matching_relay(&self, relay: &Relay) -> (r: bool) {
        match self.tunnel_type {
            Constraint::Any => self.wireguard.is_matching_relay(relay)
                || self.openvpn.is_matching_relay(relay),
            Constraint::Only(TunnelType::OpenVpn) => self.openvpn.is_matching_relay(relay),
            Constraint::Only(TunnelType::Wireguard) => self.wireguard.is_matching_relay(relay),
        }
    }
}

/// Accepts bridge relays.
pub struct BridgeMatcher;

impl BridgeMatcher {
    /// Builds a full relay matcher for bridge relays from the resolved bridge
    /// constraints.
    pub fn new_matcher(
        relay_constraints: InternalBridgeConstraints,
        custom_lists: &CustomListsSettings,
    ) -> (r: RelayMatcher<BridgeMatcher>)
        ensures
            crate::constraint::cview(r.locations) == resolve_location_spec(
                relay_constraints.location,
                custom_lists.custom_lists@,
            ),
            crate::constraint::cview(r.providers) == crate::constraint::cview(
                relay_constraints.providers,
            ),
            r.ownership == relay_constraints.ownership,
    {
        RelayMatcher {
            locations: ResolvedLocationConstraint::from_constraint(
                relay_constraints.location,
                custom_lists,
            ),
            providers: relay_constraints.providers,
            ownership: relay_constraints.ownership,
            endpoint_matcher: BridgeMatcher,
        }
    }
}

impl EndpointMatcher for BridgeMatcher {
    open spec fn matches_spec(&self, relay: Relay) -> bool {
        relay.endpoint_data.is_bridge()
    }

    fn is_matching_relay(&self, relay: &Relay) -> (r: bool) {
        filter_bridge(relay)
    }
}

/// A full relay matcher: the location, provider and ownership constraints,
/// and the endpoint-kind predicate.
pub struct RelayMatcher<T: EndpointMatcher> {
    /// Locations allowed to be picked from. A custom list may resolve to
    /// several locations; otherwise this holds at most one.
    pub locations: Constraint<ResolvedLocationConstraint>,
    /// Relay providers allowed to be picked from.
    pub providers: Constraint<Providers>,
    /// Relay ownership allowed to be picked from.
    pub ownership: Constraint<Ownership>,
    /// The endpoint-kind predicate of the query.
    pub endpoint_matcher: T,
}

/// The first five steps of the filter pipeline: active, location (first
/// pass), ownership, providers, endpoint kind.
pub open spec fn prefilter_spec<T: EndpointMatcher>(m: RelayMatcher<T>, relay: Relay) -> bool {
    &&& active_spec(relay)
    &&& location_spec(m.locations, relay)
    &&& ownership_spec(m.ownership, relay)
    &&& providers_spec(m.providers, relay)
    &&& m.endpoint_matcher.matches_spec(relay)
}

/// Whether some relay of the sequence passes the pipeline and is first-class
/// (`include_in_country`): when none is, the stricter location attribute is
/// waived for everyone.
pub open spec fn shortlist_has_included<T: EndpointMatcher>(
    m: RelayMatcher<T>,
    relays: Seq<Relay>,
) -> bool {
    exists|i: int| 0 <= i < relays.len() && prefilter_spec(m, #[trigger] relays[i]) && relays[i].include_in_country
}

/// The full filter: the pipeline, then the second location pass with
/// `include_in_country` demanded exactly when some first-class relay passed
/// the pipeline.
pub open spec fn matches_final_spec<T: EndpointMatcher>(
    m: RelayMatcher<T>,
    relay: Relay,
    relays: Seq<Relay>,
) -> bool {
    prefilter_spec(m, relay) && resolved_matches_spec(
        m.locations,
        relay,
        !shortlist_has_included(m, relays),
    )
}

/// The location a WireGuard matcher built from a query constrains: the
/// query's own location for the exit side, the multihop entry location for
/// the entry side.
pub open spec fn wg_query_location(query: RelayConstraintsFilter, entry_side: bool) -> Constraint<
    LocationConstraint,
> {
    if entry_side {
        query.wireguard_constraints.entry_location
    } else {
        query.location
    }
}

use crate::location::CustomList;
use crate::location::LocationConstraint;
use crate::location::rlc_view_matches;

/// The first five pipeline steps for a WireGuard query, stated over the query
/// itself.
pub open spec fn wg_query_prefilter(
    query: RelayConstraintsFilter,
    entry_side: bool,
    lists: Seq<CustomList>,
    relay: Relay,
) -> bool {
    &&& relay.active
    &&& rlc_view_matches(
        resolve_location_spec(wg_query_location(query, entry_side), lists),
        relay,
        true,
    )
    &&& ownership_spec(query.ownership, relay)
    &&& providers_spec(query.providers, relay)
    &&& relay.endpoint_data.is_wireguard()
}

/// Whether some first-class relay passes the pipeline for the WireGuard
/// query.
pub open spec fn wg_query_has_included(
    query: RelayConstraintsFilter,
    entry_side: bool,
    lists: Seq<CustomList>,
    relays: Seq<Relay>,
) -> bool {
    exists|i: int|
        0 <= i < relays.len() && wg_query_prefilter(query, entry_side, lists, #[trigger] relays[i])
            && relays[i].include_in_country
}

/// The whole filter for a WireGuard query, stated over the query itself.
pub open spec fn wg_relay_matches(
    query: RelayConstraintsFilter,
    entry_side: bool,
    lists: Seq<CustomList>,
    relays: Seq<Relay>,
    relay: Relay,
) -> bool {
    wg_query_prefilter(query, entry_side, lists, relay) && rlc_view_matches(
        resolve_location_spec(wg_query_location(query, entry_side), lists),
        relay,
        !wg_query_has_included(query, entry_side, lists, relays),
    )
}

/// The transport/port constraint the matcher enforces: with bridges demanded
/// and no port pinned, TCP is forced.
pub open spec fn effective_openvpn_port(query: RelayConstraintsFilter, bridge_state: BridgeState)
    -> Constraint<TransportPort> {
    if query.openvpn_constraints.port is Any && bridge_state == BridgeState::On {
        Constraint::Only(TransportPort { protocol: TransportProtocol::Tcp, port: Constraint::Any })
    } else {
        query.openvpn_constraints.port
    }
}

/// The endpoint-kind step of the pipeline for a full query.
pub open spec fn any_query_kind(
    query: RelayConstraintsFilter,
    bridge_state: BridgeState,
    ovpn_ports: Seq<OpenVpnEndpoint>,
    relay: Relay,
) -> bool {
    match query.tunnel_protocol {
        Constraint::Any => relay.endpoint_data.is_wireguard() || (relay.endpoint_data.is_openvpn()
            && openvpn_port_seq_spec(effective_openvpn_port(query, bridge_state), ovpn_ports)),
        Constraint::Only(TunnelType::Wireguard) => relay.endpoint_data.is_wireguard(),
        Constraint::Only(TunnelType::OpenVpn) => relay.endpoint_data.is_openvpn()
            && openvpn_port_seq_spec(effective_openvpn_port(query, bridge_state), ovpn_ports),
    }
}

use crate::relay_list::OpenVpnEndpoint;

/// The first five pipeline steps for a full query, stated over the query
/// itself.
pub open spec fn any_query_prefilter(
    query: RelayConstraintsFilter,
    bridge_state: BridgeState,
    lists: Seq<CustomList>,
    ovpn_ports: Seq<OpenVpnEndpoint>,
    relay: Relay,
) -> bool {
    &&& relay.active
    &&& rlc_view_matches(resolve_location_spec(query.location, lists), relay, true)
    &&& ownership_spec(query.ownership, relay)
    &&& providers_spec(query.providers, relay)
    &&& any_query_kind(query, bridge_state, ovpn_ports, relay)
}

/// Whether some first-class relay passes the pipeline for the full query.
pub open spec fn any_query_has_included(
    query: RelayConstraintsFilter,
    bridge_state: BridgeState,
    lists: Seq<CustomList>,
    ovpn_ports: Seq<OpenVpnEndpoint>,
    relays: Seq<Relay>,
) -> bool {
    exists|i: int|
        0 <= i < relays.len() && any_query_prefilter(
            query,
            bridge_state,
            lists,
            ovpn_ports,
            #[trigger] relays[i],
        ) && relays[i].include_in_country
}

/// The whole filter for a full query, stated over the query itself: the
/// relays that `get_tunnel_endpoints` may return.
pub open spec fn any_relay_matches(
    query: RelayConstraintsFilter,
    bridge_state: BridgeState,
    lists: Seq<CustomList>,
    ovpn_ports: Seq<OpenVpnEndpoint>,
    relays: Seq<Relay>,
    relay: Relay,
) -> bool {
    any_query_prefilter(query, bridge_state, lists, ovpn_ports, relay) && rlc_view_matches(
        resolve_location_spec(query.location, lists),
        relay,
        !any_query_has_included(query, bridge_state, lists, ovpn_ports, relays),
    )
}

/// The first five pipeline steps for a bridge query, stated over the resolved
/// bridge constraints.
pub open spec fn bridge_query_prefilter(
    constraints: InternalBridgeConstraints,
    lists: Seq<CustomList>,
    relay: Relay,
) -> bool {
    &&& relay.active
    &&& rlc_view_matches(resolve_location_spec(constraints.location, lists), relay, true)
    &&& ownership_spec(constraints.ownership, relay)
    &&& providers_spec(constraints.providers, relay)
    &&& relay.endpoint_data.is_bridge()
}

/// Whether some first-class relay passes the pipeline for the bridge query.
pub open spec fn bridge_query_has_included(
    constraints: InternalBridgeConstraints,
    lists: Seq<CustomList>,
    relays: Seq<Relay>,
) -> bool {
    exists|i: int|
        0 <= i < relays.len() && bridge_query_prefilter(constraints, lists, #[trigger] relays[i])
            && relays[i].include_in_country
}

/// The whole filter for a bridge query, stated over the resolved bridge
/// constraints.
pub open spec fn bridge_relay_matches(
    constraints: InternalBridgeConstraints,
    lists: Seq<CustomList>,
    relays: Seq<Relay>,
    relay: Relay,
) -> bool {
    bridge_query_prefilter(constraints, lists, relay) && rlc_view_matches(
        resolve_location_spec(constraints.location, lists),
        relay,
        !bridge_query_has_included(constraints, lists, relays),
    )
}

/// The relays a WireGuard query admits, exit side or entry side.
pub open spec fn wg_candidates(
    query: RelayConstraintsFilter,
    lists: Seq<CustomList>,
    relays: Seq<Relay>,
    entry_side: bool,
) -> Seq<Relay> {
    relays.filter(|x: Relay| wg_relay_matches(query, entry_side, lists, relays, x))
}

/// The relays a full query admits.
pub open spec fn any_candidates(
    query: RelayConstraintsFilter,
    bridge_state: BridgeState,
    lists: Seq<CustomList>,
    ovpn_ports: Seq<OpenVpnEndpoint>,
    relays: Seq<Relay>,
) -> Seq<Relay> {
    relays.filter(|x: Relay| any_relay_matches(query, bridge_state, lists, ovpn_ports, relays, x))
}

/// The relays a bridge query admits.
pub open spec fn bridge_candidates(
    constraints: InternalBridgeConstraints,
    lists: Seq<CustomList>,
    relays: Seq<Relay>,
) -> Seq<Relay> {
    relays.filter(|x: Relay| bridge_relay_matches(constraints, lists, relays, x))
}

/// Every element of a filtered sequence is an element of the sequence.
pub proof fn lemma_filter_subset<A>(s: Seq<A>, pred: spec_fn(A) -> bool)
    ensures
        forall|i: int| 0 <= i < s.filter(pred).len() ==> s.contains(#[trigger] s.filter(pred)[i]),
    decreases s.len(),
{
    reveal_with_fuel(Seq::filter, 2);
    if s.len() > 0 {
        lemma_filter_subset(s.drop_last(), pred);
        assert forall|i: int|
            0 <= i < s.filter(pred).len() implies s.contains(#[trigger] s.filter(pred)[i]) by {
            let f = s.filter(pred);
            let fd = s.drop_last().filter(pred);
            if i < fd.len() {
                assert(fd[i] == f[i]);
                assert(s.drop_last().contains(fd[i]));
                let w = choose|w: int|
                    0 <= w < s.drop_last().len() && s.drop_last()[w] == fd[i];
                assert(s[w] == f[i]);
            } else {
                assert(f[i] == s.last());
                assert(s[s.len() - 1] == s.last());
            }
        }
    }
}

/// Every relay a full query returns satisfies each predicate of the
/// pipeline: it is active, lies within the location constraint, is of the
/// demanded ownership and providers, offers the demanded endpoint kind, and
/// passes the second location pass with `include_in_country` waived exactly
/// when no first-class relay passes the pipeline.
pub proof fn lemma_candidates_satisfy_pipeline(
    query: RelayConstraintsFilter,
    bridge_state: BridgeState,
    lists: Seq<CustomList>,
    ovpn_ports: Seq<OpenVpnEndpoint>,
    relays: Seq<Relay>,
    i: int,
)
    requires
        0 <= i < any_candidates(query, bridge_state, lists, ovpn_ports, relays).len(),
    ensures
        ({
            let c = any_candidates(query, bridge_state, lists, ovpn_ports, relays)[i];
            &&& c.active
            &&& rlc_view_matches(resolve_location_spec(query.location, lists), c, true)
            &&& ownership_spec(query.ownership, c)
            &&& providers_spec(query.providers, c)
            &&& any_query_kind(query, bridge_state, ovpn_ports, c)
            &&& rlc_view_matches(
                resolve_location_spec(query.location, lists),
                c,
                !any_query_has_included(query, bridge_state, lists, ovpn_ports, relays),
            )
            &&& relays.contains(c)
        }),
{
    let pred = |x: Relay| any_relay_matches(query, bridge_state, lists, ovpn_ports, relays, x);
    relays.lemma_filter_pred(pred, i);
    lemma_filter_subset(relays, pred);
}

/// Hidden relays (`include_in_country` false) are never returned for a query
/// that pins a country, when at least one first-class relay satisfies the
/// same query.
pub proof fn lemma_hidden_relays_not_returned(
    query: RelayConstraintsFilter,
    bridge_state: BridgeState,
    lists: Seq<CustomList>,
    ovpn_ports: Seq<OpenVpnEndpoint>,
    relays: Seq<Relay>,
    i: int,
)
    requires
        0 <= i < any_candidates(query, bridge_state, lists, ovpn_ports, relays).len(),
        any_query_has_included(query, bridge_state, lists, ovpn_ports, relays),
        resolve_location_spec(query.location, lists) matches Constraint::Only(
            crate::location::ResolvedLocationConstraintView::Location(
                crate::location::GeographicLocationConstraintView::Country(_),
            ),
        ),
    ensures
        any_candidates(query, bridge_state, lists, ovpn_ports, relays)[i].include_in_country,
{
    let pred = |x: Relay| any_relay_matches(query, bridge_state, lists, ovpn_ports, relays, x);
    relays.lemma_filter_pred(pred, i);
}

/// Two pointwise-equal predicates filter a sequence alike.
pub proof fn lemma_filter_congruent<A>(s: Seq<A>, p1: spec_fn(A) -> bool, p2: spec_fn(A) -> bool)
    requires
        forall|x: A| s.contains(x) ==> p1(x) == p2(x),
    ensures
        s.filter(p1) == s.filter(p2),
    decreases s.len(),
{
    reveal_with_fuel(Seq::filter, 2);
    if s.len() > 0 {
        assert forall|x: A| s.drop_last().contains(x) implies p1(x) == p2(x) by {
            let i = choose|i: int| 0 <= i < s.drop_last().len() && s.drop_last()[i] == x;
            assert(s[i] == x);
            assert(s.contains(x));
        }
        lemma_filter_congruent(s.drop_last(), p1, p2);
        assert(s.contains(s.last())) by {
            assert(s[s.len() - 1] == s.last());
        }
    }
}

/// A matcher whose fields come from a WireGuard query filters a relay list
/// exactly as the query-level predicate says.
pub proof fn lemma_wg_matcher_agrees(
    m: RelayMatcher<WireguardMatcher>,
    query: RelayConstraintsFilter,
    entry_side: bool,
    lists: Seq<CustomList>,
    relays: Seq<Relay>,
)
    requires
        crate::constraint::cview(m.locations) == resolve_location_spec(
            wg_query_location(query, entry_side),
            lists,
        ),
        crate::constraint::cview(m.providers) == crate::constraint::cview(query.providers),
        m.ownership == query.ownership,
        m.endpoint_matcher.peer is None,
    ensures
        forall|x: Relay| #[trigger]
            matches_final_spec(m, x, relays) == wg_relay_matches(query, entry_side, lists, relays, x),
        relays.filter(|x: Relay| matches_final_spec(m, x, relays)) == relays.filter(
            |x: Relay| wg_relay_matches(query, entry_side, lists, relays, x),
        ),
{
    assert forall|x: Relay, ig: bool| #[trigger]
        resolved_matches_spec(m.locations, x, ig) == rlc_view_matches(
        resolve_location_spec(wg_query_location(query, entry_side), lists),
        x,
        ig,
    ) by {
        crate::location::lemma_resolved_matches_view(m.locations, x, ig);
    }
    assert forall|x: Relay| #[trigger]
        prefilter_spec(m, x) == wg_query_prefilter(query, entry_side, lists, x) by {
        assert(resolved_matches_spec(m.locations, x, true) == rlc_view_matches(
            resolve_location_spec(wg_query_location(query, entry_side), lists),
            x,
            true,
        ));
        assert(providers_spec(m.providers, x) == providers_spec(query.providers, x));
    }
    assert(shortlist_has_included(m, relays) == wg_query_has_included(
        query,
        entry_side,
        lists,
        relays,
    )) by {
        if shortlist_has_included(m, relays) {
            let i = choose|i: int|
                0 <= i < relays.len() && prefilter_spec(m, #[trigger] relays[i])
                    && relays[i].include_in_country;
            assert(wg_query_prefilter(query, entry_side, lists, relays[i]));
        }
        if wg_query_has_included(query, entry_side, lists, relays) {
            let i = choose|i: int|
                0 <= i < relays.len() && wg_query_prefilter(
                    query,
                    entry_side,
                    lists,
                    #[trigger] relays[i],
                ) && relays[i].include_in_country;
            assert(prefilter_spec(m, relays[i]));
        }
    }
    lemma_filter_congruent(
        relays,
        |x: Relay| matches_final_spec(m, x, relays),
        |x: Relay| wg_relay_matches(query, entry_side, lists, relays, x),
    );
}

/// A matcher whose fields come from a full query filters a relay list exactly
/// as the query-level predicate says.
pub proof fn lemma_any_matcher_agrees(
    m: RelayMatcher<AnyTunnelMatcher>,
    query: RelayConstraintsFilter,
    bridge_state: BridgeState,
    lists: Seq<CustomList>,
    ovpn_ports: Seq<OpenVpnEndpoint>,
    relays: Seq<Relay>,
)
    requires
        crate::constraint::cview(m.locations) == resolve_location_spec(query.location, lists),
        crate::constraint::cview(m.providers) == crate::constraint::cview(query.providers),
        m.ownership == query.ownership,
        m.endpoint_matcher.tunnel_type == query.tunnel_protocol,
        m.endpoint_matcher.wireguard.peer is None,
        m.endpoint_matcher.openvpn.constraints.port == effective_openvpn_port(query, bridge_state),
        m.endpoint_matcher.openvpn.data.ports@ == ovpn_ports,
    ensures
        forall|x: Relay| #[trigger]
            matches_final_spec(m, x, relays) == any_relay_matches(
            query,
            bridge_state,
            lists,
            ovpn_ports,
            relays,
            x,
        ),
        relays.filter(|x: Relay| matches_final_spec(m, x, relays)) == relays.filter(
            |x: Relay| any_relay_matches(query, bridge_state, lists, ovpn_ports, relays, x),
        ),
{
    assert forall|x: Relay, ig: bool| #[trigger]
        resolved_matches_spec(m.locations, x, ig) == rlc_view_matches(
        resolve_location_spec(query.location, lists),
        x,
        ig,
    ) by {
        crate::location::lemma_resolved_matches_view(m.locations, x, ig);
    }
    assert forall|x: Relay| #[trigger]
        prefilter_spec(m, x) == any_query_prefilter(query, bridge_state, lists, ovpn_ports, x) by {
        assert(resolved_matches_spec(m.locations, x, true) == rlc_view_matches(
            resolve_location_spec(query.location, lists),
            x,
            true,
        ));
        assert(m.endpoint_matcher.matches_spec(x) == any_query_kind(
            query,
            bridge_state,
            ovpn_ports,
            x,
        ));
    }
    assert(shortlist_has_included(m, relays) == any_query_has_included(
        query,
        bridge_state,
        lists,
        ovpn_ports,
        relays,
    )) by {
        if shortlist_has_included(m, relays) {
            let i = choose|i: int|
                0 <= i < relays.len() && prefilter_spec(m, #[trigger] relays[i])
                    && relays[i].include_in_country;
            assert(any_query_prefilter(query, bridge_state, lists, ovpn_ports, relays[i]));
        }
        if any_query_has_included(query, bridge_state, lists, ovpn_ports, relays) {
            let i = choose|i: int|
                0 <= i < relays.len() && any_query_prefilter(
                    query,
                    bridge_state,
                    lists,
                    ovpn_ports,
                    #[trigger] relays[i],
                ) && relays[i].include_in_country;
            assert(prefilter_spec(m, relays[i]));
        }
    }
    lemma_filter_congruent(
        relays,
        |x: Relay| matches_final_spec(m, x, relays),
        |x: Relay| any_relay_matches(query, bridge_state, lists, ovpn_ports, relays, x),
    );
}

/// Query-level matching reads only the query's views: two queries with equal
/// views admit the same relays.
pub proof fn lemma_any_matches_by_view(
    q1: RelayConstraintsFilter,
    q2: RelayConstraintsFilter,
    bridge_state: BridgeState,
    lists: Seq<CustomList>,
    ovpn_ports: Seq<OpenVpnEndpoint>,
    relays: Seq<Relay>,
)
    requires
        q1@ == q2@,
    ensures
        forall|x: Relay| #[trigger]
            any_relay_matches(q1, bridge_state, lists, ovpn_ports, relays, x) == any_relay_matches(
            q2,
            bridge_state,
            lists,
            ovpn_ports,
            relays,
            x,
        ),
        any_candidates(q1, bridge_state, lists, ovpn_ports, relays) == any_candidates(
            q2,
            bridge_state,
            lists,
            ovpn_ports,
            relays,
        ),
{
    assert(crate::constraint::cview(q1.location) == crate::constraint::cview(q2.location));
    crate::location::lemma_resolve_by_view(q1.location, q2.location, lists);
    assert forall|x: Relay| #[trigger]
        any_query_prefilter(q1, bridge_state, lists, ovpn_ports, x) == any_query_prefilter(
        q2,
        bridge_state,
        lists,
        ovpn_ports,
        x,
    ) by {
        lemma_providers_spec_by_view(q1.providers, q2.providers, x);
    }
    assert(any_query_has_included(q1, bridge_state, lists, ovpn_ports, relays)
        == any_query_has_included(q2, bridge_state, lists, ovpn_ports, relays)) by {
        if any_query_has_included(q1, bridge_state, lists, ovpn_ports, relays) {
            let i = choose|i: int|
                0 <= i < relays.len() && any_query_prefilter(
                    q1,
                    bridge_state,
                    lists,
                    ovpn_ports,
                    #[trigger] relays[i],
                ) && relays[i].include_in_country;
            assert(any_query_prefilter(q2, bridge_state, lists, ovpn_ports, relays[i]));
        }
        if any_query_has_included(q2, bridge_state, lists, ovpn_ports, relays) {
            let i = choose|i: int|
                0 <= i < relays.len() && any_query_prefilter(
                    q2,
                    bridge_state,
                    lists,
                    ovpn_ports,
                    #[trigger] relays[i],
                ) && relays[i].include_in_country;
            assert(any_query_prefilter(q1, bridge_state, lists, ovpn_ports, relays[i]));
        }
    }
    lemma_filter_congruent(
        relays,
        |x: Relay| any_relay_matches(q1, bridge_state, lists, ovpn_ports, relays, x),
        |x: Relay| any_relay_matches(q2, bridge_state, lists, ovpn_ports, relays, x),
    );
}

/// A providers constraint admits a relay exactly as its view does.
proof fn lemma_providers_spec_by_view(
    p1: Constraint<Providers>,
    p2: Constraint<Providers>,
    relay: Relay,
)
    requires
        crate::constraint::cview(p1) == crate::constraint::cview(p2),
    ensures
        providers_spec(p1, relay) == providers_spec(p2, relay),
{
    match (p1, p2) {
        (Constraint::Any, Constraint::Any) => {},
        (Constraint::Only(a), Constraint::Only(b)) => {
            assert(a@ == b@);
        },
        _ => {
            assert(false);
        },
    }
}

/// WireGuard-side matching reads only the query's views: two queries with
/// equal views admit the same relays, on either side of a multihop pair.
pub proof fn lemma_wg_matches_by_view(
    q1: RelayConstraintsFilter,
    q2: RelayConstraintsFilter,
    entry_side: bool,
    lists: Seq<CustomList>,
    relays: Seq<Relay>,
)
    requires
        q1@ == q2@,
    ensures
        forall|x: Relay| #[trigger]
            wg_relay_matches(q1, entry_side, lists, relays, x) == wg_relay_matches(
            q2,
            entry_side,
            lists,
            relays,
            x,
        ),
        wg_candidates(q1, lists, relays, entry_side) == wg_candidates(q2, lists, relays, entry_side),
{
    assert(crate::constraint::cview(wg_query_location(q1, entry_side)) == crate::constraint::cview(
        wg_query_location(q2, entry_side),
    ));
    crate::location::lemma_resolve_by_view(
        wg_query_location(q1, entry_side),
        wg_query_location(q2, entry_side),
        lists,
    );
    assert forall|x: Relay| #[trigger]
        wg_query_prefilter(q1, entry_side, lists, x) == wg_query_prefilter(
        q2,
        entry_side,
        lists,
        x,
    ) by {
        lemma_providers_spec_by_view(q1.providers, q2.providers, x);
    }
    assert(wg_query_has_included(q1, entry_side, lists, relays) == wg_query_has_included(
        q2,
        entry_side,
        lists,
        relays,
    )) by {
        if wg_query_has_included(q1, entry_side, lists, relays) {
            let i = choose|i: int|
                0 <= i < relays.len() && wg_query_prefilter(
                    q1,
                    entry_side,
                    lists,
                    #[trigger] relays[i],
                ) && relays[i].include_in_country;
            assert(wg_query_prefilter(q2, entry_side, lists, relays[i]));
        }
        if wg_query_has_included(q2, entry_side, lists, relays) {
            let i = choose|i: int|
                0 <= i < relays.len() && wg_query_prefilter(
                    q2,
                    entry_side,
                    lists,
                    #[trigger] relays[i],
                ) && relays[i].include_in_country;
            assert(wg_query_prefilter(q1, entry_side, lists, relays[i]));
        }
    }
    lemma_filter_congruent(
        relays,
        |x: Relay| wg_relay_matches(q1, entry_side, lists, relays, x),
        |x: Relay| wg_relay_matches(q2, entry_side, lists, relays, x),
    );
}

/// Bridge matching reads only the views of the resolved constraints: two
/// constraint records with equal views admit the same relays.
pub proof fn lemma_bridge_matches_by_view(
    c1: InternalBridgeConstraints,
    c2: InternalBridgeConstraints,
    lists: Seq<CustomList>,
    relays: Seq<Relay>,
)
    requires
        crate::constraint::cview(c1.location) == crate::constraint::cview(c2.location),
        crate::constraint::cview(c1.providers) == crate::constraint::cview(c2.providers),
        c1.ownership == c2.ownership,
    ensures
        forall|x: Relay| #[trigger]
            bridge_relay_matches(c1, lists, relays, x) == bridge_relay_matches(c2, lists, relays, x),
        bridge_candidates(c1, lists, relays) == bridge_candidates(c2, lists, relays),
{
    crate::location::lemma_resolve_by_view(c1.location, c2.location, lists);
    assert forall|x: Relay| #[trigger]
        bridge_query_prefilter(c1, lists, x) == bridge_query_prefilter(c2, lists, x) by {
        lemma_providers_spec_by_view(c1.providers, c2.providers, x);
    }
    assert(bridge_query_has_included(c1, lists, relays) == bridge_query_has_included(
        c2,
        lists,
        relays,
    )) by {
        if bridge_query_has_included(c1, lists, relays) {
            let i = choose|i: int|
                0 <= i < relays.len() && bridge_query_prefilter(c1, lists, #[trigger] relays[i])
                    && relays[i].include_in_country;
            assert(bridge_query_prefilter(c2, lists, relays[i]));
        }
        if bridge_query_has_included(c2, lists, relays) {
            let i = choose|i: int|
                0 <= i < relays.len() && bridge_query_prefilter(c2, lists, #[trigger] relays[i])
                    && relays[i].include_in_country;
            assert(bridge_query_prefilter(c1, lists, relays[i]));
        }
    }
    lemma_filter_congruent(
        relays,
        |x: Relay| bridge_relay_matches(c1, lists, relays, x),
        |x: Relay| bridge_relay_matches(c2, lists, relays, x),
    );
}

/// A matcher whose fields come from bridge constraints filters a relay list
/// exactly as the query-level predicate says.
pub proof fn lemma_bridge_matcher_agrees(
    m: RelayMatcher<BridgeMatcher>,
    constraints: InternalBridgeConstraints,
    lists: Seq<CustomList>,
    relays: Seq<Relay>,
)
    requires
        crate::constraint::cview(m.locations) == resolve_location_spec(constraints.location, lists),
        crate::constraint::cview(m.providers) == crate::constraint::cview(constraints.providers),
        m.ownership == constraints.ownership,
    ensures
        forall|x: Relay| #[trigger]
            matches_final_spec(m, x, relays) == bridge_relay_matches(constraints, lists, relays, x),
        relays.filter(|x: Relay| matches_final_spec(m, x, relays)) == relays.filter(
            |x: Relay| bridge_relay_matches(constraints, lists, relays, x),
        ),
{
    assert forall|x: Relay, ig: bool| #[trigger]
        resolved_matches_spec(m.locations, x, ig) == rlc_view_matches(
        resolve_location_spec(constraints.location, lists),
        x,
        ig,
    ) by {
        crate::location::lemma_resolved_matches_view(m.locations, x, ig);
    }
    assert forall|x: Relay| #[trigger]
        prefilter_spec(m, x) == bridge_query_prefilter(constraints, lists, x) by {
        assert(resolved_matches_spec(m.locations, x, true) == rlc_view_matches(
            resolve_location_spec(constraints.location, lists),
            x,
            true,
        ));
    }
    assert(shortlist_has_included(m, relays) == bridge_query_has_included(
        constraints,
        lists,
        relays,
    )) by {
        if shortlist_has_included(m, relays) {
            let i = choose|i: int|
                0 <= i < relays.len() && prefilter_spec(m, #[trigger] relays[i])
                    && relays[i].include_in_country;
            assert(bridge_query_prefilter(constraints, lists, relays[i]));
        }
        if bridge_query_has_included(constraints, lists, relays) {
            let i = choose|i: int|
                0 <= i < relays.len() && bridge_query_prefilter(
                    constraints,
                    lists,
                    #[trigger] relays[i],
                ) && relays[i].include_in_country;
            assert(prefilter_spec(m, relays[i]));
        }
    }
    lemma_filter_congruent(
        relays,
        |x: Relay| matches_final_spec(m, x, relays),
        |x: Relay| bridge_relay_matches(constraints, lists, relays, x),
    );
}

impl RelayMatcher<AnyTunnelMatcher> {
    /// Builds the matcher that a full relay query poses.
    pub fn new(
        constraints: RelayConstraintsFilter,
        openvpn_data: OpenVpnEndpointData,
        bridge_state: BridgeState,
        wireguard_data: WireguardEndpointData,
        custom_lists: &CustomListsSettings,
    ) -> (r: Self)
        ensures
            crate::constraint::cview(r.locations) == resolve_location_spec(
                constraints.location,
                custom_lists.custom_lists@,
            ),
            crate::constraint::cview(r.providers) == crate::constraint::cview(
                constraints.providers,
            ),
            r.ownership == constraints.ownership,
            r.endpoint_matcher.tunnel_type == constraints.tunnel_protocol,
            r.endpoint_matcher.wireguard.peer is None,
            r.endpoint_matcher.wireguard.port == constraints.wireguard_constraints.port,
            r.endpoint_matcher.wireguard.ip_version
                == constraints.wireguard_constraints.ip_version,
            r.endpoint_matcher.wireguard.data == wireguard_data,
            r.endpoint_matcher.openvpn.data == openvpn_data,
            r.endpoint_matcher.openvpn.constraints.port == if constraints.openvpn_constraints.port
                is Any && bridge_state == BridgeState::On {
                Constraint::<TransportPort>::Only(
                    TransportPort { protocol: TransportProtocol::Tcp, port: Constraint::Any },
                )
            } else {
                constraints.openvpn_constraints.port
            },
    {
        RelayMatcher {
            locations: ResolvedLocationConstraint::from_constraint(
                constraints.location,
                custom_lists,
            ),
            providers: constraints.providers,
            ownership: constraints.ownership,
            endpoint_matcher: AnyTunnelMatcher {
                wireguard: WireguardMatcher::new(constraints.wireguard_constraints, wireguard_data),
                openvpn: OpenVpnMatcher::new(
                    constraints.openvpn_constraints,
                    openvpn_data,
                    bridge_state,
                ),
                tunnel_type: constraints.tunnel_protocol,
            },
        }
    }
}

impl RelayMatcher<WireguardMatcher> {
    /// Excludes the given peer from further selection, for multihop.
    pub fn set_peer(&mut self, peer: Relay)
        ensures
            final(self).locations == old(self).locations,
            final(self).providers == old(self).providers,
            final(self).ownership == old(self).ownership,
            final(self).endpoint_matcher.peer == Option::Some(peer),
            final(self).endpoint_matcher.port == old(self).endpoint_matcher.port,
            final(self).endpoint_matcher.ip_version == old(self).endpoint_matcher.ip_version,
            final(self).endpoint_matcher.data == old(self).endpoint_matcher.data,
    {
        self.endpoint_matcher.peer = Option::Some(peer);
    }
}

impl<T: EndpointMatcher> RelayMatcher<T> {
    /// Filters a relay list by the whole pipeline. The relays that pass the
    /// first five steps form the shortlist; `include_in_country` is then
    /// demanded on top exactly when some shortlisted relay carries it, so
    /// hidden relays are picked only when no first-class relay fits.
    #[verifier::loop_isolation(false)]
    #[verifier::rlimit(60)]
    pub fn filter_matching_relay_list(&self, relays: &Vec<Relay>) -> (r: Vec<Relay>)
        ensures
            r@ == relays@.filter(
                |x: Relay| matches_final_spec(*self, x, relays@),
            ),
            forall|i: int|
                0 <= i < r@.len() ==> relays@.contains(#[trigger] r@[i]) && matches_final_spec(
                    *self,
                    r@[i],
                    relays@,
                ),
            forall|i: int|
                0 <= i < relays@.len() && matches_final_spec(*self, #[trigger] relays@[i], relays@)
                    ==> r@.contains(relays@[i]),
    {
        let mut has_included = false;
        let mut i: usize = 0;
        while i < relays.len()
            invariant
                i <= relays.len(),
                has_included == exists|k: int|
                    0 <= k < i && prefilter_spec(*self, #[trigger] relays@[k])
                        && relays@[k].include_in_country,
            decreases relays.len() - i,
        {
            let relay = &relays[i];
            let passes = filter_on_active(relay) && filter_on_location(&self.locations, relay)
                && filter_on_ownership(&self.ownership, relay) && filter_on_providers(
                &self.providers,
                relay,
            ) && self.endpoint_matcher.is_matching_relay(relay);
            if passes && relay.include_in_country {
                has_included = true;
                proof {
                    assert(prefilter_spec(*self, relays@[i as int]));
                }
            }
            i = i + 1;
        }
        proof {
            assert(has_included == shortlist_has_included(*self, relays@));
        }
        let ignore_include_in_country = !has_included;
        let ghost pred = |x: Relay| matches_final_spec(*self, x, relays@);
        let mut out: Vec<Relay> = Vec::new();
        let mut j: usize = 0;
        proof {
            reveal_with_fuel(Seq::filter, 2);
            assert(relays@.take(0).filter(pred) =~= Seq::<Relay>::empty());
        }
        while j < relays.len()
            invariant
                j <= relays.len(),
                ignore_include_in_country == !shortlist_has_included(*self, relays@),
                pred == (|x: Relay| matches_final_spec(*self, x, relays@)),
                out@ == relays@.take(j as int).filter(pred),
            decreases relays.len() - j,
        {
            let relay = &relays[j];
            let passes = filter_on_active(relay) && filter_on_location(&self.locations, relay)
                && filter_on_ownership(&self.ownership, relay) && filter_on_providers(
                &self.providers,
                relay,
            ) && self.endpoint_matcher.is_matching_relay(relay)
                && self.locations.matches_with_opts(relay, ignore_include_in_country);
            if passes {
                out.push(relay.clone());
            }
            proof {
                reveal_with_fuel(Seq::filter, 2);
                assert(relays@.take(j + 1 as int).drop_last() =~= relays@.take(j as int));
                assert(relays@.take(j + 1 as int).last() == relays@[j as int]);
                assert(pred(relays@[j as int]) == passes);
                if passes {
                    assert(out@ == relays@.take(j as int).filter(pred).push(relays@[j as int]));
                }
                assert(out@ == relays@.take(j + 1 as int).filter(pred));
            }
            j = j + 1;
        }
        proof {
            assert(relays@.take(relays@.len() as int) =~= relays@);
            lemma_filter_subset(relays@, pred);
            assert forall|i: int|
                0 <= i < out@.len() implies relays@.contains(#[trigger] out@[i])
                && matches_final_spec(*self, out@[i], relays@) by {
                relays@.lemma_filter_pred(pred, i);
            }
            assert forall|i: int|
                0 <= i < relays@.len() && matches_final_spec(*self, #[trigger] relays@[i], relays@)
                    implies out@.contains(relays@[i]) by {
                relays@.lemma_filter_contains(pred, i);
            }
        }
        out
    }
}

} // verus!
