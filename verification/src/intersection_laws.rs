//! The laws of the constraint meet: `intersection` on relay filters is
//! idempotent, commutative and associative, and the unconstrained filter is
//! its identity; obfuscation selections meet with `Auto` as their identity.
//!
//! Each law is stated over the views that the `ensures` clauses of the
//! `intersection` functions speak of, so it carries over to every executable
//! merge of constraints.

use vstd::prelude::*;

use crate::constraint::lemma_meet_eq_associative;
use crate::constraint::lemma_meet_eq_commutative;
use crate::constraint::lemma_meet_eq_idempotent;
use crate::constraint::lemma_meet_eq_identity;
use crate::relay_constraints::BridgeConstraintsView;
use crate::relay_constraints::BridgeSettingsFilterView;
use crate::relay_constraints::OpenVpnConstraintsFilterView;
use crate::relay_constraints::RelayConstraintsFilter;
use crate::relay_constraints::RelayConstraintsFilterView;
use crate::relay_constraints::SelectedObfuscation;
use crate::relay_constraints::TransportPort;
use crate::relay_constraints::Udp2TcpObfuscationSettings;
use crate::relay_constraints::WireguardConstraintsFilterView;
use crate::relay_constraints::bridge_constraints_meet;
use crate::relay_constraints::bridge_settings_cmeet;
use crate::relay_constraints::bridge_settings_meet;
use crate::relay_constraints::obfuscation_meet;
use crate::relay_constraints::openvpn_filter_meet;
use crate::relay_constraints::relay_filter_meet;
use crate::relay_constraints::transport_port_cmeet;
use crate::relay_constraints::transport_port_meet;
use crate::relay_constraints::udp2tcp_cmeet;
use crate::relay_constraints::udp2tcp_meet;
use crate::relay_constraints::wireguard_filter_meet;

verus! {

/// The result of meeting an earlier intersection with one more filter;
/// an incompatible intersection stays incompatible.
pub open spec fn relay_filter_meet_then(
    a: Option<RelayConstraintsFilterView>,
    c: RelayConstraintsFilterView,
) -> Option<RelayConstraintsFilterView> {
    match a {
        Option::None => Option::None,
        Option::Some(x) => relay_filter_meet(x, c),
    }
}

/// The unconstrained filter is the identity of the meet, on both sides.
pub proof fn lemma_filter_identity(x: RelayConstraintsFilterView)
    ensures
        relay_filter_meet(RelayConstraintsFilter::any_view(), x) == Option::Some(x),
        relay_filter_meet(x, RelayConstraintsFilter::any_view()) == Option::Some(x),
{
}

/// The meet of a filter with itself is the filter.
pub proof fn lemma_filter_idempotent(x: RelayConstraintsFilterView)
    ensures
        relay_filter_meet(x, x) == Option::Some(x),
{
}

/// The meet of two filters does not depend on their order.
pub proof fn lemma_filter_commutative(a: RelayConstraintsFilterView, b: RelayConstraintsFilterView)
    ensures
        relay_filter_meet(a, b) == relay_filter_meet(b, a),
{
    lemma_meet_eq_commutative(a.location, b.location);
    lemma_meet_eq_commutative(a.providers, b.providers);
    lemma_meet_eq_commutative(a.ownership, b.ownership);
    lemma_meet_eq_commutative(a.tunnel_protocol, b.tunnel_protocol);
    lemma_wireguard_filter_commutative(a.wireguard_constraints, b.wireguard_constraints);
    lemma_openvpn_filter_commutative(a.openvpn_constraints, b.openvpn_constraints);
}

/// The WireGuard filter meet is commutative.
proof fn lemma_wireguard_filter_commutative(
    a: WireguardConstraintsFilterView,
    b: WireguardConstraintsFilterView,
)
    ensures
        wireguard_filter_meet(a, b) == wireguard_filter_meet(b, a),
{
    lemma_meet_eq_commutative(a.port, b.port);
    lemma_meet_eq_commutative(a.ip_version, b.ip_version);
    lemma_meet_eq_commutative(a.use_multihop, b.use_multihop);
    lemma_meet_eq_commutative(a.entry_location, b.entry_location);
}

/// The OpenVPN filter meet is commutative.
proof fn lemma_openvpn_filter_commutative(
    a: OpenVpnConstraintsFilterView,
    b: OpenVpnConstraintsFilterView,
)
    ensures
        openvpn_filter_meet(a, b) == openvpn_filter_meet(b, a),
{
}

/// The meet of three filters does not depend on the grouping; an incompatible
/// intersection is absorbing.
pub proof fn lemma_filter_associative(
    a: RelayConstraintsFilterView,
    b: RelayConstraintsFilterView,
    c: RelayConstraintsFilterView,
)
    ensures
        relay_filter_meet_then(relay_filter_meet(a, b), c) == match relay_filter_meet(b, c) {
            Option::None => Option::None,
            Option::Some(bc) => relay_filter_meet(a, bc),
        },
{
    lemma_meet_eq_associative(a.location, b.location, c.location);
    lemma_meet_eq_associative(a.providers, b.providers, c.providers);
    lemma_meet_eq_associative(a.ownership, b.ownership, c.ownership);
    lemma_meet_eq_associative(a.tunnel_protocol, b.tunnel_protocol, c.tunnel_protocol);
    lemma_wireguard_filter_associative(
        a.wireguard_constraints,
        b.wireguard_constraints,
        c.wireguard_constraints,
    );
    lemma_openvpn_filter_associative(
        a.openvpn_constraints,
        b.openvpn_constraints,
        c.openvpn_constraints,
    );
}

/// `Auto` is the identity of the obfuscation meet; any two distinct non-`Auto`
/// selections are incompatible.
pub proof fn lemma_obfuscation_auto_identity(x: SelectedObfuscation)
    ensures
        obfuscation_meet(SelectedObfuscation::Auto, x) == Option::Some(x),
        obfuscation_meet(x, SelectedObfuscation::Auto) == Option::Some(x),
{
}

/// Two non-`Auto` obfuscation selections meet to themselves when equal and to
/// nothing when distinct.
pub proof fn lemma_obfuscation_non_auto(x: SelectedObfuscation, y: SelectedObfuscation)
    requires
        x != SelectedObfuscation::Auto,
        y != SelectedObfuscation::Auto,
    ensures
        x == y ==> obfuscation_meet(x, y) == Option::Some(x),
        x != y ==> obfuscation_meet(x, y) == Option::<SelectedObfuscation>::None,
{
}

/// The obfuscation meet is associative.
proof fn lemma_obfuscation_associative(
    a: SelectedObfuscation,
    b: SelectedObfuscation,
    c: SelectedObfuscation,
)
    ensures
        (match obfuscation_meet(a, b) {
            Option::None => Option::<SelectedObfuscation>::None,
            Option::Some(ab) => obfuscation_meet(ab, c),
        }) == (match obfuscation_meet(b, c) {
            Option::None => Option::<SelectedObfuscation>::None,
            Option::Some(bc) => obfuscation_meet(a, bc),
        }),
{
}

/// The transport port meet is associative.
proof fn lemma_transport_port_associative(
    a: crate::constraint::Constraint<TransportPort>,
    b: crate::constraint::Constraint<TransportPort>,
    c: crate::constraint::Constraint<TransportPort>,
)
    ensures
        (match transport_port_cmeet(a, b) {
            Option::None => Option::<crate::constraint::Constraint<TransportPort>>::None,
            Option::Some(ab) => transport_port_cmeet(ab, c),
        }) == (match transport_port_cmeet(b, c) {
            Option::None => Option::<crate::constraint::Constraint<TransportPort>>::None,
            Option::Some(bc) => transport_port_cmeet(a, bc),
        }),
{
}

/// The udp2tcp settings meet is associative.
proof fn lemma_udp2tcp_associative(
    a: crate::constraint::Constraint<Udp2TcpObfuscationSettings>,
    b: crate::constraint::Constraint<Udp2TcpObfuscationSettings>,
    c: crate::constraint::Constraint<Udp2TcpObfuscationSettings>,
)
    ensures
        (match udp2tcp_cmeet(a, b) {
            Option::None => Option::<
                crate::constraint::Constraint<Udp2TcpObfuscationSettings>,
            >::None,
            Option::Some(ab) => udp2tcp_cmeet(ab, c),
        }) == (match udp2tcp_cmeet(b, c) {
            Option::None => Option::<
                crate::constraint::Constraint<Udp2TcpObfuscationSettings>,
            >::None,
            Option::Some(bc) => udp2tcp_cmeet(a, bc),
        }),
{
}

/// The bridge settings meet is associative.
proof fn lemma_bridge_settings_associative(
    a: crate::constraint::Constraint<BridgeSettingsFilterView>,
    b: crate::constraint::Constraint<BridgeSettingsFilterView>,
    c: crate::constraint::Constraint<BridgeSettingsFilterView>,
)
    ensures
        (match bridge_settings_cmeet(a, b) {
            Option::None => Option::<crate::constraint::Constraint<BridgeSettingsFilterView>>::None,
            Option::Some(ab) => bridge_settings_cmeet(ab, c),
        }) == (match bridge_settings_cmeet(b, c) {
            Option::None => Option::<crate::constraint::Constraint<BridgeSettingsFilterView>>::None,
            Option::Some(bc) => bridge_settings_cmeet(a, bc),
        }),
{
}

/// The WireGuard filter meet is associative.
proof fn lemma_wireguard_filter_associative(
    a: WireguardConstraintsFilterView,
    b: WireguardConstraintsFilterView,
    c: WireguardConstraintsFilterView,
)
    ensures
        (match wireguard_filter_meet(a, b) {
            Option::None => Option::<WireguardConstraintsFilterView>::None,
            Option::Some(ab) => wireguard_filter_meet(ab, c),
        }) == (match wireguard_filter_meet(b, c) {
            Option::None => Option::<WireguardConstraintsFilterView>::None,
            Option::Some(bc) => wireguard_filter_meet(a, bc),
        }),
{
    lemma_meet_eq_associative(a.port, b.port, c.port);
    lemma_meet_eq_associative(a.ip_version, b.ip_version, c.ip_version);
    lemma_meet_eq_associative(a.use_multihop, b.use_multihop, c.use_multihop);
    lemma_meet_eq_associative(a.entry_location, b.entry_location, c.entry_location);
    lemma_obfuscation_associative(a.obfuscation, b.obfuscation, c.obfuscation);
    lemma_udp2tcp_associative(a.udp2tcp_port, b.udp2tcp_port, c.udp2tcp_port);
}

/// The OpenVPN filter meet is associative.
proof fn lemma_openvpn_filter_associative(
    a: OpenVpnConstraintsFilterView,
    b: OpenVpnConstraintsFilterView,
    c: OpenVpnConstraintsFilterView,
)
    ensures
        (match openvpn_filter_meet(a, b) {
            Option::None => Option::<OpenVpnConstraintsFilterView>::None,
            Option::Some(ab) => openvpn_filter_meet(ab, c),
        }) == (match openvpn_filter_meet(b, c) {
            Option::None => Option::<OpenVpnConstraintsFilterView>::None,
            Option::Some(bc) => openvpn_filter_meet(a, bc),
        }),
{
    lemma_transport_port_associative(a.port, b.port, c.port);
    lemma_bridge_settings_associative(a.bridge_settings, b.bridge_settings, c.bridge_settings);
}

} // verus!
