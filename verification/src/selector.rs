//! The relay selector facade: the user's settings, the retry ladder, and
//! `get_relay` with its companions.
//!
//! Selection needs one thing the library cannot compute itself: the
//! great-circle distance used to bias bridge picks towards the exit. Every
//! query that may pick a bridge therefore takes a distance oracle `dist`,
//! a function from a set of locations and a further location to the distance
//! in whole kilometres from the set's midpoint to that location. Every
//! contract here holds for every oracle.

use vstd::prelude::*;

use itertools::Itertools;

use crate::Error;
use crate::constraint::Constraint;
use crate::detailer::Endpoint;
use crate::detailer::MullvadEndpoint;
use crate::detailer::MullvadWireguardEndpoint;
use crate::detailer::OpenVpnDetailer;
use crate::detailer::WireguardDetailer;
use crate::location::CustomListsSettings;
use crate::relay_list::Location;
use crate::net::CustomProxy;
use crate::net::ObfuscatorConfig;
use crate::net::IpVersion;
use crate::net::TransportProtocol;
use crate::net::TunnelType;
use crate::relay_constraints::BridgeSettings;
use crate::relay_constraints::BridgeSettingsFilter;
use crate::relay_constraints::BridgeSettingsFilterView;
use crate::relay_constraints::BridgeState;
use crate::relay_constraints::BridgeType;
use crate::relay_constraints::InternalBridgeConstraints;
use crate::relay_constraints::ObfuscationSettings;
use crate::relay_constraints::OpenVpnConstraints;
use crate::relay_constraints::OpenVpnConstraintsFilter;
use crate::relay_constraints::OpenVpnConstraintsFilterView;
use crate::relay_constraints::RelayConstraints;
use crate::relay_constraints::RelayConstraintsFilter;
use crate::relay_constraints::RelayConstraintsFilterView;
use crate::relay_list::RelayOverride;
use crate::relay_constraints::SelectedObfuscation;
use crate::relay_constraints::TransportPort;
use crate::relay_constraints::Udp2TcpObfuscationSettings;
use crate::relay_constraints::WireguardConstraints;
use crate::relay_constraints::WireguardConstraintsFilter;
use crate::relay_constraints::WireguardConstraintsFilterView;
use crate::relay_constraints::relay_filter_meet;
use crate::relay_list::ParsedRelays;
use crate::relay_list::Relay;
use crate::relay_list::RelayList;
use crate::helpers;
use crate::matcher::AnyTunnelMatcher;
use crate::matcher::BridgeMatcher;
use crate::matcher::RelayMatcher;
use crate::matcher::WireguardMatcher;
use crate::matcher::any_candidates;
use crate::matcher::bridge_candidates;
use crate::matcher::lemma_any_matcher_agrees;
use crate::matcher::lemma_any_matches_by_view;
use crate::matcher::lemma_bridge_matcher_agrees;
use crate::matcher::lemma_filter_subset;
use crate::matcher::lemma_wg_matcher_agrees;
use crate::matcher::wg_candidates;
use crate::detailer::openvpn_detail_feasible;
use crate::detailer::openvpn_endpoint_ok;
use crate::detailer::wireguard_detail_feasible;
use crate::detailer::wireguard_endpoint_ok;
use crate::helpers::should_use_bridge_spec;
use crate::helpers::shadowsocks_from_block;
use crate::helpers::udp2tcp_obfuscator_spec;
use crate::relay_list::relays_located;

verus! {

/// A tunnel endpoint the user supplied directly, bypassing relay selection.
#[derive(Debug)]
pub struct CustomTunnelEndpoint {
    pub host: String,
    pub endpoint: Endpoint,
}

impl Clone for CustomTunnelEndpoint {
    fn clone(&self) -> (r: Self)
        ensures
            r == *self,
    {
        CustomTunnelEndpoint { host: self.host.clone(), endpoint: self.endpoint }
    }
}

impl CustomTunnelEndpoint {
    /// The endpoint the custom tunnel connects to.
    pub fn endpoint(&self) -> (r: Endpoint)
        ensures
            r == self.endpoint,
    {
        self.endpoint
    }
}

/// What the selector works from: a custom endpoint that bypasses selection,
/// or constraints for it to solve.
#[derive(Debug)]
pub enum RelaySettings {
    CustomTunnelEndpoint(CustomTunnelEndpoint),
    Normal(RelayConstraints),
}

impl Clone for RelaySettings {
    fn clone(&self) -> (r: Self)
        ensures
            match (self, &r) {
                (
                    RelaySettings::CustomTunnelEndpoint(a),
                    RelaySettings::CustomTunnelEndpoint(b),
                ) => a == b,
                (RelaySettings::Normal(a), RelaySettings::Normal(b)) => a@ == b@ && a.location
                    == b.location && a.ownership == b.ownership && a.tunnel_protocol
                    == b.tunnel_protocol && a.wireguard_constraints.port
                    == b.wireguard_constraints.port && a.wireguard_constraints.ip_version
                    == b.wireguard_constraints.ip_version && a.wireguard_constraints.use_multihop
                    == b.wireguard_constraints.use_multihop
                    && a.wireguard_constraints.entry_location
                    == b.wireguard_constraints.entry_location && a.openvpn_constraints
                    == b.openvpn_constraints,
                _ => false,
            },
    {
        match self {
            RelaySettings::CustomTunnelEndpoint(e) => RelaySettings::CustomTunnelEndpoint(
                e.clone(),
            ),
            RelaySettings::Normal(c) => RelaySettings::Normal(
                RelayConstraints {
                    location: match &c.location {
                        Constraint::Any => Constraint::Any,
                        Constraint::Only(l) => Constraint::Only(l.clone()),
                    },
                    providers: match &c.providers {
                        Constraint::Any => Constraint::Any,
                        Constraint::Only(p) => Constraint::Only(p.clone()),
                    },
                    ownership: c.ownership,
                    tunnel_protocol: c.tunnel_protocol,
                    wireguard_constraints: c.wireguard_constraints.clone(),
                    openvpn_constraints: c.openvpn_constraints,
                },
            ),
        }
    }
}

impl RelaySettings {
    /// Returns false exactly when the settings explicitly rule bridging out
    /// (they demand UDP, which bridges cannot carry).
    pub fn supports_bridge(&self) -> (r: bool)
        ensures
            r == match self {
                RelaySettings::CustomTunnelEndpoint(e) => e.endpoint.protocol
                    == TransportProtocol::Tcp,
                RelaySettings::Normal(c) => !(c.openvpn_constraints.port
                    matches Constraint::Only(tp) && tp.protocol == TransportProtocol::Udp),
            },
    {
        match self {
            RelaySettings::CustomTunnelEndpoint(endpoint) => endpoint.endpoint().protocol
                == TransportProtocol::Tcp,
            RelaySettings::Normal(update) => !(match update.openvpn_constraints.port {
                Constraint::Only(tp) => tp.protocol == TransportProtocol::Udp,
                Constraint::Any => false,
            }),
        }
    }
}

/// The user settings the selector reads.
#[derive(Debug)]
pub struct SelectorConfig {
    pub relay_settings: RelaySettings,
    pub custom_lists: CustomListsSettings,
    pub relay_overrides: Vec<RelayOverride>,
    /// WireGuard-specific: which obfuscation to apply.
    pub obfuscation_settings: ObfuscationSettings,
    /// OpenVPN-specific: whether and how to use bridges.
    pub bridge_state: BridgeState,
    pub bridge_settings: BridgeSettings,
}

impl Default for SelectorConfig {
    /// Unconstrained relay settings, no custom lists or overrides, automatic
    /// obfuscation and bridges.
    fn default() -> (r: Self)
        ensures
            r.relay_settings matches RelaySettings::Normal(c) && c@
                == default_relay_constraints_view(),
            r.custom_lists.custom_lists@.len() == 0,
            r.relay_overrides@.len() == 0,
            r.obfuscation_settings == (ObfuscationSettings {
                selected_obfuscation: SelectedObfuscation::Auto,
                udp2tcp: Udp2TcpObfuscationSettings { port: Constraint::Any },
            }),
            r.bridge_state == BridgeState::Auto,
            r.bridge_settings.bridge_type == BridgeType::Normal,
            r.bridge_settings.custom is None,
    {
        let mut constraints = RelayConstraints::new();
        constraints.wireguard_constraints.use_multihop = Constraint::Only(false);
        SelectorConfig {
            relay_settings: RelaySettings::Normal(constraints),
            custom_lists: CustomListsSettings::empty(),
            relay_overrides: Vec::new(),
            obfuscation_settings: ObfuscationSettings {
                selected_obfuscation: SelectedObfuscation::Auto,
                udp2tcp: Udp2TcpObfuscationSettings { port: Constraint::Any },
            },
            bridge_state: BridgeState::Auto,
            bridge_settings: BridgeSettings::any(),
        }
    }
}

/// The view of the default stored relay constraints: nothing pinned but
/// multihop, which starts off.
pub open spec fn default_relay_constraints_view() -> crate::relay_constraints::RelayConstraintsView {
    crate::relay_constraints::RelayConstraintsView {
        location: Constraint::Any,
        providers: Constraint::Any,
        ownership: Constraint::Any,
        tunnel_protocol: Constraint::Any,
        wireguard_constraints: crate::relay_constraints::WireguardConstraintsView {
            port: Constraint::Any,
            ip_version: Constraint::Any,
            use_multihop: Constraint::Only(false),
            entry_location: Constraint::Any,
        },
        openvpn_constraints: OpenVpnConstraints { port: Constraint::Any },
    }
}

/// The WireGuard filter a user's settings pose: the stored WireGuard
/// constraints with the obfuscation settings folded in.
pub open spec fn wireguard_filter_from_config(
    wg: WireguardConstraints,
    obfuscation_settings: ObfuscationSettings,
) -> WireguardConstraintsFilterView {
    WireguardConstraintsFilterView {
        port: wg.port,
        ip_version: wg.ip_version,
        use_multihop: wg.use_multihop,
        entry_location: crate::constraint::cview(wg.entry_location),
        obfuscation: obfuscation_settings.selected_obfuscation,
        udp2tcp_port: Constraint::Only(obfuscation_settings.udp2tcp),
    }
}

/// The OpenVPN filter a user's settings pose: the stored port constraint with
/// the bridge state and settings folded in.
pub open spec fn openvpn_filter_from_config(
    ovpn: OpenVpnConstraints,
    bridge_state: BridgeState,
    bridge_settings: BridgeSettings,
) -> OpenVpnConstraintsFilterView {
    OpenVpnConstraintsFilterView {
        port: ovpn.port,
        bridge_settings: match bridge_state {
            BridgeState::On => match bridge_settings.bridge_type {
                BridgeType::Normal => Constraint::Only(
                    BridgeSettingsFilterView::Normal(bridge_settings.normal@),
                ),
                BridgeType::Custom => Constraint::Only(
                    BridgeSettingsFilterView::Custom(
                        match bridge_settings.custom {
                            Option::None => Option::None,
                            Option::Some(p) => Option::Some(p@),
                        },
                    ),
                ),
            },
            BridgeState::Auto => Constraint::Only(BridgeSettingsFilterView::Auto),
            BridgeState::Off => Constraint::Only(BridgeSettingsFilterView::Off),
        },
    }
}

/// The filter a user's settings pose, for settings that hold constraints.
pub open spec fn from_config_spec(config: SelectorConfig) -> RelayConstraintsFilterView
    recommends
        config.relay_settings is Normal,
{
    match config.relay_settings {
        RelaySettings::Normal(rc) => RelayConstraintsFilterView {
            location: crate::constraint::cview(rc.location),
            providers: crate::constraint::cview(rc.providers),
            ownership: rc.ownership,
            tunnel_protocol: rc.tunnel_protocol,
            wireguard_constraints: wireguard_filter_from_config(
                rc.wireguard_constraints,
                config.obfuscation_settings,
            ),
            openvpn_constraints: openvpn_filter_from_config(
                rc.openvpn_constraints,
                config.bridge_state,
                config.bridge_settings,
            ),
        },
        RelaySettings::CustomTunnelEndpoint(_) => arbitrary(),
    }
}

impl RelayConstraintsFilter {
    /// Maps user settings to the filter they pose. Settings that bypass
    /// selection with a custom endpoint pose no filter and are left out.
    pub fn from(config: &SelectorConfig) -> (r: RelayConstraintsFilter)
        requires
            config.relay_settings is Normal,
        ensures
            r@ == from_config_spec(*config),
            r.tunnel_protocol == (match config.relay_settings {
                RelaySettings::Normal(rc) => rc.tunnel_protocol,
                RelaySettings::CustomTunnelEndpoint(_) => arbitrary(),
            }),
            r.location == (match config.relay_settings {
                RelaySettings::Normal(rc) => rc.location,
                RelaySettings::CustomTunnelEndpoint(_) => arbitrary(),
            }),
            r.wireguard_constraints.entry_location == (match config.relay_settings {
                RelaySettings::Normal(rc) => rc.wireguard_constraints.entry_location,
                RelaySettings::CustomTunnelEndpoint(_) => arbitrary(),
            }),
    {
        match &config.relay_settings {
            RelaySettings::Normal(relay_constraints) => {
                let wireguard_constraints = WireguardConstraintsFilter {
                    port: relay_constraints.wireguard_constraints.port,
                    ip_version: relay_constraints.wireguard_constraints.ip_version,
                    use_multihop: relay_constraints.wireguard_constraints.use_multihop,
                    entry_location: match &relay_constraints.wireguard_constraints.entry_location {
                        Constraint::Any => Constraint::Any,
                        Constraint::Only(l) => Constraint::Only(l.clone()),
                    },
                    obfuscation: config.obfuscation_settings.selected_obfuscation,
                    udp2tcp_port: Constraint::Only(config.obfuscation_settings.udp2tcp),
                };
                let bridge_settings = match config.bridge_state {
                    BridgeState::On => match config.bridge_settings.bridge_type {
                        BridgeType::Normal => Constraint::Only(
                            BridgeSettingsFilter::Normal(config.bridge_settings.normal.clone()),
                        ),
                        BridgeType::Custom => Constraint::Only(
                            BridgeSettingsFilter::Custom(
                                match &config.bridge_settings.custom {
                                    Option::None => Option::None,
                                    Option::Some(p) => Option::Some(p.clone()),
                                },
                            ),
                        ),
                    },
                    BridgeState::Auto => Constraint::Only(BridgeSettingsFilter::Auto),
                    BridgeState::Off => Constraint::Only(BridgeSettingsFilter::Off),
                };
                let openvpn_constraints = OpenVpnConstraintsFilter {
                    port: relay_constraints.openvpn_constraints.port,
                    bridge_settings,
                };
                RelayConstraintsFilter {
                    location: match &relay_constraints.location {
                        Constraint::Any => Constraint::Any,
                        Constraint::Only(l) => Constraint::Only(l.clone()),
                    },
                    providers: match &relay_constraints.providers {
                        Constraint::Any => Constraint::Any,
                        Constraint::Only(p) => Constraint::Only(p.clone()),
                    },
                    ownership: relay_constraints.ownership,
                    tunnel_protocol: relay_constraints.tunnel_protocol,
                    wireguard_constraints,
                    openvpn_constraints,
                }
            },
            // Left out by the precondition: a custom endpoint poses no filter.
            RelaySettings::CustomTunnelEndpoint(_) => {
                proof {
                    assert(false);
                }
                RelayConstraintsFilter::new()
            },
        }
    }
}

/// The return value of `get_relay`.
#[derive(Debug)]
pub enum GetRelay {
    Wireguard {
        endpoint: MullvadEndpoint,
        exit: Relay,
        entry: Option<Relay>,
        obfuscator: Option<SelectedObfuscator>,
    },
    OpenVpn { endpoint: MullvadEndpoint, exit: Relay, bridge: Option<SelectedBridge> },
    Custom(CustomTunnelEndpoint),
}

/// The bridge a query selected: one picked from the catalog, or the user's
/// custom proxy.
#[derive(Debug)]
pub enum SelectedBridge {
    Normal { settings: CustomProxy, relay: Relay },
    Custom(CustomProxy),
}

/// The obfuscator a query selected, and the relay it is co-located with.
#[derive(Debug)]
pub struct SelectedObfuscator {
    pub config: ObfuscatorConfig,
    pub relay: Relay,
}

/// The view of row `i` of the retry ladder: the ordered filters that the
/// selector folds into the user's constraints on successive attempts.
pub open spec fn retry_order_row(i: int) -> RelayConstraintsFilterView {
    let any = RelayConstraintsFilter::any_view();
    if i == 0 {
        any
    } else if i == 1 {
        RelayConstraintsFilterView {
            tunnel_protocol: Constraint::Only(TunnelType::Wireguard),
            ..any
        }
    } else if i == 2 {
        RelayConstraintsFilterView {
            tunnel_protocol: Constraint::Only(TunnelType::Wireguard),
            wireguard_constraints: WireguardConstraintsFilterView {
                port: Constraint::Only(443u16),
                ..any.wireguard_constraints
            },
            ..any
        }
    } else if i == 3 {
        RelayConstraintsFilterView {
            tunnel_protocol: Constraint::Only(TunnelType::Wireguard),
            wireguard_constraints: WireguardConstraintsFilterView {
                ip_version: Constraint::Only(IpVersion::V6),
                ..any.wireguard_constraints
            },
            ..any
        }
    } else if i == 4 {
        RelayConstraintsFilterView {
            tunnel_protocol: Constraint::Only(TunnelType::OpenVpn),
            openvpn_constraints: OpenVpnConstraintsFilterView {
                port: Constraint::Only(
                    TransportPort {
                        protocol: TransportProtocol::Tcp,
                        port: Constraint::Only(443u16),
                    },
                ),
                ..any.openvpn_constraints
            },
            ..any
        }
    } else if i == 5 {
        RelayConstraintsFilterView {
            tunnel_protocol: Constraint::Only(TunnelType::Wireguard),
            wireguard_constraints: WireguardConstraintsFilterView {
                udp2tcp_port: Constraint::Only(
                    Udp2TcpObfuscationSettings { port: Constraint::Any },
                ),
                ..any.wireguard_constraints
            },
            ..any
        }
    } else if i == 6 {
        RelayConstraintsFilterView {
            tunnel_protocol: Constraint::Only(TunnelType::Wireguard),
            wireguard_constraints: WireguardConstraintsFilterView {
                ip_version: Constraint::Only(IpVersion::V6),
                udp2tcp_port: Constraint::Only(
                    Udp2TcpObfuscationSettings { port: Constraint::Any },
                ),
                ..any.wireguard_constraints
            },
            ..any
        }
    } else {
        RelayConstraintsFilterView {
            tunnel_protocol: Constraint::Only(TunnelType::OpenVpn),
            openvpn_constraints: OpenVpnConstraintsFilterView {
                port: Constraint::Only(
                    TransportPort { protocol: TransportProtocol::Tcp, port: Constraint::Any },
                ),
                bridge_settings: Constraint::Only(
                    BridgeSettingsFilterView::Normal(
                        crate::relay_constraints::BridgeConstraintsView {
                            location: Constraint::Any,
                            providers: Constraint::Any,
                            ownership: Constraint::Any,
                        },
                    ),
                ),
            },
            ..any
        }
    }
}

/// Builds the retry ladder: an ordered set of relay parameters to prioritize
/// on successive connection attempts, varying tunnel protocol, port, IP
/// version and obfuscation while never overriding the user's constraints.
pub fn retry_order() -> (r: Vec<RelayConstraintsFilter>)
    ensures
        r@.len() == 8,
        forall|i: int| 0 <= i < 8 ==> (#[trigger] r@[i])@ == retry_order_row(i),
{
    let mut rows: Vec<RelayConstraintsFilter> = Vec::new();
    rows.push(crate::builder::any().build());
    rows.push(crate::builder::wireguard::new().build());
    rows.push(crate::builder::wireguard::new().port(443).build());
    rows.push(crate::builder::wireguard::new().ip_version(IpVersion::V6).build());
    rows.push(
        crate::builder::openvpn::new().transport_protocol(TransportProtocol::Tcp).port(
            443,
        ).build(),
    );
    rows.push(crate::builder::wireguard::new().udp2tcp().build());
    rows.push(crate::builder::wireguard::new().udp2tcp().ip_version(IpVersion::V6).build());
    rows.push(
        crate::builder::openvpn::new().transport_protocol(
            TransportProtocol::Tcp,
        ).bridge().build(),
    );
    proof {
        assert(rows@[0]@ == retry_order_row(0));
        assert(rows@[1]@ == retry_order_row(1));
        assert(rows@[2]@ == retry_order_row(2));
        assert(rows@[3]@ == retry_order_row(3));
        assert(rows@[4]@ == retry_order_row(4));
        assert(rows@[5]@ == retry_order_row(5));
        assert(rows@[6]@ == retry_order_row(6));
        assert(rows@[7]@ == retry_order_row(7));
    }
    rows
}

/// The views of a sequence of filters.
pub open spec fn filter_views(rows: Seq<RelayConstraintsFilter>) -> Seq<RelayConstraintsFilterView> {
    rows.map_values(|f: RelayConstraintsFilter| f@)
}

/// The views of the built-in retry ladder's rows.
pub open spec fn retry_order_views() -> Seq<RelayConstraintsFilterView> {
    Seq::new(8, |i: int| retry_order_row(i))
}

/// The meet of the cycled ladder's row `i` with the user's constraints.
pub open spec fn ladder_meet(
    rows: Seq<RelayConstraintsFilterView>,
    user: RelayConstraintsFilterView,
    i: int,
) -> Option<RelayConstraintsFilterView>
    recommends
        rows.len() > 0,
{
    relay_filter_meet(rows[i % (rows.len() as int)], user)
}

/// How many of the first `n` cycled rows merge compatibly with the user's
/// constraints.
pub open spec fn ladder_some_count(
    rows: Seq<RelayConstraintsFilterView>,
    user: RelayConstraintsFilterView,
    n: int,
) -> int
    decreases n,
{
    if n <= 0 {
        0
    } else {
        ladder_some_count(rows, user, n - 1) + if ladder_meet(rows, user, n - 1) is Some {
            1int
        } else {
            0int
        }
    }
}

/// The count of compatible rows never shrinks.
proof fn lemma_ladder_count_monotone(
    rows: Seq<RelayConstraintsFilterView>,
    user: RelayConstraintsFilterView,
    a: int,
    b: int,
)
    requires
        0 <= a <= b,
    ensures
        ladder_some_count(rows, user, a) <= ladder_some_count(rows, user, b),
    decreases b - a,
{
    if a < b {
        lemma_ladder_count_monotone(rows, user, a, b - 1);
    }
}

/// With one compatible row in the ladder, every cycle contributes at least
/// one compatible merge.
proof fn lemma_ladder_progress(
    rows: Seq<RelayConstraintsFilterView>,
    user: RelayConstraintsFilterView,
    i0: int,
    c: int,
)
    requires
        0 <= i0 < rows.len(),
        relay_filter_meet(rows[i0], user) is Some,
        c >= 0,
    ensures
        ladder_some_count(rows, user, c * (rows.len() as int)) >= c,
    decreases c,
{
    let len = rows.len() as int;
    if c > 0 {
        lemma_ladder_progress(rows, user, i0, c - 1);
        let g = (c - 1) * len + i0;
        assert(g % len == i0) by {
            vstd::arithmetic::div_mod::lemma_mod_multiples_vanish(c - 1, i0, len);
            vstd::arithmetic::div_mod::lemma_small_mod(i0 as nat, len as nat);
        }
        assert(ladder_meet(rows, user, g) is Some);
        assert(ladder_some_count(rows, user, g + 1) >= ladder_some_count(rows, user, g) + 1);
        lemma_ladder_count_monotone(rows, user, (c - 1) * len, g);
        assert((c - 1) * len + len == c * len) by (nonlinear_arith);
        lemma_ladder_count_monotone(rows, user, g + 1, c * len);
    } else {
        assert(c * (rows.len() as int) == 0) by (nonlinear_arith)
            requires c == 0;
    }
}

/// Merges the cycled ladder's rows with the user's constraints and picks the
/// merge at position `retry_attempt` among the compatible ones. At least one
/// row must merge compatibly — the unconstrained row always does.
#[verifier::loop_isolation(false)]
fn effective_query(
    retry_order: &Vec<RelayConstraintsFilter>,
    user: &RelayConstraintsFilter,
    retry_attempt: usize,
) -> (r: RelayConstraintsFilter)
    requires
        retry_order@.len() > 0,
        retry_attempt < usize::MAX,
        exists|i: int|
            0 <= i < retry_order@.len() && relay_filter_meet(
                (#[trigger] retry_order@[i])@,
                user@,
            ) is Some,
    ensures
        exists|g: int|
            0 <= g && #[trigger] ladder_meet(filter_views(retry_order@), user@, g)
                == Option::Some(r@) && ladder_some_count(filter_views(retry_order@), user@, g)
                == retry_attempt as int,
{
    let ghost rows = filter_views(retry_order@);
    let ghost i0 = choose|i: int|
        0 <= i < retry_order@.len() && relay_filter_meet((#[trigger] retry_order@[i])@, user@)
            is Some;
    let len = retry_order.len();
    let mut count: usize = 0;
    let mut c: usize = 0;
    while c <= retry_attempt
        invariant
            c <= retry_attempt + 1,
            count <= retry_attempt,
            count as int == ladder_some_count(rows, user@, (c as int) * (len as int)),
        decreases retry_attempt + 1 - c,
    {
        let mut k: usize = 0;
        while k < len
            invariant
                k <= len,
                c <= retry_attempt,
                count <= retry_attempt,
                count as int == ladder_some_count(
                    rows,
                    user@,
                    (c as int) * (len as int) + (k as int),
                ),
            decreases len - k,
        {
            let ghost g = (c as int) * (len as int) + (k as int);
            proof {
                assert(g % (len as int) == k as int) by {
                    vstd::arithmetic::div_mod::lemma_mod_multiples_vanish(
                        c as int,
                        k as int,
                        len as int,
                    );
                    vstd::arithmetic::div_mod::lemma_small_mod(k as nat, len as nat);
                }
                assert(rows[g % (len as int)] == retry_order@[k as int]@);
            }
            let merged = retry_order[k].clone().intersection(user.clone());
            match merged {
                Option::Some(q) => {
                    proof {
                        assert(relay_filter_meet(retry_order@[k as int]@, user@)
                            == Option::Some(q@));
                        assert(ladder_meet(rows, user@, g) == Option::Some(q@));
                    }
                    if count == retry_attempt {
                        return q;
                    }
                    count = count + 1;
                },
                Option::None => {
                    proof {
                        assert(ladder_meet(rows, user@, g) is None);
                    }
                },
            }
            k = k + 1;
        }
        c = c + 1;
        proof {
            assert((c - 1) * (len as int) + (len as int) == (c as int) * (len as int)) by (
            nonlinear_arith);
        }
    }
    // Each cycle contributes at least one compatible merge, so the loops
    // above always return.
    proof {
        lemma_ladder_progress(rows, user@, i0, (retry_attempt as int) + 1);
        assert(rows[i0] == retry_order@[i0]@);
        assert(false);
    }
    RelayConstraintsFilter::new()
}

/// Whether the distance oracle can be asked about any locations at all.
pub open spec fn dist_callable<F: Fn(&Vec<Location>, &Location) -> u64>(dist: F) -> bool {
    forall|a: &Vec<Location>, b: &Location| #[trigger] dist.requires((a, b))
}

/// The view of a filter with its tunnel protocol pinned.
pub open spec fn view_with_tunnel(v: RelayConstraintsFilterView, t: TunnelType)
    -> RelayConstraintsFilterView {
    RelayConstraintsFilterView { tunnel_protocol: Constraint::Only(t), ..v }
}

/// The filter with its tunnel protocol pinned and everything else kept.
pub open spec fn with_tunnel(query: RelayConstraintsFilter, t: TunnelType)
    -> RelayConstraintsFilter {
    RelayConstraintsFilter { tunnel_protocol: Constraint::Only(t), ..query }
}

/// The bridge constraints that `get_bridge_forced` resolves from the user's
/// bridge settings: the normal constraints over TCP, or unconstrained (still
/// over TCP) when the settings are custom.
pub open spec fn forced_bridge_constraints(config: SelectorConfig) -> InternalBridgeConstraints {
    match config.bridge_settings.bridge_type {
        BridgeType::Normal => InternalBridgeConstraints {
            location: config.bridge_settings.normal.location,
            providers: config.bridge_settings.normal.providers,
            ownership: config.bridge_settings.normal.ownership,
            transport_protocol: Constraint::Only(TransportProtocol::Tcp),
        },
        BridgeType::Custom => InternalBridgeConstraints {
            location: Constraint::Any,
            providers: Constraint::Any,
            ownership: Constraint::Any,
            transport_protocol: Constraint::Only(TransportProtocol::Tcp),
        },
    }
}

/// Whether every exit candidate leaves some entry candidate with a different
/// hostname: multihop selection then succeeds whatever the draws.
pub open spec fn multihop_pairable(exits: Seq<Relay>, entries: Seq<Relay>) -> bool {
    forall|k: int|
        0 <= k < exits.len() ==> exists|j: int|
            0 <= j < entries.len() && entries[j].hostname@ != (#[trigger] exits[k]).hostname@
}

/// Whether the query demands multihop: anything but an explicit `Only(true)`
/// counts as multihop being off.
pub open spec fn multihop_demanded(query: RelayConstraintsFilter) -> bool {
    query.wireguard_constraints.use_multihop == Constraint::<bool>::Only(true)
}

/// Everything a query's outcome promises, for every draw of the randomness
/// and every distance oracle.
pub open spec fn relay_query_result_spec(
    query: RelayConstraintsFilter,
    config: SelectorConfig,
    parsed: ParsedRelays,
    r: Result<GetRelay, Error>,
) -> bool {
    let lists = config.custom_lists.custom_lists@;
    let bs = config.bridge_state;
    let relays = parsed.spec_relays();
    let ports = parsed.spec_list().openvpn.ports@;
    let wgd = parsed.spec_list().wireguard;
    &&& !(r matches Result::Ok(GetRelay::Custom(_)))
    &&& match r {
        Result::Ok(GetRelay::Wireguard { endpoint, exit, entry, obfuscator }) => {
            &&& query.tunnel_protocol != Constraint::Only(TunnelType::OpenVpn)
            &&& (entry is Some <==> multihop_demanded(query))
            &&& (match entry {
                Option::None => any_candidates(
                    with_tunnel(query, TunnelType::Wireguard),
                    bs,
                    lists,
                    ports,
                    relays,
                ).contains(exit),
                Option::Some(en) => wg_candidates(
                    with_tunnel(query, TunnelType::Wireguard),
                    lists,
                    relays,
                    false,
                ).contains(exit) && wg_candidates(
                    with_tunnel(query, TunnelType::Wireguard),
                    lists,
                    relays,
                    true,
                ).contains(en),
            })
            &&& (entry matches Option::Some(en) ==> en.hostname@ != exit.hostname@)
            &&& endpoint matches MullvadEndpoint::Wireguard(w) && wireguard_endpoint_ok(
                query.wireguard_constraints.port,
                query.wireguard_constraints.ip_version,
                exit,
                entry,
                wgd.port_ranges@,
                wgd.ipv4_gateway,
                wgd.ipv6_gateway,
                w,
            ) && (match query.wireguard_constraints.obfuscation {
                SelectedObfuscation::Off | SelectedObfuscation::Auto => obfuscator is None,
                SelectedObfuscation::Udp2Tcp => udp2tcp_obfuscator_spec(
                    query.wireguard_constraints.udp2tcp_port,
                    wgd.udp2tcp_ports@,
                    match entry {
                        Option::Some(en) => en,
                        Option::None => exit,
                    },
                    w,
                    obfuscator,
                ),
            })
        },
        Result::Ok(GetRelay::OpenVpn { endpoint, exit, bridge }) => {
            &&& query.tunnel_protocol != Constraint::Only(TunnelType::Wireguard)
            &&& any_candidates(
                with_tunnel(query, TunnelType::OpenVpn),
                bs,
                lists,
                ports,
                relays,
            ).contains(exit)
            &&& endpoint matches MullvadEndpoint::OpenVpn(o) && openvpn_endpoint_ok(
                query.openvpn_constraints.port,
                ports,
                exit,
                o,
            ) && (match bridge {
                Option::None => true,
                Option::Some(SelectedBridge::Normal { settings, relay }) => should_use_bridge_spec(
                    query.openvpn_constraints.bridge_settings,
                ) && o.protocol == TransportProtocol::Tcp && relay.endpoint_data.is_bridge()
                    && shadowsocks_from_block(parsed.spec_list().bridge.shadowsocks@, relay, settings),
                Option::Some(SelectedBridge::Custom(p)) => should_use_bridge_spec(
                    query.openvpn_constraints.bridge_settings,
                ) && o.protocol == TransportProtocol::Tcp,
            })
        },
        Result::Ok(GetRelay::Custom(_)) => false,
        Result::Err(Error::NoBridge) => query.tunnel_protocol == Constraint::Only(
            TunnelType::OpenVpn,
        ) && should_use_bridge_spec(query.openvpn_constraints.bridge_settings),
        Result::Err(Error::NoRelay) => true,
    }
    &&& (query.tunnel_protocol == Constraint::Only(TunnelType::Wireguard) && !multihop_demanded(
        query,
    ) && any_candidates(query, bs, lists, ports, relays).len() == 0 ==> r == Result::<
        GetRelay,
        Error,
    >::Err(Error::NoRelay))
    &&& (query.tunnel_protocol == Constraint::Only(TunnelType::Wireguard) && multihop_demanded(
        query,
    ) && (wg_candidates(query, lists, relays, false).len() == 0 || wg_candidates(
        query,
        lists,
        relays,
        true,
    ).len() == 0) ==> r == Result::<GetRelay, Error>::Err(Error::NoRelay))
    &&& (query.tunnel_protocol == Constraint::Only(TunnelType::OpenVpn) && any_candidates(
        query,
        bs,
        lists,
        ports,
        relays,
    ).len() == 0 ==> r == Result::<GetRelay, Error>::Err(Error::NoRelay))
    &&& (query.tunnel_protocol == Constraint::Only(TunnelType::Wireguard) && !multihop_demanded(
        query,
    ) && any_candidates(query, bs, lists, ports, relays).len() > 0 && (forall|k: int|
        0 <= k < any_candidates(query, bs, lists, ports, relays).len()
            ==> wireguard_detail_feasible(
            query.wireguard_constraints.port,
            query.wireguard_constraints.ip_version,
            #[trigger] any_candidates(query, bs, lists, ports, relays)[k],
            Option::None,
            wgd.port_ranges@,
        )) ==> r is Ok)
    &&& (query.tunnel_protocol == Constraint::Only(TunnelType::OpenVpn) && should_use_bridge_spec(
        query.openvpn_constraints.bridge_settings,
    ) && any_candidates(query, bs, lists, ports, relays).len() > 0 && openvpn_detail_feasible(
        query.openvpn_constraints.port,
        ports,
    ) && (forall|i: int|
        0 <= i < ports.len() && crate::detailer::openvpn_endpoint_admitted(
            #[trigger] ports[i],
            query.openvpn_constraints.port,
        ) ==> ports[i].protocol == TransportProtocol::Udp) ==> r == Result::<
        GetRelay,
        Error,
    >::Err(Error::NoBridge))
    &&& (query.tunnel_protocol == Constraint::Only(TunnelType::OpenVpn)
        && !should_use_bridge_spec(query.openvpn_constraints.bridge_settings) && any_candidates(
        query,
        bs,
        lists,
        ports,
        relays,
    ).len() > 0 && openvpn_detail_feasible(query.openvpn_constraints.port, ports) ==> r is Ok)
    &&& (query.tunnel_protocol is Any && !multihop_demanded(query) && any_candidates(
        with_tunnel(query, TunnelType::Wireguard),
        bs,
        lists,
        ports,
        relays,
    ).len() > 0 && (forall|k: int|
        0 <= k < any_candidates(
            with_tunnel(query, TunnelType::Wireguard),
            bs,
            lists,
            ports,
            relays,
        ).len() ==> wireguard_detail_feasible(
            query.wireguard_constraints.port,
            query.wireguard_constraints.ip_version,
            #[trigger] any_candidates(
                with_tunnel(query, TunnelType::Wireguard),
                bs,
                lists,
                ports,
                relays,
            )[k],
            Option::None,
            wgd.port_ranges@,
        )) ==> r matches Result::Ok(GetRelay::Wireguard { .. }))
    &&& (query.tunnel_protocol is Any && !should_use_bridge_spec(
        query.openvpn_constraints.bridge_settings,
    ) && any_candidates(with_tunnel(query, TunnelType::OpenVpn), bs, lists, ports, relays).len()
        > 0 && openvpn_detail_feasible(query.openvpn_constraints.port, ports) ==> r is Ok)
}

/// A relay and its distance from the reference location, in whole km.
pub struct RelayWithDistance {
    pub relay: Relay,
    pub distance: u64,
}

/// Relies on `itertools::Itertools::sorted_unstable_by_key`, keyed by the
/// distance: the result is the same relays, ordered by distance.
#[verifier::external_body]
fn sort_by_distance(v: Vec<RelayWithDistance>) -> (r: Vec<RelayWithDistance>)
    ensures
        r@.len() == v@.len(),
        r@.to_multiset() == v@.to_multiset(),
        forall|i: int, j: int| 0 <= i < j < r@.len() ==> r@[i].distance <= r@[j].distance,
{
    v.into_iter().sorted_unstable_by_key(|x: &RelayWithDistance| x.distance).collect()
}

/// Relies on `itertools::Itertools::unique_by`, keyed by the city: the result
/// keeps the first location of each city, in order; every element comes from
/// the input and no input is lost entirely.
#[verifier::external_body]
fn unique_by_city(locations: Vec<Location>) -> (r: Vec<Location>)
    ensures
        forall|i: int| 0 <= i < r@.len() ==> locations@.contains(#[trigger] r@[i]),
        forall|i: int, j: int| 0 <= i < j < r@.len() ==> r@[i].city@ != r@[j].city@,
        r@.len() <= locations@.len(),
        locations@.len() > 0 ==> r@.len() > 0,
{
    locations.into_iter().unique_by(|l: &Location| l.city.clone()).collect()
}


/// The relay selector: owns the user's settings and the parsed relay catalog,
/// and answers `get_relay` and its companion queries.
pub struct RelaySelector {
    pub config: SelectorConfig,
    pub parsed_relays: ParsedRelays,
}

impl RelaySelector {
    /// Builds a selector over the given relay list; `now` is the caller's
    /// clock, in seconds.
    pub fn from_list(config: SelectorConfig, relay_list: RelayList, now: u64) -> (r: RelaySelector)
        ensures
            r.parsed_relays.wf(),
            r.parsed_relays.spec_list() == relay_list,
            r.parsed_relays.spec_overrides() == config.relay_overrides@,
            r.config == config,
    {
        let parsed_relays = ParsedRelays::from_relay_list(relay_list, now, &config.relay_overrides);
        RelaySelector { config, parsed_relays }
    }

    /// Replaces the settings, re-applying the new relay overrides.
    pub fn set_config(&mut self, config: SelectorConfig)
        requires
            old(self).parsed_relays.wf(),
        ensures
            final(self).parsed_relays.wf(),
            final(self).config == config,
            final(self).parsed_relays.spec_list() == old(self).parsed_relays.spec_list(),
            final(self).parsed_relays.spec_overrides() == config.relay_overrides@,
    {
        self.parsed_relays.set_overrides(&config.relay_overrides);
        self.config = config;
    }

    /// Replaces the relay list; `now` is the caller's clock, in seconds.
    pub fn set_relays(&mut self, relays: RelayList, now: u64)
        requires
            old(self).parsed_relays.wf(),
        ensures
            final(self).parsed_relays.wf(),
            final(self).parsed_relays.spec_list() == relays,
            final(self).parsed_relays.spec_overrides() == old(self).parsed_relays.spec_overrides(),
            final(self).config == old(self).config,
    {
        self.parsed_relays.update(relays, now);
    }

    /// The catalog as delivered: all countries and cities.
    pub fn get_relays(&self) -> (r: &RelayList)
        ensures
            r == &self.parsed_relays.spec_list(),
    {
        self.parsed_relays.original_list()
    }

    /// The entity tag of the catalog, if one was recorded.
    pub fn etag(&self) -> (r: Option<&String>)
        ensures
            match r {
                Option::Some(e) => self.parsed_relays.etag is Some && e
                    == &self.parsed_relays.etag->0,
                Option::None => self.parsed_relays.etag is None,
            },
    {
        self.parsed_relays.etag()
    }

    /// When the catalog was last replaced, as seconds of the caller's clock.
    pub fn last_updated(&self) -> (r: u64)
        ensures
            r == self.parsed_relays.last_updated,
    {
        self.parsed_relays.last_updated()
    }

    /// Filters the catalog by the whole query: every returned relay satisfies
    /// each predicate of the pipeline.
    fn get_tunnel_endpoints(
        parsed_relays: &ParsedRelays,
        relay_constraints: &RelayConstraintsFilter,
        bridge_state: BridgeState,
        custom_lists: &CustomListsSettings,
    ) -> (r: Vec<Relay>)
        ensures
            r@ == any_candidates(
                *relay_constraints,
                bridge_state,
                custom_lists.custom_lists@,
                parsed_relays.spec_list().openvpn.ports@,
                parsed_relays.spec_relays(),
            ),
    {
        let relays = parsed_relays.relays();
        let matcher = RelayMatcher::new(
            relay_constraints.clone(),
            parsed_relays.parsed_list().openvpn.clone(),
            bridge_state,
            parsed_relays.parsed_list().wireguard.clone(),
            custom_lists,
        );
        let result = matcher.filter_matching_relay_list(relays);
        proof {
            lemma_any_matcher_agrees(
                matcher,
                *relay_constraints,
                bridge_state,
                custom_lists.custom_lists@,
                parsed_relays.spec_list().openvpn.ports@,
                parsed_relays.spec_relays(),
            );
        }
        result
    }

    /// Chooses one relay at random among those the query admits, weighted by
    /// the relays' own weights.
    fn choose_relay(
        query: &RelayConstraintsFilter,
        config: &SelectorConfig,
        parsed_relays: &ParsedRelays,
    ) -> (r: Option<Relay>)
        ensures
            match r {
                Option::Some(relay) => any_candidates(
                    *query,
                    config.bridge_state,
                    config.custom_lists.custom_lists@,
                    parsed_relays.spec_list().openvpn.ports@,
                    parsed_relays.spec_relays(),
                ).contains(relay),
                Option::None => any_candidates(
                    *query,
                    config.bridge_state,
                    config.custom_lists.custom_lists@,
                    parsed_relays.spec_list().openvpn.ports@,
                    parsed_relays.spec_relays(),
                ).len() == 0,
            },
    {
        let relays = Self::get_tunnel_endpoints(
            parsed_relays,
            query,
            config.bridge_state,
            &config.custom_lists,
        );
        match helpers::pick_random_relay(&relays) {
            Option::Some(relay) => Option::Some(relay.clone()),
            Option::None => Option::None,
        }
    }

    /// Selects a distinct exit and entry relay for a multihop configuration.
    /// The priority rules keep the pick possible when one side's constraints
    /// collapse it to a single relay that the other side also admits.
    pub fn get_wireguard_multihop_config(
        query: &RelayConstraintsFilter,
        config: &SelectorConfig,
        parsed_relays: &ParsedRelays,
    ) -> (r: Result<(Relay, Relay), Error>)
        ensures
            ({
                let exits = wg_candidates(
                    *query,
                    config.custom_lists.custom_lists@,
                    parsed_relays.spec_relays(),
                    false,
                );
                let entries = wg_candidates(
                    *query,
                    config.custom_lists.custom_lists@,
                    parsed_relays.spec_relays(),
                    true,
                );
                &&& match r {
                    Result::Ok((exit, entry)) => {
                        &&& exit.hostname@ != entry.hostname@
                        &&& exits.contains(exit)
                        &&& entries.contains(entry)
                    },
                    Result::Err(e) => e == Error::NoRelay,
                }
                &&& (exits.len() == 0 ==> r is Err)
                &&& (entries.len() == 0 ==> r is Err)
                &&& (exits.len() > 0 && entries.len() > 0 && multihop_pairable(exits, entries)
                    ==> r is Ok)
                &&& (entries.len() == 1 && exits.len() > 0 && (exists|k: int|
                    0 <= k < exits.len() && (#[trigger] exits[k]).hostname@
                        != entries[0].hostname@) ==> r is Ok)
                &&& (exits.len() == 1 && entries.len() > 0 && (exists|j: int|
                    0 <= j < entries.len() && (#[trigger] entries[j]).hostname@
                        != exits[0].hostname@) ==> r is Ok)
                &&& (exits.len() == 1 && entries.len() == 1 ==> (r is Err <==> exits[0].hostname@
                    == entries[0].hostname@))
            }),
    {
        let ghost lists = config.custom_lists.custom_lists@;
        let ghost all = parsed_relays.spec_relays();
        let ghost exits_spec = wg_candidates(*query, lists, all, false);
        let ghost entries_spec = wg_candidates(*query, lists, all, true);
        // The entry query is the exit query with the location replaced by the
        // multihop entry location.
        let mut entry_relay_query = query.clone();
        entry_relay_query.location = match &query.wireguard_constraints.entry_location {
            Constraint::Any => Constraint::Any,
            Constraint::Only(l) => Constraint::Only(l.clone()),
        };
        let wg_data = parsed_relays.parsed_list().wireguard.clone();
        let wg_data2 = parsed_relays.parsed_list().wireguard.clone();
        let exit_matcher = WireguardMatcher::new_matcher(
            query.clone(),
            wg_data,
            &config.custom_lists,
        );
        let entry_matcher = WireguardMatcher::new_matcher(
            entry_relay_query,
            wg_data2,
            &config.custom_lists,
        );
        let exit_candidates = exit_matcher.filter_matching_relay_list(parsed_relays.relays());
        let entry_candidates = entry_matcher.filter_matching_relay_list(parsed_relays.relays());
        proof {
            lemma_wg_matcher_agrees(exit_matcher, *query, false, lists, all);
            lemma_wg_matcher_agrees(entry_matcher, *query, true, lists, all);
            assert(exit_candidates@ == exits_spec);
            assert(entry_candidates@ == entries_spec);
        }
        if exit_candidates.len() == 1 && entry_candidates.len() == 1 {
            if !crate::matcher::are_distinct_relays(&exit_candidates[0], &entry_candidates[0]) {
                proof {
                    assert(exits_spec[0].hostname@ == entries_spec[0].hostname@);
                    assert(!multihop_pairable(exits_spec, entries_spec)) by {
                        if multihop_pairable(exits_spec, entries_spec) {
                            assert(exists|j: int|
                                0 <= j < entries_spec.len() && entries_spec[j].hostname@ != (
                                exits_spec[0]).hostname@);
                        }
                    }
                }
                return Result::Err(Error::NoRelay);
            }
        }
        if entry_candidates.len() == 1 && helpers::contains_hostname(
            &exit_candidates,
            &entry_candidates[0],
        ) {
            let entry = entry_candidates[0].clone();
            match helpers::random(&exit_candidates, &entry) {
                Option::Some(exit) => {
                    let exit = exit.clone();
                    proof {
                        assert(exit_candidates@.contains(exit));
                        assert(entry_candidates@.contains(entry)) by {
                            assert(entry_candidates@[0] == entry);
                        }
                    }
                    Result::Ok((exit, entry))
                },
                Option::None => {
                    // Every exit candidate shares the single entry's
                    // hostname, so no pair is possible.
                    proof {
                        if exits_spec.len() > 0 && multihop_pairable(exits_spec, entries_spec) {
                            assert(exits_spec[0].hostname@ == entry.hostname@);
                            assert(exists|j: int|
                                0 <= j < entries_spec.len() && entries_spec[j].hostname@ != (
                                exits_spec[0]).hostname@);
                            assert(false);
                        }
                    }
                    Result::Err(Error::NoRelay)
                },
            }
        } else if exit_candidates.len() == 1 && helpers::contains_hostname(
            &entry_candidates,
            &exit_candidates[0],
        ) {
            let exit = exit_candidates[0].clone();
            match helpers::random(&entry_candidates, &exit) {
                Option::Some(entry) => {
                    let entry = entry.clone();
                    proof {
                        assert(entry_candidates@.contains(entry));
                        assert(exit_candidates@.contains(exit)) by {
                            assert(exit_candidates@[0] == exit);
                        }
                    }
                    Result::Ok((exit, entry))
                },
                Option::None => {
                    // Every entry candidate shares the single exit's
                    // hostname, so no pair is possible.
                    proof {
                        if entries_spec.len() > 0 && multihop_pairable(exits_spec, entries_spec) {
                            assert(exists|j: int|
                                0 <= j < entries_spec.len() && entries_spec[j].hostname@ != (
                                exits_spec[0]).hostname@);
                            let j = choose|j: int|
                                0 <= j < entries_spec.len() && entries_spec[j].hostname@ != (
                                exits_spec[0]).hostname@;
                            assert(entries_spec[j].hostname@ == exit.hostname@);
                            assert(false);
                        }
                    }
                    Result::Err(Error::NoRelay)
                },
            }
        } else {
            match helpers::pick_random_relay(&exit_candidates) {
                Option::None => {
                    proof {
                        assert(exits_spec.len() == 0);
                    }
                    Result::Err(Error::NoRelay)
                },
                Option::Some(exit) => {
                    let exit = exit.clone();
                    match helpers::random(&entry_candidates, &exit) {
                        Option::Some(entry) => {
                            let entry = entry.clone();
                            proof {
                                assert(exit_candidates@.contains(exit));
                                assert(entry_candidates@.contains(entry));
                            }
                            Result::Ok((exit, entry))
                        },
                        Option::None => {
                            // Every entry candidate shares the drawn exit's
                            // hostname, so no pair is possible.
                            proof {
                                let k = choose|k: int|
                                    0 <= k < exits_spec.len() && exits_spec[k] == exit;
                                if multihop_pairable(exits_spec, entries_spec) && entries_spec.len()
                                    > 0 {
                                    assert(exists|j: int|
                                        0 <= j < entries_spec.len() && entries_spec[j].hostname@
                                            != (exits_spec[k]).hostname@);
                                    let j = choose|j: int|
                                        0 <= j < entries_spec.len() && entries_spec[j].hostname@
                                            != exits_spec[k].hostname@;
                                    assert(entries_spec[j].hostname@ == exit.hostname@);
                                    assert(false);
                                }
                                if exits_spec.len() == 1 && entries_spec.len() == 1 {
                                    assert(exits_spec[0] == exit);
                                    assert(entries_spec[0].hostname@ == exit.hostname@);
                                }
                            }
                            Result::Err(Error::NoRelay)
                        },
                    }
                },
            }
        }
    }

    /// Try to get a bridge that matches the given constraints, biased towards
    /// bridges close to the reference location when one is given. The
    /// connection details are returned alongside the relay hosting the
    /// bridge.
    fn get_proxy_settings<F: Fn(&Vec<Location>, &Location) -> u64>(
        parsed_relays: &ParsedRelays,
        constraints: &InternalBridgeConstraints,
        location: Option<&Vec<Location>>,
        custom_lists: &CustomListsSettings,
        dist: &F,
    ) -> (r: Option<(CustomProxy, Relay)>)
        requires
            dist_callable(*dist),
            relays_located(parsed_relays.spec_relays()),
        ensures
            match r {
                Option::Some((proxy, relay)) => bridge_candidates(
                    *constraints,
                    custom_lists.custom_lists@,
                    parsed_relays.spec_relays(),
                ).contains(relay) && relay.endpoint_data.is_bridge() && shadowsocks_from_block(
                    parsed_relays.spec_list().bridge.shadowsocks@,
                    relay,
                    proxy,
                ),
                Option::None => true,
            },
            bridge_candidates(
                *constraints,
                custom_lists.custom_lists@,
                parsed_relays.spec_relays(),
            ).len() == 0 ==> r is None,
            parsed_relays.spec_list().bridge.shadowsocks@.len() == 0 ==> r is None,
            location is None && bridge_candidates(
                *constraints,
                custom_lists.custom_lists@,
                parsed_relays.spec_relays(),
            ).len() > 0 && parsed_relays.spec_list().bridge.shadowsocks@.len() > 0 ==> r is Some,
    {
        let ghost lists = custom_lists.custom_lists@;
        let ghost all = parsed_relays.spec_relays();
        let matcher = BridgeMatcher::new_matcher(constraints.clone(), custom_lists);
        let relays = matcher.filter_matching_relay_list(parsed_relays.relays());
        proof {
            lemma_bridge_matcher_agrees(matcher, *constraints, lists, all);
            lemma_filter_subset(
                all,
                |x: Relay| crate::matcher::bridge_relay_matches(*constraints, lists, all, x),
            );
        }
        let relay = match location {
            Option::Some(reference) => Self::get_proximate_bridge(relays, reference, dist),
            Option::None => {
                match helpers::pick_random_relay(&relays) {
                    Option::Some(relay) => Option::Some(relay.clone()),
                    Option::None => Option::None,
                }
            },
        };
        let relay = match relay {
            Option::Some(relay) => relay,
            Option::None => {
                return Option::None;
            },
        };
        let bridge = helpers::pick_random_bridge(&parsed_relays.parsed_list().bridge, &relay);
        match bridge {
            Option::Some(bridge) => Option::Some((bridge, relay)),
            Option::None => Option::None,
        }
    }

    /// Try to get a bridge close to the reference location: the candidates
    /// are sorted by their distance from it and one of the closest is picked.
    fn get_proximate_bridge<F: Fn(&Vec<Location>, &Location) -> u64>(
        relays: Vec<Relay>,
        reference: &Vec<Location>,
        dist: &F,
    ) -> (r: Option<Relay>)
        requires
            dist_callable(*dist),
            forall|i: int| 0 <= i < relays@.len() ==> (#[trigger] relays@[i]).location is Some,
        ensures
            match r {
                Option::Some(relay) => relays@.contains(relay),
                Option::None => true,
            },
            relays@.len() == 0 ==> r is None,
    {
        let ghost input = relays@;
        // Attach each relay's distance from the reference location.
        let mut with_distance: Vec<RelayWithDistance> = Vec::new();
        let mut i: usize = 0;
        while i < relays.len()
            invariant
                i <= relays.len(),
                input == relays@,
                dist_callable(*dist),
                forall|k: int| 0 <= k < relays@.len() ==> (#[trigger] relays@[k]).location is Some,
                with_distance@.len() == i,
                forall|k: int|
                    0 <= k < i ==> (#[trigger] with_distance@[k]).relay == relays@[k],
            decreases relays.len() - i,
        {
            let relay = relays[i].clone();
            let distance = match &relay.location {
                Option::Some(l) => dist(reference, l),
                // Left out by the precondition: every candidate is located.
                Option::None => {
                    proof {
                        assert(relays@[i as int].location is Some);
                        assert(false);
                    }
                    0
                },
            };
            with_distance.push(RelayWithDistance { relay, distance });
            i = i + 1;
        }
        let sorted = sort_by_distance(with_distance);
        proof {
            broadcast use vstd::seq_lib::group_to_multiset_ensures;

            assert forall|k: int|
                0 <= k < sorted@.len() implies input.contains(
                (#[trigger] sorted@[k]).relay,
            ) by {
                assert(sorted@.contains(sorted@[k]));
                assert(sorted@.to_multiset().contains(sorted@[k]));
                let w = choose|w: int|
                    0 <= w < with_distance@.len() && with_distance@[w] == sorted@[k];
                assert(with_distance@[w].relay == input[w]);
            }
        }
        match Self::pick_among_closest(sorted) {
            Option::Some(relay) => Option::Some(relay),
            Option::None => Option::None,
        }
    }

    /// Whether the entry is one of the five closest of the sorted list and
    /// lies within 1500 km.
    spec fn close_entry_of(sorted: Seq<RelayWithDistance>, e: RelayWithDistance) -> bool {
        exists|i: int|
            0 <= i < sorted.len() && i < 5 && (#[trigger] sorted[i]).distance <= 1500 && sorted[i]
                == e
    }

    /// Picks among the closest candidates of a distance-sorted list: of the
    /// five closest, those farther than 1500 km are dropped; the farthest
    /// kept gets weight one and closer ones proportionally more, and one is
    /// drawn by that weight. Succeeds exactly when one of the five closest
    /// lies within 1500 km.
    #[verifier::loop_isolation(false)]
    fn pick_among_closest(sorted: Vec<RelayWithDistance>) -> (r: Option<Relay>)
        requires
            forall|i: int, j: int|
                0 <= i < j < sorted@.len() ==> sorted@[i].distance <= sorted@[j].distance,
        ensures
            r is Some <==> exists|i: int|
                0 <= i < sorted@.len() && i < 5 && (#[trigger] sorted@[i]).distance <= 1500,
            match r {
                Option::Some(relay) => exists|i: int|
                    0 <= i < sorted@.len() && i < 5 && (#[trigger] sorted@[i]).distance <= 1500
                        && sorted@[i].relay == relay,
                Option::None => true,
            },
    {
        let mut matching_relays: Vec<RelayWithDistance> = Vec::new();
        let mut j: usize = 0;
        while j < sorted.len() && j < 5
            invariant
                j <= sorted.len(),
                j <= 5,
                matching_relays@.len() <= j,
                forall|k: int|
                    0 <= k < matching_relays@.len() ==> Self::close_entry_of(
                        sorted@,
                        #[trigger] matching_relays@[k],
                    ),
                matching_relays@.len() == 0 ==> forall|i: int|
                    0 <= i < j ==> (#[trigger] sorted@[i]).distance > 1500,
            decreases sorted.len() - j,
        {
            // Drop candidates farther than 1500 km.
            if sorted[j].distance <= 1500 {
                let entry = RelayWithDistance {
                    relay: sorted[j].relay.clone(),
                    distance: sorted[j].distance,
                };
                let ghost before = matching_relays@;
                proof {
                    assert(entry == sorted@[j as int]);
                }
                matching_relays.push(entry);
                proof {
                    assert forall|k: int|
                        0 <= k < matching_relays@.len() implies Self::close_entry_of(
                        sorted@,
                        #[trigger] matching_relays@[k],
                    ) by {
                        if k == matching_relays@.len() - 1 {
                            assert(0 <= (j as int) && (j as int) < sorted@.len() && (j as int)
                                < 5 && sorted@[j as int].distance <= 1500 && matching_relays@[k]
                                == sorted@[j as int]);
                        } else {
                            assert(matching_relays@[k] == before[k]);
                        }
                    }
                }
            }
            j = j + 1;
        }
        if matching_relays.len() == 0 {
            proof {
                assert forall|i: int|
                    0 <= i < sorted@.len() && i < 5 implies (#[trigger] sorted@[i]).distance
                    > 1500 by {
                    assert(i < j);
                }
            }
            return Option::None;
        }
        proof {
            assert(Self::close_entry_of(sorted@, matching_relays@[0]));
        }
        // The farthest kept bridge still gets weight one; closer ones get
        // proportionally more.
        let mut greatest_distance: u64 = 0;
        let mut k: usize = 0;
        while k < matching_relays.len()
            invariant
                k <= matching_relays.len(),
                greatest_distance <= 1500,
                forall|m: int| 0 <= m < k ==> (#[trigger] matching_relays@[m]).distance
                    <= greatest_distance,
            decreases matching_relays.len() - k,
        {
            proof {
                assert(Self::close_entry_of(sorted@, matching_relays@[k as int]));
                let i = choose|i: int|
                    0 <= i < sorted@.len() && i < 5 && (#[trigger] sorted@[i]).distance <= 1500
                        && sorted@[i] == matching_relays@[k as int];
                assert(matching_relays@[k as int].distance <= 1500);
            }
            if matching_relays[k].distance > greatest_distance {
                greatest_distance = matching_relays[k].distance;
            }
            k = k + 1;
        }
        let greatest = greatest_distance;
        let weight_fn = |relay: &RelayWithDistance| -> (w: u64)
            requires
                relay.distance <= greatest,
                greatest <= 1500,
            { 1 + (greatest - relay.distance) };
        match helpers::pick_random_relay_fn(&matching_relays, weight_fn) {
            Option::Some(picked) => {
                let relay = picked.relay.clone();
                proof {
                    let w = choose|w: int|
                        0 <= w < matching_relays@.len() && matching_relays@[w] == *picked;
                    assert(Self::close_entry_of(sorted@, matching_relays@[w]));
                    let i = choose|i: int|
                        0 <= i < sorted@.len() && i < 5 && (#[trigger] sorted@[i]).distance
                            <= 1500 && sorted@[i] == matching_relays@[w];
                    assert(sorted@[i].relay == relay);
                }
                Option::Some(relay)
            },
            Option::None => {
                // The kept list is nonempty, so the draw always lands.
                proof {
                    assert(false);
                }
                Option::None
            },
        }
    }

    /// The locations of the relays the constraints admit, one per city.    /// The locations of the relays the constraints admit, one per city. This
    /// feeds the distance oracle as the reference set whose midpoint bridge
    /// proximity is judged from. Nothing when the location is unconstrained.
    fn get_relay_midpoint(
        parsed_relays: &ParsedRelays,
        constraints: &RelayConstraintsFilter,
        config: &SelectorConfig,
    ) -> (r: Option<Vec<Location>>)
        ensures
            match r {
                Option::Some(locs) => locs@.len() > 0 && (forall|i: int, j: int|
                    0 <= i < j < locs@.len() ==> locs@[i].city@ != locs@[j].city@),
                Option::None => true,
            },
            constraints.location is Any ==> r is None,
            relays_located(parsed_relays.spec_relays()) && !(constraints.location is Any)
                && any_candidates(
                *constraints,
                config.bridge_state,
                config.custom_lists.custom_lists@,
                parsed_relays.spec_list().openvpn.ports@,
                parsed_relays.spec_relays(),
            ).len() > 0 ==> r is Some,
    {
        if constraints.location.is_any() {
            return Option::None;
        }
        let matcher = RelayMatcher::new(
            constraints.clone(),
            parsed_relays.parsed_list().openvpn.clone(),
            config.bridge_state,
            parsed_relays.parsed_list().wireguard.clone(),
            &config.custom_lists,
        );
        proof {
            let lists = config.custom_lists.custom_lists@;
            let ports = parsed_relays.spec_list().openvpn.ports@;
            let relays = parsed_relays.spec_relays();
            lemma_any_matcher_agrees(
                matcher,
                *constraints,
                config.bridge_state,
                lists,
                ports,
                relays,
            );
            let cands = any_candidates(*constraints, config.bridge_state, lists, ports, relays);
            if cands.len() > 0 {
                lemma_filter_subset(
                    relays,
                    |x: Relay| crate::matcher::any_relay_matches(
                        *constraints,
                        config.bridge_state,
                        lists,
                        ports,
                        relays,
                        x,
                    ),
                );
                assert(relays.contains(cands[0]));
                let k = choose|k: int| 0 <= k < relays.len() && relays[k] == cands[0];
                assert(crate::matcher::any_relay_matches(
                    *constraints,
                    config.bridge_state,
                    lists,
                    ports,
                    relays,
                    cands[0],
                )) by {
                    relays.lemma_filter_pred(
                        |x: Relay| crate::matcher::any_relay_matches(
                            *constraints,
                            config.bridge_state,
                            lists,
                            ports,
                            relays,
                            x,
                        ),
                        0,
                    );
                }
                assert(crate::matcher::matches_final_spec(matcher, relays[k], relays));
            }
        }
        Self::get_relay_midpoint_inner(parsed_relays, matcher)
    }

    /// The locations of the matching relays, one per city.
    #[verifier::loop_isolation(false)]
    fn get_relay_midpoint_inner(
        parsed_relays: &ParsedRelays,
        matcher: RelayMatcher<AnyTunnelMatcher>,
    ) -> (r: Option<Vec<Location>>)
        ensures
            match r {
                Option::Some(locs) => locs@.len() > 0 && (forall|i: int, j: int|
                    0 <= i < j < locs@.len() ==> locs@[i].city@ != locs@[j].city@),
                Option::None => true,
            },
            relays_located(parsed_relays.spec_relays()) && (exists|k: int|
                0 <= k < parsed_relays.spec_relays().len()
                    && crate::matcher::matches_final_spec(
                    matcher,
                    #[trigger] parsed_relays.spec_relays()[k],
                    parsed_relays.spec_relays(),
                )) ==> r is Some,
    {
        let ghost all = parsed_relays.spec_relays();
        let matching = matcher.filter_matching_relay_list(parsed_relays.relays());
        proof {
            if relays_located(all) && (exists|k: int|
                0 <= k < all.len() && crate::matcher::matches_final_spec(
                    matcher,
                    #[trigger] all[k],
                    all,
                )) {
                let k = choose|k: int|
                    0 <= k < all.len() && crate::matcher::matches_final_spec(
                        matcher,
                        #[trigger] all[k],
                        all,
                    );
                assert(matching@.contains(all[k]));
                assert(matching@.len() > 0);
            }
        }
        let mut locations: Vec<Location> = Vec::new();
        let mut i: usize = 0;
        while i < matching.len()
            invariant
                i <= matching.len(),
                relays_located(all) ==> locations@.len() == i,
            decreases matching.len() - i,
        {
            match &matching[i].location {
                Option::Some(l) => {
                    locations.push(l.clone());
                },
                Option::None => {
                    // A parsed relay always carries a location.
                    proof {
                        if relays_located(all) {
                            assert(all.contains(matching@[i as int]));
                            let w = choose|w: int|
                                0 <= w < all.len() && all[w] == matching@[i as int];
                            assert(all[w].location is Some);
                            assert(false);
                        }
                    }
                },
            }
            i = i + 1;
        }
        let unique = unique_by_city(locations);
        if unique.len() == 0 {
            Option::None
        } else {
            Option::Some(unique)
        }
    }

    /// Selects a bridge per the resolved bridge settings: a catalog bridge
    /// near the given location for normal settings, the user's proxy for
    /// custom ones, nothing when bridges are off or automatic.
    fn get_bridge_for<F: Fn(&Vec<Location>, &Location) -> u64>(
        query: &BridgeSettingsFilter,
        location: &Vec<Location>,
        transport_protocol: TransportProtocol,
        parsed_relays: &ParsedRelays,
        custom_lists: &CustomListsSettings,
        dist: &F,
    ) -> (r: Option<SelectedBridge>)
        requires
            dist_callable(*dist),
            relays_located(parsed_relays.spec_relays()),
        ensures
            match r {
                Option::Some(SelectedBridge::Normal { settings, relay }) => (
                *query matches BridgeSettingsFilter::Normal(_)) && relay.endpoint_data.is_bridge()
                    && shadowsocks_from_block(
                    parsed_relays.spec_list().bridge.shadowsocks@,
                    relay,
                    settings,
                ) && exists|ibc: InternalBridgeConstraints|
                    #[trigger] bridge_candidates(
                        ibc,
                        custom_lists.custom_lists@,
                        parsed_relays.spec_relays(),
                    ).contains(relay),
                Option::Some(SelectedBridge::Custom(p)) => *query
                    matches BridgeSettingsFilter::Custom(Option::Some(cp)) && p@ == cp@,
                Option::None => true,
            },
            (*query matches BridgeSettingsFilter::Custom(Option::Some(cp)) ==> (
            r matches Option::Some(SelectedBridge::Custom(p)) && p@ == cp@)),
            *query matches BridgeSettingsFilter::Custom(Option::None) ==> r is None,
            *query matches BridgeSettingsFilter::Off ==> r is None,
            *query matches BridgeSettingsFilter::Auto ==> r is None,
    {
        match query {
            BridgeSettingsFilter::Normal(settings) => {
                let bridge_constraints = InternalBridgeConstraints {
                    location: match &settings.location {
                        Constraint::Any => Constraint::Any,
                        Constraint::Only(l) => Constraint::Only(l.clone()),
                    },
                    providers: match &settings.providers {
                        Constraint::Any => Constraint::Any,
                        Constraint::Only(p) => Constraint::Only(p.clone()),
                    },
                    ownership: settings.ownership,
                    transport_protocol: Constraint::Only(transport_protocol),
                };
                match Self::get_proxy_settings(
                    parsed_relays,
                    &bridge_constraints,
                    Option::Some(location),
                    custom_lists,
                    dist,
                ) {
                    Option::Some((settings, relay)) => Option::Some(
                        SelectedBridge::Normal { settings, relay },
                    ),
                    Option::None => Option::None,
                }
            },
            BridgeSettingsFilter::Custom(settings) => match settings {
                Option::Some(proxy) => Option::Some(SelectedBridge::Custom(proxy.clone())),
                Option::None => Option::None,
            },
            BridgeSettingsFilter::Off | BridgeSettingsFilter::Auto => Option::None,
        }
    }

    /// Selects a bridge for the chosen relay and transport protocol. Bridges
    /// carry only TCP: a bridge over UDP always fails with `NoBridge`. A
    /// relay without a location fails with `NoRelay`.
    fn get_bridge<F: Fn(&Vec<Location>, &Location) -> u64>(
        query: &BridgeSettingsFilter,
        relay: &Relay,
        protocol: TransportProtocol,
        parsed_relays: &ParsedRelays,
        custom_lists: &CustomListsSettings,
        dist: &F,
    ) -> (r: Result<Option<SelectedBridge>, Error>)
        requires
            dist_callable(*dist),
            relays_located(parsed_relays.spec_relays()),
        ensures
            (r == Result::<Option<SelectedBridge>, Error>::Err(Error::NoBridge)) <==> protocol
                == TransportProtocol::Udp,
            (r == Result::<Option<SelectedBridge>, Error>::Err(Error::NoRelay)) <==> (protocol
                == TransportProtocol::Tcp && relay.location is None),
            match r {
                Result::Ok(Option::Some(SelectedBridge::Normal { settings, relay: bridge_relay })) => (
                *query matches BridgeSettingsFilter::Normal(_))
                    && bridge_relay.endpoint_data.is_bridge() && shadowsocks_from_block(
                    parsed_relays.spec_list().bridge.shadowsocks@,
                    bridge_relay,
                    settings,
                ),
                Result::Ok(Option::Some(SelectedBridge::Custom(p))) => *query
                    matches BridgeSettingsFilter::Custom(Option::Some(cp)) && p@ == cp@,
                Result::Ok(Option::None) => true,
                Result::Err(_) => true,
            },
    {
        match protocol {
            TransportProtocol::Udp => Result::Err(Error::NoBridge),
            TransportProtocol::Tcp => {
                let location = match &relay.location {
                    Option::Some(l) => l.clone(),
                    Option::None => {
                        return Result::Err(Error::NoRelay);
                    },
                };
                let mut reference: Vec<Location> = Vec::new();
                reference.push(location);
                Result::Ok(
                    Self::get_bridge_for(
                        query,
                        &reference,
                        TransportProtocol::Tcp,
                        parsed_relays,
                        custom_lists,
                        dist,
                    ),
                )
            },
        }
    }

    /// Executes the given query: branches on the tunnel protocol, chooses the
    /// relays, details the endpoint, and selects a bridge or obfuscator when
    /// the query calls for one. With no tunnel protocol pinned, WireGuard is
    /// tried first, then OpenVPN.
    #[verifier::rlimit(100)]
    fn get_relay_inner<F: Fn(&Vec<Location>, &Location) -> u64>(
        query: &RelayConstraintsFilter,
        parsed_relays: &ParsedRelays,
        config: &SelectorConfig,
        dist: &F,
    ) -> (r: Result<GetRelay, Error>)
        requires
            dist_callable(*dist),
            relays_located(parsed_relays.spec_relays()),
        ensures
            relay_query_result_spec(*query, *config, *parsed_relays, r),
        decreases (if query.tunnel_protocol is Any {
            1int
        } else {
            0int
        }),
    {
        let ghost lists = config.custom_lists.custom_lists@;
        let ghost relays = parsed_relays.spec_relays();
        let ghost ports = parsed_relays.spec_list().openvpn.ports@;
        match query.tunnel_protocol {
            Constraint::Only(TunnelType::Wireguard) => {
                let multihop = query.wireguard_constraints.multihop();
                let (exit, entry) = if !multihop {
                    let exit = match Self::choose_relay(query, config, parsed_relays) {
                        Option::Some(exit) => exit,
                        Option::None => {
                            return Result::Err(Error::NoRelay);
                        },
                    };
                    (exit, Option::<Relay>::None)
                } else {
                    match Self::get_wireguard_multihop_config(query, config, parsed_relays) {
                        Result::Ok((exit, entry)) => (exit, Option::Some(entry)),
                        Result::Err(e) => {
                            return Result::Err(e);
                        },
                    }
                };
                let detailer = match &entry {
                    Option::Some(entry_relay) => WireguardDetailer::new(
                        query.wireguard_constraints.clone(),
                        exit.clone(),
                        parsed_relays.parsed_list().wireguard.clone(),
                    ).set_entry(entry_relay.clone()),
                    Option::None => WireguardDetailer::new(
                        query.wireguard_constraints.clone(),
                        exit.clone(),
                        parsed_relays.parsed_list().wireguard.clone(),
                    ),
                };
                let endpoint = match detailer.to_endpoint() {
                    Option::Some(e) => e,
                    Option::None => {
                        return Result::Err(Error::NoRelay);
                    },
                };
                let obfuscator = match &endpoint {
                    MullvadEndpoint::Wireguard(wg_endpoint) => {
                        let obfuscator_relay = match &entry {
                            Option::Some(entry_relay) => entry_relay.clone(),
                            Option::None => exit.clone(),
                        };
                        Self::get_obfuscator(
                            query,
                            &parsed_relays.parsed_list().wireguard.udp2tcp_ports,
                            &obfuscator_relay,
                            wg_endpoint,
                        )
                    },
                    _ => Option::None,
                };
                proof {
                    assert(*query == RelayConstraintsFilter {
                        tunnel_protocol: Constraint::Only(TunnelType::Wireguard),
                        ..*query
                    });
                    assert(query@ == view_with_tunnel(query@, TunnelType::Wireguard));
                }
                Result::Ok(GetRelay::Wireguard { endpoint, exit, entry, obfuscator })
            },
            Constraint::Only(TunnelType::OpenVpn) => {
                let exit = match Self::choose_relay(query, config, parsed_relays) {
                    Option::Some(exit) => exit,
                    Option::None => {
                        return Result::Err(Error::NoRelay);
                    },
                };
                let detailer = OpenVpnDetailer::new(
                    query.openvpn_constraints.clone(),
                    exit.clone(),
                    parsed_relays.parsed_list().openvpn.clone(),
                );
                let endpoint = match detailer.to_endpoint() {
                    Option::Some(e) => e,
                    Option::None => {
                        return Result::Err(Error::NoRelay);
                    },
                };
                let bridge = match &endpoint {
                    MullvadEndpoint::OpenVpn(ovpn_endpoint) => {
                        if helpers::should_use_bridge(&query.openvpn_constraints.bridge_settings) {
                            let bridge_query = match &query.openvpn_constraints.bridge_settings {
                                Constraint::Only(settings) => settings.clone(),
                                // Bridges are never demanded by an
                                // unconstrained setting.
                                Constraint::Any => {
                                    proof {
                                        assert(false);
                                    }
                                    BridgeSettingsFilter::Off
                                },
                            };
                            match Self::get_bridge(
                                &bridge_query,
                                &exit,
                                ovpn_endpoint.protocol,
                                parsed_relays,
                                &config.custom_lists,
                                dist,
                            ) {
                                Result::Ok(bridge) => bridge,
                                Result::Err(e) => {
                                    return Result::Err(e);
                                },
                            }
                        } else {
                            Option::None
                        }
                    },
                    // The OpenVPN detailer produces OpenVPN endpoints only.
                    _ => {
                        proof {
                            assert(false);
                        }
                        Option::None
                    },
                };
                proof {
                    assert(*query == RelayConstraintsFilter {
                        tunnel_protocol: Constraint::Only(TunnelType::OpenVpn),
                        ..*query
                    });
                    assert(query@ == view_with_tunnel(query@, TunnelType::OpenVpn));
                }
                Result::Ok(GetRelay::OpenVpn { endpoint, exit, bridge })
            },
            Constraint::Any => {
                // Try WireGuard first, then OpenVPN; fail only when both do.
                let ghost wgq = with_tunnel(*query, TunnelType::Wireguard);
                let ghost ovq = with_tunnel(*query, TunnelType::OpenVpn);
                let mut wg_constraints = query.clone();
                wg_constraints.tunnel_protocol = Constraint::Only(TunnelType::Wireguard);
                proof {
                    assert(wg_constraints@ == view_with_tunnel(query@, TunnelType::Wireguard));
                    assert(wgq@ == view_with_tunnel(query@, TunnelType::Wireguard));
                    lemma_any_matches_by_view(
                        wg_constraints,
                        wgq,
                        config.bridge_state,
                        lists,
                        ports,
                        relays,
                    );
                    crate::matcher::lemma_wg_matches_by_view(
                        wg_constraints,
                        wgq,
                        false,
                        lists,
                        relays,
                    );
                    crate::matcher::lemma_wg_matches_by_view(
                        wg_constraints,
                        wgq,
                        true,
                        lists,
                        relays,
                    );
                    assert(with_tunnel(wg_constraints, TunnelType::Wireguard) == wg_constraints);
                }
                let r1 = Self::get_relay_inner(&wg_constraints, parsed_relays, config, dist);
                match r1 {
                    Result::Ok(relay) => {
                        return Result::Ok(relay);
                    },
                    Result::Err(_) => {},
                }
                let mut ovpn_constraints = query.clone();
                ovpn_constraints.tunnel_protocol = Constraint::Only(TunnelType::OpenVpn);
                proof {
                    assert(ovpn_constraints@ == view_with_tunnel(query@, TunnelType::OpenVpn));
                    assert(ovq@ == view_with_tunnel(query@, TunnelType::OpenVpn));
                    lemma_any_matches_by_view(
                        ovpn_constraints,
                        ovq,
                        config.bridge_state,
                        lists,
                        ports,
                        relays,
                    );
                    assert(with_tunnel(ovpn_constraints, TunnelType::OpenVpn) == ovpn_constraints);
                    crate::helpers::lemma_should_use_by_view(
                        ovpn_constraints.openvpn_constraints.bridge_settings,
                        query.openvpn_constraints.bridge_settings,
                    );
                }
                let r2 = Self::get_relay_inner(&ovpn_constraints, parsed_relays, config, dist);
                match r2 {
                    Result::Ok(relay) => {
                        return Result::Ok(relay);
                    },
                    Result::Err(_) => {},
                }
                Result::Err(Error::NoRelay)
            },
        }
    }

    /// Executes the given query against the current catalog and settings.    /// Executes the given query against the current catalog and settings.
    pub fn get_relay_by_query<F: Fn(&Vec<Location>, &Location) -> u64>(
        &self,
        query: RelayConstraintsFilter,
        dist: &F,
    ) -> (r: Result<GetRelay, Error>)
        requires
            dist_callable(*dist),
            self.parsed_relays.wf(),
        ensures
            relay_query_result_spec(query, self.config, self.parsed_relays, r),
    {
        proof {
            crate::relay_list::lemma_parsed_relays_located(
                self.parsed_relays.list,
                self.parsed_relays.overrides@,
            );
        }
        Self::get_relay_inner(&query, &self.parsed_relays, &self.config, dist)
    }

    /// Answers the attempt with the given retry order: a custom tunnel
    /// endpoint short-circuits selection; otherwise the cycled row at the
    /// attempt's position among those compatible with the user's constraints
    /// is merged in and executed.
    pub fn get_relay_with_order<F: Fn(&Vec<Location>, &Location) -> u64>(
        &self,
        retry_order: &Vec<RelayConstraintsFilter>,
        retry_attempt: usize,
        dist: &F,
    ) -> (r: Result<GetRelay, Error>)
        requires
            dist_callable(*dist),
            self.parsed_relays.wf(),
            retry_attempt < usize::MAX,
            retry_order@.len() > 0,
            self.config.relay_settings is Normal ==> exists|i: int|
                0 <= i < retry_order@.len() && relay_filter_meet(
                    (#[trigger] retry_order@[i])@,
                    from_config_spec(self.config),
                ) is Some,
        ensures
            match self.config.relay_settings {
                RelaySettings::CustomTunnelEndpoint(custom) => r matches Result::Ok(
                    GetRelay::Custom(c),
                ) && c == custom,
                RelaySettings::Normal(_) => exists|q: RelayConstraintsFilter|
                    {
                        &&& exists|g: int|
                            0 <= g && #[trigger] ladder_meet(
                                filter_views(retry_order@),
                                from_config_spec(self.config),
                                g,
                            ) == Option::Some(q@) && ladder_some_count(
                                filter_views(retry_order@),
                                from_config_spec(self.config),
                                g,
                            ) == retry_attempt as int
                        &&& #[trigger] relay_query_result_spec(
                            q,
                            self.config,
                            self.parsed_relays,
                            r,
                        )
                    },
            },
    {
        if let RelaySettings::CustomTunnelEndpoint(custom_relay) = &self.config.relay_settings {
            return Result::Ok(GetRelay::Custom(custom_relay.clone()));
        }
        let user_preferences = RelayConstraintsFilter::from(&self.config);
        let constraints = effective_query(retry_order, &user_preferences, retry_attempt);
        proof {
            crate::relay_list::lemma_parsed_relays_located(
                self.parsed_relays.list,
                self.parsed_relays.overrides@,
            );
        }
        Self::get_relay_inner(&constraints, &self.parsed_relays, &self.config, dist)
    }

    /// Answers the attempt with the built-in retry ladder: a custom tunnel
    /// endpoint short-circuits selection; otherwise the cycled ladder row at
    /// the attempt's position among those compatible with the user's
    /// constraints is merged in and executed.
    pub fn get_relay<F: Fn(&Vec<Location>, &Location) -> u64>(
        &self,
        retry_attempt: usize,
        dist: &F,
    ) -> (r: Result<GetRelay, Error>)
        requires
            dist_callable(*dist),
            self.parsed_relays.wf(),
            retry_attempt < usize::MAX,
        ensures
            match self.config.relay_settings {
                RelaySettings::CustomTunnelEndpoint(custom) => r matches Result::Ok(
                    GetRelay::Custom(c),
                ) && c == custom,
                RelaySettings::Normal(_) => exists|q: RelayConstraintsFilter|
                    {
                        &&& exists|g: int|
                            0 <= g && #[trigger] ladder_meet(
                                retry_order_views(),
                                from_config_spec(self.config),
                                g,
                            ) == Option::Some(q@) && ladder_some_count(
                                retry_order_views(),
                                from_config_spec(self.config),
                                g,
                            ) == retry_attempt as int
                        &&& #[trigger] relay_query_result_spec(
                            q,
                            self.config,
                            self.parsed_relays,
                            r,
                        )
                    },
            },
    {
        let order = retry_order();
        proof {
            assert(filter_views(order@) =~= retry_order_views());
            if self.config.relay_settings is Normal {
                crate::intersection_laws::lemma_filter_identity(from_config_spec(self.config));
                assert(order@[0]@ == RelayConstraintsFilter::any_view());
                assert(relay_filter_meet(order@[0]@, from_config_spec(self.config)) is Some);
            }
        }
        self.get_relay_with_order(&order, retry_attempt, dist)
    }

    /// Returns a bridge from the catalog per the user's bridge settings,
    /// ignoring the bridge state, near the relays the user's constraints
    /// admit when a location constraint is set.
    pub fn get_bridge_forced<F: Fn(&Vec<Location>, &Location) -> u64>(&self, dist: &F) -> (r:
        Option<CustomProxy>)
        requires
            dist_callable(*dist),
            self.parsed_relays.wf(),
        ensures
            match r {
                Option::Some(proxy) => exists|relay: Relay|
                    #[trigger] bridge_candidates(
                        forced_bridge_constraints(self.config),
                        self.config.custom_lists.custom_lists@,
                        self.parsed_relays.spec_relays(),
                    ).contains(relay) && relay.endpoint_data.is_bridge()
                        && shadowsocks_from_block(
                        self.parsed_relays.spec_list().bridge.shadowsocks@,
                        relay,
                        proxy,
                    ),
                Option::None => true,
            },
            self.parsed_relays.spec_list().bridge.shadowsocks@.len() == 0 ==> r is None,
            (match self.config.relay_settings {
                RelaySettings::CustomTunnelEndpoint(_) => true,
                RelaySettings::Normal(rc) => rc.location is Any,
            }) && bridge_candidates(
                forced_bridge_constraints(self.config),
                self.config.custom_lists.custom_lists@,
                self.parsed_relays.spec_relays(),
            ).len() > 0 && self.parsed_relays.spec_list().bridge.shadowsocks@.len() > 0 ==> r
                is Some,
    {
        proof {
            crate::relay_list::lemma_parsed_relays_located(
                self.parsed_relays.list,
                self.parsed_relays.overrides@,
            );
        }
        let near_location = match &self.config.relay_settings {
            RelaySettings::Normal(_) => {
                let user_preferences = RelayConstraintsFilter::from(&self.config);
                Self::get_relay_midpoint(&self.parsed_relays, &user_preferences, &self.config)
            },
            _ => Option::None,
        };
        let constraints = match self.config.bridge_settings.resolve() {
            Result::Ok(crate::relay_constraints::ResolvedBridgeSettings::Normal(settings)) => {
                InternalBridgeConstraints {
                    location: match &settings.location {
                        Constraint::Any => Constraint::Any,
                        Constraint::Only(l) => Constraint::Only(l.clone()),
                    },
                    providers: match &settings.providers {
                        Constraint::Any => Constraint::Any,
                        Constraint::Only(p) => Constraint::Only(p.clone()),
                    },
                    ownership: settings.ownership,
                    transport_protocol: Constraint::Only(TransportProtocol::Tcp),
                }
            },
            _ => InternalBridgeConstraints {
                location: Constraint::Any,
                providers: Constraint::Any,
                ownership: Constraint::Any,
                transport_protocol: Constraint::Only(TransportProtocol::Tcp),
            },
        };
        proof {
            crate::matcher::lemma_bridge_matches_by_view(
                constraints,
                forced_bridge_constraints(self.config),
                self.config.custom_lists.custom_lists@,
                self.parsed_relays.spec_relays(),
            );
        }
        let reference = match &near_location {
            Option::Some(locs) => Option::Some(locs),
            Option::None => Option::None,
        };
        match Self::get_proxy_settings(
            &self.parsed_relays,
            &constraints,
            reference,
            &self.config.custom_lists,
            dist,
        ) {
            Option::Some((settings, relay)) => {
                proof {
                    assert(bridge_candidates(
                        forced_bridge_constraints(self.config),
                        self.config.custom_lists.custom_lists@,
                        self.parsed_relays.spec_relays(),
                    ).contains(relay) && relay.endpoint_data.is_bridge()
                        && shadowsocks_from_block(
                        self.parsed_relays.spec_list().bridge.shadowsocks@,
                        relay,
                        settings,
                    ));
                }
                Option::Some(settings)
            },
            Option::None => Option::None,
        }
    }

    /// Selects the obfuscator the query calls for, if any, co-located with
    /// the given relay.
    pub fn get_obfuscator(
        query: &RelayConstraintsFilter,
        udp2tcp_ports: &Vec<u16>,
        relay: &Relay,
        endpoint: &MullvadWireguardEndpoint,
    ) -> (r: Option<SelectedObfuscator>)
        ensures
            match query.wireguard_constraints.obfuscation {
                SelectedObfuscation::Off | SelectedObfuscation::Auto => r is None,
                SelectedObfuscation::Udp2Tcp => udp2tcp_obfuscator_spec(
                    query.wireguard_constraints.udp2tcp_port,
                    udp2tcp_ports@,
                    *relay,
                    *endpoint,
                    r,
                ),
            },
    {
        match query.wireguard_constraints.obfuscation {
            SelectedObfuscation::Off | SelectedObfuscation::Auto => Option::None,
            SelectedObfuscation::Udp2Tcp => helpers::get_udp2tcp_obfuscator(
                &query.wireguard_constraints.udp2tcp_port,
                udp2tcp_ports,
                relay.clone(),
                endpoint,
            ),
        }
    }
}

} // verus!
