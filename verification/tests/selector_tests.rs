//! End-to-end scenarios and unit tests for the relay selector.

use std::cell::Cell;

use relay_selector::builder;
use relay_selector::constraint::Constraint;
use relay_selector::detailer::MullvadEndpoint;
use relay_selector::location::CustomList;
use relay_selector::location::CustomListsSettings;
use relay_selector::location::GeographicLocationConstraint;
use relay_selector::location::LocationConstraint;
use relay_selector::location::ResolvedLocationConstraint;
use relay_selector::net::IpAddress;
use relay_selector::net::IpVersion;
use relay_selector::net::ObfuscatorConfig;
use relay_selector::net::TransportProtocol;
use relay_selector::net::TunnelType;
use relay_selector::relay_constraints::BridgeSettings;
use relay_selector::relay_constraints::BridgeSettingsFilter;
use relay_selector::relay_constraints::BridgeState;
use relay_selector::relay_constraints::BridgeType;
use relay_selector::relay_constraints::ObfuscationSettings;
use relay_selector::relay_constraints::Ownership;
use relay_selector::relay_constraints::Providers;
use relay_selector::relay_constraints::RelayConstraints;
use relay_selector::relay_constraints::SelectedObfuscation;
use relay_selector::relay_constraints::TransportPort;
use relay_selector::relay_constraints::Udp2TcpObfuscationSettings;
use relay_selector::relay_list::BridgeEndpointData;
use relay_selector::relay_list::City;
use relay_selector::relay_list::Country;
use relay_selector::relay_list::OpenVpnEndpoint;
use relay_selector::relay_list::OpenVpnEndpointData;
use relay_selector::relay_list::ParsedRelays;
use relay_selector::relay_list::Relay;
use relay_selector::relay_list::RelayEndpointData;
use relay_selector::relay_list::RelayList;
use relay_selector::relay_list::RelayOverride;
use relay_selector::relay_list::ShadowsocksEndpointData;
use relay_selector::relay_list::WireguardEndpointData;
use relay_selector::relay_list::WireguardRelayEndpointData;
use relay_selector::selector::GetRelay;
use relay_selector::selector::RelaySelector;
use relay_selector::selector::RelaySettings;
use relay_selector::selector::SelectedBridge;
use relay_selector::selector::SelectorConfig;
use relay_selector::selector::retry_order;
use relay_selector::Error;

fn flat_distance(reference: &Vec<relay_selector::relay_list::Location>, to: &relay_selector::relay_list::Location) -> u64 {
    // A crude flat-earth stand-in for the tests: the average absolute
    // latitude/longitude difference, scaled so a degree is about 111 km.
    if reference.is_empty() {
        return 0;
    }
    let lat: i64 = reference.iter().map(|l| l.latitude).sum::<i64>() / reference.len() as i64;
    let lon: i64 = reference.iter().map(|l| l.longitude).sum::<i64>() / reference.len() as i64;
    let dlat = (lat - to.latitude).unsigned_abs();
    let dlon = (lon - to.longitude).unsigned_abs();
    (dlat + dlon) * 111 / 1_000_000
}

fn wg_relay(hostname: &str, weight: u64) -> Relay {
    Relay {
        hostname: hostname.to_string(),
        ipv4_addr_in: 0x0a00_0001,
        ipv6_addr_in: Some(1),
        include_in_country: true,
        active: true,
        owned: true,
        provider: "provider0".to_string(),
        weight,
        location: None,
        endpoint_data: RelayEndpointData::Wireguard(WireguardRelayEndpointData {
            public_key: "pubkey".to_string(),
        }),
    }
}

fn openvpn_relay(hostname: &str) -> Relay {
    Relay {
        endpoint_data: RelayEndpointData::Openvpn,
        ..wg_relay(hostname, 1)
    }
}

fn bridge_relay(hostname: &str) -> Relay {
    Relay { endpoint_data: RelayEndpointData::Bridge, ..wg_relay(hostname, 1) }
}

fn city(code: &str, lat_deg: i64, relays: Vec<Relay>) -> City {
    City {
        name: code.to_string(),
        code: code.to_string(),
        latitude: lat_deg * 1_000_000,
        longitude: 0,
        relays,
    }
}

fn country(code: &str, cities: Vec<City>) -> Country {
    Country { name: code.to_string(), code: code.to_string(), cities }
}

fn catalog(countries: Vec<Country>) -> RelayList {
    RelayList {
        countries,
        openvpn: OpenVpnEndpointData {
            ports: vec![
                OpenVpnEndpoint { port: 1194, protocol: TransportProtocol::Udp },
                OpenVpnEndpoint { port: 443, protocol: TransportProtocol::Tcp },
            ],
        },
        bridge: BridgeEndpointData {
            shadowsocks: vec![ShadowsocksEndpointData {
                port: 443,
                cipher: "aes-256-gcm".to_string(),
                password: "SECRET-REDACTED".to_string(),
                protocol: TransportProtocol::Tcp,
            }],
        },
        wireguard: WireguardEndpointData {
            port_ranges: vec![(53, 53), (443, 443), (4000, 33433)],
            ipv4_gateway: 0x0a40_0001,
            ipv6_gateway: 2,
            udp2tcp_ports: vec![80, 443],
        },
    }
}

fn single_se_wireguard_catalog() -> RelayList {
    catalog(vec![country("se", vec![city("got", 57, vec![wg_relay("se-got-wg-001", 1)])])])
}

fn default_config() -> SelectorConfig {
    SelectorConfig::default()
}

fn selector_with(config: SelectorConfig, list: RelayList) -> RelaySelector {
    RelaySelector::from_list(config, list, 0)
}

// --- Algebraic laws on concrete values ---

#[test]
fn intersection_identity_concrete() {
    let x = builder::wireguard::new().port(443).build();
    let any = builder::any().build();
    let left = any.intersection(x.clone()).expect("identity merge");
    let right = x.clone().intersection(builder::any().build()).expect("identity merge");
    assert_eq!(left.wireguard_constraints.port, Constraint::Only(443));
    assert_eq!(right.wireguard_constraints.port, Constraint::Only(443));
    assert_eq!(left.tunnel_protocol, Constraint::Only(TunnelType::Wireguard));
    assert_eq!(right.tunnel_protocol, Constraint::Only(TunnelType::Wireguard));
}

#[test]
fn intersection_idempotent_concrete() {
    let x = builder::openvpn::new()
        .transport_protocol(TransportProtocol::Tcp)
        .port(443)
        .build();
    let merged = x.clone().intersection(x).expect("self merge");
    assert_eq!(
        merged.openvpn_constraints.port,
        Constraint::Only(TransportPort { protocol: TransportProtocol::Tcp, port: Constraint::Only(443) })
    );
}

#[test]
fn intersection_commutative_concrete() {
    let x = builder::wireguard::new().port(443).build();
    let y = builder::wireguard::new().ip_version(IpVersion::V6).build();
    let xy = x.clone().intersection(y.clone()).expect("compatible");
    let yx = y.intersection(x).expect("compatible");
    assert_eq!(xy.wireguard_constraints.port, yx.wireguard_constraints.port);
    assert_eq!(xy.wireguard_constraints.ip_version, yx.wireguard_constraints.ip_version);
}

#[test]
fn intersection_associative_concrete() {
    let x = builder::wireguard::new().build();
    let y = builder::wireguard::new().port(443).build();
    let z = builder::wireguard::new().ip_version(IpVersion::V6).build();
    let left = x
        .clone()
        .intersection(y.clone())
        .and_then(|xy| xy.intersection(z.clone()))
        .expect("compatible");
    let right = y
        .intersection(z)
        .and_then(|yz| x.intersection(yz))
        .expect("compatible");
    assert_eq!(left.wireguard_constraints.port, right.wireguard_constraints.port);
    assert_eq!(left.wireguard_constraints.ip_version, right.wireguard_constraints.ip_version);
}

#[test]
fn intersection_incompatible_ports() {
    let x = builder::wireguard::new().port(443).build();
    let y = builder::wireguard::new().port(53).build();
    assert!(x.intersection(y).is_none());
}

#[test]
fn obfuscation_auto_is_identity() {
    assert_eq!(
        SelectedObfuscation::Auto.intersection(SelectedObfuscation::Udp2Tcp),
        Some(SelectedObfuscation::Udp2Tcp)
    );
    assert_eq!(
        SelectedObfuscation::Off.intersection(SelectedObfuscation::Auto),
        Some(SelectedObfuscation::Off)
    );
    assert_eq!(
        SelectedObfuscation::Off.intersection(SelectedObfuscation::Off),
        Some(SelectedObfuscation::Off)
    );
    assert_eq!(SelectedObfuscation::Off.intersection(SelectedObfuscation::Udp2Tcp), None);
}

// --- End-to-end scenarios ---

#[test]
fn single_wireguard_relay_any_query() {
    let selector = selector_with(default_config(), single_se_wireguard_catalog());
    match selector.get_relay(0, &flat_distance).expect("a relay must be found") {
        GetRelay::Wireguard { exit, entry, obfuscator, .. } => {
            assert_eq!(exit.hostname, "se-got-wg-001");
            assert!(entry.is_none());
            assert!(obfuscator.is_none());
        }
        other => panic!("expected a WireGuard relay, got {:?}", other),
    }
}

#[test]
fn pinned_openvpn_without_openvpn_relays() {
    let mut config = default_config();
    let mut constraints = RelayConstraints::new();
    constraints.wireguard_constraints.use_multihop(false);
    constraints.tunnel_protocol = Constraint::Only(TunnelType::OpenVpn);
    config.relay_settings = RelaySettings::Normal(constraints);
    let selector = selector_with(config, single_se_wireguard_catalog());
    let result = selector.get_relay(0, &flat_distance);
    assert!(matches!(result, Err(Error::NoRelay)));
}

#[test]
fn multihop_exit_and_entry_are_distinct() {
    let list = catalog(vec![
        country(
            "se",
            vec![city("got", 57, vec![wg_relay("se-got-wg-001", 3), wg_relay("se-got-wg-002", 1)])],
        ),
        country("no", vec![city("osl", 59, vec![wg_relay("no-osl-wg-001", 1)])]),
    ]);
    let mut config = default_config();
    let mut constraints = RelayConstraints::new();
    constraints.wireguard_constraints.use_multihop(true);
    constraints.tunnel_protocol = Constraint::Only(TunnelType::Wireguard);
    constraints.location = Constraint::Only(LocationConstraint::Location(
        GeographicLocationConstraint::City("se".to_string(), "got".to_string()),
    ));
    constraints.wireguard_constraints.entry_location = Constraint::Only(
        LocationConstraint::Location(GeographicLocationConstraint::Country("no".to_string())),
    );
    config.relay_settings = RelaySettings::Normal(constraints);
    let selector = selector_with(config, list);
    for _ in 0..20 {
        match selector.get_relay(0, &flat_distance).expect("multihop must succeed") {
            GetRelay::Wireguard { exit, entry, .. } => {
                let entry = entry.expect("an entry relay must be picked");
                assert_eq!(entry.hostname, "no-osl-wg-001");
                assert!(exit.hostname.starts_with("se-got-wg-"));
                assert_ne!(exit.hostname, entry.hostname);
            }
            other => panic!("expected a WireGuard relay, got {:?}", other),
        }
    }
}

#[test]
fn bridge_over_forced_udp_fails_with_no_bridge() {
    let list = catalog(vec![country(
        "se",
        vec![city("got", 57, vec![openvpn_relay("se-got-ovpn-001")])],
    )]);
    let mut config = default_config();
    let mut constraints = RelayConstraints::new();
    constraints.wireguard_constraints.use_multihop(false);
    constraints.tunnel_protocol = Constraint::Only(TunnelType::OpenVpn);
    constraints.openvpn_constraints.port = Constraint::Only(TransportPort {
        protocol: TransportProtocol::Udp,
        port: Constraint::Any,
    });
    config.relay_settings = RelaySettings::Normal(constraints);
    config.bridge_state = BridgeState::On;
    let selector = selector_with(config, list);
    let result = selector.get_relay(0, &flat_distance);
    assert!(matches!(result, Err(Error::NoBridge)), "got {:?}", result);
}

#[test]
fn udp2tcp_obfuscator_uses_pinned_port() {
    let mut config = default_config();
    let mut constraints = RelayConstraints::new();
    constraints.wireguard_constraints.use_multihop(false);
    constraints.tunnel_protocol = Constraint::Only(TunnelType::Wireguard);
    config.relay_settings = RelaySettings::Normal(constraints);
    config.obfuscation_settings = ObfuscationSettings {
        selected_obfuscation: SelectedObfuscation::Udp2Tcp,
        udp2tcp: Udp2TcpObfuscationSettings { port: Constraint::Only(80) },
    };
    let selector = selector_with(config, single_se_wireguard_catalog());
    match selector.get_relay(0, &flat_distance).expect("a relay must be found") {
        GetRelay::Wireguard { obfuscator, .. } => {
            let obfuscator = obfuscator.expect("an obfuscator must be selected");
            let ObfuscatorConfig::Udp2Tcp { endpoint } = obfuscator.config;
            assert_eq!(endpoint.port, 80);
        }
        other => panic!("expected a WireGuard relay, got {:?}", other),
    }
}

#[test]
fn udp2tcp_obfuscator_rejects_unavailable_port() {
    let mut config = default_config();
    let mut constraints = RelayConstraints::new();
    constraints.wireguard_constraints.use_multihop(false);
    constraints.tunnel_protocol = Constraint::Only(TunnelType::Wireguard);
    config.relay_settings = RelaySettings::Normal(constraints);
    config.obfuscation_settings = ObfuscationSettings {
        selected_obfuscation: SelectedObfuscation::Udp2Tcp,
        udp2tcp: Udp2TcpObfuscationSettings { port: Constraint::Only(8080) },
    };
    let selector = selector_with(config, single_se_wireguard_catalog());
    match selector.get_relay(0, &flat_distance).expect("a relay must be found") {
        GetRelay::Wireguard { obfuscator, .. } => assert!(obfuscator.is_none()),
        other => panic!("expected a WireGuard relay, got {:?}", other),
    }
}

#[test]
fn retry_ladder_row_two_pins_wireguard_port_443() {
    let rows = retry_order();
    assert_eq!(rows.len(), 8);
    assert_eq!(rows[2].tunnel_protocol, Constraint::Only(TunnelType::Wireguard));
    assert_eq!(rows[2].wireguard_constraints.port, Constraint::Only(443));
    // With an unrestricted user config, attempt number two yields exactly
    // that row: a WireGuard endpoint on port 443.
    let selector = selector_with(default_config(), single_se_wireguard_catalog());
    match selector.get_relay(2, &flat_distance).expect("a relay must be found") {
        GetRelay::Wireguard { endpoint, .. } => match endpoint {
            MullvadEndpoint::Wireguard(wg) => assert_eq!(wg.peer.endpoint.port, 443),
            other => panic!("expected a WireGuard endpoint, got {:?}", other),
        },
        other => panic!("expected a WireGuard relay, got {:?}", other),
    }
}

#[test]
fn custom_endpoint_bypasses_selection() {
    let mut config = default_config();
    let custom = relay_selector::selector::CustomTunnelEndpoint {
        host: "example.local".to_string(),
        endpoint: relay_selector::detailer::Endpoint {
            address: relay_selector::net::SocketAddress { ip: IpAddress::V4(0x7f00_0001), port: 4433 },
            protocol: TransportProtocol::Tcp,
        },
    };
    config.relay_settings = RelaySettings::CustomTunnelEndpoint(custom);
    let selector = selector_with(config, single_se_wireguard_catalog());
    match selector.get_relay(0, &flat_distance).expect("custom endpoint is returned") {
        GetRelay::Custom(c) => assert_eq!(c.host, "example.local"),
        other => panic!("expected the custom endpoint, got {:?}", other),
    }
}

// --- Sampler properties (statistical) ---

#[test]
fn pick_random_is_uniform_with_zero_weights() {
    let relays = vec![wg_relay("a", 0), wg_relay("b", 0), wg_relay("c", 0)];
    let mut counts = [0u32; 3];
    let draws = 300_000;
    for _ in 0..draws {
        let picked = relay_selector::helpers::pick_random_relay(&relays).expect("non-empty");
        match picked.hostname.as_str() {
            "a" => counts[0] += 1,
            "b" => counts[1] += 1,
            _ => counts[2] += 1,
        }
    }
    for &c in &counts {
        let freq = c as f64 / draws as f64;
        assert!((freq - 1.0 / 3.0).abs() < 0.01, "frequency {} too far from uniform", freq);
    }
}

#[test]
fn pick_random_follows_weights() {
    let relays = vec![wg_relay("a", 1), wg_relay("b", 2), wg_relay("c", 7)];
    let expected = [0.1f64, 0.2, 0.7];
    let mut counts = [0u32; 3];
    let draws = 1_000_000;
    for _ in 0..draws {
        let picked = relay_selector::helpers::pick_random_relay(&relays).expect("non-empty");
        match picked.hostname.as_str() {
            "a" => counts[0] += 1,
            "b" => counts[1] += 1,
            _ => counts[2] += 1,
        }
    }
    for i in 0..3 {
        let freq = counts[i] as f64 / draws as f64;
        assert!((freq - expected[i]).abs() < 0.01, "frequency {} too far from {}", freq, expected[i]);
    }
}

#[test]
fn pick_random_of_empty_slice_is_none() {
    let relays: Vec<Relay> = Vec::new();
    assert!(relay_selector::helpers::pick_random_relay(&relays).is_none());
}

// --- Bridges and proximity ---

#[test]
fn bridge_over_tcp_is_selected_near_the_exit() {
    // Six bridge cities: one close to the exit, the rest spread out far away.
    // Only the five closest are kept and those farther than 1500 km dropped,
    // so the distant ones must never be picked and the close one must show up.
    let list = catalog(vec![
        country("se", vec![city("got", 57, vec![openvpn_relay("se-got-ovpn-001")])]),
        country(
            "xx",
            vec![
                city("b1", 70, vec![bridge_relay("bridge-far-1")]),
                city("b2", 71, vec![bridge_relay("bridge-far-2")]),
                city("b3", 72, vec![bridge_relay("bridge-far-3")]),
                city("b4", 73, vec![bridge_relay("bridge-far-4")]),
                city("b5", 89, vec![bridge_relay("bridge-very-far")]),
                city("b0", 57, vec![bridge_relay("bridge-near")]),
            ],
        ),
    ]);
    let mut config = default_config();
    let mut constraints = RelayConstraints::new();
    constraints.wireguard_constraints.use_multihop(false);
    constraints.tunnel_protocol = Constraint::Only(TunnelType::OpenVpn);
    constraints.location = Constraint::Only(LocationConstraint::Location(
        GeographicLocationConstraint::Country("se".to_string()),
    ));
    constraints.openvpn_constraints.port = Constraint::Only(TransportPort {
        protocol: TransportProtocol::Tcp,
        port: Constraint::Any,
    });
    config.relay_settings = RelaySettings::Normal(constraints);
    config.bridge_state = BridgeState::On;
    config.bridge_settings = BridgeSettings {
        bridge_type: BridgeType::Normal,
        normal: relay_selector::relay_constraints::BridgeConstraints::any(),
        custom: None,
    };
    let selector = selector_with(config, list);
    let mut saw_near = false;
    for _ in 0..200 {
        match selector.get_relay(0, &flat_distance).expect("an OpenVPN relay must be found") {
            GetRelay::OpenVpn { bridge, .. } => {
                let bridge = bridge.expect("a bridge must be selected");
                match bridge {
                    SelectedBridge::Normal { relay, settings } => {
                        assert_ne!(relay.hostname, "bridge-very-far");
                        if relay.hostname == "bridge-near" {
                            saw_near = true;
                        }
                        match settings {
                            relay_selector::net::CustomProxy::Shadowsocks(ss) => {
                                assert_eq!(ss.endpoint.port, 443);
                            }
                            other => panic!("expected shadowsocks, got {:?}", other),
                        }
                    }
                    SelectedBridge::Custom(_) => panic!("expected a normal bridge"),
                }
            }
            other => panic!("expected an OpenVPN relay, got {:?}", other),
        }
    }
    assert!(saw_near, "the closest bridge was never selected");
}

#[test]
fn bridge_reference_locations_are_unique_per_city() {
    // Two relays share a city; the reference set handed to the distance
    // oracle must name that city only once.
    let list = catalog(vec![
        country(
            "se",
            vec![city(
                "got",
                57,
                vec![openvpn_relay("se-got-ovpn-001"), openvpn_relay("se-got-ovpn-002")],
            )],
        ),
        country("xx", vec![city("b0", 57, vec![bridge_relay("bridge-0")])]),
    ]);
    let mut config = default_config();
    let mut constraints = RelayConstraints::new();
    constraints.wireguard_constraints.use_multihop(false);
    constraints.tunnel_protocol = Constraint::Only(TunnelType::OpenVpn);
    constraints.location = Constraint::Only(LocationConstraint::Location(
        GeographicLocationConstraint::Country("se".to_string()),
    ));
    config.relay_settings = RelaySettings::Normal(constraints);
    config.bridge_settings = BridgeSettings {
        bridge_type: BridgeType::Normal,
        normal: relay_selector::relay_constraints::BridgeConstraints::any(),
        custom: None,
    };
    let selector = selector_with(config, list);
    let saw_duplicate = Cell::new(false);
    let checking_distance = |reference: &Vec<relay_selector::relay_list::Location>,
                             to: &relay_selector::relay_list::Location|
     -> u64 {
        for i in 0..reference.len() {
            for j in 0..reference.len() {
                if i != j && reference[i].city == reference[j].city {
                    saw_duplicate.set(true);
                }
            }
        }
        flat_distance(reference, to)
    };
    let proxy = selector.get_bridge_forced(&checking_distance);
    assert!(proxy.is_some(), "a bridge must be found");
    assert!(!saw_duplicate.get(), "reference locations must be unique per city");
}

// --- Constraint resolution and matching ---

#[test]
fn custom_list_resolves_to_its_locations() {
    let lists = CustomListsSettings {
        custom_lists: vec![CustomList {
            id: "list-1".to_string(),
            name: "mine".to_string(),
            locations: vec![GeographicLocationConstraint::Country("se".to_string())],
        }],
    };
    let resolved = ResolvedLocationConstraint::from_constraint(
        Constraint::Only(LocationConstraint::CustomList { list_id: "list-1".to_string() }),
        &lists,
    );
    match resolved {
        Constraint::Only(ResolvedLocationConstraint::Locations(locs)) => assert_eq!(locs.len(), 1),
        other => panic!("expected resolved locations, got {:?}", other),
    }
}

#[test]
fn missing_custom_list_matches_nothing() {
    let lists = CustomListsSettings { custom_lists: Vec::new() };
    let resolved = ResolvedLocationConstraint::from_constraint(
        Constraint::Only(LocationConstraint::CustomList { list_id: "absent".to_string() }),
        &lists,
    );
    match &resolved {
        Constraint::Only(ResolvedLocationConstraint::Locations(locs)) => assert!(locs.is_empty()),
        other => panic!("expected resolved locations, got {:?}", other),
    }
    let mut relay = wg_relay("se-got-wg-001", 1);
    relay.location = Some(relay_selector::relay_list::Location {
        country: "se".to_string(),
        country_code: "se".to_string(),
        city: "got".to_string(),
        city_code: "got".to_string(),
        latitude: 57_000_000,
        longitude: 0,
    });
    assert!(!resolved.matches_with_opts(&relay, true));
}

#[test]
fn geographic_subset_relation() {
    let city = GeographicLocationConstraint::City("se".to_string(), "got".to_string());
    let same_country = GeographicLocationConstraint::Country("se".to_string());
    let other_country = GeographicLocationConstraint::Country("no".to_string());
    assert!(city.is_subset(&same_country));
    assert!(!city.is_subset(&other_country));
    assert!(!same_country.is_subset(&city));
}

#[test]
fn hidden_relays_yield_to_visible_ones() {
    let mut hidden = wg_relay("se-got-wg-hidden", 1);
    hidden.include_in_country = false;
    let visible = wg_relay("se-got-wg-visible", 1);
    let list = catalog(vec![country("se", vec![city("got", 57, vec![hidden, visible])])]);
    let mut config = default_config();
    let mut constraints = RelayConstraints::new();
    constraints.wireguard_constraints.use_multihop(false);
    constraints.location = Constraint::Only(LocationConstraint::Location(
        GeographicLocationConstraint::Country("se".to_string()),
    ));
    config.relay_settings = RelaySettings::Normal(constraints);
    let selector = selector_with(config, list);
    for _ in 0..40 {
        match selector.get_relay(0, &flat_distance).expect("a relay must be found") {
            GetRelay::Wireguard { exit, .. } => assert_eq!(exit.hostname, "se-got-wg-visible"),
            other => panic!("expected a WireGuard relay, got {:?}", other),
        }
    }
}

#[test]
fn hidden_relay_used_when_no_visible_matches() {
    let mut hidden = wg_relay("se-got-wg-hidden", 1);
    hidden.include_in_country = false;
    let list = catalog(vec![country("se", vec![city("got", 57, vec![hidden])])]);
    let mut config = default_config();
    let mut constraints = RelayConstraints::new();
    constraints.wireguard_constraints.use_multihop(false);
    constraints.location = Constraint::Only(LocationConstraint::Location(
        GeographicLocationConstraint::Country("se".to_string()),
    ));
    config.relay_settings = RelaySettings::Normal(constraints);
    let selector = selector_with(config, list);
    match selector.get_relay(0, &flat_distance).expect("the hidden relay must be used") {
        GetRelay::Wireguard { exit, .. } => assert_eq!(exit.hostname, "se-got-wg-hidden"),
        other => panic!("expected a WireGuard relay, got {:?}", other),
    }
}

// --- Providers, overrides, settings ---

#[test]
fn providers_deduplicate_and_reject_empty() {
    let providers = Providers::new(vec![
        "provider0".to_string(),
        "provider1".to_string(),
        "provider0".to_string(),
    ])
    .expect("non-empty providers");
    assert_eq!(providers.into_vec(), vec!["provider0".to_string(), "provider1".to_string()]);
    assert!(Providers::new(Vec::new()).is_err());
}

#[test]
fn providers_intersect_as_sets() {
    // Two constraints naming the same providers in different orders are
    // compatible; naming different providers is not.
    let a = builder::any()
        .providers(Providers::new(vec!["provider0".to_string(), "provider1".to_string()]).unwrap())
        .build();
    let b = builder::any()
        .providers(Providers::new(vec!["provider1".to_string(), "provider0".to_string()]).unwrap())
        .build();
    let merged = a.clone().intersection(b).expect("same providers merge");
    match merged.providers {
        Constraint::Only(p) => {
            let mut names = p.into_vec();
            names.sort();
            assert_eq!(names, vec!["provider0".to_string(), "provider1".to_string()]);
        }
        Constraint::Any => panic!("providers must stay constrained"),
    }
    let c = builder::any()
        .providers(Providers::new(vec!["provider2".to_string()]).unwrap())
        .build();
    assert!(a.intersection(c).is_none());
}

#[test]
fn provider_constraint_filters_relays() {
    let mut other = wg_relay("se-got-wg-002", 1);
    other.provider = "provider1".to_string();
    let list = catalog(vec![country("se", vec![city("got", 57, vec![wg_relay("se-got-wg-001", 1), other])])]);
    let mut config = default_config();
    let mut constraints = RelayConstraints::new();
    constraints.wireguard_constraints.use_multihop(false);
    constraints.providers = Constraint::Only(
        Providers::new(vec!["provider1".to_string()]).expect("non-empty"),
    );
    config.relay_settings = RelaySettings::Normal(constraints);
    let selector = selector_with(config, list);
    match selector.get_relay(0, &flat_distance).expect("a relay must be found") {
        GetRelay::Wireguard { exit, .. } => assert_eq!(exit.provider, "provider1"),
        other => panic!("expected a WireGuard relay, got {:?}", other),
    }
}

#[test]
fn relay_override_replaces_addresses() {
    // Applied directly, an override replaces the addresses of whatever relay
    // it is handed, regardless of hostnames.
    let mut relay = wg_relay("se-got-wg-001", 1);
    let ov = RelayOverride {
        hostname: "some-other-host".to_string(),
        ipv4_addr_in: Some(0x0102_0304),
        ipv6_addr_in: None,
    };
    assert!(!ov.is_empty());
    ov.apply_to_relay(&mut relay);
    assert_eq!(relay.ipv4_addr_in, 0x0102_0304);
    assert_eq!(relay.ipv6_addr_in, Some(1));
    let empty = RelayOverride::empty("nope".to_string());
    assert!(empty.is_empty());
    empty.apply_to_relay(&mut relay);
    assert_eq!(relay.ipv4_addr_in, 0x0102_0304);
}

#[test]
fn parsed_relays_key_overrides_by_hostname() {
    // Through the catalog, an override reaches exactly the relay its
    // hostname names.
    let list = catalog(vec![country(
        "se",
        vec![city("got", 57, vec![wg_relay("se-got-wg-001", 1), wg_relay("se-got-wg-002", 1)])],
    )]);
    let overrides = vec![RelayOverride {
        hostname: "se-got-wg-002".to_string(),
        ipv4_addr_in: Some(0x0909_0909),
        ipv6_addr_in: None,
    }];
    let parsed = ParsedRelays::from_relay_list(list, 0, &overrides);
    let relays = parsed.relays();
    assert_eq!(relays[0].hostname, "se-got-wg-001");
    assert_eq!(relays[0].ipv4_addr_in, 0x0a00_0001);
    assert_eq!(relays[1].hostname, "se-got-wg-002");
    assert_eq!(relays[1].ipv4_addr_in, 0x0909_0909);
}

#[test]
fn parsed_relays_fill_in_locations() {
    let parsed = ParsedRelays::from_relay_list(single_se_wireguard_catalog(), 7, &Vec::new());
    assert_eq!(parsed.last_updated(), 7);
    let relays = parsed.relays();
    assert_eq!(relays.len(), 1);
    let location = relays[0].location.as_ref().expect("location filled in");
    assert_eq!(location.country_code, "se");
    assert_eq!(location.city_code, "got");
    assert_eq!(location.latitude, 57_000_000);
}

#[test]
fn selector_set_relays_and_config() {
    let mut selector = selector_with(default_config(), single_se_wireguard_catalog());
    assert_eq!(selector.get_relays().countries.len(), 1);
    assert_eq!(selector.last_updated(), 0);
    assert!(selector.etag().is_none());
    let new_list = catalog(vec![
        country("se", vec![city("got", 57, vec![wg_relay("se-got-wg-001", 1)])]),
        country("no", vec![city("osl", 59, vec![wg_relay("no-osl-wg-001", 1)])]),
    ]);
    selector.set_relays(new_list, 9);
    assert_eq!(selector.get_relays().countries.len(), 2);
    assert_eq!(selector.last_updated(), 9);
    let mut config = default_config();
    config.relay_overrides = vec![RelayOverride {
        hostname: "no-osl-wg-001".to_string(),
        ipv4_addr_in: Some(0x0909_0909),
        ipv6_addr_in: None,
    }];
    selector.set_config(config);
    let overridden = selector
        .parsed_relays
        .relays()
        .iter()
        .find(|r| r.hostname == "no-osl-wg-001")
        .expect("relay present")
        .clone();
    assert_eq!(overridden.ipv4_addr_in, 0x0909_0909);
}

#[test]
fn bridge_settings_resolution() {
    let mut settings = BridgeSettings {
        bridge_type: BridgeType::Custom,
        normal: relay_selector::relay_constraints::BridgeConstraints::any(),
        custom: None,
    };
    assert!(settings.resolve().is_err());
    settings.bridge_type = BridgeType::Normal;
    assert!(settings.resolve().is_ok());
}

#[test]
fn supports_bridge_rejects_pinned_udp() {
    let mut constraints = RelayConstraints::new();
    constraints.wireguard_constraints.use_multihop(false);
    constraints.openvpn_constraints.port = Constraint::Only(TransportPort {
        protocol: TransportProtocol::Udp,
        port: Constraint::Any,
    });
    let settings = RelaySettings::Normal(constraints);
    assert!(!settings.supports_bridge());
    let mut constraints = RelayConstraints::new();
    constraints.wireguard_constraints.use_multihop(false);
    constraints.openvpn_constraints.port = Constraint::Only(TransportPort {
        protocol: TransportProtocol::Tcp,
        port: Constraint::Only(443),
    });
    assert!(RelaySettings::Normal(constraints).supports_bridge());
}

#[test]
fn wireguard_port_respects_catalog_ranges() {
    // A pinned port outside every range must fail; a pinned port inside a
    // range must be used.
    let mut config = default_config();
    let mut constraints = RelayConstraints::new();
    constraints.wireguard_constraints.use_multihop(false);
    constraints.tunnel_protocol = Constraint::Only(TunnelType::Wireguard);
    constraints.wireguard_constraints.port = Constraint::Only(1234);
    config.relay_settings = RelaySettings::Normal(constraints);
    let selector = selector_with(config, single_se_wireguard_catalog());
    assert!(matches!(selector.get_relay(0, &flat_distance), Err(Error::NoRelay)));

    let mut config = default_config();
    let mut constraints = RelayConstraints::new();
    constraints.wireguard_constraints.use_multihop(false);
    constraints.tunnel_protocol = Constraint::Only(TunnelType::Wireguard);
    constraints.wireguard_constraints.port = Constraint::Only(53);
    config.relay_settings = RelaySettings::Normal(constraints);
    let selector = selector_with(config, single_se_wireguard_catalog());
    match selector.get_relay(0, &flat_distance).expect("a relay must be found") {
        GetRelay::Wireguard { endpoint: MullvadEndpoint::Wireguard(wg), .. } => {
            assert_eq!(wg.peer.endpoint.port, 53);
        }
        other => panic!("expected a WireGuard endpoint, got {:?}", other),
    }
}

#[test]
fn drawn_wireguard_port_lies_in_the_ranges() {
    let selector = selector_with(default_config(), single_se_wireguard_catalog());
    for _ in 0..100 {
        match selector.get_relay(0, &flat_distance).expect("a relay must be found") {
            GetRelay::Wireguard { endpoint: MullvadEndpoint::Wireguard(wg), .. } => {
                let p = wg.peer.endpoint.port;
                assert!(
                    p == 53 || p == 443 || (4000..=33433).contains(&p),
                    "port {} outside the catalog ranges",
                    p
                );
            }
            other => panic!("expected a WireGuard endpoint, got {:?}", other),
        }
    }
}

#[test]
fn custom_bridge_settings_are_returned_as_is() {
    let list = catalog(vec![country(
        "se",
        vec![city("got", 57, vec![openvpn_relay("se-got-ovpn-001")])],
    )]);
    let mut config = default_config();
    let mut constraints = RelayConstraints::new();
    constraints.wireguard_constraints.use_multihop(false);
    constraints.tunnel_protocol = Constraint::Only(TunnelType::OpenVpn);
    constraints.openvpn_constraints.port = Constraint::Only(TransportPort {
        protocol: TransportProtocol::Tcp,
        port: Constraint::Any,
    });
    config.relay_settings = RelaySettings::Normal(constraints);
    config.bridge_state = BridgeState::On;
    config.bridge_settings = BridgeSettings {
        bridge_type: BridgeType::Custom,
        normal: relay_selector::relay_constraints::BridgeConstraints::any(),
        custom: Some(relay_selector::net::CustomProxy::Socks5Remote(
            relay_selector::net::Socks5Remote {
                endpoint: relay_selector::net::SocketAddress {
                    ip: IpAddress::V4(0x7f00_0001),
                    port: 1080,
                },
                auth: None,
            },
        )),
    };
    let selector = selector_with(config, list);
    match selector.get_relay(0, &flat_distance).expect("a relay must be found") {
        GetRelay::OpenVpn { bridge, .. } => match bridge.expect("a custom bridge") {
            SelectedBridge::Custom(relay_selector::net::CustomProxy::Socks5Remote(s)) => {
                assert_eq!(s.endpoint.port, 1080);
            }
            other => panic!("expected the custom proxy, got {:?}", other),
        },
        other => panic!("expected an OpenVPN relay, got {:?}", other),
    }
}

#[test]
fn inactive_relays_are_never_selected() {
    let mut inactive = wg_relay("se-got-wg-001", 1);
    inactive.active = false;
    let list = catalog(vec![country("se", vec![city("got", 57, vec![inactive])])]);
    let selector = selector_with(default_config(), list);
    assert!(matches!(selector.get_relay(0, &flat_distance), Err(Error::NoRelay)));
}

#[test]
fn ownership_parses_from_its_names() {
    assert_eq!(Ownership::from_str("owned"), Ok(Ownership::MullvadOwned));
    assert_eq!(Ownership::from_str("mullvad-owned"), Ok(Ownership::MullvadOwned));
    assert_eq!(Ownership::from_str("rented"), Ok(Ownership::Rented));
    assert!(Ownership::from_str("leased").is_err());
    assert!(Ownership::from_str("").is_err());
}

#[test]
fn ownership_constraint_filters_relays() {
    let mut rented = wg_relay("se-got-wg-002", 1);
    rented.owned = false;
    let list = catalog(vec![country(
        "se",
        vec![city("got", 57, vec![wg_relay("se-got-wg-001", 1), rented])],
    )]);
    let mut config = default_config();
    let mut constraints = RelayConstraints::new();
    constraints.wireguard_constraints.use_multihop(false);
    constraints.ownership = Constraint::Only(Ownership::Rented);
    config.relay_settings = RelaySettings::Normal(constraints);
    let selector = selector_with(config, list);
    match selector.get_relay(0, &flat_distance).expect("a relay must be found") {
        GetRelay::Wireguard { exit, .. } => assert_eq!(exit.hostname, "se-got-wg-002"),
        other => panic!("expected a WireGuard relay, got {:?}", other),
    }
}

#[test]
fn constraint_map_applies_to_the_value() {
    let c: Constraint<u16> = Constraint::Only(80);
    match c.map(|p| p + 1) {
        Constraint::Only(p) => assert_eq!(p, 81),
        Constraint::Any => panic!("mapping keeps the constraint"),
    }
    let a: Constraint<u16> = Constraint::Any;
    assert!(a.map(|p| p + 1).is_any());
}

#[test]
fn builder_typestate_assembles_bridge_rows() {
    let row = builder::openvpn::new()
        .transport_protocol(TransportProtocol::Tcp)
        .bridge()
        .build();
    assert_eq!(row.tunnel_protocol, Constraint::Only(TunnelType::OpenVpn));
    match &row.openvpn_constraints.bridge_settings {
        Constraint::Only(BridgeSettingsFilter::Normal(_)) => {}
        other => panic!("expected normal bridge settings, got {:?}", other),
    }
}
