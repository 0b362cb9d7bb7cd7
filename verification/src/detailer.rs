//! Detailers: given a chosen relay and the tunnel-specific constraints,
//! produce the concrete endpoint (address, port, protocol, keys) to connect
//! to.

use vstd::prelude::*;

use crate::constraint::Constraint;
use crate::net::IpAddress;
use crate::net::IpVersion;
use crate::net::SocketAddress;
use crate::net::TransportProtocol;
use crate::relay_constraints::OpenVpnConstraintsFilter;
use crate::relay_constraints::TransportPort;
use crate::relay_constraints::WireguardConstraintsFilter;
use crate::relay_list::OpenVpnEndpointData;
use crate::relay_list::Relay;
use crate::relay_list::RelayEndpointData;
use crate::relay_list::WireguardEndpointData;

verus! {

/// One peer of a WireGuard tunnel: its public key and the socket address it
/// is reached at. Every address is routed through the tunnel.
#[derive(Debug)]
pub struct PeerConfig {
    /// The peer's public key, in its textual (base64) form.
    pub public_key: String,
    pub endpoint: SocketAddress,
}

impl Clone for PeerConfig {
    fn clone(&self) -> (r: Self)
        ensures
            r == *self,
    {
        PeerConfig { public_key: self.public_key.clone(), endpoint: self.endpoint }
    }
}

/// A concrete WireGuard endpoint: the peer to connect to, the exit peer when
/// multihop is used, and the gateways inside the tunnel.
#[derive(Debug)]
pub struct MullvadWireguardEndpoint {
    pub peer: PeerConfig,
    pub exit_peer: Option<PeerConfig>,
    /// The 32-bit value of the IPv4 gateway address.
    pub ipv4_gateway: u32,
    /// The 128-bit value of the IPv6 gateway address.
    pub ipv6_gateway: u128,
}

impl Clone for MullvadWireguardEndpoint {
    fn clone(&self) -> (r: Self)
        ensures
            r == *self,
    {
        MullvadWireguardEndpoint {
            peer: self.peer.clone(),
            exit_peer: match &self.exit_peer {
                Option::None => Option::None,
                Option::Some(p) => Option::Some(p.clone()),
            },
            ipv4_gateway: self.ipv4_gateway,
            ipv6_gateway: self.ipv6_gateway,
        }
    }
}

/// A concrete OpenVPN endpoint.
#[derive(Clone, Copy, Debug, PartialEq, Eq, Structural)]
pub struct Endpoint {
    pub address: SocketAddress,
    pub protocol: TransportProtocol,
}

/// The endpoint that selection produced, per tunnel kind.
#[derive(Debug)]
pub enum MullvadEndpoint {
    OpenVpn(Endpoint),
    Wireguard(MullvadWireguardEndpoint),
}

impl Clone for MullvadEndpoint {
    fn clone(&self) -> (r: Self)
        ensures
            r == *self,
    {
        match self {
            MullvadEndpoint::OpenVpn(e) => MullvadEndpoint::OpenVpn(*e),
            MullvadEndpoint::Wireguard(e) => MullvadEndpoint::Wireguard(e.clone()),
        }
    }
}

/// Whether the port lies in one of the inclusive ranges.
pub open spec fn port_in_ranges(p: u16, ranges: Seq<(u16, u16)>) -> bool {
    exists|i: int| 0 <= i < ranges.len() && (#[trigger] ranges[i]).0 <= p <= ranges[i].1
}

/// How many ports the first `n` ranges offer; an inverted range offers none.
pub open spec fn total_ports(ranges: Seq<(u16, u16)>, n: int) -> int
    decreases n,
{
    if n <= 0 {
        0
    } else {
        total_ports(ranges, n - 1) + range_size(ranges[n - 1])
    }
}

/// How many ports one inclusive range offers; an inverted range offers none.
pub open spec fn range_size(r: (u16, u16)) -> int {
    if r.0 <= r.1 {
        r.1 - r.0 + 1
    } else {
        0
    }
}

/// A positive total means some port lies in some range, and the other way
/// around.
proof fn lemma_total_ports_positive(ranges: Seq<(u16, u16)>, n: int)
    requires
        0 <= n <= ranges.len(),
    ensures
        total_ports(ranges, n) > 0 <==> exists|i: int| 0 <= i < n && ranges[i].0 <= ranges[i].1,
        total_ports(ranges, n) >= 0,
    decreases n,
{
    if n > 0 {
        lemma_total_ports_positive(ranges, n - 1);
    }
}

/// Picks a port for a WireGuard endpoint: a pinned port is accepted exactly
/// when some range covers it; otherwise a uniform index over all offered
/// ports is drawn and mapped back into the ranges in order. Fails exactly
/// when no port satisfies the constraint.
#[verifier::loop_isolation(false)]
pub fn pick_wireguard_port(port: Constraint<u16>, ranges: &Vec<(u16, u16)>) -> (r: Option<u16>)
    ensures
        match r {
            Option::Some(p) => port_in_ranges(p, ranges@) && match port {
                Constraint::Any => true,
                Constraint::Only(q) => p == q,
            },
            Option::None => match port {
                Constraint::Any => total_ports(ranges@, ranges@.len() as int) == 0,
                Constraint::Only(q) => !port_in_ranges(q, ranges@),
            },
        },
{
    match port {
        Constraint::Only(q) => {
            let mut i: usize = 0;
            while i < ranges.len()
                invariant
                    i <= ranges.len(),
                    forall|m: int| 0 <= m < i ==> !((#[trigger] ranges@[m]).0 <= q <= ranges@[m].1),
                decreases ranges.len() - i,
            {
                let (lo, hi) = ranges[i];
                if lo <= q && q <= hi {
                    return Option::Some(q);
                }
                i = i + 1;
            }
            Option::None
        },
        Constraint::Any => {
            let mut total: u128 = 0;
            let mut i: usize = 0;
            while i < ranges.len()
                invariant
                    i <= ranges.len(),
                    total == total_ports(ranges@, i as int),
                    total <= (i as int) * 65536,
                decreases ranges.len() - i,
            {
                let (lo, hi) = ranges[i];
                proof {
                    assert((i as int) * 65536 + 65536 == (i + 1 as int) * 65536) by (
                    nonlinear_arith);
                    assert((i + 1 as int) * 65536 < u128::MAX) by (nonlinear_arith)
                        requires 0 <= i < usize::MAX;
                }
                if lo <= hi {
                    total = total + (hi - lo) as u128 + 1;
                }
                i = i + 1;
            }
            if total == 0 {
                proof {
                    lemma_total_ports_positive(ranges@, ranges@.len() as int);
                }
                return Option::None;
            }
            // Draw an index over all offered ports and map it back into the
            // ranges in order.
            let mut idx: u128 = crate::helpers::gen_u128_range(0, total - 1);
            let mut j: usize = 0;
            while j < ranges.len()
                invariant
                    j <= ranges.len(),
                    idx < total - total_ports(ranges@, j as int),
                    total == total_ports(ranges@, ranges@.len() as int),
                decreases ranges.len() - j,
            {
                let (lo, hi) = ranges[j];
                if lo <= hi {
                    let size = (hi - lo) as u128 + 1;
                    if idx < size {
                        proof {
                            assert(ranges@[j as int].0 <= lo + idx as u16 <= ranges@[j as int].1);
                        }
                        return Option::Some(lo + (idx as u16));
                    }
                    idx = idx - size;
                }
                proof {
                    lemma_total_ports_suffix_bound(ranges@, j + 1 as int);
                }
                j = j + 1;
            }
            // The drawn index lies below the total, so the walk above always
            // lands inside some range.
            proof {
                assert(false);
            }
            Option::None
        },
    }
}

/// The ports offered by a prefix never exceed the whole total.
proof fn lemma_total_ports_suffix_bound(ranges: Seq<(u16, u16)>, n: int)
    requires
        0 <= n <= ranges.len(),
    ensures
        total_ports(ranges, n) <= total_ports(ranges, ranges.len() as int),
    decreases ranges.len() - n,
{
    if n < ranges.len() {
        lemma_total_ports_suffix_bound(ranges, n + 1);
    }
}

/// The IP address of the relay that the tunnel connects to, by the queried IP
/// version: the IPv4 address unless IPv6 is demanded, in which case the relay
/// must have one.
pub open spec fn peer_ip_spec(relay: Relay, ip_version: Constraint<IpVersion>) -> Option<IpAddress> {
    match ip_version {
        Constraint::Any => Option::Some(IpAddress::V4(relay.ipv4_addr_in)),
        Constraint::Only(IpVersion::V4) => Option::Some(IpAddress::V4(relay.ipv4_addr_in)),
        Constraint::Only(IpVersion::V6) => match relay.ipv6_addr_in {
            Option::Some(a) => Option::Some(IpAddress::V6(a)),
            Option::None => Option::None,
        },
    }
}

/// Returns the relay address the tunnel connects to, per the IP version
/// constraint.
fn pick_peer_ip(relay: &Relay, ip_version: Constraint<IpVersion>) -> (r: Option<IpAddress>)
    ensures
        r == peer_ip_spec(*relay, ip_version),
{
    match ip_version {
        Constraint::Any => Option::Some(IpAddress::V4(relay.ipv4_addr_in)),
        Constraint::Only(IpVersion::V4) => Option::Some(IpAddress::V4(relay.ipv4_addr_in)),
        Constraint::Only(IpVersion::V6) => match relay.ipv6_addr_in {
            Option::Some(a) => Option::Some(IpAddress::V6(a)),
            Option::None => Option::None,
        },
    }
}

/// The relay's WireGuard public key, if it is a WireGuard relay.
pub open spec fn wireguard_key_spec(relay: Relay) -> Option<String> {
    match relay.endpoint_data {
        RelayEndpointData::Wireguard(d) => Option::Some(d.public_key),
        _ => Option::None,
    }
}

/// Produces a WireGuard endpoint from the chosen relays and the catalog's
/// WireGuard block.
pub struct WireguardDetailer {
    pub wg_constraints: WireguardConstraintsFilter,
    pub exit: Relay,
    pub entry: Option<Relay>,
    pub data: WireguardEndpointData,
}

/// Whether the detailer must succeed: the peer relay (the entry when one is
/// set, the exit otherwise) carries a WireGuard key, in multihop the exit
/// does too, the demanded IP version is available on the peer, and the port
/// constraint is satisfiable against the catalog's ranges.
pub open spec fn wireguard_detail_feasible(
    port: Constraint<u16>,
    ip_version: Constraint<IpVersion>,
    exit: Relay,
    entry: Option<Relay>,
    port_ranges: Seq<(u16, u16)>,
) -> bool {
    let peer_relay = match entry {
        Option::Some(e) => e,
        Option::None => exit,
    };
    &&& wireguard_key_spec(peer_relay) is Some
    &&& (entry is Some ==> wireguard_key_spec(exit) is Some)
    &&& peer_ip_spec(peer_relay, ip_version) is Some
    &&& match port {
        Constraint::Any => total_ports(port_ranges, port_ranges.len() as int) > 0,
        Constraint::Only(q) => port_in_ranges(q, port_ranges),
    }
}

/// What the produced WireGuard endpoint looks like: the peer's key and
/// address per the constraints, the port drawn from the ranges or pinned, the
/// exit relay as exit peer over IPv4 in multihop, the gateways from the
/// catalog.
pub open spec fn wireguard_endpoint_ok(
    port: Constraint<u16>,
    ip_version: Constraint<IpVersion>,
    exit: Relay,
    entry: Option<Relay>,
    port_ranges: Seq<(u16, u16)>,
    ipv4_gateway: u32,
    ipv6_gateway: u128,
    w: MullvadWireguardEndpoint,
) -> bool {
    let peer_relay = match entry {
        Option::Some(e) => e,
        Option::None => exit,
    };
    &&& Option::Some(w.peer.public_key) == wireguard_key_spec(peer_relay)
    &&& Option::Some(w.peer.endpoint.ip) == peer_ip_spec(peer_relay, ip_version)
    &&& match port {
        Constraint::Any => port_in_ranges(w.peer.endpoint.port, port_ranges),
        Constraint::Only(q) => w.peer.endpoint.port == q,
    }
    &&& match entry {
        Option::Some(_) => w.exit_peer matches Option::Some(x) && Option::Some(x.public_key)
            == wireguard_key_spec(exit) && x.endpoint.ip == IpAddress::V4(exit.ipv4_addr_in)
            && match port {
            Constraint::Any => port_in_ranges(x.endpoint.port, port_ranges),
            Constraint::Only(q) => x.endpoint.port == q,
        },
        Option::None => w.exit_peer is None,
    }
    &&& w.ipv4_gateway == ipv4_gateway
    &&& w.ipv6_gateway == ipv6_gateway
}

impl WireguardDetailer {
    /// Builds a detailer for a single-hop endpoint.
    pub fn new(
        wg_constraints: WireguardConstraintsFilter,
        exit: Relay,
        data: WireguardEndpointData,
    ) -> (r: Self)
        ensures
            r.wg_constraints == wg_constraints,
            r.exit == exit,
            r.entry is None,
            r.data == data,
    {
        WireguardDetailer { wg_constraints, exit, entry: Option::None, data }
    }

    /// Sets the entry relay: the endpoint then connects to the entry, and the
    /// exit becomes the tunnel's exit peer.
    pub fn set_entry(self, entry: Relay) -> (r: Self)
        ensures
            r.wg_constraints == self.wg_constraints,
            r.exit == self.exit,
            r.entry == Option::Some(entry),
            r.data == self.data,
    {
        WireguardDetailer { entry: Option::Some(entry), ..self }
    }

    /// Produces the endpoint: the peer's key and address per the constraints,
    /// a port drawn from the catalog's ranges or pinned by the query, the
    /// exit relay as exit peer in multihop (reached over its IPv4 address),
    /// and the gateways from the catalog. Fails exactly when the relays,
    /// the IP version or the port constraint cannot be satisfied.
    pub fn to_endpoint(&self) -> (r: Option<MullvadEndpoint>)
        ensures
            r is Some <==> wireguard_detail_feasible(
                self.wg_constraints.port,
                self.wg_constraints.ip_version,
                self.exit,
                self.entry,
                self.data.port_ranges@,
            ),
            match r {
                Option::Some(e) => e matches MullvadEndpoint::Wireguard(w)
                    && wireguard_endpoint_ok(
                    self.wg_constraints.port,
                    self.wg_constraints.ip_version,
                    self.exit,
                    self.entry,
                    self.data.port_ranges@,
                    self.data.ipv4_gateway,
                    self.data.ipv6_gateway,
                    w,
                ),
                Option::None => true,
            },
    {
        let peer_relay = match &self.entry {
            Option::Some(e) => e,
            Option::None => &self.exit,
        };
        let public_key = match &peer_relay.endpoint_data {
            RelayEndpointData::Wireguard(d) => d.public_key.clone(),
            _ => {
                return Option::None;
            },
        };
        let ip = match pick_peer_ip(peer_relay, self.wg_constraints.ip_version) {
            Option::Some(ip) => ip,
            Option::None => {
                return Option::None;
            },
        };
        let port = match pick_wireguard_port(self.wg_constraints.port, &self.data.port_ranges) {
            Option::Some(p) => p,
            Option::None => {
                return Option::None;
            },
        };
        proof {
            lemma_total_ports_positive(self.data.port_ranges@, self.data.port_ranges@.len() as int);
        }
        let exit_peer = match &self.entry {
            Option::Some(_) => {
                let exit_key = match &self.exit.endpoint_data {
                    RelayEndpointData::Wireguard(d) => d.public_key.clone(),
                    _ => {
                        return Option::None;
                    },
                };
                let exit_port = match pick_wireguard_port(
                    self.wg_constraints.port,
                    &self.data.port_ranges,
                ) {
                    Option::Some(p) => p,
                    Option::None => {
                        return Option::None;
                    },
                };
                Option::Some(
                    PeerConfig {
                        public_key: exit_key,
                        endpoint: SocketAddress {
                            ip: IpAddress::V4(self.exit.ipv4_addr_in),
                            port: exit_port,
                        },
                    },
                )
            },
            Option::None => Option::None,
        };
        Option::Some(
            MullvadEndpoint::Wireguard(
                MullvadWireguardEndpoint {
                    peer: PeerConfig { public_key, endpoint: SocketAddress { ip, port } },
                    exit_peer,
                    ipv4_gateway: self.data.ipv4_gateway,
                    ipv6_gateway: self.data.ipv6_gateway,
                },
            ),
        )
    }
}

/// Whether the catalog entry satisfies the queried transport/port constraint.
pub open spec fn openvpn_endpoint_admitted(
    e: crate::relay_list::OpenVpnEndpoint,
    port: Constraint<TransportPort>,
) -> bool {
    match port {
        Constraint::Any => true,
        Constraint::Only(tp) => e.protocol == tp.protocol && match tp.port {
            Constraint::Any => true,
            Constraint::Only(p) => e.port == p,
        },
    }
}

/// Whether the detailer must succeed: some offered pair satisfies the query.
pub open spec fn openvpn_detail_feasible(
    port: Constraint<TransportPort>,
    ports: Seq<crate::relay_list::OpenVpnEndpoint>,
) -> bool {
    exists|i: int| 0 <= i < ports.len() && openvpn_endpoint_admitted(#[trigger] ports[i], port)
}

/// What the produced OpenVPN endpoint looks like: an offered pair that
/// satisfies the query, against the relay's IPv4 address.
pub open spec fn openvpn_endpoint_ok(
    port: Constraint<TransportPort>,
    ports: Seq<crate::relay_list::OpenVpnEndpoint>,
    relay: Relay,
    o: Endpoint,
) -> bool {
    &&& o.address.ip == IpAddress::V4(relay.ipv4_addr_in)
    &&& exists|i: int|
        0 <= i < ports.len() && openvpn_endpoint_admitted(#[trigger] ports[i], port)
            && o.address.port == ports[i].port && o.protocol == ports[i].protocol
}

/// Produces an OpenVPN endpoint from the chosen relay and the catalog's
/// OpenVPN block.
pub struct OpenVpnDetailer {
    pub constraints: OpenVpnConstraintsFilter,
    pub relay: Relay,
    pub data: OpenVpnEndpointData,
}

impl OpenVpnDetailer {
    /// Builds a detailer from the OpenVPN part of a query, the chosen relay,
    /// and the catalog's OpenVPN block.
    pub fn new(constraints: OpenVpnConstraintsFilter, relay: Relay, data: OpenVpnEndpointData)
        -> (r: Self)
        ensures
            r.constraints == constraints,
            r.relay == relay,
            r.data == data,
    {
        OpenVpnDetailer { constraints, relay, data }
    }

    /// Produces the endpoint: a uniform pick among the catalog's port/protocol
    /// pairs that satisfy the query, against the relay's IPv4 address. Fails
    /// exactly when no pair satisfies the query.
    #[verifier::loop_isolation(false)]
    pub fn to_endpoint(&self) -> (r: Option<MullvadEndpoint>)
        ensures
            r is Some <==> openvpn_detail_feasible(self.constraints.port, self.data.ports@),
            match r {
                Option::Some(e) => e matches MullvadEndpoint::OpenVpn(o) && openvpn_endpoint_ok(
                    self.constraints.port,
                    self.data.ports@,
                    self.relay,
                    o,
                ),
                Option::None => true,
            },
    {
        let mut candidates: Vec<crate::relay_list::OpenVpnEndpoint> = Vec::new();
        let mut i: usize = 0;
        while i < self.data.ports.len()
            invariant
                i <= self.data.ports.len(),
                forall|k: int|
                    0 <= k < candidates@.len() ==> exists|m: int|
                        0 <= m < i && openvpn_endpoint_admitted(
                            #[trigger] self.data.ports@[m],
                            self.constraints.port,
                        ) && (#[trigger] candidates@[k]) == self.data.ports@[m],
                candidates@.len() > 0 <==> exists|m: int|
                    0 <= m < i && openvpn_endpoint_admitted(
                        #[trigger] self.data.ports@[m],
                        self.constraints.port,
                    ),
            decreases self.data.ports.len() - i,
        {
            let e = self.data.ports[i];
            let admitted = match self.constraints.port {
                Constraint::Any => true,
                Constraint::Only(tp) => e.protocol == tp.protocol && match tp.port {
                    Constraint::Any => true,
                    Constraint::Only(p) => e.port == p,
                },
            };
            if admitted {
                candidates.push(e);
                proof {
                    assert(openvpn_endpoint_admitted(self.data.ports@[i as int], self.constraints.port));
                    assert(candidates@[candidates@.len() - 1] == self.data.ports@[i as int]);
                }
            }
            i = i + 1;
        }
        if candidates.len() == 0 {
            return Option::None;
        }
        let pick = candidates[crate::helpers::gen_index(candidates.len())];
        Option::Some(
            MullvadEndpoint::OpenVpn(
                Endpoint {
                    address: SocketAddress {
                        ip: IpAddress::V4(self.relay.ipv4_addr_in),
                        port: pick.port,
                    },
                    protocol: pick.protocol,
                },
            ),
        )
    }
}

} // verus!
