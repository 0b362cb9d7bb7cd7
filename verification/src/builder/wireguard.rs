//! The WireGuard side of the constraint builder: multihop and obfuscation
//! options open up as they are selected.

use vstd::prelude::*;

use crate::builder::Any;
use crate::builder::RelayConstraintBuilder;
use crate::constraint::Constraint;
use crate::location::LocationConstraint;
use crate::net::IpVersion;
use crate::relay_constraints::RelayConstraintsFilterView;
use crate::relay_constraints::Udp2TcpObfuscationSettings;
use crate::relay_constraints::WireguardConstraintsFilterView;
use crate::net::TunnelType;

verus! {

/// The builder state for WireGuard constraints. The `Multihop` parameter
/// tracks whether multihop was enabled (opening the entry option), the
/// `Obfuscation` parameter whether udp2tcp was selected (opening its port
/// option).
pub struct Wireguard<Multihop, Obfuscation> {
    pub multihop: Multihop,
    pub obfuscation: Obfuscation,
}

/// Returns a builder pinned to WireGuard, with nothing else constrained.
pub fn new() -> (r: RelayConstraintBuilder<Wireguard<Any, Any>>)
    ensures
        r.constraints@ == (RelayConstraintsFilterView {
            tunnel_protocol: Constraint::Only(TunnelType::Wireguard),
            ..crate::relay_constraints::RelayConstraintsFilter::any_view()
        }),
{
    let mut constraints = crate::relay_constraints::RelayConstraintsFilter::new();
    constraints.tunnel_protocol = Constraint::Only(TunnelType::Wireguard);
    RelayConstraintBuilder {
        constraints,
        protocol: Wireguard { multihop: Any, obfuscation: Any },
    }
}

impl<Multihop, Obfuscation> RelayConstraintBuilder<Wireguard<Multihop, Obfuscation>> {
    /// Pins the WireGuard port.
    pub fn port(self, port: u16) -> (r: Self)
        ensures
            r.constraints@ == (RelayConstraintsFilterView {
                wireguard_constraints: WireguardConstraintsFilterView {
                    port: Constraint::Only(port),
                    ..self.constraints@.wireguard_constraints
                },
                ..self.constraints@
            }),
            r.protocol == self.protocol,
    {
        let mut constraints = self.constraints;
        constraints.wireguard_constraints.port = Constraint::Only(port);
        RelayConstraintBuilder { constraints, protocol: self.protocol }
    }

    /// Pins the IP version.
    pub fn ip_version(self, ip_version: IpVersion) -> (r: Self)
        ensures
            r.constraints@ == (RelayConstraintsFilterView {
                wireguard_constraints: WireguardConstraintsFilterView {
                    ip_version: Constraint::Only(ip_version),
                    ..self.constraints@.wireguard_constraints
                },
                ..self.constraints@
            }),
            r.protocol == self.protocol,
    {
        let mut constraints = self.constraints;
        constraints.wireguard_constraints.ip_version = Constraint::Only(ip_version);
        RelayConstraintBuilder { constraints, protocol: self.protocol }
    }

    /// Hands out the WireGuard part of the assembled constraints.
    pub fn into_constraints(self) -> (r: crate::relay_constraints::WireguardConstraintsFilter)
        ensures
            r@ == self.constraints@.wireguard_constraints,
    {
        self.build().wireguard_constraints
    }
}

impl<Obfuscation> RelayConstraintBuilder<Wireguard<Any, Obfuscation>> {
    /// Enables multihop; the entry location can then be set.
    pub fn multihop(self) -> (r: RelayConstraintBuilder<Wireguard<bool, Obfuscation>>)
        ensures
            r.constraints@ == (RelayConstraintsFilterView {
                wireguard_constraints: WireguardConstraintsFilterView {
                    use_multihop: Constraint::Only(true),
                    ..self.constraints@.wireguard_constraints
                },
                ..self.constraints@
            }),
            r.protocol.obfuscation == self.protocol.obfuscation,
    {
        let mut constraints = self.constraints;
        constraints.wireguard_constraints.use_multihop = Constraint::Only(true);
        RelayConstraintBuilder {
            constraints,
            protocol: Wireguard { multihop: true, obfuscation: self.protocol.obfuscation },
        }
    }
}

impl<Obfuscation> RelayConstraintBuilder<Wireguard<bool, Obfuscation>> {
    /// Pins the entry location of the multihop configuration; only available
    /// once multihop is enabled.
    pub fn entry(self, location: LocationConstraint) -> (r: Self)
        ensures
            r.constraints@ == (RelayConstraintsFilterView {
                wireguard_constraints: WireguardConstraintsFilterView {
                    entry_location: Constraint::Only(location@),
                    ..self.constraints@.wireguard_constraints
                },
                ..self.constraints@
            }),
            r.protocol == self.protocol,
    {
        let mut constraints = self.constraints;
        constraints.wireguard_constraints.entry_location = Constraint::Only(location);
        RelayConstraintBuilder { constraints, protocol: self.protocol }
    }
}

impl<Multihop> RelayConstraintBuilder<Wireguard<Multihop, Any>> {
    /// Selects udp2tcp obfuscation, with no port pinned yet; the port option
    /// then opens up.
    pub fn udp2tcp(self) -> (r: RelayConstraintBuilder<
        Wireguard<Multihop, Udp2TcpObfuscationSettings>,
    >)
        ensures
            r.constraints@ == (RelayConstraintsFilterView {
                wireguard_constraints: WireguardConstraintsFilterView {
                    udp2tcp_port: Constraint::Only(
                        Udp2TcpObfuscationSettings { port: Constraint::Any },
                    ),
                    ..self.constraints@.wireguard_constraints
                },
                ..self.constraints@
            }),
            r.protocol.multihop == self.protocol.multihop,
            r.protocol.obfuscation == (Udp2TcpObfuscationSettings { port: Constraint::Any }),
    {
        let obfuscation = Udp2TcpObfuscationSettings { port: Constraint::Any };
        let mut constraints = self.constraints;
        constraints.wireguard_constraints.udp2tcp_port = Constraint::Only(obfuscation);
        RelayConstraintBuilder {
            constraints,
            protocol: Wireguard { multihop: self.protocol.multihop, obfuscation },
        }
    }
}

impl<Multihop> RelayConstraintBuilder<Wireguard<Multihop, Udp2TcpObfuscationSettings>> {
    /// Pins the udp2tcp port; only available once udp2tcp is selected.
    pub fn udp2tcp_port(self, port: u16) -> (r: Self)
        ensures
            r.constraints@ == (RelayConstraintsFilterView {
                wireguard_constraints: WireguardConstraintsFilterView {
                    udp2tcp_port: Constraint::Only(
                        Udp2TcpObfuscationSettings { port: Constraint::Only(port) },
                    ),
                    ..self.constraints@.wireguard_constraints
                },
                ..self.constraints@
            }),
            r.protocol.multihop == self.protocol.multihop,
    {
        let obfuscation = Udp2TcpObfuscationSettings { port: Constraint::Only(port) };
        let mut constraints = self.constraints;
        constraints.wireguard_constraints.udp2tcp_port = Constraint::Only(obfuscation);
        RelayConstraintBuilder {
            constraints,
            protocol: Wireguard { multihop: self.protocol.multihop, obfuscation },
        }
    }
}

} // verus!
