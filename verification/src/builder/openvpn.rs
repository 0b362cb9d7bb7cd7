//! The OpenVPN side of the constraint builder: the port option opens after a
//! transport protocol is selected, the bridge options after bridges are
//! enabled.

use vstd::prelude::*;

use crate::builder::Any;
use crate::builder::RelayConstraintBuilder;
use crate::constraint::Constraint;
use crate::location::LocationConstraint;
use crate::net::TransportProtocol;
use crate::net::TunnelType;
use crate::relay_constraints::BridgeConstraints;
use crate::relay_constraints::BridgeConstraintsView;
use crate::relay_constraints::BridgeSettingsFilter;
use crate::relay_constraints::BridgeSettingsFilterView;
use crate::relay_constraints::OpenVpnConstraintsFilterView;
use crate::relay_constraints::Ownership;
use crate::relay_constraints::Providers;
use crate::relay_constraints::RelayConstraintsFilterView;
use crate::relay_constraints::TransportPort;

verus! {

/// The builder state for OpenVPN constraints. The `TransportPortState`
/// parameter tracks whether a transport protocol was selected (opening the
/// port option), the `Bridge` parameter whether bridges were enabled (opening
/// the bridge constraint options).
pub struct OpenVPN<TransportPortState, Bridge> {
    pub transport_port: TransportPortState,
    pub bridge_settings: Bridge,
}

/// Returns a builder pinned to OpenVPN, with nothing else constrained.
pub fn new() -> (r: RelayConstraintBuilder<OpenVPN<Any, Any>>)
    ensures
        r.constraints@ == (RelayConstraintsFilterView {
            tunnel_protocol: Constraint::Only(TunnelType::OpenVpn),
            ..crate::relay_constraints::RelayConstraintsFilter::any_view()
        }),
{
    let mut constraints = crate::relay_constraints::RelayConstraintsFilter::new();
    constraints.tunnel_protocol = Constraint::Only(TunnelType::OpenVpn);
    RelayConstraintBuilder {
        constraints,
        protocol: OpenVPN { transport_port: Any, bridge_settings: Any },
    }
}

impl<TransportPortState, Bridge> RelayConstraintBuilder<OpenVPN<TransportPortState, Bridge>> {
    /// Hands out the OpenVPN part of the assembled constraints.
    pub fn into_constraints(self) -> (r: crate::relay_constraints::OpenVpnConstraintsFilter)
        ensures
            r@ == self.constraints@.openvpn_constraints,
    {
        self.build().openvpn_constraints
    }
}

impl<Bridge> RelayConstraintBuilder<OpenVPN<Any, Bridge>> {
    /// Pins the transport protocol; the port option then opens up.
    pub fn transport_protocol(self, protocol: TransportProtocol) -> (r: RelayConstraintBuilder<
        OpenVPN<TransportPort, Bridge>,
    >)
        ensures
            r.constraints@ == (RelayConstraintsFilterView {
                openvpn_constraints: OpenVpnConstraintsFilterView {
                    port: Constraint::Only(TransportPort { protocol, port: Constraint::Any }),
                    ..self.constraints@.openvpn_constraints
                },
                ..self.constraints@
            }),
            r.protocol.transport_port == (TransportPort { protocol, port: Constraint::Any }),
            r.protocol.bridge_settings == self.protocol.bridge_settings,
    {
        let transport_port = TransportPort { protocol, port: Constraint::Any };
        let mut constraints = self.constraints;
        constraints.openvpn_constraints.port = Constraint::Only(transport_port);
        RelayConstraintBuilder {
            constraints,
            protocol: OpenVPN { transport_port, bridge_settings: self.protocol.bridge_settings },
        }
    }
}

impl<Bridge> RelayConstraintBuilder<OpenVPN<TransportPort, Bridge>> {
    /// Pins the port; only available once a transport protocol is selected.
    pub fn port(self, port: u16) -> (r: Self)
        ensures
            r.constraints@ == (RelayConstraintsFilterView {
                openvpn_constraints: OpenVpnConstraintsFilterView {
                    port: Constraint::Only(
                        TransportPort {
                            protocol: self.protocol.transport_port.protocol,
                            port: Constraint::Only(port),
                        },
                    ),
                    ..self.constraints@.openvpn_constraints
                },
                ..self.constraints@
            }),
            r.protocol.transport_port == (TransportPort {
                protocol: self.protocol.transport_port.protocol,
                port: Constraint::Only(port),
            }),
            r.protocol.bridge_settings == self.protocol.bridge_settings,
    {
        let mut transport_port = self.protocol.transport_port;
        transport_port.port = Constraint::Only(port);
        let mut constraints = self.constraints;
        constraints.openvpn_constraints.port = Constraint::Only(transport_port);
        RelayConstraintBuilder {
            constraints,
            protocol: OpenVPN { transport_port, bridge_settings: self.protocol.bridge_settings },
        }
    }
}

impl<TransportPortState> RelayConstraintBuilder<OpenVPN<TransportPortState, Any>> {
    /// Enables bridges, with no bridge constraint posed yet; the bridge
    /// options then open up.
    pub fn bridge(self) -> (r: RelayConstraintBuilder<
        OpenVPN<TransportPortState, BridgeConstraints>,
    >)
        ensures
            r.constraints@ == (RelayConstraintsFilterView {
                openvpn_constraints: OpenVpnConstraintsFilterView {
                    bridge_settings: Constraint::Only(
                        BridgeSettingsFilterView::Normal(
                            BridgeConstraintsView {
                                location: Constraint::Any,
                                providers: Constraint::Any,
                                ownership: Constraint::Any,
                            },
                        ),
                    ),
                    ..self.constraints@.openvpn_constraints
                },
                ..self.constraints@
            }),
            r.protocol.transport_port == self.protocol.transport_port,
            r.protocol.bridge_settings@ == (BridgeConstraintsView {
                location: Constraint::Any,
                providers: Constraint::Any,
                ownership: Constraint::Any,
            }),
    {
        let bridge_settings = BridgeConstraints::any();
        let mut constraints = self.constraints;
        constraints.openvpn_constraints.bridge_settings = Constraint::Only(
            BridgeSettingsFilter::Normal(bridge_settings.clone()),
        );
        RelayConstraintBuilder {
            constraints,
            protocol: OpenVPN { transport_port: self.protocol.transport_port, bridge_settings },
        }
    }
}

impl<TransportPortState> RelayConstraintBuilder<OpenVPN<TransportPortState, BridgeConstraints>> {
    /// Pins the bridge location; only available once bridges are enabled.
    pub fn bridge_location(self, location: LocationConstraint) -> (r: Self)
        ensures
            r.constraints@ == (RelayConstraintsFilterView {
                openvpn_constraints: OpenVpnConstraintsFilterView {
                    bridge_settings: Constraint::Only(
                        BridgeSettingsFilterView::Normal(
                            BridgeConstraintsView {
                                location: Constraint::Only(location@),
                                ..self.protocol.bridge_settings@
                            },
                        ),
                    ),
                    ..self.constraints@.openvpn_constraints
                },
                ..self.constraints@
            }),
            r.protocol.transport_port == self.protocol.transport_port,
            r.protocol.bridge_settings@ == (BridgeConstraintsView {
                location: Constraint::Only(location@),
                ..self.protocol.bridge_settings@
            }),
    {
        let mut bridge_settings = self.protocol.bridge_settings;
        bridge_settings.location = Constraint::Only(location);
        let mut constraints = self.constraints;
        constraints.openvpn_constraints.bridge_settings = Constraint::Only(
            BridgeSettingsFilter::Normal(bridge_settings.clone()),
        );
        RelayConstraintBuilder {
            constraints,
            protocol: OpenVPN { transport_port: self.protocol.transport_port, bridge_settings },
        }
    }

    /// Pins the bridge providers; only available once bridges are enabled.
    pub fn bridge_providers(self, providers: Providers) -> (r: Self)
        ensures
            r.constraints@ == (RelayConstraintsFilterView {
                openvpn_constraints: OpenVpnConstraintsFilterView {
                    bridge_settings: Constraint::Only(
                        BridgeSettingsFilterView::Normal(
                            BridgeConstraintsView {
                                providers: Constraint::Only(providers@),
                                ..self.protocol.bridge_settings@
                            },
                        ),
                    ),
                    ..self.constraints@.openvpn_constraints
                },
                ..self.constraints@
            }),
            r.protocol.transport_port == self.protocol.transport_port,
            r.protocol.bridge_settings@ == (BridgeConstraintsView {
                providers: Constraint::Only(providers@),
                ..self.protocol.bridge_settings@
            }),
    {
        let mut bridge_settings = self.protocol.bridge_settings;
        bridge_settings.providers = Constraint::Only(providers);
        let mut constraints = self.constraints;
        constraints.openvpn_constraints.bridge_settings = Constraint::Only(
            BridgeSettingsFilter::Normal(bridge_settings.clone()),
        );
        RelayConstraintBuilder {
            constraints,
            protocol: OpenVPN { transport_port: self.protocol.transport_port, bridge_settings },
        }
    }

    /// Pins the bridge ownership; only available once bridges are enabled.
    /// As with the other builders, only the state is changed here; the
    /// assembled constraints take the ownership up at the next bridge option.
    pub fn bridge_ownership(self, ownership: Ownership) -> (r: Self)
        ensures
            r.constraints@ == self.constraints@,
            r.protocol.transport_port == self.protocol.transport_port,
            r.protocol.bridge_settings@ == (BridgeConstraintsView {
                ownership: Constraint::Only(ownership),
                ..self.protocol.bridge_settings@
            }),
    {
        let mut bridge_settings = self.protocol.bridge_settings;
        bridge_settings.ownership = Constraint::Only(ownership);
        RelayConstraintBuilder {
            constraints: self.constraints,
            protocol: OpenVPN { transport_port: self.protocol.transport_port, bridge_settings },
        }
    }
}

} // verus!
