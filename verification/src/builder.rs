//! A strongly typed builder for relay constraint filters: the type parameter
//! tracks which tunnel protocol is being configured, so that, say, a udp2tcp
//! port can only be set after obfuscation has been selected.

pub mod openvpn;
pub mod wireguard;

use vstd::prelude::*;

use crate::constraint::Constraint;
use crate::location::LocationConstraint;
use crate::relay_constraints::Ownership;
use crate::relay_constraints::Providers;
use crate::relay_constraints::RelayConstraintsFilter;
use crate::relay_constraints::RelayConstraintsFilterView;

verus! {

/// The builder: the constraints assembled so far, and a value whose type
/// tracks which protocol-specific options are open.
pub struct RelayConstraintBuilder<VpnProtocol> {
    pub constraints: RelayConstraintsFilter,
    pub protocol: VpnProtocol,
}

/// The state of an option that has not been constrained: the corresponding
/// constraint is `Any`.
pub struct Any;

/// Returns a builder with nothing pinned down: what it builds is the identity
/// of `intersection`.
pub fn any() -> (r: RelayConstraintBuilder<Any>)
    ensures
        r.constraints@ == RelayConstraintsFilter::any_view(),
{
    RelayConstraintBuilder { constraints: RelayConstraintsFilter::new(), protocol: Any }
}

impl<VpnProtocol> RelayConstraintBuilder<VpnProtocol> {
    /// Pins the location.
    pub fn location(self, location: LocationConstraint) -> (r: Self)
        ensures
            r.constraints@ == (RelayConstraintsFilterView {
                location: Constraint::Only(location@),
                ..self.constraints@
            }),
            r.protocol == self.protocol,
    {
        let mut constraints = self.constraints;
        constraints.location = Constraint::Only(location);
        RelayConstraintBuilder { constraints, protocol: self.protocol }
    }

    /// Pins the ownership.
    pub fn ownership(self, ownership: Ownership) -> (r: Self)
        ensures
            r.constraints@ == (RelayConstraintsFilterView {
                ownership: Constraint::Only(ownership),
                ..self.constraints@
            }),
            r.protocol == self.protocol,
    {
        let mut constraints = self.constraints;
        constraints.ownership = Constraint::Only(ownership);
        RelayConstraintBuilder { constraints, protocol: self.protocol }
    }

    /// Pins the providers.
    pub fn providers(self, providers: Providers) -> (r: Self)
        ensures
            r.constraints@ == (RelayConstraintsFilterView {
                providers: Constraint::Only(providers@),
                ..self.constraints@
            }),
            r.protocol == self.protocol,
    {
        let mut constraints = self.constraints;
        constraints.providers = Constraint::Only(providers);
        RelayConstraintBuilder { constraints, protocol: self.protocol }
    }

    /// Hands out the assembled constraints.
    pub fn build(self) -> (r: RelayConstraintsFilter)
        ensures
            r == self.constraints,
    {
        self.constraints
    }
}

} // verus!
