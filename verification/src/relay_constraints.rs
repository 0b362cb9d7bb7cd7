//! Constraints that limit which relays the selector may pick: providers,
//! ownership, tunnel protocol, ports, obfuscation and bridges — and the
//! intersection (meet) operation that merges two sets of constraints.

use vstd::prelude::*;
use vstd::string::StringSliceAdditionalSpecFns;

use crate::constraint::Constraint;
use crate::constraint::meet_eq;
use crate::location::LocationConstraint;
use crate::location::LocationConstraintView;
use crate::location::location_constraint_eq;
use crate::net::CustomProxy;
use crate::net::CustomProxyView;
use crate::net::IpVersion;
use crate::net::TransportProtocol;
use crate::net::TunnelType;
use crate::net::custom_proxy_eq;
use crate::relay_list::Relay;

verus! {

/// Limits relays by who owns the hardware.
#[derive(Clone, Copy, Debug, PartialEq, Eq, Structural)]
pub enum Ownership {
    MullvadOwned,
    Rented,
}

impl Ownership {
    /// Whether the relay's ownership is the demanded one.
    pub open spec fn matches_spec(self, relay: Relay) -> bool {
        match self {
            Ownership::MullvadOwned => relay.owned,
            Ownership::Rented => !relay.owned,
        }
    }

    /// Returns whether the relay's ownership is the demanded one.
    pub fn matches(&self, relay: &Relay) -> (r: bool)
        ensures
            r == self.matches_spec(*relay),
    {
        match self {
            Ownership::MullvadOwned => relay.owned,
            Ownership::Rented => !relay.owned,
        }
    }
}

/// Returned when a string names no ownership setting.
#[derive(Clone, Copy, Debug, PartialEq, Eq, Structural)]
pub struct OwnershipParseError;

/// The UTF-8 bytes of `owned`.
pub open spec fn owned_name_bytes() -> Seq<u8> {
    seq![111u8, 119u8, 110u8, 101u8, 100u8]
}

/// The UTF-8 bytes of `mullvad-owned`.
pub open spec fn mullvad_owned_name_bytes() -> Seq<u8> {
    seq![109u8, 117u8, 108u8, 108u8, 118u8, 97u8, 100u8, 45u8, 111u8, 119u8, 110u8, 101u8, 100u8]
}

/// The UTF-8 bytes of `rented`.
pub open spec fn rented_name_bytes() -> Seq<u8> {
    seq![114u8, 101u8, 110u8, 116u8, 101u8, 100u8]
}

/// Returns whether the bytes spell `owned`.
fn is_owned_name(b: &[u8]) -> (r: bool)
    ensures
        r == (b@ == owned_name_bytes()),
{
    let r = b.len() == 5 && b[0] == 111 && b[1] == 119 && b[2] == 110 && b[3] == 101 && b[4]
        == 100;
    proof {
        if r {
            assert(b@ =~= owned_name_bytes());
        }
    }
    r
}

/// Returns whether the bytes spell `mullvad-owned`.
fn is_mullvad_owned_name(b: &[u8]) -> (r: bool)
    ensures
        r == (b@ == mullvad_owned_name_bytes()),
{
    let r = b.len() == 13 && b[0] == 109 && b[1] == 117 && b[2] == 108 && b[3] == 108 && b[4]
        == 118 && b[5] == 97 && b[6] == 100 && b[7] == 45 && b[8] == 111 && b[9] == 119 && b[10]
        == 110 && b[11] == 101 && b[12] == 100;
    proof {
        if r {
            assert(b@ =~= mullvad_owned_name_bytes());
        }
    }
    r
}

/// Returns whether the bytes spell `rented`.
fn is_rented_name(b: &[u8]) -> (r: bool)
    ensures
        r == (b@ == rented_name_bytes()),
{
    let r = b.len() == 6 && b[0] == 114 && b[1] == 101 && b[2] == 110 && b[3] == 116 && b[4]
        == 101 && b[5] == 100;
    proof {
        if r {
            assert(b@ =~= rented_name_bytes());
        }
    }
    r
}

impl Ownership {
    /// Parses an ownership setting from its command-line name, judged by the
    /// string's UTF-8 bytes: `owned` or `mullvad-owned`, and `rented`.
    pub fn from_str(s: &str) -> (r: Result<Ownership, OwnershipParseError>)
        ensures
            r == (if s.spec_bytes() == owned_name_bytes() || s.spec_bytes()
                == mullvad_owned_name_bytes() {
                Result::<Ownership, OwnershipParseError>::Ok(Ownership::MullvadOwned)
            } else if s.spec_bytes() == rented_name_bytes() {
                Result::<Ownership, OwnershipParseError>::Ok(Ownership::Rented)
            } else {
                Result::<Ownership, OwnershipParseError>::Err(OwnershipParseError)
            }),
    {
        let b = s.as_bytes();
        if is_owned_name(b) || is_mullvad_owned_name(b) {
            Result::Ok(Ownership::MullvadOwned)
        } else if is_rented_name(b) {
            Result::Ok(Ownership::Rented)
        } else {
            Result::Err(OwnershipParseError)
        }
    }
}

/// A relay provider's name.
pub type Provider = String;

/// Limits relays to a non-empty set of providers.
#[derive(Debug)]
pub struct Providers {
    pub providers: Vec<Provider>,
}

/// Returned when a providers constraint would name no provider at all.
#[derive(Debug)]
pub struct NoProviders(pub ());

/// The distinct elements of a sequence, first occurrences first.
pub open spec fn dedup_spec(s: Seq<Seq<char>>) -> Seq<Seq<char>>
    decreases s.len(),
{
    if s.len() == 0 {
        Seq::empty()
    } else if dedup_spec(s.drop_last()).contains(s.last()) {
        dedup_spec(s.drop_last())
    } else {
        dedup_spec(s.drop_last()).push(s.last())
    }
}

impl View for Providers {
    type V = Set<Seq<char>>;

    open spec fn view(&self) -> Set<Seq<char>> {
        self.providers@.map_values(|p: Provider| p@).to_set()
    }
}

impl Providers {
    /// The held list never names the same provider twice.
    pub open spec fn wf(&self) -> bool {
        forall|i: int, j: int|
            0 <= i < j < self.providers@.len() ==> self.providers@[i]@ != self.providers@[j]@
    }

    /// Builds a providers constraint from the given names, dropping repeats;
    /// an empty set of names is refused.
    pub fn new(providers: Vec<Provider>) -> (r: Result<Providers, NoProviders>)
        ensures
            match r {
                Result::Ok(p) => p@ == providers@.map_values(|x: Provider| x@).to_set()
                    && providers@.len() > 0 && p.wf(),
                Result::Err(_) => providers@.len() == 0,
            },
    {
        if providers.len() == 0 {
            return Result::Err(NoProviders(()));
        }
        let mut out: Vec<Provider> = Vec::new();
        let mut i: usize = 0;
        proof {
            assert(providers@.map_values(|x: Provider| x@).take(0) =~= Seq::<Seq<char>>::empty());
            assert(out@.map_values(|p: Provider| p@) =~= Seq::<Seq<char>>::empty());
            assert(dedup_spec(Seq::<Seq<char>>::empty()) == Seq::<Seq<char>>::empty());
        }
        while i < providers.len()
            invariant
                i <= providers.len(),
                out@.map_values(|p: Provider| p@) == dedup_spec(
                    providers@.map_values(|x: Provider| x@).take(i as int),
                ),
            decreases providers.len() - i,
        {
            let ghost views = providers@.map_values(|x: Provider| x@);
            let ghost outv = out@.map_values(|p: Provider| p@);
            let mut seen = false;
            let mut k: usize = 0;
            while k < out.len()
                invariant
                    k <= out.len(),
                    outv == out@.map_values(|p: Provider| p@),
                    i < providers.len(),
                    seen == exists|m: int| 0 <= m < k && outv[m] == providers@[i as int]@,
                decreases out.len() - k,
            {
                let eqk = out[k] == providers[i];
                proof {
                    assert(outv[k as int] == out@[k as int]@);
                }
                if eqk {
                    seen = true;
                    proof {
                        assert(outv[k as int] == providers@[i as int]@);
                    }
                }
                k = k + 1;
            }
            proof {
                assert(seen == outv.contains(providers@[i as int]@));
                assert(views.take(i + 1 as int).drop_last() =~= views.take(i as int));
                assert(views.take(i + 1 as int).last() == providers@[i as int]@);
            }
            if !seen {
                out.push(providers[i].clone());
                proof {
                    assert(out@.map_values(|p: Provider| p@) =~= outv.push(
                        providers@[i as int]@,
                    ));
                }
            }
            i = i + 1;
        }
        proof {
            let views = providers@.map_values(|x: Provider| x@);
            assert(views.take(providers@.len() as int) =~= views);
            lemma_dedup_distinct(views);
            lemma_dedup_elements(views);
            assert(out@.map_values(|p: Provider| p@).to_set() =~= views.to_set());
            assert forall|i: int, j: int|
                0 <= i < j < out@.len() implies out@[i]@ != out@[j]@ by {
                assert(out@.map_values(|p: Provider| p@)[i] == out@[i]@);
                assert(out@.map_values(|p: Provider| p@)[j] == out@[j]@);
            }
        }
        Result::Ok(Providers { providers: out })
    }

    /// Hands the provider names back out.
    pub fn into_vec(self) -> (r: Vec<Provider>)
        ensures
            r == self.providers,
            r@.map_values(|p: Provider| p@).to_set() == self@,
    {
        self.providers
    }

    /// Whether the relay's provider is one of the demanded ones.
    pub open spec fn matches_spec(&self, relay: Relay) -> bool {
        self@.contains(relay.provider@)
    }

    /// Returns whether the relay's provider is one of the demanded ones.
    pub fn matches(&self, relay: &Relay) -> (r: bool)
        ensures
            r == self.matches_spec(*relay),
    {
        let ghost views = self.providers@.map_values(|p: Provider| p@);
        let mut k: usize = 0;
        while k < self.providers.len()
            invariant
                k <= self.providers.len(),
                views == self.providers@.map_values(|p: Provider| p@),
                forall|m: int| 0 <= m < k ==> views[m] != relay.provider@,
            decreases self.providers.len() - k,
        {
            if self.providers[k] == relay.provider {
                proof {
                    assert(views[k as int] == relay.provider@);
                    assert(views.contains(relay.provider@));
                }
                return true;
            }
            k = k + 1;
        }
        proof {
            if self@.contains(relay.provider@) {
                let m = choose|m: int| 0 <= m < views.len() && views[m] == relay.provider@;
                assert(views[m] == relay.provider@);
            }
        }
        false
    }
}

/// Deduplication keeps exactly the elements of the sequence.
proof fn lemma_dedup_elements(s: Seq<Seq<char>>)
    ensures
        forall|x: Seq<char>| dedup_spec(s).contains(x) <==> s.contains(x),
    decreases s.len(),
{
    if s.len() > 0 {
        lemma_dedup_elements(s.drop_last());
        let d = dedup_spec(s.drop_last());
        assert forall|x: Seq<char>| s.contains(x) implies dedup_spec(s).contains(x) by {
            let w = choose|w: int| 0 <= w < s.len() && s[w] == x;
            if w < s.len() - 1 {
                assert(s.drop_last()[w] == x);
                assert(s.drop_last().contains(x));
                assert(d.contains(x));
                if d.contains(s.last()) {
                    assert(dedup_spec(s) == d);
                } else {
                    let v = choose|v: int| 0 <= v < d.len() && d[v] == x;
                    assert(dedup_spec(s)[v] == x);
                }
            } else {
                assert(x == s.last());
                if d.contains(s.last()) {
                    assert(dedup_spec(s) == d);
                } else {
                    assert(dedup_spec(s)[dedup_spec(s).len() - 1] == x);
                }
            }
        }
        assert forall|x: Seq<char>| dedup_spec(s).contains(x) implies s.contains(x) by {
            if d.contains(s.last()) {
                assert(dedup_spec(s) == d);
                assert(s.drop_last().contains(x));
                let w = choose|w: int| 0 <= w < s.drop_last().len() && s.drop_last()[w] == x;
                assert(s[w] == x);
            } else {
                let v = choose|v: int|
                    0 <= v < dedup_spec(s).len() && dedup_spec(s)[v] == x;
                if v < d.len() {
                    assert(d[v] == x);
                    assert(d.contains(x));
                    assert(s.drop_last().contains(x));
                    let w = choose|w: int|
                        0 <= w < s.drop_last().len() && s.drop_last()[w] == x;
                    assert(s[w] == x);
                } else {
                    assert(x == s.last());
                    assert(s[s.len() - 1] == x);
                }
            }
        }
    }
}

/// No sequence holds the same element twice after deduplication.
proof fn lemma_dedup_distinct(s: Seq<Seq<char>>)
    ensures
        forall|i: int, j: int|
            0 <= i < j < dedup_spec(s).len() ==> dedup_spec(s)[i] != dedup_spec(s)[j],
        forall|i: int|
            0 <= i < dedup_spec(s).len() ==> s.contains(#[trigger] dedup_spec(s)[i]),
    decreases s.len(),
{
    if s.len() > 0 {
        lemma_dedup_distinct(s.drop_last());
        let d = dedup_spec(s.drop_last());
        assert forall|i: int|
            0 <= i < dedup_spec(s).len() implies s.contains(#[trigger] dedup_spec(s)[i]) by {
            if i < d.len() {
                assert(s.drop_last().contains(d[i]));
                let w = choose|w: int| 0 <= w < s.drop_last().len() && s.drop_last()[w] == d[i];
                assert(s[w] == d[i]);
            } else {
                assert(dedup_spec(s)[i] == s.last());
                assert(s[s.len() - 1] == s.last());
            }
        }
    }
}

impl Clone for Providers {
    fn clone(&self) -> (r: Self)
        ensures
            r@ == self@,
    {
        let mut out: Vec<Provider> = Vec::new();
        let mut i: usize = 0;
        while i < self.providers.len()
            invariant
                i <= self.providers.len(),
                out@ == self.providers@.subrange(0, i as int),
            decreases self.providers.len() - i,
        {
            out.push(self.providers[i].clone());
            proof {
                assert(out@ =~= self.providers@.subrange(0, i + 1 as int));
            }
            i = i + 1;
        }
        proof {
            assert(out@ =~= self.providers@);
        }
        Providers { providers: out }
    }
}

/// Returns whether every provider of `a` is also one of `b`.
#[verifier::loop_isolation(false)]
fn providers_subset(a: &Providers, b: &Providers) -> (r: bool)
    ensures
        r == forall|x: Seq<char>| a@.contains(x) ==> b@.contains(x),
{
    let ghost aviews = a.providers@.map_values(|p: Provider| p@);
    let ghost bviews = b.providers@.map_values(|p: Provider| p@);
    let mut i: usize = 0;
    while i < a.providers.len()
        invariant
            i <= a.providers.len(),
            forall|m: int| 0 <= m < i ==> b@.contains(#[trigger] aviews[m]),
        decreases a.providers.len() - i,
    {
        let mut found = false;
        let mut j: usize = 0;
        while j < b.providers.len()
            invariant
                j <= b.providers.len(),
                i < a.providers.len(),
                found ==> b@.contains(aviews[i as int]),
                !found ==> forall|m: int| 0 <= m < j ==> bviews[m] != aviews[i as int],
            decreases b.providers.len() - j,
        {
            let hit = b.providers[j] == a.providers[i];
            proof {
                assert(bviews[j as int] == b.providers@[j as int]@);
            }
            if hit {
                found = true;
                proof {
                    assert(bviews[j as int] == aviews[i as int]);
                    assert(bviews.contains(aviews[i as int]));
                }
            }
            j = j + 1;
        }
        if !found {
            // This provider of `a` was matched by none of `b`.
            proof {
                assert(a@.contains(aviews[i as int])) by {
                    assert(aviews.contains(aviews[i as int]));
                }
                if b@.contains(aviews[i as int]) {
                    // A member of `b`'s view is some element of its list.
                    let w = choose|w: int| 0 <= w < bviews.len() && bviews[w] == aviews[i as int];
                    assert(false);
                }
            }
            return false;
        }
        i = i + 1;
    }
    proof {
        assert forall|x: Seq<char>| a@.contains(x) implies b@.contains(x) by {
            let m = choose|m: int| 0 <= m < aviews.len() && aviews[m] == x;
            assert(b@.contains(aviews[m]));
        }
    }
    true
}

/// Returns whether two providers constraints name the same providers,
/// whatever order they hold them in.
pub fn providers_eq(a: &Providers, b: &Providers) -> (r: bool)
    ensures
        r == (a@ == b@),
{
    let r = providers_subset(a, b) && providers_subset(b, a);
    proof {
        if r {
            assert(a@ =~= b@);
        }
    }
    r
}

/// A transport protocol together with an optional port.
#[derive(Clone, Copy, Debug, PartialEq, Eq, Structural)]
pub struct TransportPort {
    pub protocol: TransportProtocol,
    pub port: Constraint<u16>,
}

/// The meet of two transport ports: the protocols must agree, the ports meet
/// componentwise.
pub open spec fn transport_port_meet(a: TransportPort, b: TransportPort) -> Option<TransportPort> {
    if a.protocol == b.protocol {
        match meet_eq(a.port, b.port) {
            Option::Some(p) => Option::Some(TransportPort { protocol: a.protocol, port: p }),
            Option::None => Option::None,
        }
    } else {
        Option::None
    }
}

/// The meet of two transport port constraints.
pub open spec fn transport_port_cmeet(a: Constraint<TransportPort>, b: Constraint<TransportPort>)
    -> Option<Constraint<TransportPort>> {
    match (a, b) {
        (Constraint::Any, x) => Option::Some(x),
        (x, Constraint::Any) => Option::Some(x),
        (Constraint::Only(x), Constraint::Only(y)) => match transport_port_meet(x, y) {
            Option::Some(z) => Option::Some(Constraint::Only(z)),
            Option::None => Option::None,
        },
    }
}

/// Settings for the udp2tcp obfuscator: the TCP port to demand of it, if any.
#[derive(Clone, Copy, Debug, PartialEq, Eq, Structural)]
pub struct Udp2TcpObfuscationSettings {
    pub port: Constraint<u16>,
}

/// The meet of two udp2tcp settings: the port constraints meet componentwise.
pub open spec fn udp2tcp_meet(a: Udp2TcpObfuscationSettings, b: Udp2TcpObfuscationSettings)
    -> Option<Udp2TcpObfuscationSettings> {
    match meet_eq(a.port, b.port) {
        Option::Some(p) => Option::Some(Udp2TcpObfuscationSettings { port: p }),
        Option::None => Option::None,
    }
}

/// The meet of two udp2tcp settings constraints.
pub open spec fn udp2tcp_cmeet(
    a: Constraint<Udp2TcpObfuscationSettings>,
    b: Constraint<Udp2TcpObfuscationSettings>,
) -> Option<Constraint<Udp2TcpObfuscationSettings>> {
    match (a, b) {
        (Constraint::Any, x) => Option::Some(x),
        (x, Constraint::Any) => Option::Some(x),
        (Constraint::Only(x), Constraint::Only(y)) => match udp2tcp_meet(x, y) {
            Option::Some(z) => Option::Some(Constraint::Only(z)),
            Option::None => Option::None,
        },
    }
}

/// Which obfuscation the user selected for WireGuard traffic.
#[derive(Clone, Copy, Debug, PartialEq, Eq, Structural)]
pub enum SelectedObfuscation {
    Auto,
    Off,
    Udp2Tcp,
}

/// The meet of two obfuscation selections: `Auto` is the identity; two
/// non-`Auto` selections must be equal.
pub open spec fn obfuscation_meet(a: SelectedObfuscation, b: SelectedObfuscation) -> Option<
    SelectedObfuscation,
> {
    match (a, b) {
        (x, SelectedObfuscation::Auto) => Option::Some(x),
        (SelectedObfuscation::Auto, x) => Option::Some(x),
        (x, y) => if x == y {
            Option::Some(x)
        } else {
            Option::None
        },
    }
}

impl SelectedObfuscation {
    /// Merges two obfuscation selections; `Auto` defers to the other side.
    pub fn intersection(self, other: Self) -> (r: Option<Self>)
        ensures
            r == obfuscation_meet(self, other),
    {
        match (self, other) {
            (x, SelectedObfuscation::Auto) => Option::Some(x),
            (SelectedObfuscation::Auto, x) => Option::Some(x),
            (x, y) => if x == y {
                Option::Some(x)
            } else {
                Option::None
            },
        }
    }
}

/// Obfuscation settings as the user states them.
#[derive(Clone, Copy, Debug, PartialEq, Eq, Structural)]
pub struct ObfuscationSettings {
    pub selected_obfuscation: SelectedObfuscation,
    pub udp2tcp: Udp2TcpObfuscationSettings,
}

/// Merges a port constraint with another.
pub fn intersect_port(a: Constraint<u16>, b: Constraint<u16>) -> (r: Option<Constraint<u16>>)
    ensures
        r == meet_eq(a, b),
{
    match (a, b) {
        (Constraint::Any, x) => Option::Some(x),
        (x, Constraint::Any) => Option::Some(x),
        (Constraint::Only(x), Constraint::Only(y)) => if x == y {
            Option::Some(Constraint::Only(x))
        } else {
            Option::None
        },
    }
}

/// Merges an IP version constraint with another.
pub fn intersect_ip_version(a: Constraint<IpVersion>, b: Constraint<IpVersion>) -> (r: Option<
    Constraint<IpVersion>,
>)
    ensures
        r == meet_eq(a, b),
{
    match (a, b) {
        (Constraint::Any, x) => Option::Some(x),
        (x, Constraint::Any) => Option::Some(x),
        (Constraint::Only(x), Constraint::Only(y)) => if x == y {
            Option::Some(Constraint::Only(x))
        } else {
            Option::None
        },
    }
}

/// Merges a boolean constraint with another.
pub fn intersect_bool(a: Constraint<bool>, b: Constraint<bool>) -> (r: Option<Constraint<bool>>)
    ensures
        r == meet_eq(a, b),
{
    match (a, b) {
        (Constraint::Any, x) => Option::Some(x),
        (x, Constraint::Any) => Option::Some(x),
        (Constraint::Only(x), Constraint::Only(y)) => if x == y {
            Option::Some(Constraint::Only(x))
        } else {
            Option::None
        },
    }
}

/// Merges a tunnel protocol constraint with another.
pub fn intersect_tunnel_type(a: Constraint<TunnelType>, b: Constraint<TunnelType>) -> (r: Option<
    Constraint<TunnelType>,
>)
    ensures
        r == meet_eq(a, b),
{
    match (a, b) {
        (Constraint::Any, x) => Option::Some(x),
        (x, Constraint::Any) => Option::Some(x),
        (Constraint::Only(x), Constraint::Only(y)) => if x == y {
            Option::Some(Constraint::Only(x))
        } else {
            Option::None
        },
    }
}

/// Merges an ownership constraint with another.
pub fn intersect_ownership(a: Constraint<Ownership>, b: Constraint<Ownership>) -> (r: Option<
    Constraint<Ownership>,
>)
    ensures
        r == meet_eq(a, b),
{
    match (a, b) {
        (Constraint::Any, x) => Option::Some(x),
        (x, Constraint::Any) => Option::Some(x),
        (Constraint::Only(x), Constraint::Only(y)) => if x == y {
            Option::Some(Constraint::Only(x))
        } else {
            Option::None
        },
    }
}

/// Merges a transport port constraint with another: protocols must agree,
/// ports meet componentwise.
pub fn intersect_transport_port(a: Constraint<TransportPort>, b: Constraint<TransportPort>) -> (r:
    Option<Constraint<TransportPort>>)
    ensures
        r == transport_port_cmeet(a, b),
{
    match (a, b) {
        (Constraint::Any, x) => Option::Some(x),
        (x, Constraint::Any) => Option::Some(x),
        (Constraint::Only(x), Constraint::Only(y)) => {
            if x.protocol == y.protocol {
                match intersect_port(x.port, y.port) {
                    Option::Some(p) => Option::Some(
                        Constraint::Only(TransportPort { protocol: x.protocol, port: p }),
                    ),
                    Option::None => Option::None,
                }
            } else {
                Option::None
            }
        },
    }
}

/// Merges a udp2tcp settings constraint with another, port by port.
pub fn intersect_udp2tcp(
    a: Constraint<Udp2TcpObfuscationSettings>,
    b: Constraint<Udp2TcpObfuscationSettings>,
) -> (r: Option<Constraint<Udp2TcpObfuscationSettings>>)
    ensures
        r == udp2tcp_cmeet(a, b),
{
    match (a, b) {
        (Constraint::Any, x) => Option::Some(x),
        (x, Constraint::Any) => Option::Some(x),
        (Constraint::Only(x), Constraint::Only(y)) => {
            match intersect_port(x.port, y.port) {
                Option::Some(p) => Option::Some(
                    Constraint::Only(Udp2TcpObfuscationSettings { port: p }),
                ),
                Option::None => Option::None,
            }
        },
    }
}

/// Merges a location constraint with another: both must name the same place
/// or list.
pub fn intersect_location(a: Constraint<LocationConstraint>, b: Constraint<LocationConstraint>)
    -> (r: Option<Constraint<LocationConstraint>>)
    ensures
        crate::constraint::cview_opt(r) == meet_eq(
            crate::constraint::cview(a),
            crate::constraint::cview(b),
        ),
{
    match (a, b) {
        (Constraint::Any, x) => Option::Some(x),
        (x, Constraint::Any) => Option::Some(x),
        (Constraint::Only(x), Constraint::Only(y)) => if location_constraint_eq(&x, &y) {
            Option::Some(Constraint::Only(x))
        } else {
            Option::None
        },
    }
}

/// Merges a providers constraint with another: both must name the same
/// providers.
pub fn intersect_providers(a: Constraint<Providers>, b: Constraint<Providers>) -> (r: Option<
    Constraint<Providers>,
>)
    ensures
        crate::constraint::cview_opt(r) == meet_eq(
            crate::constraint::cview(a),
            crate::constraint::cview(b),
        ),
{
    match (a, b) {
        (Constraint::Any, x) => Option::Some(x),
        (x, Constraint::Any) => Option::Some(x),
        (Constraint::Only(x), Constraint::Only(y)) => if providers_eq(&x, &y) {
            Option::Some(Constraint::Only(x))
        } else {
            Option::None
        },
    }
}

/// Selects between the relay selection algorithm and a custom bridge
/// configuration.
#[derive(Clone, Copy, Debug, PartialEq, Eq, Structural)]
pub enum BridgeType {
    /// Let the relay selection algorithm decide on bridges, from the relay
    /// list and the normal bridge constraints.
    Normal,
    /// Use the custom bridge configuration.
    Custom,
}

impl Default for BridgeType {
    fn default() -> (r: Self)
        ensures
            r == BridgeType::Normal,
    {
        BridgeType::Normal
    }
}

/// Returned when custom bridge settings are demanded but none are present.
#[derive(Debug)]
pub struct MissingCustomBridgeSettings(pub ());

/// Limits which bridge servers to use.
#[derive(Debug)]
pub struct BridgeConstraints {
    pub location: Constraint<LocationConstraint>,
    pub providers: Constraint<Providers>,
    pub ownership: Constraint<Ownership>,
}

/// The view of [`BridgeConstraints`].
pub struct BridgeConstraintsView {
    pub location: Constraint<LocationConstraintView>,
    pub providers: Constraint<Set<Seq<char>>>,
    pub ownership: Constraint<Ownership>,
}

impl View for BridgeConstraints {
    type V = BridgeConstraintsView;

    open spec fn view(&self) -> BridgeConstraintsView {
        BridgeConstraintsView {
            location: crate::constraint::cview(self.location),
            providers: crate::constraint::cview(self.providers),
            ownership: self.ownership,
        }
    }
}

impl Clone for BridgeConstraints {
    fn clone(&self) -> (r: Self)
        ensures
            r@ == self@,
    {
        BridgeConstraints {
            location: match &self.location {
                Constraint::Any => Constraint::Any,
                Constraint::Only(l) => Constraint::Only(l.clone()),
            },
            providers: match &self.providers {
                Constraint::Any => Constraint::Any,
                Constraint::Only(p) => Constraint::Only(p.clone()),
            },
            ownership: self.ownership,
        }
    }
}

impl BridgeConstraints {
    /// Constraints that admit every bridge.
    pub fn any() -> (r: BridgeConstraints)
        ensures
            r.location is Any,
            r.providers is Any,
            r.ownership is Any,
    {
        BridgeConstraints {
            location: Constraint::Any,
            providers: Constraint::Any,
            ownership: Constraint::Any,
        }
    }
}

/// The meet of two bridge constraints, componentwise.
pub open spec fn bridge_constraints_meet(a: BridgeConstraintsView, b: BridgeConstraintsView)
    -> Option<BridgeConstraintsView> {
    match (meet_eq(a.location, b.location), meet_eq(a.providers, b.providers), meet_eq(
        a.ownership,
        b.ownership,
    )) {
        (Option::Some(location), Option::Some(providers), Option::Some(ownership)) => Option::Some(
            BridgeConstraintsView { location, providers, ownership },
        ),
        _ => Option::None,
    }
}

/// How the selector is to pick bridges: not at all, automatically, by the
/// normal bridge constraints, or from a user-supplied proxy.
#[derive(Debug)]
pub enum BridgeSettingsFilter {
    Off,
    Auto,
    Normal(BridgeConstraints),
    Custom(Option<CustomProxy>),
}

/// The view of a [`BridgeSettingsFilter`].
pub enum BridgeSettingsFilterView {
    Off,
    Auto,
    Normal(BridgeConstraintsView),
    Custom(Option<CustomProxyView>),
}

impl View for BridgeSettingsFilter {
    type V = BridgeSettingsFilterView;

    open spec fn view(&self) -> BridgeSettingsFilterView {
        match self {
            BridgeSettingsFilter::Off => BridgeSettingsFilterView::Off,
            BridgeSettingsFilter::Auto => BridgeSettingsFilterView::Auto,
            BridgeSettingsFilter::Normal(c) => BridgeSettingsFilterView::Normal(c@),
            BridgeSettingsFilter::Custom(p) => BridgeSettingsFilterView::Custom(
                match p {
                    Option::None => Option::None,
                    Option::Some(x) => Option::Some(x@),
                },
            ),
        }
    }
}

impl Clone for BridgeSettingsFilter {
    fn clone(&self) -> (r: Self)
        ensures
            r@ == self@,
    {
        match self {
            BridgeSettingsFilter::Off => BridgeSettingsFilter::Off,
            BridgeSettingsFilter::Auto => BridgeSettingsFilter::Auto,
            BridgeSettingsFilter::Normal(c) => BridgeSettingsFilter::Normal(c.clone()),
            BridgeSettingsFilter::Custom(p) => BridgeSettingsFilter::Custom(
                match p {
                    Option::None => Option::None,
                    Option::Some(x) => Option::Some(x.clone()),
                },
            ),
        }
    }
}

/// The meet of two bridge settings: like variants meet recursively, unlike
/// variants are incompatible.
pub open spec fn bridge_settings_meet(a: BridgeSettingsFilterView, b: BridgeSettingsFilterView)
    -> Option<BridgeSettingsFilterView> {
    match (a, b) {
        (BridgeSettingsFilterView::Off, BridgeSettingsFilterView::Off) => Option::Some(
            BridgeSettingsFilterView::Off,
        ),
        (BridgeSettingsFilterView::Auto, BridgeSettingsFilterView::Auto) => Option::Some(
            BridgeSettingsFilterView::Auto,
        ),
        (BridgeSettingsFilterView::Normal(x), BridgeSettingsFilterView::Normal(y)) => match
            bridge_constraints_meet(x, y) {
            Option::Some(z) => Option::Some(BridgeSettingsFilterView::Normal(z)),
            Option::None => Option::None,
        },
        (BridgeSettingsFilterView::Custom(x), BridgeSettingsFilterView::Custom(y)) => if x == y {
            Option::Some(BridgeSettingsFilterView::Custom(x))
        } else {
            Option::None
        },
        _ => Option::None,
    }
}

/// The meet of two bridge settings constraints.
pub open spec fn bridge_settings_cmeet(
    a: Constraint<BridgeSettingsFilterView>,
    b: Constraint<BridgeSettingsFilterView>,
) -> Option<Constraint<BridgeSettingsFilterView>> {
    match (a, b) {
        (Constraint::Any, x) => Option::Some(x),
        (x, Constraint::Any) => Option::Some(x),
        (Constraint::Only(x), Constraint::Only(y)) => match bridge_settings_meet(x, y) {
            Option::Some(z) => Option::Some(Constraint::Only(z)),
            Option::None => Option::None,
        },
    }
}

/// Merges the location component of two bridge constraints and so on,
/// componentwise.
fn intersect_bridge_constraints(a: BridgeConstraints, b: BridgeConstraints) -> (r: Option<
    BridgeConstraints,
>)
    ensures
        crate::constraint::vopt(r) == bridge_constraints_meet(a@, b@),
{
    let location = match intersect_location(a.location, b.location) {
        Option::Some(l) => l,
        Option::None => {
            return Option::None;
        },
    };
    let providers = match intersect_providers(a.providers, b.providers) {
        Option::Some(p) => p,
        Option::None => {
            return Option::None;
        },
    };
    let ownership = match intersect_ownership(a.ownership, b.ownership) {
        Option::Some(o) => o,
        Option::None => {
            return Option::None;
        },
    };
    Option::Some(BridgeConstraints { location, providers, ownership })
}

/// Merges a bridge settings constraint with another.
pub fn intersect_bridge_settings(
    a: Constraint<BridgeSettingsFilter>,
    b: Constraint<BridgeSettingsFilter>,
) -> (r: Option<Constraint<BridgeSettingsFilter>>)
    ensures
        crate::constraint::cview_opt(r) == bridge_settings_cmeet(
            crate::constraint::cview(a),
            crate::constraint::cview(b),
        ),
{
    match (a, b) {
        (Constraint::Any, x) => Option::Some(x),
        (x, Constraint::Any) => Option::Some(x),
        (Constraint::Only(x), Constraint::Only(y)) => match (x, y) {
            (BridgeSettingsFilter::Off, BridgeSettingsFilter::Off) => Option::Some(
                Constraint::Only(BridgeSettingsFilter::Off),
            ),
            (BridgeSettingsFilter::Auto, BridgeSettingsFilter::Auto) => Option::Some(
                Constraint::Only(BridgeSettingsFilter::Auto),
            ),
            (BridgeSettingsFilter::Normal(cx), BridgeSettingsFilter::Normal(cy)) => {
                match intersect_bridge_constraints(cx, cy) {
                    Option::Some(z) => Option::Some(
                        Constraint::Only(BridgeSettingsFilter::Normal(z)),
                    ),
                    Option::None => Option::None,
                }
            },
            (BridgeSettingsFilter::Custom(px), BridgeSettingsFilter::Custom(py)) => {
                let same = match (&px, &py) {
                    (Option::None, Option::None) => true,
                    (Option::Some(xp), Option::Some(yp)) => custom_proxy_eq(xp, yp),
                    _ => false,
                };
                if same {
                    Option::Some(Constraint::Only(BridgeSettingsFilter::Custom(px)))
                } else {
                    Option::None
                }
            },
            _ => Option::None,
        },
    }
}

/// Settings for bridge selection as the user states them.
#[derive(Debug)]
pub struct BridgeSettings {
    pub bridge_type: BridgeType,
    pub normal: BridgeConstraints,
    pub custom: Option<CustomProxy>,
}

/// Bridge settings with the applicable configuration picked out.
pub enum ResolvedBridgeSettings<'a> {
    Normal(&'a BridgeConstraints),
    Custom(&'a CustomProxy),
}

impl BridgeSettings {
    /// Picks the applicable configuration: the normal constraints, or the
    /// custom proxy, which must then be present.
    pub fn resolve(&self) -> (r: Result<ResolvedBridgeSettings<'_>, MissingCustomBridgeSettings>)
        ensures
            match r {
                Result::Ok(ResolvedBridgeSettings::Normal(c)) => self.bridge_type
                    == BridgeType::Normal && c == &self.normal,
                Result::Ok(ResolvedBridgeSettings::Custom(p)) => self.bridge_type
                    == BridgeType::Custom && self.custom == Option::Some(*p),
                Result::Err(_) => self.bridge_type == BridgeType::Custom && self.custom is None,
            },
    {
        match (self.bridge_type, &self.custom) {
            (BridgeType::Normal, _) => Result::Ok(ResolvedBridgeSettings::Normal(&self.normal)),
            (BridgeType::Custom, Option::Some(custom)) => Result::Ok(
                ResolvedBridgeSettings::Custom(custom),
            ),
            (BridgeType::Custom, Option::None) => Result::Err(MissingCustomBridgeSettings(())),
        }
    }

    /// Settings that let the algorithm pick any bridge.
    pub fn any() -> (r: BridgeSettings)
        ensures
            r.bridge_type == BridgeType::Normal,
            r.normal.location is Any,
            r.normal.providers is Any,
            r.normal.ownership is Any,
            r.custom is None,
    {
        BridgeSettings {
            bridge_type: BridgeType::Normal,
            normal: BridgeConstraints::any(),
            custom: Option::None,
        }
    }
}

/// Whether to connect through a bridge: always, never, or when the selector
/// judges it helps.
#[derive(Clone, Copy, Debug, PartialEq, Eq, Structural)]
pub enum BridgeState {
    Auto,
    On,
    Off,
}

/// The constraints a bridge relay must meet, after resolving the user's
/// bridge settings.
#[derive(Debug)]
pub struct InternalBridgeConstraints {
    pub location: Constraint<LocationConstraint>,
    pub providers: Constraint<Providers>,
    pub ownership: Constraint<Ownership>,
    pub transport_protocol: Constraint<TransportProtocol>,
}

/// [`Constraint`]s applicable to OpenVPN relays in stored settings.
#[derive(Clone, Copy, Debug, PartialEq, Eq, Structural)]
pub struct OpenVpnConstraints {
    pub port: Constraint<TransportPort>,
}

impl OpenVpnConstraints {
    /// Constraints that admit every OpenVPN endpoint.
    pub fn new() -> (r: OpenVpnConstraints)
        ensures
            r.port is Any,
    {
        OpenVpnConstraints { port: Constraint::Any }
    }

    /// Merges with another set of OpenVPN constraints.
    pub fn intersection(self, other: Self) -> (r: Option<Self>)
        ensures
            r == openvpn_constraints_meet(self, other),
    {
        match intersect_transport_port(self.port, other.port) {
            Option::Some(port) => Option::Some(OpenVpnConstraints { port }),
            Option::None => Option::None,
        }
    }
}

impl Default for OpenVpnConstraints {
    fn default() -> (r: Self)
        ensures
            r.port is Any,
    {
        OpenVpnConstraints { port: Constraint::Any }
    }
}

/// The meet of two stored OpenVPN constraint records.
pub open spec fn openvpn_constraints_meet(a: OpenVpnConstraints, b: OpenVpnConstraints) -> Option<
    OpenVpnConstraints,
> {
    match transport_port_cmeet(a.port, b.port) {
        Option::Some(port) => Option::Some(OpenVpnConstraints { port }),
        Option::None => Option::None,
    }
}

/// [`Constraint`]s applicable to WireGuard relays in stored settings.
#[derive(Debug)]
pub struct WireguardConstraints {
    pub port: Constraint<u16>,
    pub ip_version: Constraint<IpVersion>,
    /// `Constraint::Any` is not a valid state for stored user configurations:
    /// it is only for retry rows that are independent of the multihop
    /// setting. Set through [`WireguardConstraints::use_multihop`], read
    /// through [`WireguardConstraints::multihop`].
    pub use_multihop: Constraint<bool>,
    pub entry_location: Constraint<LocationConstraint>,
}

/// The view of [`WireguardConstraints`].
pub struct WireguardConstraintsView {
    pub port: Constraint<u16>,
    pub ip_version: Constraint<IpVersion>,
    pub use_multihop: Constraint<bool>,
    pub entry_location: Constraint<LocationConstraintView>,
}

impl View for WireguardConstraints {
    type V = WireguardConstraintsView;

    open spec fn view(&self) -> WireguardConstraintsView {
        WireguardConstraintsView {
            port: self.port,
            ip_version: self.ip_version,
            use_multihop: self.use_multihop,
            entry_location: crate::constraint::cview(self.entry_location),
        }
    }
}

impl Clone for WireguardConstraints {
    fn clone(&self) -> (r: Self)
        ensures
            r@ == self@,
            r.port == self.port,
            r.ip_version == self.ip_version,
            r.use_multihop == self.use_multihop,
            r.entry_location == self.entry_location,
    {
        WireguardConstraints {
            port: self.port,
            ip_version: self.ip_version,
            use_multihop: self.use_multihop,
            entry_location: match &self.entry_location {
                Constraint::Any => Constraint::Any,
                Constraint::Only(l) => Constraint::Only(l.clone()),
            },
        }
    }
}

/// The meet of two stored WireGuard constraint records, componentwise.
pub open spec fn wireguard_constraints_meet(
    a: WireguardConstraintsView,
    b: WireguardConstraintsView,
) -> Option<WireguardConstraintsView> {
    match (meet_eq(a.port, b.port), meet_eq(a.ip_version, b.ip_version), meet_eq(
        a.use_multihop,
        b.use_multihop,
    ), meet_eq(a.entry_location, b.entry_location)) {
        (
            Option::Some(port),
            Option::Some(ip_version),
            Option::Some(use_multihop),
            Option::Some(entry_location),
        ) => Option::Some(
            WireguardConstraintsView { port, ip_version, use_multihop, entry_location },
        ),
        _ => Option::None,
    }
}

impl WireguardConstraints {
    /// Constraints with nothing pinned down: the identity of `intersection`.
    /// For stored user settings use `default`, which keeps multihop
    /// explicitly off.
    pub fn any() -> (r: WireguardConstraints)
        ensures
            r.port is Any,
            r.ip_version is Any,
            r.use_multihop is Any,
            r.entry_location is Any,
    {
        WireguardConstraints {
            port: Constraint::Any,
            ip_version: Constraint::Any,
            use_multihop: Constraint::Any,
            entry_location: Constraint::Any,
        }
    }

    /// Enables or disables multihop.
    pub fn use_multihop(&mut self, multihop: bool)
        ensures
            *final(self) == (WireguardConstraints {
                use_multihop: Constraint::Only(multihop),
                ..*old(self)
            }),
    {
        self.use_multihop = Constraint::Only(multihop);
    }

    /// Returns whether multihop is enabled: anything but an explicit
    /// `Only(true)` — an unconstrained value included — counts as multihop
    /// being off.
    pub fn multihop(&self) -> (r: bool)
        ensures
            r == (self.use_multihop == Constraint::Only(true)),
    {
        matches!(self.use_multihop, Constraint::Only(true))
    }

    /// Merges with another set of WireGuard constraints.
    pub fn intersection(self, other: Self) -> (r: Option<Self>)
        ensures
            crate::constraint::vopt(r) == wireguard_constraints_meet(self@, other@),
    {
        let port = match intersect_port(self.port, other.port) {
            Option::Some(x) => x,
            Option::None => {
                return Option::None;
            },
        };
        let ip_version = match intersect_ip_version(self.ip_version, other.ip_version) {
            Option::Some(x) => x,
            Option::None => {
                return Option::None;
            },
        };
        let use_multihop = match intersect_bool(self.use_multihop, other.use_multihop) {
            Option::Some(x) => x,
            Option::None => {
                return Option::None;
            },
        };
        let entry_location = match intersect_location(self.entry_location, other.entry_location) {
            Option::Some(x) => x,
            Option::None => {
                return Option::None;
            },
        };
        Option::Some(WireguardConstraints { port, ip_version, use_multihop, entry_location })
    }
}

impl Default for WireguardConstraints {
    /// Stored user settings start with multihop explicitly off.
    fn default() -> (r: Self)
        ensures
            r.port is Any,
            r.ip_version is Any,
            r.use_multihop == Constraint::<bool>::Only(false),
            r.entry_location is Any,
    {
        WireguardConstraints {
            port: Constraint::Any,
            ip_version: Constraint::Any,
            use_multihop: Constraint::Only(false),
            entry_location: Constraint::Any,
        }
    }
}

/// Limits the relays the selector may pick, as stored in user settings.
#[derive(Debug)]
pub struct RelayConstraints {
    pub location: Constraint<LocationConstraint>,
    pub providers: Constraint<Providers>,
    pub ownership: Constraint<Ownership>,
    pub tunnel_protocol: Constraint<TunnelType>,
    pub wireguard_constraints: WireguardConstraints,
    pub openvpn_constraints: OpenVpnConstraints,
}

/// The view of [`RelayConstraints`].
pub struct RelayConstraintsView {
    pub location: Constraint<LocationConstraintView>,
    pub providers: Constraint<Set<Seq<char>>>,
    pub ownership: Constraint<Ownership>,
    pub tunnel_protocol: Constraint<TunnelType>,
    pub wireguard_constraints: WireguardConstraintsView,
    pub openvpn_constraints: OpenVpnConstraints,
}

impl View for RelayConstraints {
    type V = RelayConstraintsView;

    open spec fn view(&self) -> RelayConstraintsView {
        RelayConstraintsView {
            location: crate::constraint::cview(self.location),
            providers: crate::constraint::cview(self.providers),
            ownership: self.ownership,
            tunnel_protocol: self.tunnel_protocol,
            wireguard_constraints: self.wireguard_constraints@,
            openvpn_constraints: self.openvpn_constraints,
        }
    }
}

impl Clone for RelayConstraints {
    fn clone(&self) -> (r: Self)
        ensures
            r@ == self@,
    {
        RelayConstraints {
            location: match &self.location {
                Constraint::Any => Constraint::Any,
                Constraint::Only(l) => Constraint::Only(l.clone()),
            },
            providers: match &self.providers {
                Constraint::Any => Constraint::Any,
                Constraint::Only(p) => Constraint::Only(p.clone()),
            },
            ownership: self.ownership,
            tunnel_protocol: self.tunnel_protocol,
            wireguard_constraints: self.wireguard_constraints.clone(),
            openvpn_constraints: self.openvpn_constraints,
        }
    }
}

/// The meet of two stored relay constraint records, componentwise.
pub open spec fn relay_constraints_meet(a: RelayConstraintsView, b: RelayConstraintsView) -> Option<
    RelayConstraintsView,
> {
    match (meet_eq(a.location, b.location), meet_eq(a.providers, b.providers), meet_eq(
        a.ownership,
        b.ownership,
    ), meet_eq(a.tunnel_protocol, b.tunnel_protocol), wireguard_constraints_meet(
        a.wireguard_constraints,
        b.wireguard_constraints,
    ), openvpn_constraints_meet(a.openvpn_constraints, b.openvpn_constraints)) {
        (
            Option::Some(location),
            Option::Some(providers),
            Option::Some(ownership),
            Option::Some(tunnel_protocol),
            Option::Some(wireguard_constraints),
            Option::Some(openvpn_constraints),
        ) => Option::Some(
            RelayConstraintsView {
                location,
                providers,
                ownership,
                tunnel_protocol,
                wireguard_constraints,
                openvpn_constraints,
            },
        ),
        _ => Option::None,
    }
}

impl RelayConstraints {
    /// Constraints with nothing pinned down.
    pub fn new() -> (r: RelayConstraints)
        ensures
            r.location is Any,
            r.providers is Any,
            r.ownership is Any,
            r.tunnel_protocol is Any,
            r.wireguard_constraints.port is Any,
            r.wireguard_constraints.ip_version is Any,
            r.wireguard_constraints.use_multihop is Any,
            r.wireguard_constraints.entry_location is Any,
            r.openvpn_constraints.port is Any,
    {
        RelayConstraints {
            location: Constraint::Any,
            providers: Constraint::Any,
            ownership: Constraint::Any,
            tunnel_protocol: Constraint::Any,
            wireguard_constraints: WireguardConstraints::any(),
            openvpn_constraints: OpenVpnConstraints::new(),
        }
    }

    /// Merges with another set of relay constraints: the result is as
    /// specific as both, or nothing when they disagree. Merging a user's
    /// constraints this way can never override them.
    pub fn intersection(self, other: Self) -> (r: Option<Self>)
        ensures
            crate::constraint::vopt(r) == relay_constraints_meet(self@, other@),
    {
        let location = match intersect_location(self.location, other.location) {
            Option::Some(x) => x,
            Option::None => {
                return Option::None;
            },
        };
        let providers = match intersect_providers(self.providers, other.providers) {
            Option::Some(x) => x,
            Option::None => {
                return Option::None;
            },
        };
        let ownership = match intersect_ownership(self.ownership, other.ownership) {
            Option::Some(x) => x,
            Option::None => {
                return Option::None;
            },
        };
        let tunnel_protocol = match intersect_tunnel_type(
            self.tunnel_protocol,
            other.tunnel_protocol,
        ) {
            Option::Some(x) => x,
            Option::None => {
                return Option::None;
            },
        };
        let wireguard_constraints = match self.wireguard_constraints.intersection(
            other.wireguard_constraints,
        ) {
            Option::Some(x) => x,
            Option::None => {
                return Option::None;
            },
        };
        let openvpn_constraints = match self.openvpn_constraints.intersection(
            other.openvpn_constraints,
        ) {
            Option::Some(x) => x,
            Option::None => {
                return Option::None;
            },
        };
        Option::Some(
            RelayConstraints {
                location,
                providers,
                ownership,
                tunnel_protocol,
                wireguard_constraints,
                openvpn_constraints,
            },
        )
    }
}

/// [`Constraint`]s applicable to WireGuard relays while a query runs,
/// obfuscation folded in.
#[derive(Debug)]
pub struct WireguardConstraintsFilter {
    pub port: Constraint<u16>,
    pub ip_version: Constraint<IpVersion>,
    pub use_multihop: Constraint<bool>,
    pub entry_location: Constraint<LocationConstraint>,
    pub obfuscation: SelectedObfuscation,
    pub udp2tcp_port: Constraint<Udp2TcpObfuscationSettings>,
}

/// The view of a [`WireguardConstraintsFilter`].
pub struct WireguardConstraintsFilterView {
    pub port: Constraint<u16>,
    pub ip_version: Constraint<IpVersion>,
    pub use_multihop: Constraint<bool>,
    pub entry_location: Constraint<LocationConstraintView>,
    pub obfuscation: SelectedObfuscation,
    pub udp2tcp_port: Constraint<Udp2TcpObfuscationSettings>,
}

impl View for WireguardConstraintsFilter {
    type V = WireguardConstraintsFilterView;

    open spec fn view(&self) -> WireguardConstraintsFilterView {
        WireguardConstraintsFilterView {
            port: self.port,
            ip_version: self.ip_version,
            use_multihop: self.use_multihop,
            entry_location: crate::constraint::cview(self.entry_location),
            obfuscation: self.obfuscation,
            udp2tcp_port: self.udp2tcp_port,
        }
    }
}

impl Clone for WireguardConstraintsFilter {
    fn clone(&self) -> (r: Self)
        ensures
            r@ == self@,
            r.port == self.port,
            r.ip_version == self.ip_version,
            r.use_multihop == self.use_multihop,
            r.entry_location == self.entry_location,
            r.obfuscation == self.obfuscation,
            r.udp2tcp_port == self.udp2tcp_port,
    {
        WireguardConstraintsFilter {
            port: self.port,
            ip_version: self.ip_version,
            use_multihop: self.use_multihop,
            entry_location: match &self.entry_location {
                Constraint::Any => Constraint::Any,
                Constraint::Only(l) => Constraint::Only(l.clone()),
            },
            obfuscation: self.obfuscation,
            udp2tcp_port: self.udp2tcp_port,
        }
    }
}

/// The meet of two WireGuard filters, componentwise; obfuscation meets with
/// `Auto` as its identity.
pub open spec fn wireguard_filter_meet(
    a: WireguardConstraintsFilterView,
    b: WireguardConstraintsFilterView,
) -> Option<WireguardConstraintsFilterView> {
    match (meet_eq(a.port, b.port), meet_eq(a.ip_version, b.ip_version), meet_eq(
        a.use_multihop,
        b.use_multihop,
    ), meet_eq(a.entry_location, b.entry_location), obfuscation_meet(a.obfuscation, b.obfuscation),
        udp2tcp_cmeet(a.udp2tcp_port, b.udp2tcp_port)) {
        (
            Option::Some(port),
            Option::Some(ip_version),
            Option::Some(use_multihop),
            Option::Some(entry_location),
            Option::Some(obfuscation),
            Option::Some(udp2tcp_port),
        ) => Option::Some(
            WireguardConstraintsFilterView {
                port,
                ip_version,
                use_multihop,
                entry_location,
                obfuscation,
                udp2tcp_port,
            },
        ),
        _ => Option::None,
    }
}

impl WireguardConstraintsFilter {
    /// A filter with nothing pinned down: the identity of `intersection`.
    pub fn new() -> (r: WireguardConstraintsFilter)
        ensures
            r@ == WireguardConstraintsFilter::any_view(),
    {
        WireguardConstraintsFilter {
            port: Constraint::Any,
            ip_version: Constraint::Any,
            use_multihop: Constraint::Any,
            entry_location: Constraint::Any,
            obfuscation: SelectedObfuscation::Auto,
            udp2tcp_port: Constraint::Any,
        }
    }

    /// The view of the unconstrained filter.
    pub open spec fn any_view() -> WireguardConstraintsFilterView {
        WireguardConstraintsFilterView {
            port: Constraint::Any,
            ip_version: Constraint::Any,
            use_multihop: Constraint::Any,
            entry_location: Constraint::Any,
            obfuscation: SelectedObfuscation::Auto,
            udp2tcp_port: Constraint::Any,
        }
    }

    /// Returns whether the filter selects multihop: anything but an explicit
    /// `Only(true)` counts as multihop being off.
    pub fn multihop(&self) -> (r: bool)
        ensures
            r == (self.use_multihop == Constraint::<bool>::Only(true)),
    {
        matches!(self.use_multihop, Constraint::Only(true))
    }

    /// Merges with another WireGuard filter.
    pub fn intersection(self, other: Self) -> (r: Option<Self>)
        ensures
            crate::constraint::vopt(r) == wireguard_filter_meet(self@, other@),
    {
        let port = match intersect_port(self.port, other.port) {
            Option::Some(x) => x,
            Option::None => {
                return Option::None;
            },
        };
        let ip_version = match intersect_ip_version(self.ip_version, other.ip_version) {
            Option::Some(x) => x,
            Option::None => {
                return Option::None;
            },
        };
        let use_multihop = match intersect_bool(self.use_multihop, other.use_multihop) {
            Option::Some(x) => x,
            Option::None => {
                return Option::None;
            },
        };
        let entry_location = match intersect_location(self.entry_location, other.entry_location) {
            Option::Some(x) => x,
            Option::None => {
                return Option::None;
            },
        };
        let obfuscation = match self.obfuscation.intersection(other.obfuscation) {
            Option::Some(x) => x,
            Option::None => {
                return Option::None;
            },
        };
        let udp2tcp_port = match intersect_udp2tcp(self.udp2tcp_port, other.udp2tcp_port) {
            Option::Some(x) => x,
            Option::None => {
                return Option::None;
            },
        };
        Option::Some(
            WireguardConstraintsFilter {
                port,
                ip_version,
                use_multihop,
                entry_location,
                obfuscation,
                udp2tcp_port,
            },
        )
    }
}

/// [`Constraint`]s applicable to OpenVPN relays while a query runs, bridge
/// settings folded in.
#[derive(Debug)]
pub struct OpenVpnConstraintsFilter {
    pub port: Constraint<TransportPort>,
    pub bridge_settings: Constraint<BridgeSettingsFilter>,
}

/// The view of an [`OpenVpnConstraintsFilter`].
pub struct OpenVpnConstraintsFilterView {
    pub port: Constraint<TransportPort>,
    pub bridge_settings: Constraint<BridgeSettingsFilterView>,
}

impl View for OpenVpnConstraintsFilter {
    type V = OpenVpnConstraintsFilterView;

    open spec fn view(&self) -> OpenVpnConstraintsFilterView {
        OpenVpnConstraintsFilterView {
            port: self.port,
            bridge_settings: crate::constraint::cview(self.bridge_settings),
        }
    }
}

impl Clone for OpenVpnConstraintsFilter {
    fn clone(&self) -> (r: Self)
        ensures
            r@ == self@,
    {
        OpenVpnConstraintsFilter {
            port: self.port,
            bridge_settings: match &self.bridge_settings {
                Constraint::Any => Constraint::Any,
                Constraint::Only(b) => Constraint::Only(b.clone()),
            },
        }
    }
}

/// The meet of two OpenVPN filters, componentwise.
pub open spec fn openvpn_filter_meet(a: OpenVpnConstraintsFilterView, b: OpenVpnConstraintsFilterView)
    -> Option<OpenVpnConstraintsFilterView> {
    match (transport_port_cmeet(a.port, b.port), bridge_settings_cmeet(
        a.bridge_settings,
        b.bridge_settings,
    )) {
        (Option::Some(port), Option::Some(bridge_settings)) => Option::Some(
            OpenVpnConstraintsFilterView { port, bridge_settings },
        ),
        _ => Option::None,
    }
}

impl OpenVpnConstraintsFilter {
    /// A filter with nothing pinned down: the identity of `intersection`.
    pub fn new() -> (r: OpenVpnConstraintsFilter)
        ensures
            r@ == OpenVpnConstraintsFilter::any_view(),
    {
        OpenVpnConstraintsFilter { port: Constraint::Any, bridge_settings: Constraint::Any }
    }

    /// The view of the unconstrained filter.
    pub open spec fn any_view() -> OpenVpnConstraintsFilterView {
        OpenVpnConstraintsFilterView { port: Constraint::Any, bridge_settings: Constraint::Any }
    }

    /// Merges with another OpenVPN filter.
    pub fn intersection(self, other: Self) -> (r: Option<Self>)
        ensures
            crate::constraint::vopt(r) == openvpn_filter_meet(self@, other@),
    {
        let port = match intersect_transport_port(self.port, other.port) {
            Option::Some(x) => x,
            Option::None => {
                return Option::None;
            },
        };
        let bridge_settings = match intersect_bridge_settings(
            self.bridge_settings,
            other.bridge_settings,
        ) {
            Option::Some(x) => x,
            Option::None => {
                return Option::None;
            },
        };
        Option::Some(OpenVpnConstraintsFilter { port, bridge_settings })
    }
}

/// Limits the relays the selector may pick while a query runs: the user's
/// stored constraints with obfuscation and bridge settings folded in, and the
/// form the retry ladder's rows take.
#[derive(Debug)]
pub struct RelayConstraintsFilter {
    pub location: Constraint<LocationConstraint>,
    pub providers: Constraint<Providers>,
    pub ownership: Constraint<Ownership>,
    pub tunnel_protocol: Constraint<TunnelType>,
    pub wireguard_constraints: WireguardConstraintsFilter,
    pub openvpn_constraints: OpenVpnConstraintsFilter,
}

/// The view of a [`RelayConstraintsFilter`].
pub struct RelayConstraintsFilterView {
    pub location: Constraint<LocationConstraintView>,
    pub providers: Constraint<Set<Seq<char>>>,
    pub ownership: Constraint<Ownership>,
    pub tunnel_protocol: Constraint<TunnelType>,
    pub wireguard_constraints: WireguardConstraintsFilterView,
    pub openvpn_constraints: OpenVpnConstraintsFilterView,
}

impl View for RelayConstraintsFilter {
    type V = RelayConstraintsFilterView;

    open spec fn view(&self) -> RelayConstraintsFilterView {
        RelayConstraintsFilterView {
            location: crate::constraint::cview(self.location),
            providers: crate::constraint::cview(self.providers),
            ownership: self.ownership,
            tunnel_protocol: self.tunnel_protocol,
            wireguard_constraints: self.wireguard_constraints@,
            openvpn_constraints: self.openvpn_constraints@,
        }
    }
}

impl Clone for RelayConstraintsFilter {
    fn clone(&self) -> (r: Self)
        ensures
            r@ == self@,
            r.location == self.location,
            r.ownership == self.ownership,
            r.tunnel_protocol == self.tunnel_protocol,
            r.wireguard_constraints.port == self.wireguard_constraints.port,
            r.wireguard_constraints.ip_version == self.wireguard_constraints.ip_version,
            r.wireguard_constraints.use_multihop == self.wireguard_constraints.use_multihop,
            r.wireguard_constraints.entry_location == self.wireguard_constraints.entry_location,
            r.wireguard_constraints.obfuscation == self.wireguard_constraints.obfuscation,
            r.wireguard_constraints.udp2tcp_port == self.wireguard_constraints.udp2tcp_port,
            r.openvpn_constraints.port == self.openvpn_constraints.port,
    {
        RelayConstraintsFilter {
            location: match &self.location {
                Constraint::Any => Constraint::Any,
                Constraint::Only(l) => Constraint::Only(l.clone()),
            },
            providers: match &self.providers {
                Constraint::Any => Constraint::Any,
                Constraint::Only(p) => Constraint::Only(p.clone()),
            },
            ownership: self.ownership,
            tunnel_protocol: self.tunnel_protocol,
            wireguard_constraints: self.wireguard_constraints.clone(),
            openvpn_constraints: self.openvpn_constraints.clone(),
        }
    }
}

/// The meet of two relay filters, componentwise: the result is as specific as
/// both, or nothing when any component disagrees. Merging a retry row with a
/// user's constraints this way can never override the user's choice.
pub open spec fn relay_filter_meet(a: RelayConstraintsFilterView, b: RelayConstraintsFilterView)
    -> Option<RelayConstraintsFilterView> {
    match (meet_eq(a.location, b.location), meet_eq(a.providers, b.providers), meet_eq(
        a.ownership,
        b.ownership,
    ), meet_eq(a.tunnel_protocol, b.tunnel_protocol), wireguard_filter_meet(
        a.wireguard_constraints,
        b.wireguard_constraints,
    ), openvpn_filter_meet(a.openvpn_constraints, b.openvpn_constraints)) {
        (
            Option::Some(location),
            Option::Some(providers),
            Option::Some(ownership),
            Option::Some(tunnel_protocol),
            Option::Some(wireguard_constraints),
            Option::Some(openvpn_constraints),
        ) => Option::Some(
            RelayConstraintsFilterView {
                location,
                providers,
                ownership,
                tunnel_protocol,
                wireguard_constraints,
                openvpn_constraints,
            },
        ),
        _ => Option::None,
    }
}

impl RelayConstraintsFilter {
    /// A filter with nothing pinned down: the identity of `intersection`.
    pub fn new() -> (r: RelayConstraintsFilter)
        ensures
            r@ == RelayConstraintsFilter::any_view(),
    {
        RelayConstraintsFilter {
            location: Constraint::Any,
            providers: Constraint::Any,
            ownership: Constraint::Any,
            tunnel_protocol: Constraint::Any,
            wireguard_constraints: WireguardConstraintsFilter::new(),
            openvpn_constraints: OpenVpnConstraintsFilter::new(),
        }
    }

    /// The view of the unconstrained filter.
    pub open spec fn any_view() -> RelayConstraintsFilterView {
        RelayConstraintsFilterView {
            location: Constraint::Any,
            providers: Constraint::Any,
            ownership: Constraint::Any,
            tunnel_protocol: Constraint::Any,
            wireguard_constraints: WireguardConstraintsFilter::any_view(),
            openvpn_constraints: OpenVpnConstraintsFilter::any_view(),
        }
    }

    /// Merges with another relay filter.
    pub fn intersection(self, other: Self) -> (r: Option<Self>)
        ensures
            crate::constraint::vopt(r) == relay_filter_meet(self@, other@),
    {
        let location = match intersect_location(self.location, other.location) {
            Option::Some(x) => x,
            Option::None => {
                return Option::None;
            },
        };
        let providers = match intersect_providers(self.providers, other.providers) {
            Option::Some(x) => x,
            Option::None => {
                return Option::None;
            },
        };
        let ownership = match intersect_ownership(self.ownership, other.ownership) {
            Option::Some(x) => x,
            Option::None => {
                return Option::None;
            },
        };
        let tunnel_protocol = match intersect_tunnel_type(
            self.tunnel_protocol,
            other.tunnel_protocol,
        ) {
            Option::Some(x) => x,
            Option::None => {
                return Option::None;
            },
        };
        let wireguard_constraints = match self.wireguard_constraints.intersection(
            other.wireguard_constraints,
        ) {
            Option::Some(x) => x,
            Option::None => {
                return Option::None;
            },
        };
        let openvpn_constraints = match self.openvpn_constraints.intersection(
            other.openvpn_constraints,
        ) {
            Option::Some(x) => x,
            Option::None => {
                return Option::None;
            },
        };
        Option::Some(
            RelayConstraintsFilter {
                location,
                providers,
                ownership,
                tunnel_protocol,
                wireguard_constraints,
                openvpn_constraints,
            },
        )
    }
}

impl Clone for InternalBridgeConstraints {
    fn clone(&self) -> (r: Self)
        ensures
            crate::constraint::cview(r.location) == crate::constraint::cview(self.location),
            crate::constraint::cview(r.providers) == crate::constraint::cview(self.providers),
            r.ownership == self.ownership,
            r.transport_protocol == self.transport_protocol,
    {
        InternalBridgeConstraints {
            location: match &self.location {
                Constraint::Any => Constraint::Any,
                Constraint::Only(l) => Constraint::Only(l.clone()),
            },
            providers: match &self.providers {
                Constraint::Any => Constraint::Any,
                Constraint::Only(p) => Constraint::Only(p.clone()),
            },
            ownership: self.ownership,
            transport_protocol: self.transport_protocol,
        }
    }
}

} // verus!
