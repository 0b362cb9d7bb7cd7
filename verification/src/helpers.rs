//! The weighted random sampler and other helpers of the selector.

use vstd::prelude::*;

use rand::Rng;

use crate::constraint::Constraint;
use crate::matcher::WireguardMatcher;
use crate::net::CustomProxy;
use crate::net::IpAddress;
use crate::net::IpVersion;
use crate::net::Shadowsocks;
use crate::net::SocketAddress;
use crate::relay_constraints::BridgeSettingsFilter;
use crate::detailer::MullvadWireguardEndpoint;
use crate::net::ObfuscatorConfig;
use crate::relay_constraints::Udp2TcpObfuscationSettings;
use crate::relay_list::BridgeEndpointData;
use crate::selector::SelectedObfuscator;
use crate::relay_list::Relay;
use crate::relay_list::WireguardEndpointData;

verus! {

/// Relies on `rand::Rng::gen_range` over `0..len` with the thread-local
/// generator: the result is a uniform index below `len`.
#[verifier::external_body]
pub(crate) fn gen_index(len: usize) -> (r: usize)
    requires
        len > 0,
    ensures
        r < len,
{
    rand::thread_rng().gen_range(0..len)
}

/// Relies on `rand::Rng::gen_range` over `lo..=hi` with the thread-local
/// generator: the result is a uniform value between the bounds, inclusive.
#[verifier::external_body]
pub(crate) fn gen_u128_range(lo: u128, hi: u128) -> (r: u128)
    requires
        lo <= hi,
    ensures
        lo <= r <= hi,
{
    rand::thread_rng().gen_range(lo..=hi)
}

/// Relies on `rand::Rng::gen_range` over `0..n` with the thread-local
/// generator: the result is a uniform value below `n`.
#[verifier::external_body]
pub(crate) fn gen_u64_below(n: u64) -> (r: u64)
    requires
        n > 0,
    ensures
        r < n,
{
    rand::thread_rng().gen_range(0..n)
}

/// The sum of the weights of a sequence of relays.
pub open spec fn relay_weight_sum(s: Seq<Relay>) -> int
    decreases s.len(),
{
    if s.len() == 0 {
        0
    } else {
        relay_weight_sum(s.drop_last()) + s.last().weight
    }
}

/// The sum of a sequence of weights.
pub open spec fn weight_sum(s: Seq<u64>) -> int
    decreases s.len(),
{
    if s.len() == 0 {
        0
    } else {
        weight_sum(s.drop_last()) + s.last()
    }
}

/// Every weight is at most `u64::MAX`, so the sum is at most the length times
/// that.
proof fn lemma_weight_sum_bounds(s: Seq<u64>)
    ensures
        0 <= weight_sum(s) <= s.len() * u64::MAX,
    decreases s.len(),
{
    if s.len() == 0 {
    } else {
        lemma_weight_sum_bounds(s.drop_last());
        assert(s.drop_last().len() * u64::MAX + u64::MAX == s.len() * u64::MAX) by (nonlinear_arith)
            requires s.len() >= 1 && s.drop_last().len() == s.len() - 1;
    }
}

/// A weight below the whole sum leaves something in the rest of the sequence.
proof fn lemma_weight_sum_take(s: Seq<u64>, i: int)
    requires
        0 <= i <= s.len(),
    ensures
        weight_sum(s.take(i)) + weight_sum(s.skip(i)) == weight_sum(s),
    decreases s.len() - i,
{
    if i == s.len() {
        assert(s.take(i) =~= s);
        assert(s.skip(i) =~= Seq::<u64>::empty());
    } else {
        lemma_weight_sum_take(s, i + 1);
        assert(s.take(i + 1).drop_last() =~= s.take(i));
        assert(s.take(i + 1).last() == s[i]);
        let rest = s.skip(i);
        let rest1 = s.skip(i + 1);
        assert(weight_sum(rest) == weight_sum(rest.drop_last()) + rest.last()) by {
            assert(rest.len() > 0);
        }
        assert(rest.drop_last() =~= s.skip(i).take(rest.len() - 1));
        // relate weight_sum(s.skip(i)) to s[i] + weight_sum(s.skip(i + 1))
        lemma_weight_sum_skip_head(s, i);
    }
}

/// Splitting a sum at the head of a suffix.
proof fn lemma_weight_sum_skip_head(s: Seq<u64>, i: int)
    requires
        0 <= i < s.len(),
    ensures
        weight_sum(s.skip(i)) == s[i] + weight_sum(s.skip(i + 1)),
    decreases s.len() - i,
{
    let rest = s.skip(i);
    if i + 1 == s.len() {
        assert(s.skip(i + 1) =~= Seq::<u64>::empty());
        assert(rest.len() == 1);
        assert(rest.drop_last() =~= Seq::<u64>::empty());
        assert(rest.last() == s[i]);
    } else {
        lemma_weight_sum_skip_head(s, i + 1);
        assert(rest.len() > 1);
        assert(rest.drop_last() =~= s.skip(i).take(rest.len() - 1));
        assert(s.skip(i).take(rest.len() - 1).drop_last() =~= s.skip(i).take(rest.len() - 2));
        // Both suffixes share all but their last element.
        assert(rest.drop_last() =~= seq![s[i]] + s.skip(i + 1).drop_last());
        lemma_weight_sum_cons(s[i], s.skip(i + 1).drop_last());
        assert(rest.last() == s.skip(i + 1).last());
        assert(s.skip(i + 1).len() > 0);
    }
}

/// The sum of an element prepended to a sequence.
proof fn lemma_weight_sum_cons(x: u64, s: Seq<u64>)
    ensures
        weight_sum(seq![x] + s) == x + weight_sum(s),
    decreases s.len(),
{
    if s.len() == 0 {
        assert(seq![x] + s =~= seq![x]);
        assert(weight_sum(seq![x]) == weight_sum(seq![x].drop_last()) + x) by {
            assert(seq![x].last() == x);
        }
        assert(seq![x].drop_last() =~= Seq::<u64>::empty());
    } else {
        lemma_weight_sum_cons(x, s.drop_last());
        assert((seq![x] + s).drop_last() =~= seq![x] + s.drop_last());
        assert((seq![x] + s).last() == s.last());
    }
}

/// Picks an index of the weights, roulette-wheel style: when every weight is
/// zero the pick is uniform; otherwise an index with a nonzero weight is
/// picked, with probability proportional to its weight. Returns `None` only
/// for an empty sequence.
#[verifier::loop_isolation(false)]
pub fn pick_weighted_index(weights: &Vec<u64>) -> (r: Option<usize>)
    ensures
        match r {
            Option::None => weights@.len() == 0,
            Option::Some(i) => i < weights@.len() && (weight_sum(weights@) > 0 ==> weights@[i as int]
                > 0),
        },
{
    let mut total: u128 = 0;
    let mut i: usize = 0;
    proof {
        assert(weights@.take(0) =~= Seq::<u64>::empty());
    }
    while i < weights.len()
        invariant
            i <= weights.len(),
            total == weight_sum(weights@.take(i as int)),
            total <= (i as int) * u64::MAX,
        decreases weights.len() - i,
    {
        proof {
            assert(weights@.take(i + 1 as int).drop_last() =~= weights@.take(i as int));
            assert(weights@.take(i + 1 as int).last() == weights@[i as int]);
            assert((i as int) * u64::MAX + u64::MAX == (i + 1 as int) * u64::MAX) by (
            nonlinear_arith);
            assert((i + 1 as int) * u64::MAX < u128::MAX) by (nonlinear_arith)
                requires 0 <= i < usize::MAX;
        }
        total = total + weights[i] as u128;
        i = i + 1;
    }
    proof {
        assert(weights@.take(weights@.len() as int) =~= weights@);
    }
    if total == 0 {
        if weights.len() == 0 {
            return Option::None;
        }
        return Option::Some(gen_index(weights.len()));
    }
    // A draw in 1..=total lands in some relay's slice of the wheel.
    let draw = gen_u128_range(1, total);
    let mut acc: u128 = 0;
    let mut j: usize = 0;
    while j < weights.len()
        invariant
            j <= weights.len(),
            acc == weight_sum(weights@.take(j as int)),
            acc < draw <= total,
            total == weight_sum(weights@),
        decreases weights.len() - j,
    {
        proof {
            assert(weights@.take(j + 1 as int).drop_last() =~= weights@.take(j as int));
            assert(weights@.take(j + 1 as int).last() == weights@[j as int]);
            lemma_weight_sum_bounds(weights@.take(j + 1 as int));
            lemma_weight_sum_take(weights@, j + 1 as int);
            lemma_weight_sum_bounds(weights@.skip(j + 1 as int));
        }
        let w = weights[j];
        if acc + (w as u128) >= draw {
            return Option::Some(j);
        }
        acc = acc + w as u128;
        j = j + 1;
    }
    // The draw never exceeds the total weight, so the walk above always
    // lands inside some slice of the wheel.
    proof {
        assert(weights@.take(weights@.len() as int) =~= weights@);
        assert(false);
    }
    Option::None
}

/// Picks a relay from the slice, using each relay's `weight`: when every
/// weight is zero the pick is uniform; otherwise roulette-wheel selection
/// picks only relays with a nonzero weight. Returns `None` only for an empty
/// slice.
pub fn pick_random_relay(relays: &Vec<Relay>) -> (r: Option<&Relay>)
    ensures
        match r {
            Option::None => relays@.len() == 0,
            Option::Some(relay) => exists|i: int|
                0 <= i < relays@.len() && relays@[i] == *relay && (relay_weight_sum(relays@) > 0
                    ==> relay.weight > 0),
        },
{
    let mut weights: Vec<u64> = Vec::new();
    let mut i: usize = 0;
    while i < relays.len()
        invariant
            i <= relays.len(),
            weights@.len() == i,
            forall|k: int| 0 <= k < i ==> weights@[k] == relays@[k].weight,
        decreases relays.len() - i,
    {
        weights.push(relays[i].weight);
        i = i + 1;
    }
    proof {
        lemma_relay_weight_sum_matches(relays@, weights@);
    }
    match pick_weighted_index(&weights) {
        Option::None => Option::None,
        Option::Some(idx) => {
            proof {
                assert(relays@[idx as int] == relays@[idx as int]);
            }
            Option::Some(&relays[idx])
        },
    }
}

/// A weight vector that mirrors the relays' weights has the same sum.
proof fn lemma_relay_weight_sum_matches(relays: Seq<Relay>, weights: Seq<u64>)
    requires
        weights.len() == relays.len(),
        forall|k: int| 0 <= k < relays.len() ==> weights[k] == relays[k].weight,
    ensures
        weight_sum(weights) == relay_weight_sum(relays),
    decreases relays.len(),
{
    if relays.len() > 0 {
        lemma_relay_weight_sum_matches(relays.drop_last(), weights.drop_last());
    }
}

/// Whether the weights are one run of the weight function over the slice:
/// one output per element, each a value the function can return for it.
pub open spec fn weights_drawn_by<RelayType, F: Fn(&RelayType) -> u64>(
    weight_fn: F,
    relays: Seq<RelayType>,
    ws: Seq<u64>,
) -> bool {
    &&& ws.len() == relays.len()
    &&& forall|k: int|
        0 <= k < ws.len() ==> weight_fn.ensures((&relays[k],), #[trigger] ws[k])
}

/// Picks an element from the slice using the given weight function: when
/// every drawn weight is zero the pick is uniform; otherwise roulette-wheel
/// selection picks only elements whose drawn weight is nonzero. Returns
/// `None` only for an empty slice.
pub fn pick_random_relay_fn<RelayType, F: Fn(&RelayType) -> u64>(
    relays: &Vec<RelayType>,
    weight_fn: F,
) -> (r: Option<&RelayType>)
    requires
        forall|i: int|
            0 <= i < relays@.len() ==> #[trigger] weight_fn.requires((&relays@[i],)),
    ensures
        match r {
            Option::None => relays@.len() == 0,
            Option::Some(relay) => exists|i: int, ws: Seq<u64>|
                0 <= i < relays@.len() && (#[trigger] relays@[i]) == *relay
                    && #[trigger] weights_drawn_by(weight_fn, relays@, ws) && (weight_sum(ws) > 0
                    ==> ws[i] > 0),
        },
{
    let mut weights: Vec<u64> = Vec::new();
    let mut i: usize = 0;
    while i < relays.len()
        invariant
            i <= relays.len(),
            weights@.len() == i,
            forall|k: int|
                0 <= k < relays@.len() ==> #[trigger] weight_fn.requires((&relays@[k],)),
            forall|k: int|
                0 <= k < i ==> weight_fn.ensures((&relays@[k],), #[trigger] weights@[k]),
        decreases relays.len() - i,
    {
        let w = weight_fn(&relays[i]);
        weights.push(w);
        i = i + 1;
    }
    match pick_weighted_index(&weights) {
        Option::None => Option::None,
        Option::Some(idx) => {
            proof {
                assert(weights_drawn_by(weight_fn, relays@, weights@));
            }
            Option::Some(&relays[idx])
        },
    }
}

/// Picks a uniform element of the slice distinct from `exclude`, relays being
/// judged by hostname. Returns `None` when no element is distinct from it.
#[verifier::loop_isolation(false)]
pub fn random<'a>(relays: &'a Vec<Relay>, exclude: &Relay) -> (r: Option<&'a Relay>)
    ensures
        match r {
            Option::None => forall|i: int|
                0 <= i < relays@.len() ==> #[trigger] relays@[i].hostname@ == exclude.hostname@,
            Option::Some(relay) => relay.hostname@ != exclude.hostname@ && exists|i: int|
                0 <= i < relays@.len() && relays@[i] == *relay,
        },
{
    let mut candidates: Vec<usize> = Vec::new();
    let mut i: usize = 0;
    while i < relays.len()
        invariant
            i <= relays.len(),
            forall|k: int|
                0 <= k < candidates@.len() ==> (#[trigger] candidates@[k] as int) < i as int
                    && relays@[candidates@[k] as int].hostname@ != exclude.hostname@,
            forall|m: int|
                0 <= m < i && #[trigger] relays@[m].hostname@ != exclude.hostname@ ==> exists|
                    k: int,
                |
                    0 <= k < candidates@.len() && candidates@[k] == m,
        decreases relays.len() - i,
    {
        let ghost oldc = candidates@;
        let is_distinct = !(relays[i].hostname == exclude.hostname);
        if is_distinct {
            candidates.push(i);
        }
        proof {
            assert forall|m: int|
                0 <= m < i + 1 && #[trigger] relays@[m].hostname@ != exclude.hostname@ implies
                exists|k: int| 0 <= k < candidates@.len() && candidates@[k] == m by {
                if m == i as int {
                    assert(candidates@[candidates@.len() - 1] == i as usize);
                } else {
                    let k = choose|k: int| 0 <= k < oldc.len() && oldc[k] == m;
                    assert(candidates@[k] == m);
                }
            }
        }
        i = i + 1;
    }
    if candidates.len() == 0 {
        proof {
            assert forall|m: int|
                0 <= m < relays@.len() implies #[trigger] relays@[m].hostname@
                == exclude.hostname@ by {
                if relays@[m].hostname@ != exclude.hostname@ {
                    assert(exists|k: int| 0 <= k < candidates@.len() && candidates@[k] == m);
                }
            }
        }
        return Option::None;
    }
    let pick = candidates[gen_index(candidates.len())];
    Option::Some(&relays[pick])
}

/// The matcher for a multihop exit relay: reached from the entry over its
/// IPv4 address, on any port.
pub fn wireguard_exit_matcher(wg: WireguardEndpointData) -> (r: WireguardMatcher)
    ensures
        r.peer is None,
        r.port is Any,
        r.ip_version == Constraint::<IpVersion>::Only(IpVersion::V4),
        r.data == wg,
{
    let mut tunnel = WireguardMatcher::from_endpoint(wg);
    tunnel.ip_version = Constraint::Only(IpVersion::V4);
    tunnel.port = Constraint::Any;
    tunnel
}

/// Whether the query's bridge settings call for a bridge at all: only
/// explicit normal or custom bridge settings do.
pub open spec fn should_use_bridge_spec(bridge_settings: Constraint<BridgeSettingsFilter>) -> bool {
    match bridge_settings {
        Constraint::Only(BridgeSettingsFilter::Normal(_)) => true,
        Constraint::Only(BridgeSettingsFilter::Custom(_)) => true,
        _ => false,
    }
}

/// Whether bridges are called for reads only the settings' view.
pub proof fn lemma_should_use_by_view(
    b1: Constraint<BridgeSettingsFilter>,
    b2: Constraint<BridgeSettingsFilter>,
)
    requires
        crate::constraint::cview(b1) == crate::constraint::cview(b2),
    ensures
        should_use_bridge_spec(b1) == should_use_bridge_spec(b2),
{
    match (b1, b2) {
        (Constraint::Any, Constraint::Any) => {},
        (Constraint::Only(x), Constraint::Only(y)) => {
            assert(x@ == y@);
            match (x, y) {
                (BridgeSettingsFilter::Off, BridgeSettingsFilter::Off) => {},
                (BridgeSettingsFilter::Auto, BridgeSettingsFilter::Auto) => {},
                (BridgeSettingsFilter::Normal(_), BridgeSettingsFilter::Normal(_)) => {},
                (BridgeSettingsFilter::Custom(_), BridgeSettingsFilter::Custom(_)) => {},
                _ => {
                    assert(false);
                },
            }
        },
        _ => {
            assert(false);
        },
    }
}

/// Returns whether the query's bridge settings call for a bridge.
pub fn should_use_bridge(bridge_settings: &Constraint<BridgeSettingsFilter>) -> (r: bool)
    ensures
        r == should_use_bridge_spec(*bridge_settings),
{
    match bridge_settings {
        Constraint::Only(BridgeSettingsFilter::Normal(_)) => true,
        Constraint::Only(BridgeSettingsFilter::Custom(_)) => true,
        _ => false,
    }
}

/// Whether the proxy is one of the block's shadowsocks endpoints bound to the
/// relay's IPv4 address.
pub open spec fn shadowsocks_from_block(
    block: Seq<crate::relay_list::ShadowsocksEndpointData>,
    relay: Relay,
    proxy: CustomProxy,
) -> bool {
    exists|i: int|
        0 <= i < block.len() && proxy == CustomProxy::Shadowsocks(
            Shadowsocks {
                endpoint: SocketAddress {
                    ip: IpAddress::V4(relay.ipv4_addr_in),
                    port: (#[trigger] block[i]).port,
                },
                cipher: block[i].cipher,
                password: block[i].password,
            },
        )
}

/// Picks a uniform shadowsocks endpoint of the bridge block and binds it to
/// the relay's IPv4 address. Returns `None` when the relay is no bridge or
/// the block is empty.
pub fn pick_random_bridge(data: &BridgeEndpointData, relay: &Relay) -> (r: Option<CustomProxy>)
    ensures
        match r {
            Option::None => !relay.endpoint_data.is_bridge() || data.shadowsocks@.len() == 0,
            Option::Some(proxy) => relay.endpoint_data.is_bridge() && shadowsocks_from_block(
                data.shadowsocks@,
                *relay,
                proxy,
            ),
        },
{
    if !filter_bridge_relay(relay) {
        return Option::None;
    }
    if data.shadowsocks.len() == 0 {
        return Option::None;
    }
    let idx = gen_index(data.shadowsocks.len());
    let endpoint_data = &data.shadowsocks[idx];
    let proxy = endpoint_data.to_proxy_settings(IpAddress::V4(relay.ipv4_addr_in));
    Option::Some(proxy)
}

/// Returns whether the relay is a bridge.
fn filter_bridge_relay(relay: &Relay) -> (r: bool)
    ensures
        r == relay.endpoint_data.is_bridge(),
{
    matches!(relay.endpoint_data, crate::relay_list::RelayEndpointData::Bridge)
}

/// Returns whether some relay of the slice shares the given relay's hostname.
pub fn contains_hostname(relays: &Vec<Relay>, relay: &Relay) -> (r: bool)
    ensures
        r == exists|i: int|
            0 <= i < relays@.len() && (#[trigger] relays@[i]).hostname@ == relay.hostname@,
{
    let mut i: usize = 0;
    while i < relays.len()
        invariant
            i <= relays.len(),
            forall|m: int| 0 <= m < i ==> (#[trigger] relays@[m]).hostname@ != relay.hostname@,
        decreases relays.len() - i,
    {
        if relays[i].hostname == relay.hostname {
            proof {
                assert(relays@[i as int].hostname@ == relay.hostname@);
            }
            return true;
        }
        i = i + 1;
    }
    false
}

/// The port an obfuscation settings constraint pins, if any.
pub open spec fn pinned_udp2tcp_port(c: Constraint<Udp2TcpObfuscationSettings>) -> Constraint<u16> {
    match c {
        Constraint::Any => Constraint::Any,
        Constraint::Only(s) => s.port,
    }
}

/// What selecting a udp2tcp obfuscator yields: a selection fails exactly when
/// the pinned port is not offered, or nothing is offered at all; a selected
/// obfuscator reshapes traffic towards the peer's address on an offered port,
/// the pinned one when one is pinned.
pub open spec fn udp2tcp_obfuscator_spec(
    c: Constraint<Udp2TcpObfuscationSettings>,
    ports: Seq<u16>,
    relay: Relay,
    endpoint: MullvadWireguardEndpoint,
    r: Option<SelectedObfuscator>,
) -> bool {
    match r {
        Option::None => match pinned_udp2tcp_port(c) {
            Constraint::Only(p) => !ports.contains(p),
            Constraint::Any => ports.len() == 0,
        },
        Option::Some(ob) => ob.relay == relay && match ob.config {
            ObfuscatorConfig::Udp2Tcp { endpoint: se } => se.ip == endpoint.peer.endpoint.ip
                && ports.contains(se.port) && match pinned_udp2tcp_port(c) {
                Constraint::Only(p) => se.port == p,
                Constraint::Any => true,
            },
        },
    }
}

/// Selects a udp2tcp obfuscator: the pinned port when it is offered, a
/// uniform offered port otherwise; fails exactly when the pinned port is not
/// offered or nothing is offered.
pub fn get_udp2tcp_obfuscator(
    udp2tcp_port_constraint: &Constraint<Udp2TcpObfuscationSettings>,
    udp2tcp_ports: &Vec<u16>,
    relay: Relay,
    endpoint: &MullvadWireguardEndpoint,
) -> (r: Option<SelectedObfuscator>)
    ensures
        udp2tcp_obfuscator_spec(*udp2tcp_port_constraint, udp2tcp_ports@, relay, *endpoint, r),
{
    let pinned = match udp2tcp_port_constraint {
        Constraint::Any => Constraint::Any,
        Constraint::Only(s) => s.port,
    };
    let port = match pinned {
        Constraint::Only(p) => {
            let mut i: usize = 0;
            let mut found = false;
            while i < udp2tcp_ports.len()
                invariant
                    i <= udp2tcp_ports.len(),
                    found == exists|m: int| 0 <= m < i && udp2tcp_ports@[m] == p,
                decreases udp2tcp_ports.len() - i,
            {
                if udp2tcp_ports[i] == p {
                    found = true;
                }
                i = i + 1;
            }
            proof {
                assert(found == udp2tcp_ports@.contains(p));
            }
            if found {
                p
            } else {
                return Option::None;
            }
        },
        Constraint::Any => {
            if udp2tcp_ports.len() == 0 {
                return Option::None;
            }
            let k = gen_index(udp2tcp_ports.len());
            proof {
                assert(udp2tcp_ports@.contains(udp2tcp_ports@[k as int]));
            }
            udp2tcp_ports[k]
        },
    };
    Option::Some(
        SelectedObfuscator {
            config: ObfuscatorConfig::Udp2Tcp {
                endpoint: SocketAddress { ip: endpoint.peer.endpoint.ip, port },
            },
            relay,
        },
    )
}

} // verus!
