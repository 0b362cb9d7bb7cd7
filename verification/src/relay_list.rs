//! The relay catalog: the typed representation of the relay list, and
//! [`ParsedRelays`], the indexed view of it with per-relay overrides applied.

use vstd::prelude::*;

use crate::net::TransportProtocol;
use crate::net::IpAddress;
use crate::net::SocketAddress;
use crate::net::CustomProxy;
use crate::net::Shadowsocks;

verus! {

/// The geographic location of a relay.
#[derive(Debug)]
pub struct Location {
    pub country: String,
    pub country_code: String,
    pub city: String,
    pub city_code: String,
    /// Latitude in millionths of a degree.
    pub latitude: i64,
    /// Longitude in millionths of a degree.
    pub longitude: i64,
}

impl Clone for Location {
    fn clone(&self) -> (r: Self)
        ensures
            r == *self,
    {
        Location {
            country: self.country.clone(),
            country_code: self.country_code.clone(),
            city: self.city.clone(),
            city_code: self.city_code.clone(),
            latitude: self.latitude,
            longitude: self.longitude,
        }
    }
}

/// Data specific to WireGuard relays: the relay's public key.
#[derive(Debug)]
pub struct WireguardRelayEndpointData {
    /// The relay's public key, in its textual (base64) form.
    pub public_key: String,
}

/// The endpoint-kind tagged payload of a relay.
#[derive(Debug)]
pub enum RelayEndpointData {
    Openvpn,
    Bridge,
    Wireguard(WireguardRelayEndpointData),
}

impl Clone for RelayEndpointData {
    fn clone(&self) -> (r: Self)
        ensures
            r == *self,
    {
        match self {
            RelayEndpointData::Openvpn => RelayEndpointData::Openvpn,
            RelayEndpointData::Bridge => RelayEndpointData::Bridge,
            RelayEndpointData::Wireguard(d) => RelayEndpointData::Wireguard(
                WireguardRelayEndpointData { public_key: d.public_key.clone() },
            ),
        }
    }
}

impl RelayEndpointData {
    /// Whether the payload is the WireGuard variant.
    pub open spec fn is_wireguard(&self) -> bool {
        matches!(self, RelayEndpointData::Wireguard(_))
    }

    /// Whether the payload is the OpenVPN variant.
    pub open spec fn is_openvpn(&self) -> bool {
        matches!(self, RelayEndpointData::Openvpn)
    }

    /// Whether the payload is the bridge variant.
    pub open spec fn is_bridge(&self) -> bool {
        matches!(self, RelayEndpointData::Bridge)
    }
}

/// A single server in the provider's fleet.
#[derive(Debug)]
pub struct Relay {
    /// The relay's hostname; relays are identified by it.
    pub hostname: String,
    /// The 32-bit value of the relay's IPv4 address.
    pub ipv4_addr_in: u32,
    /// The 128-bit value of the relay's IPv6 address, if it has one.
    pub ipv6_addr_in: Option<u128>,
    /// Whether the relay is shown as part of its country; relays with `false`
    /// are second-class and only used when no first-class relay matches.
    pub include_in_country: bool,
    pub active: bool,
    pub owned: bool,
    pub provider: String,
    /// Static selection weight; higher is more likely.
    pub weight: u64,
    /// Filled in from the countries/cities tree when the list is parsed.
    pub location: Option<Location>,
    pub endpoint_data: RelayEndpointData,
}

impl Clone for Relay {
    fn clone(&self) -> (r: Self)
        ensures
            r == *self,
    {
        Relay {
            hostname: self.hostname.clone(),
            ipv4_addr_in: self.ipv4_addr_in,
            ipv6_addr_in: self.ipv6_addr_in,
            include_in_country: self.include_in_country,
            active: self.active,
            owned: self.owned,
            provider: self.provider.clone(),
            weight: self.weight,
            location: match &self.location {
                Option::None => Option::None,
                Option::Some(l) => Option::Some(l.clone()),
            },
            endpoint_data: self.endpoint_data.clone(),
        }
    }
}

/// A city of the catalog's countries/cities/relays tree.
#[derive(Debug)]
pub struct City {
    pub name: String,
    pub code: String,
    /// Latitude in millionths of a degree.
    pub latitude: i64,
    /// Longitude in millionths of a degree.
    pub longitude: i64,
    pub relays: Vec<Relay>,
}

/// A country of the catalog's countries/cities/relays tree.
#[derive(Debug)]
pub struct Country {
    pub name: String,
    pub code: String,
    pub cities: Vec<City>,
}

/// A discrete OpenVPN port/protocol pair offered by the catalog.
#[derive(Clone, Copy, Debug, PartialEq, Eq, Structural)]
pub struct OpenVpnEndpoint {
    pub port: u16,
    pub protocol: TransportProtocol,
}

/// The catalog's OpenVPN block.
#[derive(Debug)]
pub struct OpenVpnEndpointData {
    pub ports: Vec<OpenVpnEndpoint>,
}

impl Clone for OpenVpnEndpointData {
    fn clone(&self) -> (r: Self)
        ensures
            r.ports@ == self.ports@,
    {
        let mut ports: Vec<OpenVpnEndpoint> = Vec::new();
        let mut i: usize = 0;
        while i < self.ports.len()
            invariant
                i <= self.ports.len(),
                ports@ == self.ports@.subrange(0, i as int),
            decreases self.ports.len() - i,
        {
            ports.push(self.ports[i]);
            i = i + 1;
            proof {
                assert(ports@ =~= self.ports@.subrange(0, i as int));
            }
        }
        proof {
            assert(ports@ =~= self.ports@);
        }
        OpenVpnEndpointData { ports }
    }
}

/// A shadowsocks endpoint offered by the catalog's bridge block.
#[derive(Debug)]
pub struct ShadowsocksEndpointData {
    pub port: u16,
    pub cipher: String,
    pub password: String,
    pub protocol: TransportProtocol,
}

impl ShadowsocksEndpointData {
    /// Turns the catalog entry into proxy settings against the given address.
    pub fn to_proxy_settings(&self, addr: IpAddress) -> (r: CustomProxy)
        ensures
            r == CustomProxy::Shadowsocks(
                Shadowsocks {
                    endpoint: SocketAddress { ip: addr, port: self.port },
                    cipher: self.cipher,
                    password: self.password,
                },
            ),
    {
        CustomProxy::Shadowsocks(
            Shadowsocks {
                endpoint: SocketAddress { ip: addr, port: self.port },
                cipher: self.cipher.clone(),
                password: self.password.clone(),
            },
        )
    }
}

/// The catalog's bridge block.
#[derive(Debug)]
pub struct BridgeEndpointData {
    pub shadowsocks: Vec<ShadowsocksEndpointData>,
}

/// The catalog's WireGuard block.
#[derive(Debug)]
pub struct WireguardEndpointData {
    /// Inclusive port ranges usable for WireGuard.
    pub port_ranges: Vec<(u16, u16)>,
    /// The 32-bit value of the IPv4 gateway address.
    pub ipv4_gateway: u32,
    /// The 128-bit value of the IPv6 gateway address.
    pub ipv6_gateway: u128,
    /// Ports usable for udp2tcp obfuscation.
    pub udp2tcp_ports: Vec<u16>,
}

impl Clone for WireguardEndpointData {
    fn clone(&self) -> (r: Self)
        ensures
            r.port_ranges@ == self.port_ranges@,
            r.ipv4_gateway == self.ipv4_gateway,
            r.ipv6_gateway == self.ipv6_gateway,
            r.udp2tcp_ports@ == self.udp2tcp_ports@,
    {
        let mut port_ranges: Vec<(u16, u16)> = Vec::new();
        let mut i: usize = 0;
        while i < self.port_ranges.len()
            invariant
                i <= self.port_ranges.len(),
                port_ranges@ == self.port_ranges@.subrange(0, i as int),
            decreases self.port_ranges.len() - i,
        {
            port_ranges.push(self.port_ranges[i]);
            i = i + 1;
            proof {
                assert(port_ranges@ =~= self.port_ranges@.subrange(0, i as int));
            }
        }
        let mut udp2tcp_ports: Vec<u16> = Vec::new();
        let mut j: usize = 0;
        while j < self.udp2tcp_ports.len()
            invariant
                j <= self.udp2tcp_ports.len(),
                udp2tcp_ports@ == self.udp2tcp_ports@.subrange(0, j as int),
            decreases self.udp2tcp_ports.len() - j,
        {
            udp2tcp_ports.push(self.udp2tcp_ports[j]);
            j = j + 1;
            proof {
                assert(udp2tcp_ports@ =~= self.udp2tcp_ports@.subrange(0, j as int));
            }
        }
        proof {
            assert(port_ranges@ =~= self.port_ranges@);
            assert(udp2tcp_ports@ =~= self.udp2tcp_ports@);
        }
        WireguardEndpointData {
            port_ranges,
            ipv4_gateway: self.ipv4_gateway,
            ipv6_gateway: self.ipv6_gateway,
            udp2tcp_ports,
        }
    }
}

/// The full catalog: the countries tree plus the per-kind endpoint blocks.
#[derive(Debug)]
pub struct RelayList {
    pub countries: Vec<Country>,
    pub openvpn: OpenVpnEndpointData,
    pub bridge: BridgeEndpointData,
    pub wireguard: WireguardEndpointData,
}

impl RelayList {
    /// An empty catalog.
    pub fn empty() -> (r: RelayList)
        ensures
            r.countries@ == Seq::<Country>::empty(),
            r.openvpn.ports@ == Seq::<OpenVpnEndpoint>::empty(),
            r.bridge.shadowsocks@ == Seq::<ShadowsocksEndpointData>::empty(),
            r.wireguard.port_ranges@ == Seq::<(u16, u16)>::empty(),
            r.wireguard.udp2tcp_ports@ == Seq::<u16>::empty(),
    {
        RelayList {
            countries: Vec::new(),
            openvpn: OpenVpnEndpointData { ports: Vec::new() },
            bridge: BridgeEndpointData { shadowsocks: Vec::new() },
            wireguard: WireguardEndpointData {
                port_ranges: Vec::new(),
                ipv4_gateway: 0,
                ipv6_gateway: 0,
                udp2tcp_ports: Vec::new(),
            },
        }
    }
}

/// Options that replace a particular relay's addresses.
#[derive(Debug)]
pub struct RelayOverride {
    /// Hostname of the relay whose options to override.
    pub hostname: String,
    /// IPv4 address to use instead of the catalog's.
    pub ipv4_addr_in: Option<u32>,
    /// IPv6 address to use instead of the catalog's.
    pub ipv6_addr_in: Option<u128>,
}

impl Clone for RelayOverride {
    fn clone(&self) -> (r: Self)
        ensures
            r == *self,
    {
        RelayOverride {
            hostname: self.hostname.clone(),
            ipv4_addr_in: self.ipv4_addr_in,
            ipv6_addr_in: self.ipv6_addr_in,
        }
    }
}

/// The result of applying one override to one relay: the addresses the
/// override carries are replaced, everything else is kept.
pub open spec fn apply_override_spec(r: Relay, o: RelayOverride) -> Relay {
    Relay {
        ipv4_addr_in: match o.ipv4_addr_in {
            Option::Some(a) => a,
            Option::None => r.ipv4_addr_in,
        },
        ipv6_addr_in: match o.ipv6_addr_in {
            Option::Some(a) => Option::Some(a),
            Option::None => r.ipv6_addr_in,
        },
        ..r
    }
}

/// The result of applying, in order, each override whose hostname names the
/// relay: the parsed list keys overrides by hostname.
pub open spec fn apply_overrides_spec(r: Relay, os: Seq<RelayOverride>) -> Relay
    decreases os.len(),
{
    if os.len() == 0 {
        r
    } else {
        let next = if os[0].hostname@ == r.hostname@ {
            apply_override_spec(r, os[0])
        } else {
            r
        };
        apply_overrides_spec(next, os.skip(1))
    }
}

impl RelayOverride {
    /// An override that changes nothing for the given hostname.
    pub fn empty(hostname: String) -> (r: RelayOverride)
        ensures
            r.hostname == hostname,
            r.ipv4_addr_in is None,
            r.ipv6_addr_in is None,
    {
        RelayOverride { hostname, ipv4_addr_in: Option::None, ipv6_addr_in: Option::None }
    }

    /// Returns whether the override changes nothing.
    pub fn is_empty(&self) -> (r: bool)
        ensures
            r == (self.ipv4_addr_in is None && self.ipv6_addr_in is None),
    {
        self.ipv4_addr_in.is_none() && self.ipv6_addr_in.is_none()
    }

    /// Replaces the relay's addresses with the ones the override carries,
    /// whatever relay it is handed; picking the override that names a relay
    /// is its caller's business.
    pub fn apply_to_relay(&self, relay: &mut Relay)
        ensures
            *final(relay) == apply_override_spec(*old(relay), *self),
    {
        if let Option::Some(ipv4_addr_in) = self.ipv4_addr_in {
            relay.ipv4_addr_in = ipv4_addr_in;
        }
        if let Option::Some(ipv6_addr_in) = self.ipv6_addr_in {
            relay.ipv6_addr_in = Option::Some(ipv6_addr_in);
        }
    }
}

/// The relay as it stands in the parsed list: its location filled in from the
/// country and city that hold it in the tree.
pub open spec fn located_spec(c: Country, ci: City, r: Relay) -> Relay {
    Relay {
        location: Option::Some(
            Location {
                country: c.name,
                country_code: c.code,
                city: ci.name,
                city_code: ci.code,
                latitude: ci.latitude,
                longitude: ci.longitude,
            },
        ),
        ..r
    }
}

/// The relays of one city, each with its location filled in.
pub open spec fn city_relays_spec(c: Country, ci: City) -> Seq<Relay> {
    ci.relays@.map_values(|r: Relay| located_spec(c, ci, r))
}

/// The relays of the first `n` cities of one country, in tree order.
pub open spec fn country_relays_spec(c: Country, n: int) -> Seq<Relay>
    decreases n,
{
    if n <= 0 {
        Seq::empty()
    } else {
        country_relays_spec(c, n - 1) + city_relays_spec(c, c.cities@[n - 1])
    }
}

/// The relays of the first `n` countries, in tree order.
pub open spec fn countries_relays_spec(cs: Seq<Country>, n: int) -> Seq<Relay>
    decreases n,
{
    if n <= 0 {
        Seq::empty()
    } else {
        countries_relays_spec(cs, n - 1) + country_relays_spec(
            cs[n - 1],
            cs[n - 1].cities@.len() as int,
        )
    }
}

/// All relays of the catalog, in tree order, with locations filled in.
pub open spec fn catalog_relays(list: RelayList) -> Seq<Relay> {
    countries_relays_spec(list.countries@, list.countries@.len() as int)
}

/// All relays of the catalog with the given overrides applied.
pub open spec fn parsed_relays_spec(list: RelayList, os: Seq<RelayOverride>) -> Seq<Relay> {
    catalog_relays(list).map_values(|r: Relay| apply_overrides_spec(r, os))
}

/// Whether every relay of the sequence carries a location, as all parsed
/// relays do.
pub open spec fn relays_located(rs: Seq<Relay>) -> bool {
    forall|i: int| 0 <= i < rs.len() ==> (#[trigger] rs[i]).location is Some
}

/// Overrides never unset a relay's location.
proof fn lemma_apply_overrides_keeps_location(r: Relay, os: Seq<RelayOverride>)
    ensures
        apply_overrides_spec(r, os).location == r.location,
    decreases os.len(),
{
    if os.len() > 0 {
        let next = if os[0].hostname@ == r.hostname@ {
            apply_override_spec(r, os[0])
        } else {
            r
        };
        lemma_apply_overrides_keeps_location(next, os.skip(1));
    }
}

/// The relays of one country's first `n` cities all carry a location.
proof fn lemma_country_relays_located(c: Country, n: int)
    requires
        0 <= n <= c.cities@.len(),
    ensures
        relays_located(country_relays_spec(c, n)),
    decreases n,
{
    if n > 0 {
        lemma_country_relays_located(c, n - 1);
        assert forall|i: int|
            0 <= i < country_relays_spec(c, n).len() implies (#[trigger] country_relays_spec(
            c,
            n,
        )[i]).location is Some by {
            let prev = country_relays_spec(c, n - 1);
            if i >= prev.len() {
                assert(country_relays_spec(c, n)[i] == city_relays_spec(c, c.cities@[n - 1])[i
                    - prev.len()]);
            }
        }
    }
}

/// Every parsed relay carries a location: the tree fills it in, and overrides
/// keep it.
pub proof fn lemma_parsed_relays_located(list: RelayList, os: Seq<RelayOverride>)
    ensures
        relays_located(parsed_relays_spec(list, os)),
{
    lemma_countries_relays_located(list.countries@, list.countries@.len() as int);
    let base = catalog_relays(list);
    let out = parsed_relays_spec(list, os);
    assert forall|i: int| 0 <= i < out.len() implies (#[trigger] out[i]).location is Some by {
        assert(out[i] == apply_overrides_spec(base[i], os));
        lemma_apply_overrides_keeps_location(base[i], os);
    }
}

/// The relays of the first `n` countries all carry a location.
proof fn lemma_countries_relays_located(cs: Seq<Country>, n: int)
    requires
        0 <= n <= cs.len(),
    ensures
        relays_located(countries_relays_spec(cs, n)),
    decreases n,
{
    if n > 0 {
        lemma_countries_relays_located(cs, n - 1);
        lemma_country_relays_located(cs[n - 1], cs[n - 1].cities@.len() as int);
        assert forall|i: int|
            0 <= i < countries_relays_spec(cs, n).len() implies (#[trigger] countries_relays_spec(
            cs,
            n,
        )[i]).location is Some by {
            let prev = countries_relays_spec(cs, n - 1);
            if i >= prev.len() {
                assert(countries_relays_spec(cs, n)[i] == country_relays_spec(
                    cs[n - 1],
                    cs[n - 1].cities@.len() as int,
                )[i - prev.len()]);
            }
        }
    }
}

/// Whether no two relays of the sequence share a hostname.
pub open spec fn hostnames_unique(rs: Seq<Relay>) -> bool {
    forall|i: int, j: int|
        0 <= i < j < rs.len() ==> rs[i].hostname@ != rs[j].hostname@
}

/// Applying one more override at the end folds onto the result so far, when
/// its hostname names the relay; otherwise it changes nothing. An override
/// never changes the hostname, so the fold keys on the original's.
proof fn lemma_apply_overrides_push(r: Relay, os: Seq<RelayOverride>, o: RelayOverride)
    ensures
        apply_overrides_spec(r, os.push(o)) == (if o.hostname@ == r.hostname@ {
            apply_override_spec(apply_overrides_spec(r, os), o)
        } else {
            apply_overrides_spec(r, os)
        }),
        apply_overrides_spec(r, os).hostname == r.hostname,
    decreases os.len(),
{
    if os.len() == 0 {
        assert(os.push(o).skip(1) =~= Seq::<RelayOverride>::empty());
        assert(os.push(o)[0] == o);
        assert(apply_overrides_spec(r, os) == r);
        let next0 = if o.hostname@ == r.hostname@ {
            apply_override_spec(r, o)
        } else {
            r
        };
        assert(apply_overrides_spec(r, os.push(o)) == apply_overrides_spec(
            next0,
            os.push(o).skip(1),
        ));
        assert(apply_overrides_spec(next0, Seq::<RelayOverride>::empty()) == next0);
        assert(apply_override_spec(r, o).hostname == r.hostname);
    } else {
        assert(os.push(o)[0] == os[0]);
        assert(os.push(o).skip(1) =~= os.skip(1).push(o));
        let next = if os[0].hostname@ == r.hostname@ {
            apply_override_spec(r, os[0])
        } else {
            r
        };
        assert(next.hostname == r.hostname);
        lemma_apply_overrides_push(next, os.skip(1), o);
        assert(apply_overrides_spec(r, os.push(o)) == apply_overrides_spec(
            next,
            os.skip(1).push(o),
        ));
        assert(apply_overrides_spec(r, os) == apply_overrides_spec(next, os.skip(1)));
    }
}

/// Applies, in order, each override whose hostname names the relay.
fn apply_all_overrides(relay: &mut Relay, overrides: &Vec<RelayOverride>)
    ensures
        *final(relay) == apply_overrides_spec(*old(relay), overrides@),
{
    let ghost orig: Relay = *relay;
    let mut m: usize = 0;
    proof {
        assert(overrides@.take(0) =~= Seq::<RelayOverride>::empty());
    }
    while m < overrides.len()
        invariant
            m <= overrides.len(),
            *relay == apply_overrides_spec(orig, overrides@.take(m as int)),
        decreases overrides.len() - m,
    {
        proof {
            assert(overrides@.take(m + 1 as int) =~= overrides@.take(m as int).push(overrides@[m as int]));
            lemma_apply_overrides_push(orig, overrides@.take(m as int), overrides@[m as int]);
        }
        if overrides[m].hostname == relay.hostname {
            overrides[m].apply_to_relay(relay);
        }
        m = m + 1;
    }
    proof {
        assert(overrides@.take(overrides@.len() as int) =~= overrides@);
    }
}

/// Flattens the catalog tree into the parsed relay list: locations filled in,
/// overrides applied, tree order kept.
fn compute_parsed_relays(list: &RelayList, overrides: &Vec<RelayOverride>) -> (r: Vec<Relay>)
    ensures
        r@ == parsed_relays_spec(*list, overrides@),
{
    let ghost cs: Seq<Country> = list.countries@;
    let ghost ap = |r: Relay| apply_overrides_spec(r, overrides@);
    let mut out: Vec<Relay> = Vec::new();
    let mut i: usize = 0;
    proof {
        assert(out@ =~= countries_relays_spec(cs, 0).map_values(ap));
    }
    while i < list.countries.len()
        invariant
            i <= list.countries.len(),
            cs == list.countries@,
            ap == (|r: Relay| apply_overrides_spec(r, overrides@)),
            out@ == countries_relays_spec(cs, i as int).map_values(ap),
        decreases list.countries.len() - i,
    {
        let country = &list.countries[i];
        let mut j: usize = 0;
        while j < country.cities.len()
            invariant
                i < list.countries.len(),
                j <= country.cities.len(),
                cs == list.countries@,
                country == &list.countries[i as int],
                ap == (|r: Relay| apply_overrides_spec(r, overrides@)),
                out@ == (countries_relays_spec(cs, i as int) + country_relays_spec(
                    *country,
                    j as int,
                )).map_values(ap),
            decreases country.cities.len() - j,
        {
            let city = &country.cities[j];
            let mut k: usize = 0;
            while k < city.relays.len()
                invariant
                    i < list.countries.len(),
                    j < country.cities.len(),
                    k <= city.relays.len(),
                    cs == list.countries@,
                    country == &list.countries[i as int],
                    city == &country.cities[j as int],
                    ap == (|r: Relay| apply_overrides_spec(r, overrides@)),
                    out@ == (countries_relays_spec(cs, i as int) + country_relays_spec(
                        *country,
                        j as int,
                    ) + city_relays_spec(*country, *city).take(k as int)).map_values(ap),
                decreases city.relays.len() - k,
            {
                let mut relay = city.relays[k].clone();
                relay.location = Option::Some(
                    Location {
                        country: country.name.clone(),
                        country_code: country.code.clone(),
                        city: city.name.clone(),
                        city_code: city.code.clone(),
                        latitude: city.latitude,
                        longitude: city.longitude,
                    },
                );
                proof {
                    assert(relay == located_spec(*country, *city, city.relays@[k as int]));
                }
                apply_all_overrides(&mut relay, overrides);
                out.push(relay);
                proof {
                    assert(city_relays_spec(*country, *city).take(k + 1 as int)
                        =~= city_relays_spec(*country, *city).take(k as int).push(
                        located_spec(*country, *city, city.relays@[k as int]),
                    ));
                    assert((countries_relays_spec(cs, i as int) + country_relays_spec(
                        *country,
                        j as int,
                    ) + city_relays_spec(*country, *city).take(k + 1 as int)).map_values(ap)
                        =~= (countries_relays_spec(cs, i as int) + country_relays_spec(
                        *country,
                        j as int,
                    ) + city_relays_spec(*country, *city).take(k as int)).map_values(ap).push(
                        ap(located_spec(*country, *city, city.relays@[k as int])),
                    ));
                }
                k = k + 1;
            }
            proof {
                assert(city_relays_spec(*country, *city).take(city.relays@.len() as int)
                    =~= city_relays_spec(*country, *city));
                assert(country_relays_spec(*country, j + 1 as int) == country_relays_spec(
                    *country,
                    j as int,
                ) + city_relays_spec(*country, country.cities@[j as int]));
                assert((countries_relays_spec(cs, i as int) + country_relays_spec(
                    *country,
                    j + 1 as int,
                )) =~= (countries_relays_spec(cs, i as int) + country_relays_spec(
                    *country,
                    j as int,
                ) + city_relays_spec(*country, *city)));
            }
            j = j + 1;
        }
        proof {
            assert(countries_relays_spec(cs, i + 1 as int) =~= countries_relays_spec(cs, i as int)
                + country_relays_spec(cs[i as int], cs[i as int].cities@.len() as int));
        }
        i = i + 1;
    }
    proof {
        assert(out@ =~= parsed_relays_spec(*list, overrides@));
    }
    out
}

/// The indexed view of the relay list: locations filled in from the tree and
/// per-relay overrides applied. Overrides are re-applied whenever either the
/// list or the overrides change.
pub struct ParsedRelays {
    pub list: RelayList,
    pub overrides: Vec<RelayOverride>,
    pub relays: Vec<Relay>,
    pub last_updated: u64,
    pub etag: Option<String>,
}

impl ParsedRelays {
    /// The parsed relays are exactly the catalog's relays with locations
    /// filled in and overrides applied.
    pub open spec fn wf(&self) -> bool {
        self.relays@ == parsed_relays_spec(self.list, self.overrides@)
    }

    /// The catalog as delivered, without overrides.
    pub open spec fn spec_list(&self) -> RelayList {
        self.list
    }

    /// The overrides currently applied.
    pub open spec fn spec_overrides(&self) -> Seq<RelayOverride> {
        self.overrides@
    }

    /// The parsed relay sequence.
    pub open spec fn spec_relays(&self) -> Seq<Relay> {
        self.relays@
    }

    /// An empty catalog.
    pub fn empty() -> (r: ParsedRelays)
        ensures
            r.wf(),
            r.spec_relays() == Seq::<Relay>::empty(),
            r.spec_list().countries@.len() == 0,
            r.last_updated == 0,
    {
        let r = ParsedRelays {
            list: RelayList::empty(),
            overrides: Vec::new(),
            relays: Vec::new(),
            last_updated: 0,
            etag: Option::None,
        };
        proof {
            assert(catalog_relays(r.list) =~= Seq::<Relay>::empty());
            assert(r.relays@ =~= parsed_relays_spec(r.list, r.overrides@));
        }
        r
    }

    /// Builds the indexed view from a relay list, a timestamp, and the
    /// overrides to apply.
    pub fn from_relay_list(
        relay_list: RelayList,
        last_updated: u64,
        overrides: &Vec<RelayOverride>,
    ) -> (r: ParsedRelays)
        ensures
            r.wf(),
            r.spec_list() == relay_list,
            r.spec_overrides() == overrides@,
            r.last_updated == last_updated,
    {
        let relays = compute_parsed_relays(&relay_list, overrides);
        let mut ovs: Vec<RelayOverride> = Vec::new();
        let mut m: usize = 0;
        while m < overrides.len()
            invariant
                m <= overrides.len(),
                ovs@ == overrides@.subrange(0, m as int),
            decreases overrides.len() - m,
        {
            ovs.push(overrides[m].clone());
            proof {
                assert(ovs@ =~= overrides@.subrange(0, m + 1 as int));
            }
            m = m + 1;
        }
        proof {
            assert(ovs@ =~= overrides@);
        }
        ParsedRelays { list: relay_list, overrides: ovs, relays, last_updated, etag: Option::None }
    }

    /// Replaces the catalog, keeping the overrides and re-applying them.
    pub fn update(&mut self, new_list: RelayList, now: u64)
        ensures
            final(self).wf(),
            final(self).spec_list() == new_list,
            final(self).spec_overrides() == old(self).spec_overrides(),
            final(self).last_updated == now,
    {
        self.relays = compute_parsed_relays(&new_list, &self.overrides);
        self.list = new_list;
        self.last_updated = now;
    }

    /// Replaces the overrides and re-applies them to the kept catalog.
    pub fn set_overrides(&mut self, relay_overrides: &Vec<RelayOverride>)
        ensures
            final(self).wf(),
            final(self).spec_list() == old(self).spec_list(),
            final(self).spec_overrides() == relay_overrides@,
            final(self).last_updated == old(self).last_updated,
    {
        let mut ovs: Vec<RelayOverride> = Vec::new();
        let mut m: usize = 0;
        while m < relay_overrides.len()
            invariant
                m <= relay_overrides.len(),
                ovs@ == relay_overrides@.subrange(0, m as int),
            decreases relay_overrides.len() - m,
        {
            ovs.push(relay_overrides[m].clone());
            proof {
                assert(ovs@ =~= relay_overrides@.subrange(0, m + 1 as int));
            }
            m = m + 1;
        }
        proof {
            assert(ovs@ =~= relay_overrides@);
        }
        self.relays = compute_parsed_relays(&self.list, &ovs);
        self.overrides = ovs;
    }

    /// All parsed relays, in tree order.
    pub fn relays(&self) -> (r: &Vec<Relay>)
        ensures
            r@ == self.spec_relays(),
    {
        &self.relays
    }

    /// The catalog whose endpoint blocks selection reads.
    pub fn parsed_list(&self) -> (r: &RelayList)
        ensures
            r == &self.spec_list(),
    {
        &self.list
    }

    /// The catalog as delivered.
    pub fn original_list(&self) -> (r: &RelayList)
        ensures
            r == &self.spec_list(),
    {
        &self.list
    }

    /// When the catalog was last replaced, as seconds of the caller's clock.
    pub fn last_updated(&self) -> (r: u64)
        ensures
            r == self.last_updated,
    {
        self.last_updated
    }

    /// The entity tag of the catalog, if one was recorded.
    pub fn etag(&self) -> (r: Option<&String>)
        ensures
            match r {
                Option::Some(e) => self.etag is Some && e == &self.etag->0,
                Option::None => self.etag is None,
            },
    {
        self.etag.as_ref()
    }
}

} // verus!
