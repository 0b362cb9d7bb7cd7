//! Location constraints: geographic constraints, custom lists, and the
//! resolved form that the matchers consume.

use vstd::prelude::*;

use crate::constraint::Constraint;
use crate::relay_list::Relay;

verus! {

/// A two letter country code.
pub type CountryCode = String;

/// A city code.
pub type CityCode = String;

/// A relay hostname.
pub type Hostname = String;

/// Limits relays by location: a country, a city, or a single host.
#[derive(Debug)]
pub enum GeographicLocationConstraint {
    /// A country, by its two letter country code.
    Country(CountryCode),
    /// A city, by country code and city code.
    City(CountryCode, CityCode),
    /// A single hostname in a given city.
    Hostname(CountryCode, CityCode, Hostname),
}

/// The view of a [`GeographicLocationConstraint`].
pub enum GeographicLocationConstraintView {
    Country(Seq<char>),
    City(Seq<char>, Seq<char>),
    Hostname(Seq<char>, Seq<char>, Seq<char>),
}

impl View for GeographicLocationConstraint {
    type V = GeographicLocationConstraintView;

    open spec fn view(&self) -> GeographicLocationConstraintView {
        match self {
            GeographicLocationConstraint::Country(c) => GeographicLocationConstraintView::Country(
                c@,
            ),
            GeographicLocationConstraint::City(c, ci) => GeographicLocationConstraintView::City(
                c@,
                ci@,
            ),
            GeographicLocationConstraint::Hostname(
                c,
                ci,
                h,
            ) => GeographicLocationConstraintView::Hostname(c@, ci@, h@),
        }
    }
}

impl Clone for GeographicLocationConstraint {
    fn clone(&self) -> (r: Self)
        ensures
            r == *self,
    {
        match self {
            GeographicLocationConstraint::Country(c) => GeographicLocationConstraint::Country(
                c.clone(),
            ),
            GeographicLocationConstraint::City(c, ci) => GeographicLocationConstraint::City(
                c.clone(),
                ci.clone(),
            ),
            GeographicLocationConstraint::Hostname(
                c,
                ci,
                h,
            ) => GeographicLocationConstraint::Hostname(c.clone(), ci.clone(), h.clone()),
        }
    }
}

/// Returns whether two geographic constraints are the same place.
pub fn geographic_eq(a: &GeographicLocationConstraint, b: &GeographicLocationConstraint) -> (r:
    bool)
    ensures
        r == (a@ == b@),
{
    match (a, b) {
        (
            GeographicLocationConstraint::Country(c1),
            GeographicLocationConstraint::Country(c2),
        ) => {
            let r = *c1 == *c2;
            proof {
                if r {
                    assert(a@ == b@);
                }
            }
            r
        },
        (
            GeographicLocationConstraint::City(c1, ci1),
            GeographicLocationConstraint::City(c2, ci2),
        ) => {
            let r = *c1 == *c2 && *ci1 == *ci2;
            proof {
                if r {
                    assert(a@ == b@);
                }
            }
            r
        },
        (
            GeographicLocationConstraint::Hostname(c1, ci1, h1),
            GeographicLocationConstraint::Hostname(c2, ci2, h2),
        ) => {
            let r = *c1 == *c2 && *ci1 == *ci2 && *h1 == *h2;
            proof {
                if r {
                    assert(a@ == b@);
                }
            }
            r
        },
        _ => false,
    }
}

/// Whether the relay lies within the place the constraint names. A country
/// constraint additionally demands `include_in_country` unless
/// `ignore_include_in_country` waives it.
pub open spec fn geo_matches_spec(
    g: GeographicLocationConstraint,
    relay: Relay,
    ignore_include_in_country: bool,
) -> bool {
    match g {
        GeographicLocationConstraint::Country(c) => match relay.location {
            Option::Some(l) => l.country_code@ == c@ && (ignore_include_in_country
                || relay.include_in_country),
            Option::None => false,
        },
        GeographicLocationConstraint::City(c, ci) => match relay.location {
            Option::Some(l) => l.country_code@ == c@ && l.city_code@ == ci@,
            Option::None => false,
        },
        GeographicLocationConstraint::Hostname(c, ci, h) => match relay.location {
            Option::Some(l) => l.country_code@ == c@ && l.city_code@ == ci@ && relay.hostname@
                == h@,
            Option::None => false,
        },
    }
}

impl GeographicLocationConstraint {
    /// Returns whether the relay lies within the place the constraint names.
    pub fn matches_with_opts(&self, relay: &Relay, ignore_include_in_country: bool) -> (r: bool)
        ensures
            r == geo_matches_spec(*self, *relay, ignore_include_in_country),
    {
        match self {
            GeographicLocationConstraint::Country(country) => {
                (match &relay.location {
                    Option::Some(loc) => loc.country_code == *country,
                    Option::None => false,
                }) && (ignore_include_in_country || relay.include_in_country)
            },
            GeographicLocationConstraint::City(country, city) => {
                match &relay.location {
                    Option::Some(loc) => loc.country_code == *country && loc.city_code == *city,
                    Option::None => false,
                }
            },
            GeographicLocationConstraint::Hostname(country, city, hostname) => {
                match &relay.location {
                    Option::Some(loc) => loc.country_code == *country && loc.city_code == *city
                        && relay.hostname == *hostname,
                    Option::None => false,
                }
            },
        }
    }

    /// Returns whether the relay lies within the place the constraint names,
    /// counting `include_in_country`.
    pub fn matches(&self, relay: &Relay) -> (r: bool)
        ensures
            r == geo_matches_spec(*self, *relay, false),
    {
        self.matches_with_opts(relay, false)
    }
}

/// Whether `a` names a place equal to or inside the place `b` names.
pub open spec fn geo_is_subset_spec(
    a: GeographicLocationConstraintView,
    b: GeographicLocationConstraintView,
) -> bool {
    match a {
        GeographicLocationConstraintView::Country(_) => a == b,
        GeographicLocationConstraintView::City(c, _) => match b {
            GeographicLocationConstraintView::Country(bc) => c == bc,
            GeographicLocationConstraintView::City(_, _) => a == b,
            GeographicLocationConstraintView::Hostname(_, _, _) => false,
        },
        GeographicLocationConstraintView::Hostname(c, ci, _) => match b {
            GeographicLocationConstraintView::Country(bc) => c == bc,
            GeographicLocationConstraintView::City(bc, bci) => c == bc && ci == bci,
            GeographicLocationConstraintView::Hostname(_, _, _) => a == b,
        },
    }
}

impl GeographicLocationConstraint {
    /// Returns whether `self` is equal to or a subset of `other`.
    pub fn is_subset(&self, other: &GeographicLocationConstraint) -> (r: bool)
        ensures
            r == geo_is_subset_spec(self@, other@),
    {
        match self {
            GeographicLocationConstraint::Country(_) => geographic_eq(self, other),
            GeographicLocationConstraint::City(country, _city) => match other {
                GeographicLocationConstraint::Country(other_country) => *country == *other_country,
                GeographicLocationConstraint::City(_, _) => geographic_eq(self, other),
                _ => false,
            },
            GeographicLocationConstraint::Hostname(country, city, _hostname) => match other {
                GeographicLocationConstraint::Country(other_country) => *country == *other_country,
                GeographicLocationConstraint::City(other_country, other_city) => *country
                    == *other_country && *city == *other_city,
                GeographicLocationConstraint::Hostname(_, _, _) => geographic_eq(self, other),
            },
        }
    }
}

/// A location constraint as the user states it: a geographic place, or a
/// custom list referred to by its id.
#[derive(Debug)]
pub enum LocationConstraint {
    Location(GeographicLocationConstraint),
    CustomList { list_id: String },
}

/// The view of a [`LocationConstraint`].
pub enum LocationConstraintView {
    Location(GeographicLocationConstraintView),
    CustomList { list_id: Seq<char> },
}

impl View for LocationConstraint {
    type V = LocationConstraintView;

    open spec fn view(&self) -> LocationConstraintView {
        match self {
            LocationConstraint::Location(g) => LocationConstraintView::Location(g@),
            LocationConstraint::CustomList { list_id } => LocationConstraintView::CustomList {
                list_id: list_id@,
            },
        }
    }
}

impl Clone for LocationConstraint {
    fn clone(&self) -> (r: Self)
        ensures
            r == *self,
    {
        match self {
            LocationConstraint::Location(g) => LocationConstraint::Location(g.clone()),
            LocationConstraint::CustomList { list_id } => LocationConstraint::CustomList {
                list_id: list_id.clone(),
            },
        }
    }
}

/// Returns whether two location constraints are the same.
pub fn location_constraint_eq(a: &LocationConstraint, b: &LocationConstraint) -> (r: bool)
    ensures
        r == (a@ == b@),
{
    match (a, b) {
        (LocationConstraint::Location(g1), LocationConstraint::Location(g2)) => {
            let r = geographic_eq(g1, g2);
            proof {
                if r {
                    assert(a@ == b@);
                }
            }
            r
        },
        (
            LocationConstraint::CustomList { list_id: id1 },
            LocationConstraint::CustomList { list_id: id2 },
        ) => {
            let r = *id1 == *id2;
            proof {
                if r {
                    assert(a@ == b@);
                }
            }
            r
        },
        _ => false,
    }
}

/// A named list of geographic places.
#[derive(Debug)]
pub struct CustomList {
    pub id: String,
    pub name: String,
    pub locations: Vec<GeographicLocationConstraint>,
}

/// The user's custom lists.
#[derive(Debug)]
pub struct CustomListsSettings {
    pub custom_lists: Vec<CustomList>,
}

impl CustomListsSettings {
    /// Settings with no custom lists.
    pub fn empty() -> (r: CustomListsSettings)
        ensures
            r.custom_lists@.len() == 0,
    {
        CustomListsSettings { custom_lists: Vec::new() }
    }
}

/// The first custom list with the given id, if any.
pub open spec fn find_list_spec(lists: Seq<CustomList>, id: Seq<char>) -> Option<CustomList>
    decreases lists.len(),
{
    if lists.len() == 0 {
        Option::None
    } else if lists[0].id@ == id {
        Option::Some(lists[0])
    } else {
        find_list_spec(lists.skip(1), id)
    }
}

/// A location constraint with any custom list replaced by the places it
/// names.
#[derive(Debug)]
pub enum ResolvedLocationConstraint {
    Location(GeographicLocationConstraint),
    Locations(Vec<GeographicLocationConstraint>),
}

impl Clone for ResolvedLocationConstraint {
    fn clone(&self) -> (r: Self)
        ensures
            match (self, &r) {
                (
                    ResolvedLocationConstraint::Location(a),
                    ResolvedLocationConstraint::Location(b),
                ) => a == b,
                (
                    ResolvedLocationConstraint::Locations(a),
                    ResolvedLocationConstraint::Locations(b),
                ) => a@ == b@,
                _ => false,
            },
    {
        match self {
            ResolvedLocationConstraint::Location(g) => ResolvedLocationConstraint::Location(
                g.clone(),
            ),
            ResolvedLocationConstraint::Locations(gs) => {
                let mut out: Vec<GeographicLocationConstraint> = Vec::new();
                let mut i: usize = 0;
                while i < gs.len()
                    invariant
                        i <= gs.len(),
                        out@ == gs@.subrange(0, i as int),
                    decreases gs.len() - i,
                {
                    out.push(gs[i].clone());
                    proof {
                        assert(out@ =~= gs@.subrange(0, i + 1 as int));
                    }
                    i = i + 1;
                }
                proof {
                    assert(out@ =~= gs@);
                }
                ResolvedLocationConstraint::Locations(out)
            },
        }
    }
}

/// The view of a [`ResolvedLocationConstraint`].
pub enum ResolvedLocationConstraintView {
    Location(GeographicLocationConstraintView),
    Locations(Seq<GeographicLocationConstraintView>),
}

impl View for ResolvedLocationConstraint {
    type V = ResolvedLocationConstraintView;

    open spec fn view(&self) -> ResolvedLocationConstraintView {
        match self {
            ResolvedLocationConstraint::Location(g) => ResolvedLocationConstraintView::Location(
                g@,
            ),
            ResolvedLocationConstraint::Locations(
                gs,
            ) => ResolvedLocationConstraintView::Locations(
                gs@.map_values(|g: GeographicLocationConstraint| g@),
            ),
        }
    }
}

/// What resolving a location constraint against the custom lists yields:
/// a geographic constraint stands as itself; a custom list becomes the places
/// of the first list with that id, or no places at all when the list is
/// missing.
pub open spec fn resolve_location_spec(
    location: Constraint<LocationConstraint>,
    lists: Seq<CustomList>,
) -> Constraint<ResolvedLocationConstraintView> {
    match location {
        Constraint::Any => Constraint::Any,
        Constraint::Only(LocationConstraint::Location(g)) => Constraint::Only(
            ResolvedLocationConstraintView::Location(g@),
        ),
        Constraint::Only(LocationConstraint::CustomList { list_id }) => match find_list_spec(
            lists,
            list_id@,
        ) {
            Option::Some(list) => Constraint::Only(
                ResolvedLocationConstraintView::Locations(
                    list.locations@.map_values(|g: GeographicLocationConstraint| g@),
                ),
            ),
            Option::None => Constraint::Only(
                ResolvedLocationConstraintView::Locations(
                    Seq::<GeographicLocationConstraintView>::empty(),
                ),
            ),
        },
    }
}

/// Whether the resolved constraint admits the relay.
pub open spec fn resolved_matches_spec(
    c: Constraint<ResolvedLocationConstraint>,
    relay: Relay,
    ignore_include_in_country: bool,
) -> bool {
    match c {
        Constraint::Any => true,
        Constraint::Only(ResolvedLocationConstraint::Location(g)) => geo_matches_spec(
            g,
            relay,
            ignore_include_in_country,
        ),
        Constraint::Only(ResolvedLocationConstraint::Locations(gs)) => exists|k: int|
            0 <= k < gs@.len() && geo_matches_spec(gs@[k], relay, ignore_include_in_country),
    }
}

/// Whether the relay lies within the place the constraint view names; the
/// view-level twin of [`geo_matches_spec`].
pub open spec fn geo_view_matches(
    g: GeographicLocationConstraintView,
    relay: Relay,
    ignore_include_in_country: bool,
) -> bool {
    match g {
        GeographicLocationConstraintView::Country(c) => match relay.location {
            Option::Some(l) => l.country_code@ == c && (ignore_include_in_country
                || relay.include_in_country),
            Option::None => false,
        },
        GeographicLocationConstraintView::City(c, ci) => match relay.location {
            Option::Some(l) => l.country_code@ == c && l.city_code@ == ci,
            Option::None => false,
        },
        GeographicLocationConstraintView::Hostname(c, ci, h) => match relay.location {
            Option::Some(l) => l.country_code@ == c && l.city_code@ == ci && relay.hostname@ == h,
            Option::None => false,
        },
    }
}

/// Whether the resolved constraint view admits the relay; the view-level twin
/// of [`resolved_matches_spec`].
pub open spec fn rlc_view_matches(
    c: Constraint<ResolvedLocationConstraintView>,
    relay: Relay,
    ignore_include_in_country: bool,
) -> bool {
    match c {
        Constraint::Any => true,
        Constraint::Only(ResolvedLocationConstraintView::Location(g)) => geo_view_matches(
            g,
            relay,
            ignore_include_in_country,
        ),
        Constraint::Only(ResolvedLocationConstraintView::Locations(gs)) => exists|k: int|
            0 <= k < gs.len() && geo_view_matches(#[trigger] gs[k], relay, ignore_include_in_country),
    }
}

/// Resolution reads only the views of the constraint: two location
/// constraints with equal views resolve alike.
pub proof fn lemma_resolve_by_view(
    c1: Constraint<LocationConstraint>,
    c2: Constraint<LocationConstraint>,
    lists: Seq<CustomList>,
)
    requires
        crate::constraint::cview(c1) == crate::constraint::cview(c2),
    ensures
        resolve_location_spec(c1, lists) == resolve_location_spec(c2, lists),
{
    match (c1, c2) {
        (Constraint::Any, Constraint::Any) => {},
        (
            Constraint::Only(LocationConstraint::Location(g1)),
            Constraint::Only(LocationConstraint::Location(g2)),
        ) => {
            assert(g1@ == g2@);
        },
        (
            Constraint::Only(LocationConstraint::CustomList { list_id: id1 }),
            Constraint::Only(LocationConstraint::CustomList { list_id: id2 }),
        ) => {
            assert(id1@ == id2@);
        },
        _ => {
            assert(false);
        },
    }
}

/// A geographic constraint admits a relay exactly as its view does.
pub proof fn lemma_geo_matches_view(
    g: GeographicLocationConstraint,
    relay: Relay,
    ignore_include_in_country: bool,
)
    ensures
        geo_matches_spec(g, relay, ignore_include_in_country) == geo_view_matches(
            g@,
            relay,
            ignore_include_in_country,
        ),
{
}

/// A resolved constraint admits a relay exactly as its view does.
pub proof fn lemma_resolved_matches_view(
    c: Constraint<ResolvedLocationConstraint>,
    relay: Relay,
    ignore_include_in_country: bool,
)
    ensures
        resolved_matches_spec(c, relay, ignore_include_in_country) == rlc_view_matches(
            crate::constraint::cview(c),
            relay,
            ignore_include_in_country,
        ),
{
    match c {
        Constraint::Any => {
            assert(crate::constraint::cview(c) is Any);
        },
        Constraint::Only(ResolvedLocationConstraint::Location(g)) => {
            lemma_geo_matches_view(g, relay, ignore_include_in_country);
            assert(crate::constraint::cview(c) == Constraint::Only(
                ResolvedLocationConstraintView::Location(g@),
            ));
            assert(resolved_matches_spec(c, relay, ignore_include_in_country)
                == geo_matches_spec(g, relay, ignore_include_in_country));
            assert(rlc_view_matches(crate::constraint::cview(c), relay, ignore_include_in_country)
                == geo_view_matches(g@, relay, ignore_include_in_country));
        },
        Constraint::Only(ResolvedLocationConstraint::Locations(gs)) => {
            let views = gs@.map_values(|g: GeographicLocationConstraint| g@);
            assert(crate::constraint::cview(c) == Constraint::Only(
                ResolvedLocationConstraintView::Locations(views),
            )) by {
                assert(ResolvedLocationConstraint::Locations(gs)@
                    matches ResolvedLocationConstraintView::Locations(w) && w =~= views);
            }
            assert forall|k: int| 0 <= k < gs@.len() implies (geo_matches_spec(
                gs@[k],
                relay,
                ignore_include_in_country,
            ) == geo_view_matches(#[trigger] views[k], relay, ignore_include_in_country)) by {
                lemma_geo_matches_view(gs@[k], relay, ignore_include_in_country);
            }
            if resolved_matches_spec(c, relay, ignore_include_in_country) {
                let k = choose|k: int|
                    0 <= k < gs@.len() && geo_matches_spec(
                        gs@[k],
                        relay,
                        ignore_include_in_country,
                    );
                assert(geo_view_matches(views[k], relay, ignore_include_in_country));
            }
            if rlc_view_matches(
                crate::constraint::cview(c),
                relay,
                ignore_include_in_country,
            ) {
                let k = choose|k: int|
                    0 <= k < views.len() && geo_view_matches(
                        #[trigger] views[k],
                        relay,
                        ignore_include_in_country,
                    );
                assert(geo_matches_spec(gs@[k], relay, ignore_include_in_country));
            }
        },
    }
}

impl ResolvedLocationConstraint {
    /// Resolves a location constraint against the custom lists.
    #[verifier::loop_isolation(false)]
    pub fn from_constraint(
        location: Constraint<LocationConstraint>,
        custom_lists: &CustomListsSettings,
    ) -> (r: Constraint<ResolvedLocationConstraint>)
        ensures
            crate::constraint::cview(r) == resolve_location_spec(
                location,
                custom_lists.custom_lists@,
            ),
    {
        match location {
            Constraint::Any => Constraint::Any,
            Constraint::Only(LocationConstraint::Location(g)) => Constraint::Only(
                ResolvedLocationConstraint::Location(g),
            ),
            Constraint::Only(LocationConstraint::CustomList { list_id }) => {
                let lists = &custom_lists.custom_lists;
                let mut i: usize = 0;
                let ghost all: Seq<CustomList> = lists@;
                proof {
                    assert(all.skip(0) =~= all);
                }
                while i < lists.len()
                    invariant
                        i <= lists.len(),
                        all == lists@,
                        find_list_spec(all, list_id@) == find_list_spec(
                            all.skip(i as int),
                            list_id@,
                        ),
                    decreases lists.len() - i,
                {
                    proof {
                        assert(all.skip(i as int)[0] == all[i as int]);
                        assert(all.skip(i as int).skip(1) =~= all.skip(i + 1 as int));
                    }
                    if lists[i].id == list_id {
                        let found = &lists[i];
                        let mut out: Vec<GeographicLocationConstraint> = Vec::new();
                        let mut k: usize = 0;
                        while k < found.locations.len()
                            invariant
                                k <= found.locations.len(),
                                found == &all[i as int],
                                i < all.len(),
                                out@ == found.locations@.subrange(0, k as int),
                            decreases found.locations.len() - k,
                        {
                            out.push(found.locations[k].clone());
                            proof {
                                assert(out@ =~= found.locations@.subrange(0, k + 1 as int));
                            }
                            k = k + 1;
                        }
                        proof {
                            assert(out@ =~= all[i as int].locations@);
                            assert(find_list_spec(all.skip(i as int), list_id@) == Option::Some(
                                all[i as int],
                            ));
                            assert(out@.map_values(|g: GeographicLocationConstraint| g@)
                                =~= all[i as int].locations@.map_values(
                                |g: GeographicLocationConstraint| g@,
                            ));
                        }
                        return Constraint::Only(ResolvedLocationConstraint::Locations(out));
                    }
                    i = i + 1;
                }
                let none_found: Vec<GeographicLocationConstraint> = Vec::new();
                proof {
                    assert(all.skip(all.len() as int) =~= Seq::<CustomList>::empty());
                    assert(none_found@.map_values(|g: GeographicLocationConstraint| g@)
                        =~= Seq::<GeographicLocationConstraintView>::empty());
                }
                Constraint::Only(ResolvedLocationConstraint::Locations(none_found))
            },
        }
    }
}

impl Constraint<ResolvedLocationConstraint> {
    /// Returns whether the resolved constraint admits the relay.
    pub fn matches_with_opts(&self, relay: &Relay, ignore_include_in_country: bool) -> (r: bool)
        ensures
            r == resolved_matches_spec(*self, *relay, ignore_include_in_country),
    {
        match self {
            Constraint::Any => true,
            Constraint::Only(ResolvedLocationConstraint::Location(g)) => g.matches_with_opts(
                relay,
                ignore_include_in_country,
            ),
            Constraint::Only(ResolvedLocationConstraint::Locations(gs)) => any_geo_matches(
                gs,
                relay,
                ignore_include_in_country,
            ),
        }
    }
}

impl Constraint<GeographicLocationConstraint> {
    /// Returns whether the constraint admits the relay.
    pub fn matches_with_opts(&self, relay: &Relay, ignore_include_in_country: bool) -> (r: bool)
        ensures
            r == match *self {
                Constraint::Any => true,
                Constraint::Only(g) => geo_matches_spec(g, *relay, ignore_include_in_country),
            },
    {
        match self {
            Constraint::Any => true,
            Constraint::Only(g) => g.matches_with_opts(relay, ignore_include_in_country),
        }
    }
}

impl Constraint<Vec<GeographicLocationConstraint>> {
    /// Returns whether some place of the constrained list admits the relay.
    pub fn matches_with_opts(&self, relay: &Relay, ignore_include_in_country: bool) -> (r: bool)
        ensures
            r == match *self {
                Constraint::Any => true,
                Constraint::Only(gs) => exists|k: int|
                    0 <= k < gs@.len() && geo_matches_spec(
                        gs@[k],
                        *relay,
                        ignore_include_in_country,
                    ),
            },
    {
        match self {
            Constraint::Any => true,
            Constraint::Only(gs) => any_geo_matches(gs, relay, ignore_include_in_country),
        }
    }
}

/// Returns whether some place of the list admits the relay.
fn any_geo_matches(
    gs: &Vec<GeographicLocationConstraint>,
    relay: &Relay,
    ignore_include_in_country: bool,
) -> (r: bool)
    ensures
        r == exists|k: int|
            0 <= k < gs@.len() && geo_matches_spec(gs@[k], *relay, ignore_include_in_country),
{
    let mut i: usize = 0;
    while i < gs.len()
        invariant
            i <= gs.len(),
            forall|k: int|
                0 <= k < i ==> !geo_matches_spec(gs@[k], *relay, ignore_include_in_country),
        decreases gs.len() - i,
    {
        if gs[i].matches_with_opts(relay, ignore_include_in_country) {
            return true;
        }
        i = i + 1;
    }
    false
}

/// Whether the resolved constraint `a` admits only places that `b` admits.
pub open spec fn resolved_subset_spec(
    a: Constraint<ResolvedLocationConstraint>,
    b: Constraint<ResolvedLocationConstraint>,
) -> bool {
    match a {
        Constraint::Any => b is Any,
        Constraint::Only(ResolvedLocationConstraint::Location(g)) => match b {
            Constraint::Any => true,
            Constraint::Only(ResolvedLocationConstraint::Location(og)) => geo_is_subset_spec(
                g@,
                og@,
            ),
            Constraint::Only(ResolvedLocationConstraint::Locations(ogs)) => exists|j: int|
                0 <= j < ogs@.len() && geo_is_subset_spec(g@, ogs@[j]@),
        },
        Constraint::Only(ResolvedLocationConstraint::Locations(gs)) => match b {
            Constraint::Any => true,
            Constraint::Only(ResolvedLocationConstraint::Location(og)) => forall|k: int|
                0 <= k < gs@.len() ==> geo_is_subset_spec(gs@[k]@, og@),
            Constraint::Only(ResolvedLocationConstraint::Locations(ogs)) => forall|k: int|
                0 <= k < gs@.len() ==> subset_of_any_spec(#[trigger] gs@[k], ogs@),
        },
    }
}

/// Whether `g` is a subset of some place in `ogs`.
pub open spec fn subset_of_any_spec(
    g: GeographicLocationConstraint,
    ogs: Seq<GeographicLocationConstraint>,
) -> bool {
    exists|j: int| 0 <= j < ogs.len() && geo_is_subset_spec(g@, ogs[j]@)
}

/// Returns whether `g` is a subset of some place in `ogs`.
fn subset_of_any(g: &GeographicLocationConstraint, ogs: &Vec<GeographicLocationConstraint>) -> (r:
    bool)
    ensures
        r == exists|j: int| 0 <= j < ogs@.len() && geo_is_subset_spec(g@, ogs@[j]@),
{
    let mut i: usize = 0;
    while i < ogs.len()
        invariant
            i <= ogs.len(),
            forall|j: int| 0 <= j < i ==> !geo_is_subset_spec(g@, ogs@[j]@),
        decreases ogs.len() - i,
    {
        if g.is_subset(&ogs[i]) {
            return true;
        }
        i = i + 1;
    }
    false
}

impl Constraint<ResolvedLocationConstraint> {
    /// Returns whether `self` admits only places that `other` admits.
    #[verifier::loop_isolation(false)]
    pub fn is_subset(&self, other: &Constraint<ResolvedLocationConstraint>) -> (r: bool)
        ensures
            r == resolved_subset_spec(*self, *other),
    {
        match self {
            Constraint::Any => other.is_any(),
            Constraint::Only(ResolvedLocationConstraint::Location(g)) => match other {
                Constraint::Any => true,
                Constraint::Only(ResolvedLocationConstraint::Location(og)) => g.is_subset(og),
                Constraint::Only(ResolvedLocationConstraint::Locations(ogs)) => subset_of_any(
                    g,
                    ogs,
                ),
            },
            Constraint::Only(ResolvedLocationConstraint::Locations(gs)) => match other {
                Constraint::Any => true,
                Constraint::Only(ResolvedLocationConstraint::Location(og)) => {
                    let mut i: usize = 0;
                    while i < gs.len()
                        invariant
                            i <= gs.len(),
                            forall|k: int| 0 <= k < i ==> geo_is_subset_spec(gs@[k]@, og@),
                        decreases gs.len() - i,
                    {
                        if !gs[i].is_subset(og) {
                            proof {
                                assert(!geo_is_subset_spec(gs@[i as int]@, og@));
                            }
                            return false;
                        }
                        i = i + 1;
                    }
                    true
                },
                Constraint::Only(ResolvedLocationConstraint::Locations(ogs)) => {
                    let mut i: usize = 0;
                    while i < gs.len()
                        invariant
                            i <= gs.len(),
                            forall|k: int|
                                0 <= k < i ==> subset_of_any_spec(#[trigger] gs@[k], ogs@),
                        decreases gs.len() - i,
                    {
                        if !subset_of_any(&gs[i], ogs) {
                            proof {
                                assert(!subset_of_any_spec(gs@[i as int], ogs@));
                            }
                            return false;
                        }
                        i = i + 1;
                    }
                    true
                },
            },
        }
    }
}

} // verus!
