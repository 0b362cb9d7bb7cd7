//! The *maybe-constrained* wrapper: a value of type `T` is either
//! unconstrained (`Any`) or pinned down (`Only`). Constraints form a meet
//! semilattice under `intersection`, with `Any` as the top element; the
//! algebraic laws are stated and proved in [`crate::intersection_laws`].

use vstd::prelude::*;

verus! {

/// A constraint on a value of type `T`: either any value at all, or one
/// specific value.
#[derive(Clone, Copy, Debug, PartialEq, Eq, Structural)]
pub enum Constraint<T> {
    Any,
    Only(T),
}

/// The view of a constraint is the constraint over the views of its content.
pub open spec fn cview<T: View>(c: Constraint<T>) -> Constraint<T::V> {
    match c {
        Constraint::Any => Constraint::Any,
        Constraint::Only(x) => Constraint::Only(x@),
    }
}

/// The view of an optional constraint, `None` standing for an incompatible
/// intersection.
pub open spec fn cview_opt<T: View>(c: Option<Constraint<T>>) -> Option<Constraint<T::V>> {
    match c {
        Option::None => Option::None,
        Option::Some(x) => Option::Some(cview(x)),
    }
}

/// The view of an optional value, `None` standing for an incompatible
/// intersection.
pub open spec fn vopt<T: View>(o: Option<T>) -> Option<T::V> {
    match o {
        Option::None => Option::None,
        Option::Some(x) => Option::Some(x@),
    }
}

/// The meet of two constraints whose inner intersection is equality: this is
/// the meet used for every primitive (leaf) type.
pub open spec fn meet_eq<T>(a: Constraint<T>, b: Constraint<T>) -> Option<Constraint<T>> {
    match (a, b) {
        (Constraint::Any, x) => Option::Some(x),
        (x, Constraint::Any) => Option::Some(x),
        (Constraint::Only(x), Constraint::Only(y)) => if x == y {
            Option::Some(Constraint::Only(x))
        } else {
            Option::None
        },
    }
}

/// The meet of an intersection result with a further constraint; `None`
/// (incompatible) is absorbing.
pub open spec fn meet_eq_then<T>(a: Option<Constraint<T>>, b: Constraint<T>) -> Option<
    Constraint<T>,
> {
    match a {
        Option::None => Option::None,
        Option::Some(x) => meet_eq(x, b),
    }
}

/// `Any` is the identity of the leaf meet, on both sides.
pub proof fn lemma_meet_eq_identity<T>(x: Constraint<T>)
    ensures
        meet_eq(Constraint::Any, x) == Option::Some(x),
        meet_eq(x, Constraint::Any) == Option::Some(x),
{
}

/// The leaf meet is idempotent.
pub proof fn lemma_meet_eq_idempotent<T>(x: Constraint<T>)
    ensures
        meet_eq(x, x) == Option::Some(x),
{
}

/// The leaf meet is commutative.
pub proof fn lemma_meet_eq_commutative<T>(a: Constraint<T>, b: Constraint<T>)
    ensures
        meet_eq(a, b) == meet_eq(b, a),
{
}

/// The leaf meet is associative, with `None` absorbing.
pub proof fn lemma_meet_eq_associative<T>(a: Constraint<T>, b: Constraint<T>, c: Constraint<T>)
    ensures
        meet_eq_then(meet_eq(a, b), c) == meet_eq_then(meet_eq(b, c), a),
        meet_eq_then(meet_eq(a, b), c) == match meet_eq(b, c) {
            Option::None => Option::None,
            Option::Some(bc) => meet_eq(a, bc),
        },
{
}

impl<T> Constraint<T> {
    /// Whether the constraint admits every value.
    pub open spec fn spec_is_any(&self) -> bool {
        matches!(self, Constraint::Any)
    }

    /// Returns whether the constraint is `Any`.
    pub fn is_any(&self) -> (r: bool)
        ensures
            r == self.spec_is_any(),
    {
        matches!(self, Constraint::Any)
    }

    /// Returns whether the constraint pins down one specific value.
    pub fn is_only(&self) -> (r: bool)
        ensures
            r == !self.spec_is_any(),
    {
        matches!(self, Constraint::Only(_))
    }

    /// Applies a function to the constrained value, if any.
    pub fn map<U, F: FnOnce(T) -> U>(self, f: F) -> (r: Constraint<U>)
        requires
            self matches Constraint::Only(x) ==> call_requires(f, (x,)),
        ensures
            match (self, r) {
                (Constraint::Any, Constraint::Any) => true,
                (Constraint::Only(x), Constraint::Only(y)) => call_ensures(f, (x,), y),
                _ => false,
            },
    {
        match self {
            Constraint::Any => Constraint::Any,
            Constraint::Only(x) => Constraint::Only(f(x)),
        }
    }

    /// Borrows the inner value, if any.
    pub fn as_ref(&self) -> (r: Constraint<&T>)
        ensures
            match (self, r) {
                (Constraint::Any, Constraint::Any) => true,
                (Constraint::Only(x), Constraint::Only(y)) => y == x,
                _ => false,
            },
    {
        match self {
            Constraint::Any => Constraint::Any,
            Constraint::Only(x) => Constraint::Only(x),
        }
    }
}

} // verus!
