//! Self-consuming transformation helpers: a value hands its own storage to a
//! caller-supplied function and becomes the function's result, or is
//! conditionally replaced by one, without an explicit temporary variable.

use vstd::prelude::*;

verus! {

/// Holds when `r` is an outcome that `map_self_or_keep` may produce for the
/// value `v` and the decision function `op`: either `op` yielded a
/// replacement and `r` is that replacement, or `op` yielded none and `r` is
/// `v` itself. Exactly one of {replacement, original} survives.
pub open spec fn kept_or_replaced<V, O: FnOnce(&V) -> Option<V>>(op: O, v: V, r: V) -> bool {
    (exists|rep: V| #[trigger] call_ensures(op, (&v,), Some(rep)) && r == rep) || (call_ensures(
        op,
        (&v,),
        None::<V>,
    ) && r == v)
}

/// Functions to transform a type itself instead of something it contains with
/// the usual closure approach.
pub trait MapSelf {
    /// Consumes `self`, invokes `op` exactly once with ownership of it, and
    /// returns whatever `op` returns; the result type may differ from `Self`.
    fn map_self<O, T>(self, op: O) -> (r: T) where O: FnOnce(Self) -> T, Self: Sized
        requires
            call_requires(op, (self,)),
        ensures
            call_ensures(op, (self,), r),
    {
        op(self)
    }

    /// Invokes `op` exactly once with a reference to `self`: when `op` yields
    /// a replacement, returns it and discards `self`; when it yields none,
    /// returns `self` unchanged.
    fn map_self_or_keep<O>(self, op: O) -> (r: Self) where
        O: FnOnce(&Self) -> Option<Self>,
        Self: Sized,

        requires
            call_requires(op, (&self,)),
        ensures
            kept_or_replaced(op, self, r),
    {
        match op(&self) {
            Some(replacement) => replacement,
            None => self,
        }
    }
}

impl<T> MapSelf for T {}

/// Law: `map_self` is referentially transparent with respect to a direct
/// invocation of `op`. When the possible results of `op` on `v` are pinned
/// down to the single value `expected` — as they are for a pure total
/// function — any result `r` that `map_self(v, op)` may return (any `r` with
/// `call_ensures(op, (v,), r)`, which is `map_self`'s postcondition) equals
/// `expected`.
pub proof fn lemma_map_self_is_direct_call<V, T, O: FnOnce(V) -> T>(op: O, v: V, r: T, expected: T)
    requires
        call_ensures(op, (v,), r),
        forall|t: T| call_ensures(op, (v,), t) ==> t == expected,
    ensures
        r == expected,
{
}

/// Law: identity-preservation on "no replacement". When `op` never yields a
/// replacement for `v`, any result `r` that `map_self_or_keep(v, op)` may
/// return is the original `v`.
pub proof fn lemma_keep_when_no_replacement<V, O: FnOnce(&V) -> Option<V>>(op: O, v: V, r: V)
    requires
        kept_or_replaced(op, v, r),
        forall|o: Option<V>| call_ensures(op, (&v,), o) ==> o is None,
    ensures
        r == v,
{
}

/// Law: replacement-adoption. When `op` always yields the replacement `rep`
/// for `v`, any result `r` that `map_self_or_keep(v, op)` may return is
/// `rep`, and the original `v` is discarded.
pub proof fn lemma_adopt_replacement<V, O: FnOnce(&V) -> Option<V>>(op: O, v: V, rep: V, r: V)
    requires
        kept_or_replaced(op, v, r),
        forall|o: Option<V>| call_ensures(op, (&v,), o) ==> o == Some(rep),
    ensures
        r == rep,
{
}

} // verus!
