//! The `Tap` trait: hand a value to a mutator by exclusive reference and get
//! the same value back, so that in-place changes can be chained without a
//! mutable binding.
//!
//! `tap` is implemented for every type. Its contract says that the result is
//! exactly what the mutator left behind in the reference it was given, the
//! reference holding the input when the mutator started. The proof functions
//! below derive from that contract what a caller of `tap` can rely on.
use vstd::prelude::*;

verus! {

/// Executes a mutator on an owned value and returns the value afterwards.
pub trait Tap {
    /// Calls `f` once with an exclusive reference to `self`, then returns
    /// `self` with whatever change `f` made to it.
    fn tap<F: FnOnce(&mut Self)>(self, f: F) -> (r: Self)
        requires
            forall|m: &mut Self| *m == self ==> call_requires(f, (m,)),
        ensures
            exists|m: &mut Self| *m == self && *final(m) == r && call_ensures(f, (m,), ()),
    ;
}

/// Every sized type can be tapped; the contract is the one of the trait,
/// stated again at the one implementation there is.
impl<T> Tap for T {
    fn tap<F: FnOnce(&mut Self)>(self, f: F) -> (r: Self)
        ensures
            exists|m: &mut T| *m == self && *final(m) == r && call_ensures(f, (m,), ()),
    {
        let mut value = self;
        f(&mut value);
        value
    }
}

/// A mutator that leaves its reference as it found it makes `tap` return
/// its input unchanged.
pub proof fn lemma_tap_identity<V, F: FnOnce(&mut V)>(f: F, v: V, r: V)
    requires
        forall|m: &mut V| call_ensures(f, (m,), ()) ==> *final(m) == *m,
        exists|m: &mut V| *m == v && *final(m) == r && call_ensures(f, (m,), ()),
    ensures
        r == v,
{
}

/// A mutator that replaces what its reference holds by `g` of it makes `tap`
/// return `g` of the input: the mutation is visible in the returned value.
pub proof fn lemma_tap_replaces<V, F: FnOnce(&mut V)>(f: F, g: spec_fn(V) -> V, v: V, r: V)
    requires
        forall|m: &mut V| call_ensures(f, (m,), ()) ==> *final(m) == g(*m),
        exists|m: &mut V| *m == v && *final(m) == r && call_ensures(f, (m,), ()),
    ensures
        r == g(v),
{
}

/// The mutator runs exactly once: where it adds one to a counter carried
/// beside the value and leaves the value alone, `tap` returns the value with
/// the counter one above where it started.
pub proof fn lemma_tap_runs_once<T, F: FnOnce(&mut (T, u64))>(f: F, v: (T, u64), r: (T, u64))
    requires
        forall|m: &mut (T, u64)|
            call_ensures(f, (m,), ()) ==> final(m).0 == m.0 && final(m).1 == m.1 + 1,
        exists|m: &mut (T, u64)| *m == v && *final(m) == r && call_ensures(f, (m,), ()),
    ensures
        r.0 == v.0,
        r.1 == v.1 + 1,
{
}

/// Chained taps apply their mutators in order: tapping `v` with `f` and the
/// result with `g` gives `q(p(v))`, where `p` and `q` are what `f` and `g` do.
pub proof fn lemma_tap_chain<V, F: FnOnce(&mut V), G: FnOnce(&mut V)>(
    f: F,
    g: G,
    p: spec_fn(V) -> V,
    q: spec_fn(V) -> V,
    v: V,
    w: V,
    r: V,
)
    requires
        forall|m: &mut V| call_ensures(f, (m,), ()) ==> *final(m) == p(*m),
        forall|m: &mut V| call_ensures(g, (m,), ()) ==> *final(m) == q(*m),
        exists|m: &mut V| *m == v && *final(m) == w && call_ensures(f, (m,), ()),
        exists|m: &mut V| *m == w && *final(m) == r && call_ensures(g, (m,), ()),
    ensures
        w == p(v),
        r == q(p(v)),
{
}

} // verus!
