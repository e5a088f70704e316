//! A value that renders for people (`{}`) by calling a formatting routine.
use crate::sink::accepts_every_sink;
use core::fmt;
use vstd::prelude::*;

verus! {

/// What [`display_with`] returns: a formatting routine, held as a value that
/// can be rendered with `{}`.
///
/// The routine is kept private. The only way to reach it is to render the
/// value, and each rendering calls it once. The view of the value is the
/// routine itself.
pub struct DisplayWith<F>(F) where F: Fn(&mut fmt::Formatter<'_>) -> fmt::Result;

impl<F> View for DisplayWith<F> where F: Fn(&mut fmt::Formatter<'_>) -> fmt::Result {
    type V = F;

    /// The routine that a rendering calls.
    closed spec fn view(&self) -> F {
        self.0
    }
}

impl<F> DisplayWith<F> where F: Fn(&mut fmt::Formatter<'_>) -> fmt::Result {
    /// The stored routine can be called on whatever sink a renderer brings.
    #[verifier::type_invariant]
    spec fn callable(self) -> bool {
        accepts_every_sink(self.0)
    }
}

impl<F> fmt::Display for DisplayWith<F> where F: Fn(&mut fmt::Formatter<'_>) -> fmt::Result {
    /// Renders by one call of the routine on `sink`: the sink is left as that
    /// call left it, and what the call returned is returned as it is, success
    /// or failure.
    fn fmt(&self, sink: &mut fmt::Formatter<'_>) -> (r: fmt::Result)
        ensures
            exists|call: &mut fmt::Formatter<'_>|
                *call == *old(sink) && *final(call) == *final(sink) && #[trigger] call_ensures(
                    self@,
                    (call,),
                    r,
                ),
    {
        proof {
            use_type_invariant(self);
            assert(self@ == self.0);
        }
        (self.0)(sink)
    }
}

/// Wraps the formatting routine `f` in a value that renders with `{}` by
/// calling `f`.
///
/// Nothing is called here: `f` runs when the value is rendered, once for each
/// rendering. A renderer picks the sink on its own, so `f` has to accept every
/// sink.
pub fn display_with<F>(f: F) -> (shown: DisplayWith<F>) where
    F: Fn(&mut fmt::Formatter<'_>) -> fmt::Result,

    requires
        accepts_every_sink(f),
    ensures
        shown@ == f,
{
    DisplayWith(f)
}

/// Nothing on the side: a rendering does to the sink what one call of the
/// routine does, and returns what that call returns.
///
/// Whatever relation `holds` between the sink before a call of the routine,
/// the sink after it and the call's result, at every call, also holds between
/// the sink before a rendering, the sink after it and the rendering's result.
pub proof fn lemma_display_adds_nothing<F>(
    shown: DisplayWith<F>,
    holds: spec_fn(fmt::Formatter<'_>, fmt::Formatter<'_>, fmt::Result) -> bool,
    before: fmt::Formatter<'_>,
    after: fmt::Formatter<'_>,
    r: fmt::Result,
) where F: Fn(&mut fmt::Formatter<'_>) -> fmt::Result
    requires
        forall|call: &mut fmt::Formatter<'_>, out: fmt::Result| #[trigger]
            call_ensures(shown@, (call,), out) ==> holds(*call, *final(call), out),
        exists|call: &mut fmt::Formatter<'_>|
            *call == before && *final(call) == after && #[trigger] call_ensures(
                shown@,
                (call,),
                r,
            ),
    ensures
        holds(before, after, r),
{
}

/// Transparency: a rendering writes the text that the routine writes.
///
/// `written` reads off two states of a sink the text that went in between
/// them; the law holds for every such reading. If each call of `f` succeeds
/// and writes `t`, then each rendering of the value made from `f` succeeds and
/// writes `t`.
pub proof fn lemma_display_transparent<F>(
    f: F,
    shown: DisplayWith<F>,
    written: spec_fn(fmt::Formatter<'_>, fmt::Formatter<'_>) -> Seq<char>,
    t: Seq<char>,
    before: fmt::Formatter<'_>,
    after: fmt::Formatter<'_>,
    r: fmt::Result,
) where F: Fn(&mut fmt::Formatter<'_>) -> fmt::Result
    requires
        shown@ == f,
        forall|call: &mut fmt::Formatter<'_>, out: fmt::Result| #[trigger]
            call_ensures(f, (call,), out) ==> out is Ok && written(*call, *final(call)) == t,
        exists|call: &mut fmt::Formatter<'_>|
            *call == before && *final(call) == after && #[trigger] call_ensures(
                shown@,
                (call,),
                r,
            ),
    ensures
        r is Ok,
        written(before, after) == t,
{
}

/// Repeatability: a value keeps nothing from one rendering to the next.
///
/// If the routine writes the same text and returns the same result at every
/// call, then any two renderings of one value write the same text and return
/// the same result.
pub proof fn lemma_display_repeatable<F>(
    shown: DisplayWith<F>,
    written: spec_fn(fmt::Formatter<'_>, fmt::Formatter<'_>) -> Seq<char>,
    before1: fmt::Formatter<'_>,
    after1: fmt::Formatter<'_>,
    r1: fmt::Result,
    before2: fmt::Formatter<'_>,
    after2: fmt::Formatter<'_>,
    r2: fmt::Result,
) where F: Fn(&mut fmt::Formatter<'_>) -> fmt::Result
    requires
        forall|
            c1: &mut fmt::Formatter<'_>,
            o1: fmt::Result,
            c2: &mut fmt::Formatter<'_>,
            o2: fmt::Result,
        |
            #![trigger call_ensures(shown@, (c1,), o1), call_ensures(shown@, (c2,), o2)]
            call_ensures(shown@, (c1,), o1) && call_ensures(shown@, (c2,), o2) ==> o1 == o2
                && written(*c1, *final(c1)) == written(*c2, *final(c2)),
        exists|call: &mut fmt::Formatter<'_>|
            *call == before1 && *final(call) == after1 && #[trigger] call_ensures(
                shown@,
                (call,),
                r1,
            ),
        exists|call: &mut fmt::Formatter<'_>|
            *call == before2 && *final(call) == after2 && #[trigger] call_ensures(
                shown@,
                (call,),
                r2,
            ),
    ensures
        r1 == r2,
        written(before1, after1) == written(before2, after2),
{
}

/// Failure passes through: a rendering reports the routine's failure as it
/// is, and leaves in the sink what the routine had written until then.
///
/// If each call of the routine on a sink in the state `before` fails with
/// `failure` after writing `t`, then so does each rendering into such a sink.
pub proof fn lemma_display_passes_failure<F>(
    shown: DisplayWith<F>,
    written: spec_fn(fmt::Formatter<'_>, fmt::Formatter<'_>) -> Seq<char>,
    t: Seq<char>,
    failure: fmt::Error,
    before: fmt::Formatter<'_>,
    after: fmt::Formatter<'_>,
    r: fmt::Result,
) where F: Fn(&mut fmt::Formatter<'_>) -> fmt::Result
    requires
        forall|call: &mut fmt::Formatter<'_>, out: fmt::Result|
            *call == before && #[trigger] call_ensures(shown@, (call,), out) ==> out == Err::<
                (),
                fmt::Error,
            >(failure) && written(*call, *final(call)) == t,
        exists|call: &mut fmt::Formatter<'_>|
            *call == before && *final(call) == after && #[trigger] call_ensures(
                shown@,
                (call,),
                r,
            ),
    ensures
        r == Err::<(), fmt::Error>(failure),
        written(before, after) == t,
{
}

} // verus!
