//! An operation that may be tried more than once, with the record of its attempts.

use crate::app::ec::EcError;
use vstd::prelude::*;

verus! {

/// An operation with the results of all its attempts. It can be run only through the
/// method below.
#[verifier::reject_recursive_types(T)]
pub struct Attempts<T, F: Fn() -> Result<T, EcError>> {
    op: F,
    log: Ghost<Seq<Result<T, EcError>>>,
}

/// Between `before` and `after` the operation was run exactly as often as there are
/// results, and these are its results in their order.
pub open spec fn attempted<T, F: Fn() -> Result<T, EcError>>(
    before: Attempts<T, F>,
    after: Attempts<T, F>,
    results: Seq<Result<T, EcError>>,
) -> bool {
    &&& after.op() == before.op()
    &&& after.log() == before.log() + results
    &&& forall|i: int|
        0 <= i < results.len() ==> call_ensures(before.op(), (), #[trigger] results[i])
}

/// What is attempted step by step is attempted in one.
pub proof fn lemma_attempted_then<T, F: Fn() -> Result<T, EcError>>(
    a: Attempts<T, F>,
    b: Attempts<T, F>,
    c: Attempts<T, F>,
    first: Seq<Result<T, EcError>>,
    second: Seq<Result<T, EcError>>,
)
    requires
        attempted(a, b, first),
        attempted(b, c, second),
    ensures
        attempted(a, c, first + second),
{
    assert(a.log() + (first + second) =~= a.log() + first + second);
}

impl<T, F: Fn() -> Result<T, EcError>> Attempts<T, F> {
    /// The operation.
    pub closed spec fn op(&self) -> F {
        self.op
    }

    /// The results so far.
    pub closed spec fn log(&self) -> Seq<Result<T, EcError>> {
        self.log@
    }

    /// An operation that was not run yet.
    pub fn new(op: F) -> (r: Self)
        ensures
            r.op() == op,
            r.log() == Seq::<Result<T, EcError>>::empty(),
    {
        Attempts { op, log: Ghost(Seq::empty()) }
    }

    /// Runs the operation once.
    pub fn run(&mut self) -> (r: Result<T, EcError>)
        requires
            call_requires(old(self).op(), ()),
        ensures
            attempted(*old(self), *final(self), seq![r]),
    {
        let r = (self.op)();
        self.log = Ghost(self.log@ + seq![r]);
        r
    }
}

// ── Laws ──

/// A run of an operation adds its result to the record, and the operation gave it.
pub proof fn law_runs_are_recorded<T, F: Fn() -> Result<T, EcError>>(
    op: &mut Attempts<T, F>,
    r: Result<T, EcError>,
)
    requires
        call_ensures(Attempts::<T, F>::run, (op,), r),
    ensures
        final(op).log() == old(op).log().push(r),
        final(op).op() == old(op).op(),
        call_ensures(old(op).op(), (), r),
{
    let before = *old(op);
    let after = *final(op);
    let one = seq![r];
    assert(after.log() =~= before.log().push(r));
    assert(call_ensures(before.op(), (), one[0]));
}

} // verus!
