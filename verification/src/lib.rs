//! A declarative unit-test harness: an annotated function is expanded into a
//! factory that yields one descriptor per test case, and a runner drives the
//! descriptors through a single capability (`contains`, `name`, `exec`).
use vstd::prelude::*;

pub mod descriptor;
pub mod error;
pub mod expand;

pub use crate::error::TestResult;

verus! {

/// The capability every descriptor exposes: tag membership, a display name,
/// and a consuming run. Heterogeneous descriptors meet the runner through
/// this one surface.
pub trait Test {
    /// The descriptor's tag set, as the tags' character sequences.
    spec fn tag_set(&self) -> Set<Seq<char>>;

    /// What must hold before `name` may be called: a dynamic formatter must
    /// accept the descriptor's row.
    spec fn name_req(&self) -> bool;

    /// What holds of the name: a static name is the declared literal; a
    /// dynamic name is whatever the formatter's contract allows for the row.
    spec fn name_post(&self, r: String) -> bool;

    /// What must hold before `exec` may be called: the test function must
    /// accept the descriptor's row.
    spec fn exec_req(&self) -> bool;

    /// What holds of the outcome: whatever the test function's contract
    /// allows for the descriptor's row.
    spec fn exec_post(&self, r: TestResult) -> bool;

    /// Membership check against the descriptor's tag set. Pure.
    fn contains(&self, tag: &'static str) -> (r: bool)
        ensures
            r == self.tag_set().contains(tag@),
    ;

    /// The descriptor's display name, resolved on demand.
    fn name(&self) -> (r: String)
        requires
            self.name_req(),
        ensures
            self.name_post(r),
    ;

    /// Runs the test case and consumes the descriptor: it is single-use, and
    /// the type system forbids a second call.
    fn exec(self) -> (r: TestResult)
        requires
            self.exec_req(),
        ensures
            self.exec_post(r),
    ;
}

/// The sequence of all descriptors held by a list of suites, in order.
pub open spec fn suites_flat<T>(suites: Seq<Vec<T>>) -> Seq<T> {
    suites.map_values(|v: Vec<T>| v@).flatten()
}

/// The factory shape of a simple test: a suite holding exactly one
/// descriptor.
pub fn once_suite<T>(t: T) -> (r: Vec<T>)
    ensures
        r@.len() == 1,
        r@[0] == t,
{
    let mut r: Vec<T> = Vec::new();
    r.push(t);
    r
}

/// The runner's collection step: flattens the suites produced by the
/// factories into one stream of descriptors, keeping their order.
pub fn flatten_suites<T>(suites: Vec<Vec<T>>) -> (r: Vec<T>)
    ensures
        r@ == suites_flat(suites@),
{
    let ghost orig: Seq<Vec<T>> = suites@;
    let mut rest = suites;
    let mut r: Vec<T> = Vec::new();
    while rest.len() > 0
        invariant
            suites_flat(orig) == r@ + suites_flat(rest@),
        decreases rest@.len(),
    {
        let ghost rest_old: Seq<Vec<T>> = rest@;
        let ghost r_old: Seq<T> = r@;
        let mut v = rest.remove(0);
        r.append(&mut v);
        proof {
            let m = rest_old.map_values(|x: Vec<T>| x@);
            assert(m[0] == rest_old[0]@);
            assert(m.drop_first() =~= rest@.map_values(|x: Vec<T>| x@));
            assert(m.flatten() == m.first() + m.drop_first().flatten());
            assert(r@ + suites_flat(rest@) =~= r_old + suites_flat(rest_old));
        }
    }
    proof {
        assert(suites_flat(rest@) =~= Seq::<T>::empty());
        assert(r@ =~= suites_flat(orig));
    }
    r
}

} // verus!
