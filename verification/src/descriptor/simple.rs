//! The descriptor of one parameterless test.
use vstd::prelude::*;

use crate::Test;
use crate::descriptor::TestName;
use crate::descriptor::declared_set;
use crate::descriptor::dedup_tags;
use crate::descriptor::nodup_views;
use crate::descriptor::tags_set_of;
use crate::descriptor::vec_contains_str;
use crate::error::TestResult;

verus! {

/// One parameterless test: a name (static in every well-formed expansion),
/// a tag set, and a nullary test function. Standalone: nothing is shared.
pub struct SimpleTest<N, F> {
    pub name: TestName<N>,
    pub tags: Vec<String>,
    pub func: F,
}

impl<N, F> SimpleTest<N, F> where N: Fn(()) -> String, F: Fn() -> TestResult {
    /// The descriptor's internal invariant: the tag vector collapsed
    /// duplicates, and the stored functions accept their one call.
    pub open spec fn wf(&self) -> bool {
        &&& nodup_views(self.tags@)
        &&& (self.name matches TestName::Dynamic(f) ==> call_requires(f, ((),)))
        &&& call_requires(self.func, ())
    }

    /// Builds a simple descriptor from the resolved name, the declared tag
    /// literals (duplicates collapse) and the test function.
    pub fn new(name: TestName<N>, tags: &[&'static str], func: F) -> (r: Self)
        requires
            name matches TestName::Dynamic(f) ==> call_requires(f, ((),)),
            call_requires(func, ()),
        ensures
            r.name == name,
            r.func == func,
            r.tag_set() == declared_set(tags@),
            r.wf(),
    {
        SimpleTest { name, tags: dedup_tags(tags), func }
    }
}

impl<N, F> Test for SimpleTest<N, F> where N: Fn(()) -> String, F: Fn() -> TestResult {
    open spec fn tag_set(&self) -> Set<Seq<char>> {
        tags_set_of(self.tags@)
    }

    open spec fn name_req(&self) -> bool {
        self.name matches TestName::Dynamic(f) ==> call_requires(f, ((),))
    }

    open spec fn name_post(&self, r: String) -> bool {
        match self.name {
            TestName::Static(s) => r@ == s@,
            TestName::Dynamic(f) => call_ensures(f, ((),), r),
        }
    }

    open spec fn exec_req(&self) -> bool {
        call_requires(self.func, ())
    }

    open spec fn exec_post(&self, r: TestResult) -> bool {
        call_ensures(self.func, (), r)
    }

    fn contains(&self, tag: &'static str) -> (r: bool) {
        vec_contains_str(&self.tags, tag)
    }

    fn name(&self) -> (r: String) {
        match &self.name {
            TestName::Static(s) => (*s).to_owned(),
            TestName::Dynamic(f) => f(()),
        }
    }

    fn exec(self) -> (r: TestResult) {
        (self.func)()
    }
}

/// A dynamic name must be a pure function of the (here empty) row. Under
/// that purity — the formatter's contract allows at most one string — any
/// two results of `name` on the same descriptor are equal, character for
/// character: `name` is idempotent.
pub proof fn lemma_simple_dynamic_name_idempotent<N, F>(
    t: SimpleTest<N, F>,
    r1: String,
    r2: String,
) where N: Fn(()) -> String, F: Fn() -> TestResult
    requires
        t.name matches TestName::Dynamic(f) ==> forall|s1: String, s2: String|
            call_ensures(f, ((),), s1) && call_ensures(f, ((),), s2) ==> s1@ == s2@,
        t.name_post(r1),
        t.name_post(r2),
    ensures
        r1@ == r2@,
{
}

/// A static name is returned verbatim: every result of `name` on a
/// static-name simple descriptor equals the declared literal, character for
/// character.
pub proof fn lemma_simple_static_name_verbatim<N, F>(
    t: SimpleTest<N, F>,
    s: &'static str,
    r: String,
) where N: Fn(()) -> String, F: Fn() -> TestResult
    requires
        t.name == TestName::<N>::Static(s),
        t.name_post(r),
    ensures
        r@ == s@,
{
}

} // verus!
