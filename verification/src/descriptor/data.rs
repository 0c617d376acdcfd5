//! The descriptors of a parameterized (data-driven) test: one shared header,
//! one descriptor per row.
use core::marker::PhantomData;
use std::sync::Arc;

use vstd::prelude::*;

use crate::Test;
use crate::descriptor::TestName;
use crate::descriptor::declared_set;
use crate::descriptor::dedup_tags;
use crate::descriptor::nodup_views;
use crate::descriptor::tags_set_of;
use crate::descriptor::vec_contains_str;
use crate::error::TestResult;

verus! {

/// The header shared across all rows of one parameterized test: the name,
/// the tag set and the test function. It is built once per factory call and
/// held by every row descriptor through a reference-counted handle; sharing
/// is read-only after construction.
pub struct DataTestCommon<Data, N, F> {
    pub name: TestName<N>,
    pub tags: Vec<String>,
    pub func: F,
    pub row: PhantomData<Data>,
}

impl<Data, N, F> DataTestCommon<Data, N, F> where
    Data: Copy,
    N: Fn(Data) -> String,
    F: Fn(Data) -> TestResult,
 {
    /// The header's internal invariant: the tag vector collapsed duplicates.
    pub open spec fn wf(&self) -> bool {
        nodup_views(self.tags@)
    }

    /// Builds the shared header from the resolved name, the declared tag
    /// literals (duplicates collapse) and the row-consuming test function.
    pub fn new(name: TestName<N>, tags: &[&'static str], func: F) -> (r: Arc<Self>)
        ensures
            (*r).name == name,
            (*r).func == func,
            tags_set_of((*r).tags@) == declared_set(tags@),
            (*r).wf(),
    {
        Arc::new(DataTestCommon { name, tags: dedup_tags(tags), func, row: PhantomData })
    }
}

/// One row of a parameterized test: a shared handle to the common header and
/// the owned row data.
pub struct DataTest<Data, N, F> {
    pub common: Arc<DataTestCommon<Data, N, F>>,
    pub args: Data,
}

impl<Data, N, F> DataTest<Data, N, F> where
    Data: Copy,
    N: Fn(Data) -> String,
    F: Fn(Data) -> TestResult,
 {
    /// Pairs the shared header with one row.
    pub fn new(common: Arc<DataTestCommon<Data, N, F>>, args: Data) -> (r: Self)
        ensures
            r.common == common,
            r.args == args,
    {
        DataTest { common, args }
    }
}

impl<Data, N, F> Test for DataTest<Data, N, F> where
    Data: Copy,
    N: Fn(Data) -> String,
    F: Fn(Data) -> TestResult,
 {
    open spec fn tag_set(&self) -> Set<Seq<char>> {
        tags_set_of((*self.common).tags@)
    }

    open spec fn name_req(&self) -> bool {
        (*self.common).name matches TestName::Dynamic(f) ==> call_requires(f, (self.args,))
    }

    open spec fn name_post(&self, r: String) -> bool {
        match (*self.common).name {
            TestName::Static(s) => r@ == s@,
            TestName::Dynamic(f) => call_ensures(f, (self.args,), r),
        }
    }

    open spec fn exec_req(&self) -> bool {
        call_requires((*self.common).func, (self.args,))
    }

    open spec fn exec_post(&self, r: TestResult) -> bool {
        call_ensures((*self.common).func, (self.args,), r)
    }

    fn contains(&self, tag: &'static str) -> (r: bool) {
        vec_contains_str(&self.common.tags, tag)
    }

    fn name(&self) -> (r: String) {
        match &self.common.name {
            TestName::Static(s) => (*s).to_owned(),
            TestName::Dynamic(f) => f(self.args),
        }
    }

    fn exec(self) -> (r: TestResult) {
        let DataTest { common, args } = self;
        (common.func)(args)
    }
}

/// Materializes the descriptors of one parameterized test: exactly one
/// descriptor per row, the i-th holding the i-th row and a shared handle to
/// the same common header.
pub fn make_data_tests<Data, N, F>(
    common: Arc<DataTestCommon<Data, N, F>>,
    rows: Vec<Data>,
) -> (r: Vec<DataTest<Data, N, F>>) where
    Data: Copy,
    N: Fn(Data) -> String,
    F: Fn(Data) -> TestResult,

    ensures
        r@.len() == rows@.len(),
        forall|i: int|
            0 <= i < rows@.len() ==> (#[trigger] r@[i]).args == rows@[i] && r@[i].common == common,
{
    let mut r: Vec<DataTest<Data, N, F>> = Vec::new();
    let mut i: usize = 0;
    while i < rows.len()
        invariant
            0 <= i <= rows@.len(),
            r@.len() == i,
            forall|j: int|
                0 <= j < i ==> (#[trigger] r@[j]).args == rows@[j] && r@[j].common == common,
        decreases rows@.len() - i,
    {
        r.push(DataTest::new(common.clone(), rows[i]));
        i += 1;
    }
    r
}

/// A static name is returned verbatim: every result of `name` on a
/// static-name row descriptor equals the declared literal, character for
/// character.
pub proof fn lemma_data_static_name_verbatim<Data, N, F>(
    t: DataTest<Data, N, F>,
    s: &'static str,
    r: String,
) where Data: Copy, N: Fn(Data) -> String, F: Fn(Data) -> TestResult
    requires
        (*t.common).name == TestName::<N>::Static(s),
        t.name_post(r),
    ensures
        r@ == s@,
{
}

/// A dynamic name must be a pure function of the row and must not mutate
/// state. Under that purity — the formatter's contract allows at most one
/// string per row — any two results of `name` on the same descriptor are
/// equal, character for character: `name` is idempotent.
pub proof fn lemma_dynamic_name_idempotent<Data, N, F>(
    t: DataTest<Data, N, F>,
    r1: String,
    r2: String,
) where Data: Copy, N: Fn(Data) -> String, F: Fn(Data) -> TestResult
    requires
        (*t.common).name matches TestName::Dynamic(f) ==> forall|s1: String, s2: String|
            call_ensures(f, (t.args,), s1) && call_ensures(f, (t.args,), s2) ==> s1@ == s2@,
        t.name_post(r1),
        t.name_post(r2),
    ensures
        r1@ == r2@,
{
}

} // verus!
