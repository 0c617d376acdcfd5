//! The descriptor model: how a test case is named and tagged.
use vstd::prelude::*;

pub mod data;
pub mod simple;

verus! {

/// How a descriptor is named: a static string fixed at expansion time, or a
/// formatter that derives the name from one row of data.
pub enum TestName<N> {
    Static(&'static str),
    Dynamic(N),
}

/// The set of character sequences held by a vector of tag strings.
pub open spec fn tags_set_of(tags: Seq<String>) -> Set<Seq<char>> {
    Set::new(|t: Seq<char>| exists|i: int| 0 <= i < tags.len() && tags[i]@ == t)
}

/// The set of character sequences declared by a slice of tag literals.
pub open spec fn declared_set(tags: Seq<&str>) -> Set<Seq<char>> {
    Set::new(|t: Seq<char>| exists|i: int| 0 <= i < tags.len() && tags[i]@ == t)
}

/// No two tags in the vector read the same: the tag set collapsed duplicates.
pub open spec fn nodup_views(tags: Seq<String>) -> bool {
    forall|i: int, j: int| 0 <= i < j < tags.len() ==> tags[i]@ != tags[j]@
}

/// True iff some element of `v` equals `s`, character for character.
pub fn vec_contains_str(v: &Vec<String>, s: &str) -> (r: bool)
    ensures
        r == exists|i: int| 0 <= i < v@.len() && (#[trigger] v@[i])@ == s@,
{
    let owned = s.to_owned();
    let mut i: usize = 0;
    while i < v.len()
        invariant
            0 <= i <= v@.len(),
            owned@ == s@,
            forall|j: int| 0 <= j < i ==> (#[trigger] v@[j])@ != s@,
        decreases v@.len() - i,
    {
        if v[i] == owned {
            return true;
        }
        i += 1;
    }
    false
}

/// Collects a slice of tag literals into the descriptor's tag vector,
/// collapsing duplicates: tags are a set.
pub fn dedup_tags(tags: &[&'static str]) -> (r: Vec<String>)
    ensures
        tags_set_of(r@) == declared_set(tags@),
        nodup_views(r@),
{
    let mut r: Vec<String> = Vec::new();
    let mut i: usize = 0;
    while i < tags.len()
        invariant
            0 <= i <= tags@.len(),
            nodup_views(r@),
            forall|t: Seq<char>|
                #[trigger] tags_set_of(r@).contains(t) <==> exists|j: int|
                    0 <= j < i && (#[trigger] tags@[j])@ == t,
        decreases tags@.len() - i,
    {
        let t = tags[i];
        let ghost r_old: Seq<String> = r@;
        let present = vec_contains_str(&r, t);
        if !present {
            r.push(t.to_owned());
        }
        proof {
            assert forall|tt: Seq<char>| #[trigger] tags_set_of(r@).contains(tt) implies exists|j: int|
                0 <= j < i + 1 && (#[trigger] tags@[j])@ == tt by {
                let k = choose|k: int| 0 <= k < r@.len() && (#[trigger] r@[k])@ == tt;
                if k < r_old.len() {
                    assert(r_old[k]@ == tt);
                    assert(tags_set_of(r_old).contains(tt));
                } else {
                    assert((tags@[i as int])@ == tt);
                }
            }
            assert forall|tt: Seq<char>| (exists|j: int| 0 <= j < i + 1 && (#[trigger] tags@[j])@
                == tt) implies #[trigger] tags_set_of(r@).contains(tt) by {
                let j = choose|j: int| 0 <= j < i + 1 && (#[trigger] tags@[j])@ == tt;
                if j < i {
                    assert(tags_set_of(r_old).contains(tt));
                    let k = choose|k: int| 0 <= k < r_old.len() && (#[trigger] r_old[k])@ == tt;
                    assert((r@[k])@ == tt);
                } else {
                    if present {
                        let k = choose|k: int| 0 <= k < r_old.len() && (#[trigger] r_old[k])@
                            == t@;
                        assert((r@[k])@ == tt);
                    } else {
                        assert((r@[r@.len() - 1])@ == tt);
                    }
                }
            }
            if !present {
                assert forall|a: int, b: int| 0 <= a < b < r@.len() implies (#[trigger] r@[a])@
                    != (#[trigger] r@[b])@ by {
                    if b == r@.len() - 1 {
                        assert(r@[a] == r_old[a]);
                        assert(r_old[a]@ != t@);
                    }
                }
            }
        }
        i += 1;
    }
    proof {
        assert(tags_set_of(r@) =~= declared_set(tags@));
    }
    r
}

} // verus!
