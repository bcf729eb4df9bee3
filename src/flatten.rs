use vstd::prelude::*;
use crate::text::str_equal;

verus! {

/// Pair `j` is the last among the first `n` pairs whose name is `key`.
pub open spec fn is_last_of(ps: Seq<(String, String)>, n: int, j: int, key: Seq<char>) -> bool {
    &&& 0 <= j < n
    &&& ps[j].0@ == key
    &&& forall|j2: int| j < j2 < n ==> #[trigger] ps[j2].0@ != key
}

/// Some pair of `r` is named `key`.
pub open spec fn name_present(r: Seq<(String, String)>, key: Seq<char>) -> bool {
    exists|k: int| 0 <= k < r.len() && r[k].0@ == key
}

/// `p` is the last pair of its name among the first `n` of `ps`.
pub open spec fn holds_last_value(ps: Seq<(String, String)>, n: int, p: (String, String)) -> bool {
    exists|j: int| is_last_of(ps, n, j, p.0@) && ps[j].1@ == p.1@
}

/// `r` holds each name of the first `n` pairs of `ps` once, with the value
/// of the last pair of that name.
pub open spec fn flattened_upto(r: Seq<(String, String)>, ps: Seq<(String, String)>, n: int) -> bool {
    &&& forall|a: int, b: int| 0 <= a < b < r.len() ==> #[trigger] r[a].0@ != #[trigger] r[b].0@
    &&& forall|k: int| 0 <= k < r.len() ==> holds_last_value(ps, n, #[trigger] r[k])
    &&& forall|j: int| 0 <= j < n ==> name_present(r, #[trigger] ps[j].0@)
}

pub open spec fn flattened(r: Seq<(String, String)>, ps: Seq<(String, String)>) -> bool {
    flattened_upto(r, ps, ps.len() as int)
}

/// The position of the pair named `key`, if any.
fn find_name(r: &Vec<(String, String)>, key: &str) -> (k: Option<usize>)
    ensures
        k matches Some(i) ==> i < r@.len() && r@[i as int].0@ == key@,
        k is None ==> forall|i: int| 0 <= i < r@.len() ==> #[trigger] r@[i].0@ != key@,
{
    let mut i: usize = 0;
    while i < r.len()
        invariant
            i <= r@.len(),
            forall|x: int| 0 <= x < i ==> #[trigger] r@[x].0@ != key@,
        decreases r@.len() - i,
    {
        if str_equal(r[i].0.as_str(), key) {
            return Some(i);
        }
        i = i + 1;
    }
    None
}

/// Flattens name/value pairs into one pair per name, a later value of a
/// name replacing an earlier one.
pub fn flatten_last_wins(ps: Vec<(String, String)>) -> (r: Vec<(String, String)>)
    ensures
        flattened(r@, ps@),
{
    let mut r: Vec<(String, String)> = Vec::new();
    let mut i: usize = 0;
    while i < ps.len()
        invariant
            i <= ps@.len(),
            flattened_upto(r@, ps@, i as int),
        decreases ps@.len() - i,
    {
        let name = ps[i].0.clone();
        let value = ps[i].1.clone();
        let ghost old_r = r@;
        match find_name(&r, name.as_str()) {
            Some(k) => {
                r.set(k, (name, value));
                assert forall|a: int, b: int| 0 <= a < b < r@.len() implies #[trigger] r@[a].0@
                    != #[trigger] r@[b].0@ by {
                    assert(old_r[a].0@ != old_r[b].0@);
                }
                assert forall|x: int| 0 <= x < r@.len() implies holds_last_value(
                    ps@,
                    i + 1,
                    #[trigger] r@[x],
                ) by {
                    if x == k {
                        assert(is_last_of(ps@, i + 1, i as int, r@[x].0@));
                    } else {
                        assert(r@[x].0@ != r@[k as int].0@);
                        assert(holds_last_value(ps@, i as int, old_r[x]));
                        let j = choose|j: int|
                            is_last_of(ps@, i as int, j, old_r[x].0@) && ps@[j].1@ == old_r[x].1@;
                        assert(is_last_of(ps@, i + 1, j, r@[x].0@));
                    }
                }
                assert forall|j: int| 0 <= j < i + 1 implies name_present(
                    r@,
                    #[trigger] ps@[j].0@,
                ) by {
                    if j == i {
                        assert(r@[k as int].0@ == ps@[j].0@);
                    } else {
                        assert(name_present(old_r, ps@[j].0@));
                        let x = choose|x: int| 0 <= x < old_r.len() && old_r[x].0@ == ps@[j].0@;
                        if x == k {
                            assert(r@[x].0@ == ps@[j].0@);
                        } else {
                            assert(r@[x].0@ == ps@[j].0@);
                        }
                    }
                }
            },
            None => {
                r.push((name, value));
                assert forall|a: int, b: int| 0 <= a < b < r@.len() implies #[trigger] r@[a].0@
                    != #[trigger] r@[b].0@ by {
                    if b == old_r.len() {
                        assert(old_r[a].0@ != name@);
                    } else {
                        assert(old_r[a].0@ != old_r[b].0@);
                    }
                }
                assert forall|x: int| 0 <= x < r@.len() implies holds_last_value(
                    ps@,
                    i + 1,
                    #[trigger] r@[x],
                ) by {
                    if x == old_r.len() {
                        assert(is_last_of(ps@, i + 1, i as int, r@[x].0@));
                    } else {
                        assert(holds_last_value(ps@, i as int, old_r[x]));
                        let j = choose|j: int|
                            is_last_of(ps@, i as int, j, old_r[x].0@) && ps@[j].1@ == old_r[x].1@;
                        assert(ps@[i as int].0@ != old_r[x].0@);
                        assert(is_last_of(ps@, i + 1, j, r@[x].0@));
                    }
                }
                assert forall|j: int| 0 <= j < i + 1 implies name_present(
                    r@,
                    #[trigger] ps@[j].0@,
                ) by {
                    if j == i {
                        assert(r@[old_r.len() as int].0@ == ps@[j].0@);
                    } else {
                        assert(name_present(old_r, ps@[j].0@));
                        let x = choose|x: int| 0 <= x < old_r.len() && old_r[x].0@ == ps@[j].0@;
                        assert(r@[x].0@ == ps@[j].0@);
                    }
                }
            },
        }
        i = i + 1;
    }
    r
}

} // verus!
