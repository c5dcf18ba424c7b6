//! Stable sorting, and the order of strings.

use crate::model::AgentRecord;
use crate::text::chars_of;
use vstd::prelude::*;

verus! {

/// `s`, sorted, with `x` put in after everything that does not come after it.
pub open spec fn insert_by<T>(s: Seq<T>, x: T, before: spec_fn(T, T) -> bool) -> Seq<T>
    decreases s.len(),
{
    if s.len() > 0 && before(x, s.last()) {
        insert_by(s.drop_last(), x, before).push(s.last())
    } else {
        s.push(x)
    }
}

/// `s` sorted; equals keep their order.
pub open spec fn sorted_by<T>(s: Seq<T>, before: spec_fn(T, T) -> bool) -> Seq<T>
    decreases s.len(),
{
    if s.len() == 0 {
        s
    } else {
        insert_by(sorted_by(s.drop_last(), before), s.last(), before)
    }
}

/// Moving the place of insertion past an element that comes after.
proof fn insert_by_step<T>(s: Seq<T>, x: T, before: spec_fn(T, T) -> bool, k: int)
    requires
        0 < k <= s.len(),
        before(x, s[k - 1]),
    ensures
        insert_by(s.take(k), x, before) + s.skip(k) == insert_by(s.take(k - 1), x, before)
            + s.skip(k - 1),
{
    assert(s.take(k).drop_last() == s.take(k - 1));
    assert(s.take(k).last() == s[k - 1]);
    assert(s.skip(k - 1) == seq![s[k - 1]] + s.skip(k));
}

/// Sorting keeps the elements.
pub proof fn sorted_by_keeps_elements<T>(s: Seq<T>, before: spec_fn(T, T) -> bool)
    ensures
        sorted_by(s, before).to_multiset() == s.to_multiset(),
        sorted_by(s, before).len() == s.len(),
    decreases s.len(),
{
    broadcast use vstd::seq_lib::group_to_multiset_ensures;

    if s.len() > 0 {
        let rest = sorted_by(s.drop_last(), before);
        sorted_by_keeps_elements(s.drop_last(), before);
        insert_by_keeps_elements(rest, s.last(), before);
        assert(s.drop_last().push(s.last()) == s);
    }
}

proof fn insert_by_keeps_elements<T>(s: Seq<T>, x: T, before: spec_fn(T, T) -> bool)
    ensures
        insert_by(s, x, before).to_multiset() == s.to_multiset().insert(x),
        insert_by(s, x, before).len() == s.len() + 1,
    decreases s.len(),
{
    broadcast use vstd::seq_lib::group_to_multiset_ensures;

    if s.len() > 0 && before(x, s.last()) {
        insert_by_keeps_elements(s.drop_last(), x, before);
        assert(s.drop_last().push(s.last()) == s);
        assert(insert_by(s, x, before).to_multiset() =~= s.to_multiset().insert(x));
    }
}

/// No element comes after a later one.
pub open spec fn in_order<T>(s: Seq<T>, before: spec_fn(T, T) -> bool) -> bool {
    forall|i: int, j: int| 0 <= i < j < s.len() ==> !before(#[trigger] s[j], #[trigger] s[i])
}

/// Sorting puts the elements in order, where the order is one.
pub proof fn sorted_by_in_order<T>(s: Seq<T>, before: spec_fn(T, T) -> bool)
    requires
        forall|a: T, b: T| #[trigger] before(a, b) ==> !before(b, a),
        forall|a: T, b: T, c: T|
            !(#[trigger] before(b, a)) && !(#[trigger] before(c, b)) ==> !before(c, a),
    ensures
        in_order(sorted_by(s, before), before),
    decreases s.len(),
{
    if s.len() > 0 {
        sorted_by_in_order(s.drop_last(), before);
        insert_by_in_order(sorted_by(s.drop_last(), before), s.last(), before);
    }
}

proof fn insert_by_in_order<T>(s: Seq<T>, x: T, before: spec_fn(T, T) -> bool)
    requires
        in_order(s, before),
        forall|a: T, b: T| #[trigger] before(a, b) ==> !before(b, a),
        forall|a: T, b: T, c: T|
            !(#[trigger] before(b, a)) && !(#[trigger] before(c, b)) ==> !before(c, a),
    ensures
        in_order(insert_by(s, x, before), before),
        forall|i: int|
            0 <= i < insert_by(s, x, before).len() ==> (#[trigger] insert_by(s, x, before)[i] == x
                || s.contains(insert_by(s, x, before)[i])),
    decreases s.len(),
{
    let r = insert_by(s, x, before);
    if s.len() > 0 && before(x, s.last()) {
        let front = s.drop_last();
        insert_by_in_order(front, x, before);
        let rf = insert_by(front, x, before);
        assert forall|i: int, j: int| 0 <= i < j < r.len() implies !before(
            #[trigger] r[j],
            #[trigger] r[i],
        ) by {
            if j == r.len() - 1 {
                assert(r[i] == rf[i]);
                if rf[i] != x {
                    assert(front.contains(rf[i]));
                    let k = choose|k: int| 0 <= k < front.len() && front[k] == rf[i];
                    assert(!before(s[s.len() - 1], s[k]));
                }
            } else {
                assert(r[i] == rf[i] && r[j] == rf[j]);
            }
        }
        assert forall|i: int| 0 <= i < r.len() implies (#[trigger] r[i] == x || s.contains(r[i])) by {
            if i < rf.len() {
                assert(r[i] == rf[i]);
                if rf[i] != x {
                    assert(front.contains(rf[i]));
                    let k = choose|k: int| 0 <= k < front.len() && front[k] == rf[i];
                    assert(s[k] == rf[i]);
                }
            } else {
                assert(r[i] == s[s.len() - 1]);
            }
        }
    } else {
        assert forall|i: int, j: int| 0 <= i < j < r.len() implies !before(
            #[trigger] r[j],
            #[trigger] r[i],
        ) by {
            if j == r.len() - 1 && i < s.len() - 1 {
                assert(!before(s[s.len() - 1], s[i]));
            }
        }
        assert forall|i: int| 0 <= i < r.len() implies (#[trigger] r[i] == x || s.contains(r[i])) by {
            if i < s.len() {
                assert(s[i] == r[i]);
            }
        }
    }
}

/// The order of strings: by the first character that differs, a prefix first.
pub open spec fn text_before(a: Seq<char>, b: Seq<char>) -> bool
    decreases a.len(),
{
    if b.len() == 0 {
        false
    } else if a.len() == 0 {
        true
    } else if a[0] != b[0] {
        a[0] < b[0]
    } else {
        text_before(a.drop_first(), b.drop_first())
    }
}

/// Whether a string comes before another.
pub fn comes_before(a: &str, b: &str) -> (before: bool)
    ensures
        before == text_before(a@, b@),
{
    let x = chars_of(a);
    let y = chars_of(b);
    let mut i: usize = 0;
    assert(x@.skip(0) == a@ && y@.skip(0) == b@);
    while i < x.len() && i < y.len()
        invariant
            i <= x.len(),
            i <= y.len(),
            text_before(a@, b@) == text_before(x@.skip(i as int), y@.skip(i as int)),
        decreases x.len() - i,
    {
        if x[i] != y[i] {
            return x[i] < y[i];
        }
        assert(x@.skip(i as int).drop_first() == x@.skip(i + 1));
        assert(y@.skip(i as int).drop_first() == y@.skip(i + 1));
        i += 1;
    }
    i < y.len()
}

/// Of two texts that differ, one comes before the other, and not the other way
/// round; and what comes before comes before all that comes after.
pub proof fn texts_are_in_order(a: Seq<char>, b: Seq<char>, c: Seq<char>)
    ensures
        !text_before(a, a),
        text_before(a, b) ==> !text_before(b, a),
        a != b ==> text_before(a, b) || text_before(b, a),
        text_before(a, b) && text_before(b, c) ==> text_before(a, c),
    decreases a.len() + b.len() + c.len(),
{
    if a.len() > 0 && b.len() > 0 && c.len() > 0 {
        texts_are_in_order(a.drop_first(), b.drop_first(), c.drop_first());
        if a[0] == b[0] && a.drop_first() == b.drop_first() {
            assert(a =~= seq![a[0]] + a.drop_first());
            assert(b =~= seq![b[0]] + b.drop_first());
        }
    } else if a.len() > 0 && b.len() > 0 {
        texts_are_in_order(a.drop_first(), b.drop_first(), c);
        if a[0] == b[0] && a.drop_first() == b.drop_first() {
            assert(a =~= seq![a[0]] + a.drop_first());
            assert(b =~= seq![b[0]] + b.drop_first());
        }
    } else if a.len() > 0 {
        texts_are_in_order(a.drop_first(), b, Seq::empty());
    } else if b.len() == 0 {
        assert(a =~= b);
    }
}

/// The order of entries by name.
pub open spec fn name_before<K>() -> spec_fn((String, K), (String, K)) -> bool {
    |a: (String, K), b: (String, K)| text_before(a.0@, b.0@)
}

/// Things that were sorted by name are in order.
pub proof fn names_end_up_in_order<K>(items: Seq<(String, K)>)
    ensures
        in_order(sorted_by(items, name_before::<K>()), name_before::<K>()),
{
    let before = name_before::<K>();
    assert forall|a: (String, K), b: (String, K)| #[trigger] before(a, b) implies !before(b, a) by {
        texts_are_in_order(a.0@, b.0@, b.0@);
    }
    assert forall|a: (String, K), b: (String, K), c: (String, K)|
        !(#[trigger] before(b, a)) && !(#[trigger] before(c, b)) implies !before(c, a) by {
        texts_are_in_order(b.0@, c.0@, a.0@);
        texts_are_in_order(c.0@, a.0@, b.0@);
        texts_are_in_order(a.0@, b.0@, c.0@);
    }
    sorted_by_in_order(items, before);
}

/// Named things sorted by name.
pub fn sort_by_name<K>(items: Vec<(String, K)>) -> (sorted: Vec<(String, K)>)
    ensures
        sorted@ == sorted_by(items@, name_before::<K>()),
{
    let ghost all = items@;
    let ghost before = name_before::<K>();
    let mut sorted: Vec<(String, K)> = Vec::new();
    assert(all.take(0) == Seq::<(String, K)>::empty());
    for item in it: items
        invariant
            it.seq() == all,
            before == name_before::<K>(),
            sorted@ == sorted_by(all.take(it.index() as int), before),
    {
        let ghost held = sorted@;
        let ghost x = item;
        assert(all.take(it.index() + 1).drop_last() == all.take(it.index() as int));
        let mut k: usize = sorted.len();
        assert(held.take(k as int) == held);
        assert(insert_by(held, x, before) == insert_by(held.take(k as int), x, before)
            + held.skip(k as int));
        while k > 0 && comes_before(item.0.as_str(), sorted[k - 1].0.as_str())
            invariant
                k <= sorted.len(),
                sorted@ == held,
                before == name_before::<K>(),
                x == item,
                insert_by(held, x, before) == insert_by(held.take(k as int), x, before)
                    + held.skip(k as int),
            decreases k,
        {
            proof {
                insert_by_step(held, x, before, k as int);
            }
            k -= 1;
        }
        assert(insert_by(held.take(k as int), x, before) == held.take(k as int).push(x));
        sorted.insert(k, item);
        assert(sorted@ == held.take(k as int).push(x) + held.skip(k as int));
    }
    assert(all.take(all.len() as int) == all);
    sorted
}

/// The order of agents: the newest first.
pub open spec fn newer_agent() -> spec_fn(AgentRecord, AgentRecord) -> bool {
    |a: AgentRecord, b: AgentRecord| a.meta.created_at > b.meta.created_at
}

/// Agents sorted by when they were created, the newest first.
pub fn sort_newest_first(items: Vec<AgentRecord>) -> (sorted: Vec<AgentRecord>)
    ensures
        sorted@ == sorted_by(items@, newer_agent()),
{
    let ghost all = items@;
    let ghost before = newer_agent();
    let mut sorted: Vec<AgentRecord> = Vec::new();
    assert(all.take(0) == Seq::<AgentRecord>::empty());
    for item in it: items
        invariant
            it.seq() == all,
            before == newer_agent(),
            sorted@ == sorted_by(all.take(it.index() as int), before),
    {
        let ghost held = sorted@;
        let ghost x = item;
        assert(all.take(it.index() + 1).drop_last() == all.take(it.index() as int));
        let mut k: usize = sorted.len();
        assert(held.take(k as int) == held);
        assert(insert_by(held, x, before) == insert_by(held.take(k as int), x, before)
            + held.skip(k as int));
        while k > 0 && item.meta.created_at > sorted[k - 1].meta.created_at
            invariant
                k <= sorted.len(),
                sorted@ == held,
                before == newer_agent(),
                x == item,
                insert_by(held, x, before) == insert_by(held.take(k as int), x, before)
                    + held.skip(k as int),
            decreases k,
        {
            proof {
                insert_by_step(held, x, before, k as int);
            }
            k -= 1;
        }
        assert(insert_by(held.take(k as int), x, before) == held.take(k as int).push(x));
        sorted.insert(k, item);
        assert(sorted@ == held.take(k as int).push(x) + held.skip(k as int));
    }
    assert(all.take(all.len() as int) == all);
    sorted
}

/// Of two texts, the first character in which they differ decides, and a text
/// comes before one that only goes on.
pub proof fn the_first_difference_decides(
    start: Seq<char>,
    x: char,
    rest: Seq<char>,
    y: char,
    other: Seq<char>,
)
    ensures
        x < y ==> text_before(start.push(x) + rest, start.push(y) + other),
        text_before(start, start.push(x) + rest),
    decreases start.len(),
{
    let a = start.push(x) + rest;
    let b = start.push(y) + other;
    if start.len() > 0 {
        let less = start.drop_first();
        the_first_difference_decides(less, x, rest, y, other);
        assert(a.drop_first() =~= less.push(x) + rest);
        assert(b.drop_first() =~= less.push(y) + other);
        assert(a[0] == start[0] && b[0] == start[0]);
    }
}

/// Names that were sorted go from the first in the order of texts to the last.
pub proof fn sorted_names_go_up<K>(items: Seq<(String, K)>, i: int, j: int)
    requires
        0 <= i < j < items.len(),
    ensures
        sorted_by(items, name_before::<K>()).len() == items.len(),
        !text_before(
            sorted_by(items, name_before::<K>())[j].0@,
            sorted_by(items, name_before::<K>())[i].0@,
        ),
{
    let before = name_before::<K>();
    let sorted = sorted_by(items, before);
    names_end_up_in_order(items);
    sorted_by_keeps_elements(items, before);
    assert(!before(sorted[j], sorted[i]));
}

/// Agents that were sorted go from the newest to the oldest.
pub proof fn sorted_agents_go_back_in_time(items: Seq<AgentRecord>, i: int, j: int)
    requires
        0 <= i < j < items.len(),
    ensures
        sorted_by(items, newer_agent()).len() == items.len(),
        sorted_by(items, newer_agent())[i].meta.created_at >= sorted_by(
            items,
            newer_agent(),
        )[j].meta.created_at,
{
    let before = newer_agent();
    let sorted = sorted_by(items, before);
    sorted_by_in_order(items, before);
    sorted_by_keeps_elements(items, before);
    assert(!before(sorted[j], sorted[i]));
}

/// What was sorted holds exactly what there was.
pub proof fn sorted_elements<T>(s: Seq<T>, before: spec_fn(T, T) -> bool, x: T)
    ensures
        sorted_by(s, before).contains(x) <==> s.contains(x),
{
    sorted_by_keeps_elements(s, before);
    vstd::seq_lib::to_multiset_contains(s, x);
    vstd::seq_lib::to_multiset_contains(sorted_by(s, before), x);
}

/// What was kept of a sequence is exactly what is in it and passes.
pub proof fn kept_elements<T>(s: Seq<T>, keep: spec_fn(T) -> bool, x: T)
    ensures
        s.filter(keep).contains(x) <==> s.contains(x) && keep(x),
    decreases s.len(),
{
    reveal(Seq::filter);
    let kept = s.filter(keep);
    if s.len() > 0 {
        let rest = s.drop_last();
        let before = rest.filter(keep);
        kept_elements(rest, keep, x);
        if rest.contains(x) {
            let i = choose|i: int| 0 <= i < rest.len() && rest[i] == x;
            assert(s[i] == x);
        }
        if s.contains(x) && !rest.contains(x) {
            let i = choose|i: int| 0 <= i < s.len() && s[i] == x;
            assert(i == s.len() - 1) by {
                if i < rest.len() {
                    assert(rest[i] == x);
                }
            }
        }
        if before.contains(x) {
            let i = choose|i: int| 0 <= i < before.len() && before[i] == x;
            assert(kept[i] == x);
        }
        if keep(s.last()) {
            assert(kept[kept.len() - 1] == s.last());
            assert(s[s.len() - 1] == s.last());
            if kept.contains(x) && x != s.last() {
                let i = choose|i: int| 0 <= i < kept.len() && kept[i] == x;
                assert(before[i] == x);
            }
        }
    }
}

} // verus!
