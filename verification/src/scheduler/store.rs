use vstd::prelude::*;

use super::models::TimeSlot;

verus! {

/// The order in which slots are kept and listed: by date, then start time, then id.
pub open spec fn slot_key_lt(a: TimeSlot, b: TimeSlot) -> bool {
    let (ad, bd) = (a.date.day(), b.date.day());
    let (asec, bsec) = (a.start_time.second(), b.start_time.second());
    let (afr, bfr) = (a.start_time.fraction(), b.start_time.fraction());
    ||| ad < bd
    ||| ad == bd && asec < bsec
    ||| ad == bd && asec == bsec && afr < bfr
    ||| ad == bd && asec == bsec && afr == bfr && a.id < b.id
}

/// The slots are in strictly increasing key order.
pub open spec fn sorted_slots(s: Seq<TimeSlot>) -> bool {
    forall|i: int, j: int| 0 <= i < j < s.len() ==> slot_key_lt(#[trigger] s[i], #[trigger] s[j])
}

/// No two slots share an id.
pub open spec fn unique_ids(s: Seq<TimeSlot>) -> bool {
    forall|i: int, j: int|
        0 <= i < s.len() && 0 <= j < s.len() && i != j ==> (#[trigger] s[i]).id != (
        #[trigger] s[j]).id
}

/// Some slot of `s` has the id `id`.
pub open spec fn has_id(s: Seq<TimeSlot>, id: u128) -> bool {
    exists|i: int| 0 <= i < s.len() && (#[trigger] s[i]).id == id
}

/// The slots of `s` by id.
pub open spec fn slot_map(s: Seq<TimeSlot>) -> Map<u128, TimeSlot> {
    Map::new(
        |id: u128| has_id(s, id),
        |id: u128| s[choose|i: int| 0 <= i < s.len() && (#[trigger] s[i]).id == id],
    )
}

/// Every slot of a map is stored under its own id.
pub open spec fn keys_match(m: Map<u128, TimeSlot>) -> bool {
    forall|id: u128| #[trigger] m.contains_key(id) ==> m[id].id == id
}

pub proof fn lemma_keys_match(s: Seq<TimeSlot>)
    ensures
        keys_match(slot_map(s)),
{
    assert forall|id: u128| #[trigger] slot_map(s).contains_key(id) implies slot_map(s)[id].id
        == id by {
        let i = choose|i: int| 0 <= i < s.len() && (#[trigger] s[i]).id == id;
        assert(s[i].id == id);
    }
}

/// In a sequence without repeated ids, the map gives each slot under its id.
pub proof fn lemma_map_at(s: Seq<TimeSlot>, i: int)
    requires
        unique_ids(s),
        0 <= i < s.len(),
    ensures
        slot_map(s).contains_key(s[i].id),
        slot_map(s)[s[i].id] == s[i],
{
    let id = s[i].id;
    assert(has_id(s, id));
    let j = choose|j: int| 0 <= j < s.len() && (#[trigger] s[j]).id == id;
    assert(s[j].id == id);
    if j != i {
        assert(s[j].id != s[i].id);
    }
}

pub proof fn lemma_map_insert(s: Seq<TimeSlot>, k: int, x: TimeSlot)
    requires
        unique_ids(s),
        !has_id(s, x.id),
        0 <= k <= s.len(),
    ensures
        unique_ids(s.insert(k, x)),
        slot_map(s.insert(k, x)) == slot_map(s).insert(x.id, x),
{
    let t = s.insert(k, x);
    assert forall|i: int, j: int|
        0 <= i < t.len() && 0 <= j < t.len() && i != j implies (#[trigger] t[i]).id != (
        #[trigger] t[j]).id by {
        let si = if i < k { i } else { i - 1 };
        let sj = if j < k { j } else { j - 1 };
        if i == k {
            assert(t[j] == s[sj]);
        } else if j == k {
            assert(t[i] == s[si]);
        } else {
            assert(t[i] == s[si] && t[j] == s[sj]);
        }
    }
    let m = slot_map(s).insert(x.id, x);
    assert forall|id: u128| #[trigger] slot_map(t).contains_key(id) <==> m.contains_key(id) by {
        if has_id(t, id) {
            let i = choose|i: int| 0 <= i < t.len() && (#[trigger] t[i]).id == id;
            if i < k {
                assert(s[i] == t[i]);
            } else if i > k {
                assert(s[i - 1] == t[i]);
            }
        }
        if has_id(s, id) {
            let i = choose|i: int| 0 <= i < s.len() && (#[trigger] s[i]).id == id;
            if i < k {
                assert(t[i] == s[i]);
            } else {
                assert(t[i + 1] == s[i]);
            }
        }
        if id == x.id {
            assert(t[k] == x);
        }
    }
    assert forall|id: u128| #[trigger] slot_map(t).contains_key(id) implies slot_map(t)[id]
        == m[id] by {
        let i = choose|i: int| 0 <= i < t.len() && (#[trigger] t[i]).id == id;
        lemma_map_at(t, i);
        if i < k {
            assert(t[i] == s[i]);
            lemma_map_at(s, i);
        } else if i > k {
            assert(t[i] == s[i - 1]);
            lemma_map_at(s, i - 1);
        }
    }
    assert(slot_map(t) =~= m);
}

pub proof fn lemma_map_remove(s: Seq<TimeSlot>, k: int)
    requires
        unique_ids(s),
        0 <= k < s.len(),
    ensures
        unique_ids(s.remove(k)),
        slot_map(s.remove(k)) == slot_map(s).remove(s[k].id),
{
    let t = s.remove(k);
    assert forall|i: int, j: int|
        0 <= i < t.len() && 0 <= j < t.len() && i != j implies (#[trigger] t[i]).id != (
        #[trigger] t[j]).id by {
        let si = if i < k { i } else { i + 1 };
        let sj = if j < k { j } else { j + 1 };
        assert(t[i] == s[si] && t[j] == s[sj]);
    }
    let m = slot_map(s).remove(s[k].id);
    assert forall|id: u128| #[trigger] slot_map(t).contains_key(id) <==> m.contains_key(id) by {
        if has_id(t, id) {
            let i = choose|i: int| 0 <= i < t.len() && (#[trigger] t[i]).id == id;
            if i < k {
                assert(s[i] == t[i]);
            } else {
                assert(s[i + 1] == t[i]);
            }
        }
        if has_id(s, id) && id != s[k].id {
            let i = choose|i: int| 0 <= i < s.len() && (#[trigger] s[i]).id == id;
            if i < k {
                assert(t[i] == s[i]);
            } else {
                assert(i != k);
                assert(t[i - 1] == s[i]);
            }
        }
    }
    assert forall|id: u128| #[trigger] slot_map(t).contains_key(id) implies slot_map(t)[id]
        == m[id] by {
        let i = choose|i: int| 0 <= i < t.len() && (#[trigger] t[i]).id == id;
        lemma_map_at(t, i);
        if i < k {
            assert(t[i] == s[i]);
            lemma_map_at(s, i);
        } else {
            assert(t[i] == s[i + 1]);
            lemma_map_at(s, i + 1);
        }
    }
    assert(slot_map(t) =~= m);
}

/// A sequence without repeated ids has as many slots as its map has ids.
pub proof fn lemma_map_len(s: Seq<TimeSlot>)
    requires
        unique_ids(s),
    ensures
        slot_map(s).dom().finite(),
        slot_map(s).dom().len() == s.len(),
{
    let ids = s.map_values(|x: TimeSlot| x.id);
    assert(ids.no_duplicates()) by {
        assert forall|i: int, j: int|
            0 <= i < ids.len() && 0 <= j < ids.len() && i != j implies ids[i] != ids[j] by {
            assert(ids[i] == s[i].id && ids[j] == s[j].id);
        }
    }
    ids.unique_seq_to_set();
    assert forall|id: u128| #[trigger] slot_map(s).dom().contains(id) <==> ids.to_set().contains(
        id,
    ) by {
        if has_id(s, id) {
            let i = choose|i: int| 0 <= i < s.len() && (#[trigger] s[i]).id == id;
            assert(ids[i] == id);
        }
        if ids.to_set().contains(id) {
            let i = choose|i: int| 0 <= i < ids.len() && ids[i] == id;
            assert(s[i].id == id);
        }
    }
    assert(slot_map(s).dom() =~= ids.to_set());
}

/// Slots that differ in id differ in key, so one precedes the other.
pub proof fn lemma_key_total(a: TimeSlot, b: TimeSlot)
    requires
        a.id != b.id,
    ensures
        slot_key_lt(a, b) || slot_key_lt(b, a),
{
}

/// Whether slot `a` is kept before slot `b`.
pub fn slot_before(a: &TimeSlot, b: &TimeSlot) -> (r: bool)
    ensures
        r == slot_key_lt(*a, *b),
{
    let ad = a.date.days_from_ce();
    let bd = b.date.days_from_ce();
    if ad != bd {
        return ad < bd;
    }
    let asec = a.start_time.num_seconds_from_midnight();
    let bsec = b.start_time.num_seconds_from_midnight();
    if asec != bsec {
        return asec < bsec;
    }
    let afr = a.start_time.nanosecond();
    let bfr = b.start_time.nanosecond();
    if afr != bfr {
        return afr < bfr;
    }
    a.id < b.id
}

/// The index of the slot with id `id`, if there is one.
pub fn position_of(v: &Vec<TimeSlot>, id: u128) -> (r: Option<usize>)
    ensures
        match r {
            Some(i) => i < v.len() && v@[i as int].id == id,
            None => !has_id(v@, id),
        },
{
    let mut i: usize = 0;
    while i < v.len()
        invariant
            i <= v.len(),
            forall|j: int| 0 <= j < i ==> (#[trigger] v@[j]).id != id,
        decreases v.len() - i,
    {
        if v[i].id == id {
            return Some(i);
        }
        i = i + 1;
    }
    None
}

/// The index at which `x` belongs in the sorted sequence `v`.
pub fn insertion_point(v: &Vec<TimeSlot>, x: &TimeSlot) -> (k: usize)
    requires
        sorted_slots(v@),
    ensures
        k <= v.len(),
        forall|i: int| 0 <= i < k ==> slot_key_lt(#[trigger] v@[i], *x),
        forall|i: int| k <= i < v.len() ==> !slot_key_lt(#[trigger] v@[i], *x),
{
    let mut k: usize = 0;
    while k < v.len()
        invariant
            k <= v.len(),
            sorted_slots(v@),
            forall|i: int| 0 <= i < k ==> slot_key_lt(#[trigger] v@[i], *x),
        decreases v.len() - k,
    {
        if !slot_before(&v[k], x) {
            assert forall|i: int| k <= i < v.len() implies !slot_key_lt(#[trigger] v@[i], *x) by {
                if i > k {
                    assert(slot_key_lt(v@[k as int], v@[i]));
                }
            }
            return k;
        }
        k = k + 1;
    }
    k
}

/// Inserting `x` where it belongs keeps a sorted sequence sorted.
pub proof fn lemma_sorted_insert(s: Seq<TimeSlot>, k: int, x: TimeSlot)
    requires
        sorted_slots(s),
        !has_id(s, x.id),
        0 <= k <= s.len(),
        forall|i: int| 0 <= i < k ==> slot_key_lt(#[trigger] s[i], x),
        forall|i: int| k <= i < s.len() ==> !slot_key_lt(#[trigger] s[i], x),
    ensures
        sorted_slots(s.insert(k, x)),
{
    let t = s.insert(k, x);
    assert forall|i: int| k <= i < s.len() implies slot_key_lt(x, #[trigger] s[i]) by {
        assert(s[i].id != x.id);
        lemma_key_total(s[i], x);
    }
    assert forall|i: int, j: int| 0 <= i < j < t.len() implies slot_key_lt(
        #[trigger] t[i],
        #[trigger] t[j],
    ) by {
        if j < k {
            assert(t[i] == s[i] && t[j] == s[j]);
        } else if j == k {
            assert(t[i] == s[i]);
        } else if i < k {
            assert(t[i] == s[i] && t[j] == s[j - 1]);
        } else if i == k {
            assert(t[j] == s[j - 1]);
        } else {
            assert(t[i] == s[i - 1] && t[j] == s[j - 1]);
        }
    }
}

pub proof fn lemma_sorted_remove(s: Seq<TimeSlot>, k: int)
    requires
        sorted_slots(s),
        0 <= k < s.len(),
    ensures
        sorted_slots(s.remove(k)),
{
    let t = s.remove(k);
    assert forall|i: int, j: int| 0 <= i < j < t.len() implies slot_key_lt(
        #[trigger] t[i],
        #[trigger] t[j],
    ) by {
        let si = if i < k { i } else { i + 1 };
        let sj = if j < k { j } else { j + 1 };
        assert(t[i] == s[si] && t[j] == s[sj]);
    }
}

} // verus!
