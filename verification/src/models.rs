//! Lists of model names.
use crate::text::{blank, opt_texts, texts, to_chars, trim, trim_str};
use vstd::prelude::*;
use vstd::string::*;

verus! {

/// `a` stands before `b`: the order of the first characters that differ, else the shorter first.
/// On strings this is the order of their UTF-8 bytes.
pub open spec fn stands_before(a: Seq<char>, b: Seq<char>) -> bool
    decreases a.len(),
{
    if b.len() == 0 {
        false
    } else if a.len() == 0 {
        true
    } else if a[0] != b[0] {
        a[0] < b[0]
    } else {
        stands_before(a.drop_first(), b.drop_first())
    }
}

/// Two names stand one way or the other, unless they are the same.
pub proof fn lemma_order_total(a: Seq<char>, b: Seq<char>)
    ensures
        stands_before(a, b) || a == b || stands_before(b, a),
        !(stands_before(a, b) && stands_before(b, a)),
        a == b ==> !stands_before(a, b),
    decreases a.len(),
{
    if a.len() > 0 && b.len() > 0 && a[0] == b[0] {
        lemma_order_total(a.drop_first(), b.drop_first());
        if a.drop_first() == b.drop_first() {
            assert(a =~= seq![a[0]] + a.drop_first());
            assert(b =~= seq![b[0]] + b.drop_first());
        }
    } else if a.len() == 0 && b.len() == 0 {
        assert(a =~= b);
    }
}

pub proof fn lemma_order_transitive(a: Seq<char>, b: Seq<char>, c: Seq<char>)
    requires
        stands_before(a, b),
        stands_before(b, c),
    ensures
        stands_before(a, c),
    decreases a.len(),
{
    if a.len() > 0 && b.len() > 0 && c.len() > 0 && a[0] == b[0] && b[0] == c[0] {
        lemma_order_transitive(a.drop_first(), b.drop_first(), c.drop_first());
    }
}

/// Tells whether `a` stands before `b`.
pub fn name_before(a: &str, b: &str) -> (r: bool)
    ensures
        r == stands_before(a@, b@),
{
    let x = to_chars(a);
    let y = to_chars(b);
    let mut i: usize = 0;
    assert(a@.skip(0) =~= a@);
    assert(b@.skip(0) =~= b@);
    while i < x.len() && i < y.len()
        invariant
            x@ == a@,
            y@ == b@,
            i <= x.len(),
            i <= y.len(),
            stands_before(a@, b@) == stands_before(a@.skip(i as int), b@.skip(i as int)),
        decreases x.len() - i,
    {
        if x[i] != y[i] {
            return x[i] < y[i];
        }
        assert(a@.skip(i as int).drop_first() =~= a@.skip(i + 1));
        assert(b@.skip(i as int).drop_first() =~= b@.skip(i + 1));
        i = i + 1;
    }
    i < y.len()
}

/// A sorted list with one name put in its place; a name that is there already stays single.
pub open spec fn with_name(sorted: Seq<Seq<char>>, name: Seq<char>) -> Seq<Seq<char>>
    decreases sorted.len(),
{
    if sorted.len() == 0 {
        seq![name]
    } else if sorted.last() == name {
        sorted
    } else if stands_before(sorted.last(), name) {
        sorted.push(name)
    } else {
        with_name(sorted.drop_last(), name).push(sorted.last())
    }
}

/// The names of a list in order, each once, trimmed, without the blank ones.
pub open spec fn tidy_names(names: Seq<Seq<char>>) -> Seq<Seq<char>>
    decreases names.len(),
{
    if names.len() == 0 {
        Seq::empty()
    } else if blank(names.last()) {
        tidy_names(names.drop_last())
    } else {
        with_name(tidy_names(names.drop_last()), trim(names.last()))
    }
}

/// The tidied list of names; nothing where no name is left.
pub open spec fn clean_names(names: Option<Seq<Seq<char>>>) -> Option<Seq<Seq<char>>> {
    match names {
        Some(names) => if tidy_names(names).len() == 0 {
            None
        } else {
            Some(tidy_names(names))
        },
        None => None,
    }
}

proof fn lemma_with_name_at(sorted: Seq<Seq<char>>, name: Seq<char>, p: int)
    requires
        0 <= p <= sorted.len(),
        p == 0 || stands_before(sorted[p - 1], name) || sorted[p - 1] == name,
        forall|k: int| p <= k < sorted.len() ==> sorted[k] != name && !stands_before(#[trigger] sorted[k], name),
    ensures
        p > 0 && sorted[p - 1] == name ==> with_name(sorted, name) == sorted,
        !(p > 0 && sorted[p - 1] == name) ==> with_name(sorted, name) == sorted.insert(p, name),
    decreases sorted.len(),
{
    if sorted.len() == 0 {
        assert(sorted.insert(0, name) =~= seq![name]);
    } else if p == sorted.len() {
        lemma_order_total(sorted.last(), name);
        assert(sorted.insert(p, name) =~= sorted.push(name));
    } else {
        let front = sorted.drop_last();
        assert forall|k: int| p <= k < front.len() implies front[k] != name && !stands_before(
            #[trigger] front[k],
            name,
        ) by {
            assert(front[k] == sorted[k]);
        }
        lemma_with_name_at(front, name, p);
        assert(front.push(sorted.last()) =~= sorted);
        assert(front.insert(p, name).push(sorted.last()) =~= sorted.insert(p, name));
    }
}

/// Puts a name in its place in a sorted list.
fn put_name(sorted: &mut Vec<String>, name: String)
    ensures
        texts(final(sorted)@) == with_name(texts(old(sorted)@), name@),
{
    let ghost before = texts(sorted@);
    let mut p: usize = sorted.len();
    while p > 0 && !name_before(sorted[p - 1].as_str(), name.as_str())
        invariant
            before == texts(sorted@),
            before == texts(old(sorted)@),
            p <= sorted@.len(),
            forall|k: int| p <= k < before.len() ==> before[k] != name@ && !stands_before(#[trigger] before[k], name@),
        decreases p,
    {
        if sorted[p - 1] == name {
            proof {
                lemma_with_name_at(before, name@, p as int);
            }
            return;
        }
        p = p - 1;
    }
    proof {
        if p > 0 {
            lemma_order_total(before[p - 1], name@);
        }
        lemma_with_name_at(before, name@, p as int);
    }
    sorted.insert(p, name);
    assert(texts(sorted@) =~= before.insert(p as int, name@));
}

/// Trims the names of a list, drops the blank ones, puts the rest in order and keeps each once.
pub fn clean_models(models: Option<Vec<String>>) -> (r: Option<Vec<String>>)
    ensures
        opt_texts(r) == clean_names(opt_texts(models)),
{
    let models = match models {
        Some(models) => models,
        None => {
            return None;
        },
    };
    let mut cleaned: Vec<String> = Vec::new();
    let ghost all = texts(models@);
    assert(texts(cleaned@) =~= tidy_names(all.take(0)));
    for i in 0..models.len()
        invariant
            all == texts(models@),
            texts(cleaned@) == tidy_names(all.take(i as int)),
    {
        let name = trim_str(models[i].as_str());
        proof {
            assert(all.take(i + 1).drop_last() =~= all.take(i as int));
            assert(all.take(i + 1).last() == models@[i as int]@);
        }
        if !name.is_empty() {
            put_name(&mut cleaned, name.to_owned());
        }
    }
    assert(all.take(all.len() as int) =~= all);
    if cleaned.is_empty() {
        None
    } else {
        Some(cleaned)
    }
}

/// Each name stands before the next.
pub open spec fn in_order(names: Seq<Seq<char>>) -> bool {
    forall|i: int, j: int|
        0 <= i < j < names.len() ==> stands_before(#[trigger] names[i], #[trigger] names[j])
}

proof fn lemma_with_name(sorted: Seq<Seq<char>>, name: Seq<char>)
    requires
        in_order(sorted),
    ensures
        in_order(with_name(sorted, name)),
        forall|x: Seq<char>|
            #![trigger with_name(sorted, name).contains(x)]
            #![trigger sorted.contains(x)]
            with_name(sorted, name).contains(x) <==> sorted.contains(x) || x == name,
        with_name(sorted, name).contains(name),
    decreases sorted.len(),
{
    let result = with_name(sorted, name);
    if sorted.len() == 0 {
        assert(result[0] == name);
    } else if sorted.last() == name {
        assert(sorted[sorted.len() - 1] == name);
    } else if stands_before(sorted.last(), name) {
        assert forall|i: int, j: int| 0 <= i < j < result.len() implies stands_before(
            #[trigger] result[i],
            #[trigger] result[j],
        ) by {
            if j == sorted.len() && i < sorted.len() - 1 {
                lemma_order_transitive(sorted[i], sorted.last(), name);
            }
        }
        assert forall|x: Seq<char>|
            #![trigger result.contains(x)]
            #![trigger sorted.contains(x)]
            result.contains(x) <==> sorted.contains(x) || x == name by {
            if sorted.contains(x) {
                let k = choose|k: int| 0 <= k < sorted.len() && sorted[k] == x;
                assert(result[k] == x);
            }
            assert(result[sorted.len() as int] == name);
        }
    } else {
        let front = sorted.drop_last();
        let inner = with_name(front, name);
        lemma_with_name(front, name);
        lemma_order_total(sorted.last(), name);
        assert forall|i: int, j: int| 0 <= i < j < result.len() implies stands_before(
            #[trigger] result[i],
            #[trigger] result[j],
        ) by {
            if j == inner.len() {
                assert(inner.contains(inner[i]));
                assert(result[i] == inner[i]);
                if inner[i] != name {
                    assert(front.contains(inner[i]));
                    let k = choose|k: int| 0 <= k < front.len() && front[k] == inner[i];
                    assert(sorted[k] == inner[i]);
                }
            } else {
                assert(inner[i] == result[i] && inner[j] == result[j]);
            }
        }
        assert forall|x: Seq<char>|
            #![trigger result.contains(x)]
            #![trigger sorted.contains(x)]
            result.contains(x) <==> sorted.contains(x) || x == name by {
            if result.contains(x) {
                let k = choose|k: int| 0 <= k < result.len() && result[k] == x;
                if k < inner.len() {
                    assert(inner.contains(x));
                    if front.contains(x) {
                        let m = choose|m: int| 0 <= m < front.len() && front[m] == x;
                        assert(sorted[m] == x);
                    }
                } else {
                    assert(sorted[sorted.len() - 1] == x);
                }
            }
            if sorted.contains(x) {
                let k = choose|k: int| 0 <= k < sorted.len() && sorted[k] == x;
                if k < front.len() {
                    assert(front[k] == x);
                    assert(inner.contains(x));
                    let m = choose|m: int| 0 <= m < inner.len() && inner[m] == x;
                    assert(result[m] == x);
                } else {
                    assert(result[inner.len() as int] == x);
                }
            }
            if x == name {
                assert(inner.contains(x));
                let m = choose|m: int| 0 <= m < inner.len() && inner[m] == x;
                assert(result[m] == x);
            }
        }
    }
}

/// A tidied list is in order, so no name occurs twice, and holds exactly the trimmed forms of
/// the names that are not blank.
pub proof fn law_tidy_names(names: Seq<Seq<char>>)
    ensures
        in_order(tidy_names(names)),
        forall|x: Seq<char>|
            #![trigger tidy_names(names).contains(x)]
            tidy_names(names).contains(x) <==> exists|i: int|
                0 <= i < names.len() && !blank(names[i]) && x == #[trigger] trim(names[i]),
    decreases names.len(),
{
    if names.len() > 0 {
        let front = names.drop_last();
        law_tidy_names(front);
        if !blank(names.last()) {
            lemma_with_name(tidy_names(front), trim(names.last()));
        }
        assert forall|x: Seq<char>|
            #![trigger tidy_names(names).contains(x)]
            tidy_names(names).contains(x) <==> exists|i: int|
                0 <= i < names.len() && !blank(names[i]) && x == #[trigger] trim(names[i]) by {
            if tidy_names(front).contains(x) {
                let i = choose|i: int|
                    0 <= i < front.len() && !blank(front[i]) && x == #[trigger] trim(front[i]);
                assert(names[i] == front[i]);
                assert(x == trim(names[i]));
            }
            if exists|i: int| 0 <= i < names.len() && !blank(names[i]) && x == #[trigger] trim(names[i]) {
                let i = choose|i: int|
                    0 <= i < names.len() && !blank(names[i]) && x == #[trigger] trim(names[i]);
                if i < front.len() {
                    assert(front[i] == names[i]);
                    assert(x == trim(front[i]));
                }
            }
            if !blank(names.last()) && x == trim(names.last()) {
                assert(names[names.len() - 1] == names.last());
                assert(x == trim(names[names.len() - 1]));
            }
        }
    }
}

proof fn lemma_tidy_of_tidy(names: Seq<Seq<char>>)
    requires
        in_order(names),
        forall|i: int| 0 <= i < names.len() ==> !blank(#[trigger] names[i]) && trim(names[i]) == names[i],
    ensures
        tidy_names(names) == names,
    decreases names.len(),
{
    if names.len() > 0 {
        let front = names.drop_last();
        assert forall|i: int| 0 <= i < front.len() implies !blank(#[trigger] front[i]) && trim(front[i]) == front[i] by {
            assert(front[i] == names[i]);
        }
        assert forall|i: int, j: int| 0 <= i < j < front.len() implies stands_before(
            #[trigger] front[i],
            #[trigger] front[j],
        ) by {
            assert(front[i] == names[i] && front[j] == names[j]);
        }
        lemma_tidy_of_tidy(front);
        assert(names.last() == names[names.len() - 1]);
        if front.len() > 0 {
            assert(stands_before(names[front.len() - 1], names[names.len() - 1]));
            lemma_order_total(front.last(), names.last());
        }
        assert(front.push(names.last()) =~= names);
    } else {
        assert(names =~= Seq::empty());
    }
}

/// Tidying a tidied list changes nothing.
pub proof fn law_clean_names_idempotent(names: Option<Seq<Seq<char>>>)
    ensures
        clean_names(clean_names(names)) == clean_names(names),
{
    if let Some(list) = names {
        law_tidy_names(list);
        let tidy = tidy_names(list);
        assert forall|i: int| 0 <= i < tidy.len() implies !blank(#[trigger] tidy[i]) && trim(tidy[i])
            == tidy[i] by {
            assert(tidy.contains(tidy[i]));
            let k = choose|k: int|
                0 <= k < list.len() && !blank(list[k]) && tidy[i] == #[trigger] trim(list[k]);
            crate::text::lemma_trim_idempotent(list[k]);
        }
        lemma_tidy_of_tidy(tidy);
    }
}

/// Names stand in the order of the first letter in which they differ, and a name stands before
/// every longer one that begins with it.
pub proof fn law_order_of_names(common: Seq<char>, a: Seq<char>, b: Seq<char>)
    ensures
        a.len() > 0 && b.len() > 0 && a[0] != b[0] ==> (stands_before(common + a, common + b)
            <==> a[0] < b[0]),
        b.len() > 0 ==> stands_before(common, common + b),
    decreases common.len(),
{
    if common.len() > 0 {
        law_order_of_names(common.drop_first(), a, b);
        assert((common + a).drop_first() =~= common.drop_first() + a);
        assert((common + b).drop_first() =~= common.drop_first() + b);
    } else {
        assert(common + a =~= a);
        assert(common + b =~= b);
    }
}

/// A list of names is kept exactly where one of them is not blank, and then holds each of those
/// once, trimmed and in order, and no other.
pub proof fn law_names_are_kept(names: Seq<Seq<char>>)
    ensures
        clean_names(Some(names)) is Some <==> exists|i: int|
            0 <= i < names.len() && !blank(#[trigger] names[i]),
        clean_names(Some(names)) matches Some(list) ==> {
            &&& in_order(list)
            &&& forall|i: int|
                0 <= i < names.len() && !blank(#[trigger] names[i]) ==> list.contains(trim(names[i]))
            &&& forall|k: int|
                0 <= k < list.len() ==> exists|i: int|
                    0 <= i < names.len() && !blank(names[i]) && #[trigger] list[k] == #[trigger] trim(
                        names[i],
                    )
        },
        clean_names(None) is None,
{
    law_tidy_names(names);
    let list = tidy_names(names);
    assert forall|i: int| 0 <= i < names.len() && !blank(#[trigger] names[i]) implies list.contains(
        trim(names[i]),
    ) by {
        assert(trim(names[i]) == trim(names[i]));
    }
    assert forall|k: int| 0 <= k < list.len() implies exists|i: int|
        0 <= i < names.len() && !blank(names[i]) && #[trigger] list[k] == #[trigger] trim(
            names[i],
        ) by {
        assert(list.contains(list[k]));
    }
    if list.len() > 0 {
        let i = choose|i: int|
            0 <= i < names.len() && !blank(names[i]) && list[0] == #[trigger] trim(names[i]);
        assert(!blank(names[i]));
    }
}

} // verus!
