//! Tidying the texts of a model's reply.
use crate::text::{
    blank, contains, equal_ignoring_case, is_white, law_blank_is_white, law_same_but_for_capitals,
    law_trim_ignores_surroundings, law_trim_takes_white_space, lemma_trim_of_trimmed,
    lemma_trim_trimmed, occurs_at, same_ignoring_case, trim, trim_str, trimmed,
};
use vstd::prelude::*;
use vstd::string::*;

verus! {

/// A text that begins with `prefix`, in capitals or small letters.
pub open spec fn begins_with_role(s: Seq<char>, prefix: Seq<char>) -> bool {
    prefix.len() <= s.len() && same_ignoring_case(s.take(prefix.len() as int), prefix)
}

/// What follows the first `n` characters and one space, if there is one.
pub open spec fn after_role(s: Seq<char>, n: nat) -> Seq<char> {
    let rest = s.skip(n as int);
    if rest.len() > 0 && rest[0] == ' ' {
        rest.skip(1)
    } else {
        rest
    }
}

/// A text without the name of the role that speaks it.
pub open spec fn without_role(s: Seq<char>) -> Seq<char> {
    if begins_with_role(s, "Coordinator:"@) {
        after_role(s, "Coordinator:"@.len())
    } else if begins_with_role(s, "CLI:"@) {
        after_role(s, "CLI:"@.len())
    } else {
        s
    }
}

/// What follows `prefix` and one space, where the string begins with `prefix`.
fn strip_one_role<'a>(input: &'a str, prefix: &str) -> (r: Option<&'a str>)
    ensures
        match r {
            Some(rest) => begins_with_role(input@, prefix@) && rest@ == after_role(
                input@,
                prefix@.len(),
            ),
            None => !begins_with_role(input@, prefix@),
        },
{
    let n: usize = prefix.unicode_len();
    let len: usize = input.unicode_len();
    if len < n {
        return None;
    }
    let head = input.substring_char(0, n);
    assert(head@ =~= input@.take(n as int));
    if !equal_ignoring_case(head, prefix) {
        return None;
    }
    let mut from: usize = n;
    if n < len && input.get_char(n) == ' ' {
        from = n + 1;
    }
    let rest = input.substring_char(from, len);
    assert(rest@ =~= after_role(input@, n as nat));
    Some(rest)
}

/// Drops the name of the role that speaks a text.
pub fn strip_role_prefix<'a>(input: &'a str) -> (r: &'a str)
    ensures
        r@ == without_role(input@),
{
    match strip_one_role(input, "Coordinator:") {
        Some(rest) => rest,
        None => match strip_one_role(input, "CLI:") {
            Some(rest) => rest,
            None => input,
        },
    }
}

/// What is left when a role's name is dropped is the end of the text.
pub proof fn law_without_role_is_tail(s: Seq<char>)
    ensures
        without_role(s).len() <= s.len(),
        without_role(s) == s.skip(s.len() - without_role(s).len()),
{
    assert(s.skip(0) =~= s);
    let c = "Coordinator:"@.len() as int;
    let k = "CLI:"@.len() as int;
    if begins_with_role(s, "Coordinator:"@) {
        if c < s.len() {
            assert(s.skip(c).skip(1) =~= s.skip(c + 1));
        }
    } else if begins_with_role(s, "CLI:"@) {
        if k < s.len() {
            assert(s.skip(k).skip(1) =~= s.skip(k + 1));
        }
    }
}

/// A text without the white space around it and without its role; nothing where no more is left.
pub open spec fn clean(s: Seq<char>) -> Option<Seq<char>> {
    if blank(s) || blank(without_role(trim(s))) {
        None
    } else {
        Some(trim(without_role(trim(s))))
    }
}

/// An optional text, cleaned.
pub open spec fn clean_opt(o: Option<Seq<char>>) -> Option<Seq<char>> {
    match o {
        Some(s) => clean(s),
        None => None,
    }
}

/// A cleaned text is not empty and has no white space at its ends.
pub proof fn law_clean_is_trimmed(s: Seq<char>)
    ensures
        clean(s) matches Some(t) ==> t.len() > 0 && trimmed(t),
{
    crate::text::lemma_trim_trimmed(without_role(trim(s)));
}

/// Cleans a string; nothing where no text is left.
pub fn clean_str(value: &str) -> (r: Option<String>)
    ensures
        crate::text::opt_text(r) == clean(value@),
{
    let trimmed = trim_str(value);
    if trimmed.is_empty() {
        return None;
    }
    let final_trimmed = trim_str(strip_role_prefix(trimmed));
    if final_trimmed.is_empty() {
        None
    } else {
        Some(final_trimmed.to_owned())
    }
}

/// Cleans an optional string.
pub fn clean_optional(input: Option<String>) -> (r: Option<String>)
    ensures
        crate::text::opt_text(r) == clean_opt(crate::text::opt_text(input)),
{
    match input {
        Some(value) => clean_str(value.as_str()),
        None => None,
    }
}

/// A text with something to say, without white space at its ends and without a role's name in
/// front, in capitals or small letters.
pub open spec fn plain(s: Seq<char>) -> bool {
    &&& s.len() > 0
    &&& trimmed(s)
    &&& !(s.len() >= 12 && same_ignoring_case(s.take(12), "Coordinator:"@))
    &&& !(s.len() >= 4 && same_ignoring_case(s.take(4), "CLI:"@))
}

/// One of the two names that a role may have in front of a text.
pub open spec fn role_name(role: Seq<char>) -> bool {
    same_ignoring_case(role, "Coordinator:"@) || same_ignoring_case(role, "CLI:"@)
}

/// The names of the roles have 12 and 4 letters, and neither begins like the other.
proof fn lemma_role_names()
    ensures
        "Coordinator:"@.len() == 12,
        "CLI:"@.len() == 4,
        "Coordinator:"@[0] == 'C',
        "Coordinator:"@[1] == 'o',
        "CLI:"@[0] == 'C',
        "CLI:"@[1] == 'L',
        "Coordinator:"@[11] == ':',
        "CLI:"@[3] == ':',
{
    reveal_strlit("Coordinator:");
    reveal_strlit("CLI:");
}

/// A role's name, in capitals or small letters, is not white space at its ends, and what begins
/// with it begins with no other.
proof fn lemma_role_name(role: Seq<char>)
    requires
        role_name(role),
    ensures
        role.len() > 0,
        !is_white(role[0]),
        !is_white(role.last()),
        same_ignoring_case(role, "Coordinator:"@) ==> role.len() == 12,
        same_ignoring_case(role, "CLI:"@) ==> role.len() == 4 && role[1] != 'o' && role[1] != 'O',
{
    lemma_role_names();
    law_same_but_for_capitals(role, "Coordinator:"@);
    law_same_but_for_capitals(role, "CLI:"@);
    if same_ignoring_case(role, "Coordinator:"@) {
        assert(role[0] == role[0] && role[11] == role[11]);
    } else {
        assert(role[0] == role[0] && role[1] == role[1] && role[3] == role[3]);
    }
}

/// A plain text is kept as it is, and so is one with white space around it, without that.
pub proof fn law_plain_text_is_kept(before: Seq<char>, s: Seq<char>, behind: Seq<char>)
    requires
        plain(s),
        forall|k: int| 0 <= k < before.len() ==> is_white(#[trigger] before[k]),
        forall|k: int| 0 <= k < behind.len() ==> is_white(#[trigger] behind[k]),
    ensures
        clean(before + s + behind) == Some(s),
        clean(s) == Some(s),
{
    lemma_role_names();
    law_trim_ignores_surroundings(before, s, behind);
    lemma_trim_of_trimmed(s);
}

/// A role's name in front of a text is dropped, in capitals or small letters, with a space behind
/// it or none, whatever white space is around.
pub proof fn law_role_names_are_dropped(
    before: Seq<char>,
    role: Seq<char>,
    s: Seq<char>,
    behind: Seq<char>,
)
    requires
        role_name(role),
        s.len() > 0,
        trimmed(s),
        forall|k: int| 0 <= k < before.len() ==> is_white(#[trigger] before[k]),
        forall|k: int| 0 <= k < behind.len() ==> is_white(#[trigger] behind[k]),
    ensures
        clean(before + (role + s) + behind) == Some(s),
        clean(before + (role + seq![' '] + s) + behind) == Some(s),
{
    lemma_role_names();
    lemma_role_name(role);
    lemma_trim_of_trimmed(s);
    lemma_role_in_front(role, role + s);
    lemma_role_in_front(role, role + seq![' '] + s);
    law_trim_ignores_surroundings(before, role + s, behind);
    law_trim_ignores_surroundings(before, role + seq![' '] + s, behind);
    assert((role + s).skip(role.len() as int) =~= s);
    assert((role + seq![' '] + s).skip(role.len() as int) =~= seq![' '] + s);
    assert((seq![' '] + s).skip(1) =~= s);
}

/// A text that begins with a role's name begins with that role and no other.
proof fn lemma_role_in_front(role: Seq<char>, s: Seq<char>)
    requires
        role_name(role),
        role.is_prefix_of(s),
    ensures
        without_role(s) == after_role(s, role.len()),
{
    lemma_role_names();
    lemma_role_name(role);
    assert(s.take(role.len() as int) =~= role);
    if same_ignoring_case(role, "CLI:"@) && begins_with_role(s, "Coordinator:"@) {
        let head = s.take(12);
        law_same_but_for_capitals(head, "Coordinator:"@);
        assert(head[1] == head[1]);
        assert(head[1] == role[1]);
    }
}

/// Nothing is left of a text exactly where it is blank or says no more than a role's name.
pub proof fn law_what_leaves_nothing(s: Seq<char>)
    ensures
        clean(s) is None <==> blank(s) || role_name(trim(s)),
{
    lemma_role_names();
    lemma_trim_trimmed(s);
    let t = trim(s);
    if !blank(s) {
        lemma_trim_of_trimmed(t);
        law_blank_is_white(without_role(t));
        if role_name(t) {
            lemma_role_name(t);
            lemma_role_in_front(t, t);
            assert(without_role(t) =~= Seq::<char>::empty());
            assert(blank(without_role(t)));
        } else {
            let rest = without_role(t);
            law_without_role_is_tail(t);
            if rest.len() > 0 {
                assert(rest.last() == t.last());
                assert(!is_white(rest[rest.len() - 1]));
            } else if begins_with_role(t, "Coordinator:"@) {
                if t.len() == 12 {
                    assert(t.take(12) =~= t);
                } else {
                    assert(t.skip(12)[0] == ' ' && t.len() == 13);
                    assert(t.last() == t.skip(12)[0]);
                }
            } else if begins_with_role(t, "CLI:"@) {
                if t.len() == 4 {
                    assert(t.take(4) =~= t);
                } else {
                    assert(t.skip(4)[0] == ' ' && t.len() == 5);
                    assert(t.last() == t.skip(4)[0]);
                }
            }
        }
    }
}

/// What is left of a text is a part of it, and is empty in no case.
pub proof fn law_clean_is_a_part(s: Seq<char>)
    ensures
        clean(s) matches Some(t) ==> t.len() > 0 && trimmed(t) && contains(s, t),
{
    law_clean_is_trimmed(s);
    if let Some(t) = clean(s) {
        let whole = trim(s);
        law_without_role_is_tail(whole);
        lemma_trim_contained(s);
        lemma_trim_contained(without_role(whole));
        let i = choose|i: int| occurs_at(s, whole, i);
        let k = whole.len() - without_role(whole).len();
        let j = choose|j: int| occurs_at(without_role(whole), t, j);
        assert forall|n: int| 0 <= n < t.len() implies s.subrange(i + k + j, i + k + j + t.len())[n]
            == t[n] by {
            assert(without_role(whole).subrange(j, j + t.len())[n] == without_role(whole)[j + n]);
            assert(s.subrange(i, i + whole.len())[k + j + n] == whole[k + j + n]);
        }
        assert(s.subrange(i + k + j, i + k + j + t.len()) =~= t);
        assert(occurs_at(s, t, i + k + j));
    }
}

/// A trimmed text stands in the text.
proof fn lemma_trim_contained(s: Seq<char>)
    ensures
        contains(s, trim(s)),
{
    law_trim_takes_white_space(s);
    let (i, j) = choose|i: int, j: int|
        {
            &&& 0 <= i <= j <= s.len()
            &&& trim(s) == #[trigger] s.subrange(i, j)
            &&& forall|k: int| 0 <= k < i || j <= k < s.len() ==> is_white(#[trigger] s[k])
        };
    assert(trim(s).len() == j - i);
    assert(occurs_at(s, trim(s), i));
}

/// A role's name is dropped from the front of a text with one space behind it, and nothing else is:
/// a text that begins with none stays as it is.
pub proof fn law_only_the_role_is_dropped(role: Seq<char>, s: Seq<char>)
    requires
        role_name(role),
    ensures
        without_role(role + seq![' '] + s) == s,
        (s.len() == 0 || s[0] != ' ') ==> without_role(role + s) == s,
        !(s.len() >= 12 && same_ignoring_case(s.take(12), "Coordinator:"@)) && !(s.len() >= 4
            && same_ignoring_case(s.take(4), "CLI:"@)) ==> without_role(s) == s,
{
    lemma_role_names();
    lemma_role_in_front(role, role + s);
    lemma_role_in_front(role, role + seq![' '] + s);
    assert((role + s).skip(role.len() as int) =~= s);
    assert((role + seq![' '] + s).skip(role.len() as int) =~= seq![' '] + s);
    assert((seq![' '] + s).skip(1) =~= s);
}

} // verus!
