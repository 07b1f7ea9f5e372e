//! Finding the JSON object in a model's reply.
use crate::text::{opt_text, to_chars};
use vstd::prelude::*;
use vstd::string::*;

verus! {

/// Where a reader stands in a text that may hold JSON.
pub struct Scan {
    /// How many braces are open.
    pub depth: nat,
    /// Whether the reader is inside a string.
    pub in_str: bool,
    /// Whether the next character of the string is escaped.
    pub escape: bool,
    /// Where the outermost open brace stands.
    pub start: int,
}

/// Where a reader stands after the character `c` at index `i`.
pub open spec fn scan_step(st: Scan, c: char, i: int) -> Scan {
    if st.in_str {
        if st.escape {
            Scan { escape: false, ..st }
        } else if c == '"' {
            Scan { in_str: false, ..st }
        } else if c == '\\' {
            Scan { escape: true, ..st }
        } else {
            st
        }
    } else if c == '"' {
        Scan { in_str: true, ..st }
    } else if c == '{' {
        Scan {
            depth: st.depth + 1,
            start: if st.depth == 0 {
                i
            } else {
                st.start
            },
            ..st
        }
    } else if c == '}' && st.depth > 0 {
        Scan { depth: (st.depth - 1) as nat, ..st }
    } else {
        st
    }
}

/// Where a reader stands after the first `n` characters.
pub open spec fn scan(s: Seq<char>, n: int) -> Scan
    decreases n,
{
    if n <= 0 {
        Scan { depth: 0, in_str: false, escape: false, start: 0 }
    } else {
        scan_step(scan(s, n - 1), s[n - 1], n - 1)
    }
}

/// The character at `i` closes an outermost brace.
pub open spec fn closes(s: Seq<char>, i: int) -> bool {
    0 <= i < s.len() && s[i] == '}' && !scan(s, i).in_str && scan(s, i).depth == 1
}

/// The first index at or after `from` that closes an outermost brace.
pub open spec fn close_from(s: Seq<char>, from: int) -> Option<int>
    decreases s.len() - from,
{
    if from >= s.len() {
        None
    } else if closes(s, from) {
        Some(from)
    } else {
        close_from(s, from + 1)
    }
}

/// The first balanced pair of braces in a text, with what stands between them. Braces inside
/// strings do not count.
pub open spec fn first_object(s: Seq<char>) -> Option<Seq<char>> {
    match close_from(s, 0) {
        Some(i) => Some(s.subrange(scan(s, i).start, i + 1)),
        None => None,
    }
}

proof fn lemma_close_from(s: Seq<char>, from: int, at: int)
    requires
        0 <= from <= at <= s.len(),
        forall|j: int| from <= j < at ==> !closes(s, j),
    ensures
        close_from(s, from) == close_from(s, at),
    decreases at - from,
{
    if from < at {
        lemma_close_from(s, from + 1, at);
    }
}

proof fn lemma_close_found(s: Seq<char>, from: int)
    requires
        0 <= from,
    ensures
        match close_from(s, from) {
            Some(i) => from <= i && closes(s, i) && forall|j: int| from <= j < i ==> !closes(s, j),
            None => forall|j: int| from <= j ==> !closes(s, j),
        },
    decreases s.len() - from,
{
    if from < s.len() && !closes(s, from) {
        lemma_close_found(s, from + 1);
    }
}

/// While a brace is open, the reader knows where the outermost one stands, and stood there
/// outside of any brace and string.
proof fn lemma_scan_start(s: Seq<char>, n: int)
    requires
        0 <= n <= s.len(),
    ensures
        scan(s, n).escape ==> scan(s, n).in_str,
        scan(s, n).depth <= n,
        scan(s, n).depth > 0 ==> {
            let a = scan(s, n).start;
            &&& 0 <= a < n
            &&& s[a] == '{'
            &&& scan(s, a).depth == 0
            &&& !scan(s, a).in_str
            &&& !scan(s, a).escape
        },
    decreases n,
{
    if n > 0 {
        lemma_scan_start(s, n - 1);
    }
}

proof fn lemma_scan_shift(s: Seq<char>, a: int, m: int)
    requires
        0 <= a,
        0 <= m,
        a + m <= s.len(),
        scan(s, a).depth == 0,
        !scan(s, a).in_str,
        !scan(s, a).escape,
    ensures
        scan(s.skip(a), m).depth == scan(s, a + m).depth,
        scan(s.skip(a), m).in_str == scan(s, a + m).in_str,
        scan(s.skip(a), m).escape == scan(s, a + m).escape,
        scan(s, a + m).depth > 0 ==> scan(s.skip(a), m).start == scan(s, a + m).start - a,
    decreases m,
{
    if m > 0 {
        lemma_scan_shift(s, a, m - 1);
        assert(s.skip(a)[m - 1] == s[a + m - 1]);
    }
}

proof fn lemma_scan_prefix(s: Seq<char>, t: Seq<char>, n: int)
    requires
        0 <= n <= s.len(),
        n <= t.len(),
        s.take(n) == t.take(n),
    ensures
        scan(s, n) == scan(t, n),
    decreases n,
{
    if n > 0 {
        assert(s[n - 1] == s.take(n)[n - 1]);
        assert(t[n - 1] == t.take(n)[n - 1]);
        assert(s.take(n - 1) =~= s.take(n).take(n - 1));
        assert(t.take(n - 1) =~= t.take(n).take(n - 1));
        lemma_scan_prefix(s, t, n - 1);
    }
}

/// The first JSON object in a string.
pub fn extract_first_json_object(input: &str) -> (r: Option<String>)
    ensures
        opt_text(r) == first_object(input@),
{
    let chars = to_chars(input);
    let mut depth: usize = 0;
    let mut in_str: bool = false;
    let mut escape: bool = false;
    let mut start: usize = 0;
    let mut i: usize = 0;
    while i < chars.len()
        invariant
            chars@ == input@,
            i <= chars.len(),
            depth <= i,
            start <= i,
            scan(input@, i as int) == (Scan {
                depth: depth as nat,
                in_str,
                escape,
                start: start as int,
            }),
            close_from(input@, 0) == close_from(input@, i as int),
        decreases chars.len() - i,
    {
        let c = chars[i];
        if in_str {
            if escape {
                escape = false;
            } else if c == '"' {
                in_str = false;
            } else if c == '\\' {
                escape = true;
            }
        } else if c == '"' {
            in_str = true;
        } else if c == '{' {
            if depth == 0 {
                start = i;
            }
            depth = depth + 1;
        } else if c == '}' && depth > 0 {
            depth = depth - 1;
            if depth == 0 {
                return Some(input.substring_char(start, i + 1).to_owned());
            }
        }
        i = i + 1;
    }
    None
}

/// What is extracted stands in the text, begins with an opening brace and ends with a closing one.
pub proof fn law_first_object_shape(s: Seq<char>)
    ensures
        first_object(s) matches Some(t) ==> {
            &&& t.len() >= 2
            &&& t[0] == '{'
            &&& t.last() == '}'
            &&& crate::text::contains(s, t)
        },
{
    lemma_close_found(s, 0);
    if let Some(i) = close_from(s, 0) {
        lemma_scan_start(s, i);
        let a = scan(s, i).start;
        let t = s.subrange(a, i + 1);
        assert(crate::text::occurs_at(s, t, a));
    }
}

/// Extracting from what was extracted gives it back.
pub proof fn law_first_object_idempotent(s: Seq<char>)
    ensures
        first_object(s) matches Some(t) ==> first_object(t) == Some(t),
{
    lemma_close_found(s, 0);
    if let Some(i) = close_from(s, 0) {
        lemma_scan_start(s, i);
        let a = scan(s, i).start;
        let t = s.subrange(a, i + 1);
        assert forall|j: int| 0 <= j <= i - a implies #[trigger] scan(t, j) == scan(s.skip(a), j) by {
            assert(t.take(j) =~= s.skip(a).take(j));
            lemma_scan_prefix(t, s.skip(a), j);
        }
        assert forall|j: int| 0 <= j < i - a implies !closes(t, j) by {
            lemma_scan_shift(s, a, j);
            assert(t[j] == s[a + j]);
            assert(scan(t, j) == scan(s.skip(a), j));
            assert(!closes(s, a + j));
        }
        lemma_scan_shift(s, a, i - a);
        assert(scan(t, i - a) == scan(s.skip(a), i - a));
        assert(t[i - a] == s[i]);
        lemma_close_from(t, 0, i - a);
        assert(t.subrange(0, t.len() as int) =~= t);
    }
}

/// Prose before the object does not matter, where it holds no object itself and leaves neither a
/// brace nor a quotation open.
pub proof fn law_prose_before_object(prose: Seq<char>, s: Seq<char>)
    requires
        first_object(prose) is None,
        scan(prose, prose.len() as int).depth == 0,
        !scan(prose, prose.len() as int).in_str,
    ensures
        first_object(prose + s) == first_object(s),
{
    let n = prose.len() as int;
    let all = prose + s;
    assert(all.skip(n) =~= s);
    lemma_close_found(prose, 0);
    assert forall|j: int| 0 <= j <= n implies #[trigger] scan(all, j) == scan(prose, j) by {
        assert(all.take(j) =~= prose.take(j));
        lemma_scan_prefix(all, prose, j);
    }
    lemma_scan_start(prose, n);
    assert(scan(all, n) == scan(prose, n));
    assert forall|j: int| 0 <= j < n implies !closes(all, j) by {
        assert(!closes(prose, j));
        assert(scan(all, j) == scan(prose, j));
    }
    assert forall|j: int| 0 <= j < s.len() implies closes(all, n + j) == closes(s, j) by {
        lemma_scan_shift(all, n, j);
        assert(all[n + j] == s[j]);
    }
    lemma_close_from(all, 0, n);
    lemma_close_found(all, n);
    lemma_close_found(s, 0);
    if let Some(i) = close_from(s, 0) {
        assert forall|j: int| n <= j < n + i implies !closes(all, j) by {
            assert(!closes(s, j - n));
            assert(closes(all, n + (j - n)) == closes(s, j - n));
        }
        assert(closes(all, n + i) == closes(s, i));
        lemma_close_from(all, n, n + i);
        lemma_scan_shift(all, n, i);
        lemma_scan_start(all, n + i);
        lemma_scan_start(s, i);
        let a = scan(s, i).start;
        assert(all.subrange(n + a, n + i + 1) =~= s.subrange(a, i + 1));
    } else {
        assert forall|j: int| n <= j < all.len() implies !closes(all, j) by {
            assert(!closes(s, j - n));
            assert(closes(all, n + (j - n)) == closes(s, j - n));
        }
        lemma_close_from(all, n, all.len() as int);
    }
}

/// Text behind the first object does not matter.
pub proof fn law_text_behind_object(s: Seq<char>, tail: Seq<char>)
    requires
        first_object(s) is Some,
    ensures
        first_object(s + tail) == first_object(s),
{
    let all = s + tail;
    lemma_close_found(s, 0);
    let i = close_from(s, 0).unwrap();
    assert forall|j: int| 0 <= j <= i implies #[trigger] scan(all, j) == scan(s, j) by {
        assert(all.take(j) =~= s.take(j));
        lemma_scan_prefix(all, s, j);
    }
    assert forall|j: int| 0 <= j < i implies !closes(all, j) by {
        assert(!closes(s, j));
        assert(scan(all, j) == scan(s, j));
    }
    assert(scan(all, i) == scan(s, i));
    assert(closes(all, i));
    lemma_close_from(all, 0, i);
    lemma_scan_start(s, i);
    assert(all.subrange(scan(s, i).start, i + 1) =~= s.subrange(scan(s, i).start, i + 1));
}

/// While a string is open, characters that neither close it nor escape change nothing.
proof fn lemma_scan_in_string(s: Seq<char>, from: int, n: int)
    requires
        0 <= from,
        0 <= n,
        from + n <= s.len(),
        scan(s, from).in_str,
        !scan(s, from).escape,
        forall|k: int| from <= k < from + n ==> #[trigger] s[k] != '"' && s[k] != '\\',
    ensures
        scan(s, from + n) == scan(s, from),
    decreases n,
{
    if n > 0 {
        lemma_scan_in_string(s, from, n - 1);
    }
}

/// Braces and escaped quotation marks inside a string do not count: an object that holds such a
/// string is taken whole.
pub proof fn law_strings_are_passed_over(a: Seq<char>, b: Seq<char>)
    requires
        forall|k: int| 0 <= k < a.len() ==> #[trigger] a[k] != '"' && a[k] != '\\',
        forall|k: int| 0 <= k < b.len() ==> #[trigger] b[k] != '"' && b[k] != '\\',
    ensures
        ({
            let s = seq!['{', '"'] + a + seq!['\\', '"'] + b + seq!['"', '}'];
            first_object(s) == Some(s)
        }),
        ({
            let s = seq!['{', '"'] + a + seq!['"', '}'];
            first_object(s) == Some(s)
        }),
{
    reveal_with_fuel(scan, 3);
    let s = seq!['{', '"'] + a + seq!['\\', '"'] + b + seq!['"', '}'];
    let n = a.len() as int;
    let m = b.len() as int;
    lemma_object_opens(s);
    assert forall|k: int| 2 <= k < 2 + n implies #[trigger] s[k] != '"' && s[k] != '\\' by {
        assert(s[k] == a[k - 2]);
    }
    lemma_scan_in_string(s, 2, n);
    assert(s[2 + n] == '\\' && s[3 + n] == '"');
    assert(scan(s, 3 + n) == scan_step(scan(s, 2 + n), s[2 + n], 2 + n));
    assert(scan(s, 4 + n) == scan_step(scan(s, 3 + n), s[3 + n], 3 + n));
    assert(scan(s, 4 + n) == scan(s, 2));
    assert forall|k: int| 4 + n <= k < 4 + n + m implies #[trigger] s[k] != '"' && s[k] != '\\' by {
        assert(s[k] == b[k - 4 - n]);
    }
    lemma_scan_in_string(s, 4 + n, m);
    let last = 4 + n + m;
    assert(s[last] == '"' && s[last + 1] == '}');
    assert(scan(s, last + 1) == scan_step(scan(s, last), s[last], last));
    assert(closes(s, last + 1));
    assert forall|k: int| 0 <= k < last + 1 implies !closes(s, k) by {
        if 2 <= k <= 2 + n {
            lemma_scan_in_string(s, 2, k - 2);
        } else if 4 + n <= k <= last {
            lemma_scan_in_string(s, 4 + n, k - 4 - n);
        }
    }
    lemma_close_from(s, 0, last + 1);
    assert(s.subrange(0, s.len() as int) =~= s);

    let t = seq!['{', '"'] + a + seq!['"', '}'];
    lemma_object_opens(t);
    assert forall|k: int| 2 <= k < 2 + n implies #[trigger] t[k] != '"' && t[k] != '\\' by {
        assert(t[k] == a[k - 2]);
    }
    lemma_scan_in_string(t, 2, n);
    assert(t[2 + n] == '"' && t[3 + n] == '}');
    assert(scan(t, 3 + n) == scan_step(scan(t, 2 + n), t[2 + n], 2 + n));
    assert(closes(t, 3 + n));
    assert forall|k: int| 0 <= k < 3 + n implies !closes(t, k) by {
        if 2 <= k <= 2 + n {
            lemma_scan_in_string(t, 2, k - 2);
        }
    }
    lemma_close_from(t, 0, 3 + n);
    assert(t.subrange(0, t.len() as int) =~= t);
}

/// Where a reader stands behind an opening brace and a quotation mark.
proof fn lemma_object_opens(s: Seq<char>)
    requires
        s.len() >= 2,
        s[0] == '{',
        s[1] == '"',
    ensures
        scan(s, 1) == (Scan { depth: 1, in_str: false, escape: false, start: 0 }),
        scan(s, 2) == (Scan { depth: 1, in_str: true, escape: false, start: 0 }),
{
    reveal_with_fuel(scan, 3);
    assert(scan(s, 0) == Scan { depth: 0, in_str: false, escape: false, start: 0 });
    assert(scan(s, 1) == scan_step(scan(s, 0), s[0], 0));
    assert(scan(s, 2) == scan_step(scan(s, 1), s[1], 1));
}

/// Inside one more brace a reader stands one brace deeper.
proof fn lemma_scan_deeper(o: Seq<char>, tail: Seq<char>, m: int)
    requires
        0 <= m <= o.len(),
        o.len() > 0,
        forall|j: int| 0 <= j < m ==> !(#[trigger] o[j] == '}' && scan(o, j).depth == 0 && !scan(
            o,
            j,
        ).in_str),
    ensures
        ({
            let s = seq!['{'] + o + tail;
            &&& scan(s, 1 + m).depth == scan(o, m).depth + 1
            &&& scan(s, 1 + m).in_str == scan(o, m).in_str
            &&& scan(s, 1 + m).escape == scan(o, m).escape
            &&& scan(s, 1 + m).start == 0
        }),
    decreases m,
{
    let s = seq!['{'] + o + tail;
    if m == 0 {
        assert(s[0] == '{');
        assert(scan(s, 0) == Scan { depth: 0, in_str: false, escape: false, start: 0 });
        assert(scan(s, 1) == scan_step(scan(s, 0), s[0], 0));
    } else {
        lemma_scan_deeper(o, tail, m - 1);
        assert(s[m] == o[m - 1]);
        assert(scan(s, 1 + m) == scan_step(scan(s, m), s[m], m));
    }
}

/// An object inside an object belongs to it: with braces around it the whole is taken.
pub proof fn law_objects_nest(o: Seq<char>)
    requires
        first_object(o) == Some(o),
    ensures
        first_object(seq!['{'] + o + seq!['}']) == Some(seq!['{'] + o + seq!['}']),
{
    let tail = seq!['}'];
    let s = seq!['{'] + o + tail;
    let n = o.len() as int;
    lemma_close_found(o, 0);
    let i = close_from(o, 0).unwrap();
    lemma_scan_start(o, i);
    assert(i + 1 - scan(o, i).start == n);
    assert(scan(o, i).start == 0 && i == n - 1);
    assert(o[0] == '{');
    assert forall|j: int| 0 <= j < n implies !(#[trigger] o[j] == '}' && scan(o, j).depth == 0
        && !scan(o, j).in_str) by {
        if j > 0 {
            lemma_stays_open(o, j);
        }
    }
    lemma_scan_deeper(o, tail, n);
    assert(scan(o, n) == scan_step(scan(o, i), o[i], i));
    assert(scan(o, n).depth == 0 && !scan(o, n).in_str);
    assert(s[n + 1] == '}');
    assert(closes(s, n + 1));
    assert forall|k: int| 0 <= k < n + 1 implies !closes(s, k) by {
        if k > 0 {
            lemma_scan_deeper(o, tail, k - 1);
            assert(s[k] == o[k - 1]);
            if closes(s, k) {
                assert(scan(o, k - 1).depth == 0);
                if k > 1 {
                    lemma_stays_open(o, k - 1);
                }
            }
        }
    }
    lemma_close_from(s, 0, n + 1);
    assert(s.subrange(0, s.len() as int) =~= s);
}

/// A text that begins with a brace and in which none closes an outermost one has it open.
proof fn lemma_stays_open(o: Seq<char>, j: int)
    requires
        0 < j <= o.len(),
        o[0] == '{',
        forall|k: int| 0 <= k < j ==> !closes(o, k),
    ensures
        scan(o, j).depth > 0,
    decreases j,
{
    if j == 1 {
        assert(scan(o, 0) == Scan { depth: 0, in_str: false, escape: false, start: 0 });
        assert(scan(o, 1) == scan_step(scan(o, 0), o[0], 0));
    } else {
        lemma_stays_open(o, j - 1);
        assert(!closes(o, j - 1));
    }
}

/// A text without an opening brace holds no object.
pub proof fn law_no_brace_no_object(s: Seq<char>)
    requires
        forall|k: int| 0 <= k < s.len() ==> #[trigger] s[k] != '{',
    ensures
        first_object(s) is None,
{
    lemma_close_found(s, 0);
    if let Some(i) = close_from(s, 0) {
        lemma_scan_start(s, i);
        assert(s[scan(s, i).start] == '{');
    }
}

} // verus!
