use vstd::prelude::*;
use crate::text::chars_of;

verus! {

/// Characters with the Unicode White_Space property.
pub open spec fn is_space(c: char) -> bool {
    let u = c as u32;
    (0x09 <= u && u <= 0x0d) || u == 0x20 || u == 0x85 || u == 0xa0 || u == 0x1680
        || (0x2000 <= u && u <= 0x200a) || u == 0x2028 || u == 0x2029 || u == 0x202f
        || u == 0x205f || u == 0x3000
}

/// Whether `c` has the Unicode White_Space property.
pub fn is_space_char(c: char) -> (r: bool)
    ensures
        r == is_space(c),
{
    let u = c as u32;
    (0x09 <= u && u <= 0x0d) || u == 0x20 || u == 0x85 || u == 0xa0 || u == 0x1680
        || (0x2000 <= u && u <= 0x200a) || u == 0x2028 || u == 0x2029 || u == 0x202f
        || u == 0x205f || u == 0x3000
}

/// How many whitespace characters `s` starts with.
pub open spec fn lead_len(s: Seq<char>) -> nat
    decreases s.len(),
{
    if s.len() > 0 && is_space(s[0]) {
        1 + lead_len(s.drop_first())
    } else {
        0
    }
}

/// How many whitespace characters `s` ends with.
pub open spec fn trail_len(s: Seq<char>) -> nat
    decreases s.len(),
{
    if s.len() > 0 && is_space(s.last()) {
        1 + trail_len(s.drop_last())
    } else {
        0
    }
}

/// `s` without leading and trailing whitespace.
pub open spec fn trimmed(s: Seq<char>) -> Seq<char> {
    if lead_len(s) >= s.len() {
        Seq::empty()
    } else {
        s.subrange(lead_len(s) as int, s.len() - trail_len(s))
    }
}

proof fn lemma_lead_len(s: Seq<char>, k: int)
    requires
        0 <= k <= s.len(),
        forall|j: int| 0 <= j < k ==> is_space(s[j]),
        k == s.len() || !is_space(s[k]),
    ensures
        lead_len(s) == k,
    decreases k,
{
    if k > 0 {
        let t = s.drop_first();
        assert forall|j: int| 0 <= j < k - 1 implies is_space(t[j]) by {
            assert(t[j] == s[j + 1]);
        }
        if k < s.len() {
            assert(t[k - 1] == s[k]);
        }
        lemma_lead_len(t, k - 1);
    }
}

proof fn lemma_trail_len(s: Seq<char>, e: int)
    requires
        0 <= e <= s.len(),
        forall|j: int| e <= j < s.len() ==> is_space(s[j]),
        e == 0 || !is_space(s[e - 1]),
    ensures
        trail_len(s) == s.len() - e,
    decreases s.len() - e,
{
    if e < s.len() {
        let t = s.drop_last();
        assert forall|j: int| e <= j < t.len() implies is_space(t[j]) by {
            assert(t[j] == s[j]);
        }
        if e > 0 {
            assert(t[e - 1] == s[e - 1]);
        }
        lemma_trail_len(t, e);
    }
}

/// The bounds, inside `cs[a..b]`, of that span without surrounding whitespace.
fn trim_bounds(cs: &Vec<char>, a: usize, b: usize) -> (r: (usize, usize))
    requires
        a <= b <= cs@.len(),
    ensures
        a <= r.0 <= r.1 <= b,
        cs@.subrange(r.0 as int, r.1 as int) == trimmed(cs@.subrange(a as int, b as int)),
{
    let ghost s = cs@.subrange(a as int, b as int);
    let mut st = a;
    while st < b && is_space_char(cs[st])
        invariant
            a <= st <= b <= cs@.len(),
            s == cs@.subrange(a as int, b as int),
            forall|j: int| 0 <= j < st - a ==> is_space(s[j]),
        decreases b - st,
    {
        st = st + 1;
    }
    proof {
        lemma_lead_len(s, st - a);
    }
    if st == b {
        assert(cs@.subrange(b as int, b as int) =~= Seq::<char>::empty());
        return (b, b);
    }
    let mut en = b;
    while en > st + 1 && is_space_char(cs[en - 1])
        invariant
            a <= st < en <= b <= cs@.len(),
            s == cs@.subrange(a as int, b as int),
            !is_space(s[st - a]),
            forall|j: int| en - a <= j < s.len() ==> is_space(s[j]),
        decreases en - st,
    {
        en = en - 1;
    }
    proof {
        lemma_trail_len(s, en - a);
        assert(cs@.subrange(st as int, en as int) =~= s.subrange(st - a, en - a));
    }
    (st, en)
}

/// `s` split at each `'\n'`; the empty text gives one empty line.
pub open spec fn split_lines(s: Seq<char>) -> Seq<Seq<char>>
    decreases s.len(),
{
    if s.len() == 0 {
        seq![Seq::empty()]
    } else {
        let p = split_lines(s.drop_last());
        if s.last() == '\n' {
            p.push(Seq::empty())
        } else {
            p.update(p.len() - 1, p.last().push(s.last()))
        }
    }
}

proof fn lemma_split_lines_nonempty(s: Seq<char>)
    ensures
        split_lines(s).len() >= 1,
    decreases s.len(),
{
    if s.len() > 0 {
        lemma_split_lines_nonempty(s.drop_last());
    }
}

/// A trimmed line counts as a message when it has a speaker's colon or more
/// than eight characters.
pub open spec fn is_message(t: Seq<char>) -> bool {
    t.contains(':') || t.len() > 8
}

/// The trimmed lines of `lines` that count as messages, in order.
pub open spec fn kept_messages(lines: Seq<Seq<char>>) -> Seq<Seq<char>>
    decreases lines.len(),
{
    if lines.len() == 0 {
        Seq::empty()
    } else {
        let p = kept_messages(lines.drop_last());
        let t = trimmed(lines.last());
        if is_message(t) {
            p.push(t)
        } else {
            p
        }
    }
}

/// The messages of a history: its message lines, or, when none qualifies,
/// the whole trimmed history as one message (none when it is blank).
pub open spec fn split_messages(h: Seq<char>) -> Seq<Seq<char>> {
    let k = kept_messages(split_lines(h));
    if k.len() == 0 && trimmed(h).len() > 0 {
        seq![trimmed(h)]
    } else {
        k
    }
}

/// The texts of `v`.
pub open spec fn string_views(v: Seq<String>) -> Seq<Seq<char>> {
    v.map_values(|s: String| s@)
}

/// The text of `cs[a..b]`.
fn string_of(cs: &Vec<char>, a: usize, b: usize) -> (r: String)
    requires
        a <= b <= cs@.len(),
    ensures
        r@ == cs@.subrange(a as int, b as int),
{
    let mut r = String::new();
    let mut i = a;
    while i < b
        invariant
            a <= i <= b <= cs@.len(),
            r@ == cs@.subrange(a as int, i as int),
        decreases b - i,
    {
        r.push(cs[i]);
        assert(r@ =~= cs@.subrange(a as int, i + 1));
        i = i + 1;
    }
    r
}

fn has_colon(cs: &Vec<char>, a: usize, b: usize) -> (r: bool)
    requires
        a <= b <= cs@.len(),
    ensures
        r == cs@.subrange(a as int, b as int).contains(':'),
{
    let ghost s = cs@.subrange(a as int, b as int);
    let mut i = a;
    while i < b
        invariant
            a <= i <= b <= cs@.len(),
            s == cs@.subrange(a as int, b as int),
            forall|j: int| 0 <= j < i - a ==> s[j] != ':',
        decreases b - i,
    {
        if cs[i] == ':' {
            assert(s[i - a] == ':');
            return true;
        }
        i = i + 1;
    }
    false
}

/// Adds the line `cs[a..b]` to `out` when, trimmed, it counts as a message.
fn keep_line(cs: &Vec<char>, a: usize, b: usize, out: &mut Vec<String>)
    requires
        a <= b <= cs@.len(),
    ensures
        ({
            let t = trimmed(cs@.subrange(a as int, b as int));
            if is_message(t) {
                string_views(final(out)@) == string_views(old(out)@).push(t)
            } else {
                final(out)@ == old(out)@
            }
        }),
{
    let (s, e) = trim_bounds(cs, a, b);
    if has_colon(cs, s, e) || e - s > 8 {
        let t = string_of(cs, s, e);
        let ghost before = out@;
        out.push(t);
        assert(string_views(out@) =~= string_views(before).push(t@));
    }
}

/// Splits a conversation history into messages, line by line: each line is
/// trimmed and kept when it has a colon or more than eight characters. When
/// no line qualifies, a non-blank history is one message.
pub fn split_messages_heuristic(history: &str) -> (r: Vec<String>)
    ensures
        string_views(r@) == split_messages(history@),
{
    let cs = chars_of(history);
    let n = cs.len();
    let mut out: Vec<String> = Vec::new();
    let mut start: usize = 0;
    let mut i: usize = 0;
    let ghost mut done: Seq<Seq<char>> = Seq::empty();
    assert(cs@.subrange(0, 0) =~= Seq::<char>::empty());
    assert(split_lines(Seq::<char>::empty()) =~= done.push(Seq::<char>::empty()));
    while i < n
        invariant
            n == cs@.len(),
            start <= i <= n,
            split_lines(cs@.subrange(0, i as int)) == done.push(cs@.subrange(start as int, i as int)),
            string_views(out@) == kept_messages(done),
        decreases n - i,
    {
        proof {
            assert(cs@.subrange(0, i + 1).drop_last() =~= cs@.subrange(0, i as int));
            assert(cs@.subrange(0, i + 1).last() == cs@[i as int]);
        }
        if cs[i] == '\n' {
            keep_line(&cs, start, i, &mut out);
            proof {
                let line = cs@.subrange(start as int, i as int);
                assert(done.push(line).drop_last() =~= done);
                assert(done.push(line).last() == line);
                done = done.push(line);
                assert(cs@.subrange(i + 1, i + 1) =~= Seq::<char>::empty());
            }
            start = i + 1;
        } else {
            proof {
                let line = cs@.subrange(start as int, i as int);
                assert(line.push(cs@[i as int]) =~= cs@.subrange(start as int, i + 1));
                assert(done.push(line).update(done.len() as int, line.push(cs@[i as int]))
                    =~= done.push(cs@.subrange(start as int, i + 1)));
            }
        }
        i = i + 1;
    }
    keep_line(&cs, start, n, &mut out);
    proof {
        let line = cs@.subrange(start as int, n as int);
        assert(cs@.subrange(0, n as int) =~= cs@);
        assert(done.push(line).drop_last() =~= done);
        assert(done.push(line).last() == line);
    }
    if out.len() == 0 {
        let (s, e) = trim_bounds(&cs, 0, n);
        proof {
            assert(cs@.subrange(0, n as int) =~= history@);
        }
        if s < e {
            let t = string_of(&cs, s, e);
            out.push(t);
            assert(string_views(out@) =~= seq![t@]);
        }
    }
    out
}

} // verus!
