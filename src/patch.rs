//! The text patch pass: a fixed table of substitutions that turns raw
//! generated text into its final form.
//!
//! Rules, applied in one left-to-right scan:
//! - the placeholder `__bar__` becomes `|`, and `__eq__` becomes `===`;
//! - whitespace right after an opening `[`, `(` or `<` is dropped, and so is
//!   whitespace after a `>` that had whitespace before it;
//! - a run of whitespace before a closing `]`, `)`, `>`, `;`, `,` or `:`,
//!   before a `<` with whitespace after it, before an empty `[ ]`, at the
//!   start or at the end of the text is dropped;
//! - any other run of whitespace becomes one space.
use vstd::prelude::*;
use crate::text::{chars_of, push_char};

verus! {

pub open spec fn is_space(c: char) -> bool {
    c == ' ' || c == '\n' || c == '\t' || c == '\r'
}

pub open spec fn opens(c: char) -> bool {
    c == '[' || c == '(' || c == '<'
}

pub open spec fn closes(c: char) -> bool {
    c == ']' || c == ')' || c == '>' || c == ';' || c == ',' || c == ':'
}

/// Letters, digits and the underscore: the characters a placeholder is made of.
pub open spec fn is_word(c: char) -> bool {
    ('a' <= c && c <= 'z') || ('A' <= c && c <= 'Z') || ('0' <= c && c <= '9') || c == '_'
}

pub open spec fn bar_mark() -> Seq<char> {
    seq!['_', '_', 'b', 'a', 'r', '_', '_']
}

pub open spec fn eq_mark() -> Seq<char> {
    seq!['_', '_', 'e', 'q', '_', '_']
}

pub open spec fn starts_with(s: Seq<char>, p: Seq<char>) -> bool {
    p.len() <= s.len() && s.take(p.len() as int) == p
}

/// Whitespace, then `]`.
pub open spec fn close_after_spaces(v: Seq<char>) -> bool
    decreases v.len(),
{
    v.len() > 0 && (v[0] == ']' || (is_space(v[0]) && close_after_spaces(v.skip(1))))
}

/// `t` starts with an empty pair of brackets with whitespace inside.
pub open spec fn brack_ahead(t: Seq<char>) -> bool {
    t.len() >= 2 && t[0] == '[' && is_space(t[1]) && close_after_spaces(t.skip(2))
}

/// `t` starts with a `<` standing between whitespace.
pub open spec fn lt_ahead(t: Seq<char>) -> bool {
    t.len() >= 2 && t[0] == '<' && is_space(t[1])
}

/// Whether whitespace followed by `t` is dropped.
pub open spec fn drops(lead: bool, t: Seq<char>) -> bool {
    lead || t.len() == 0 || is_space(t[0]) || closes(t[0]) || brack_ahead(t) || lt_ahead(t)
}

/// The patched form of `s`. `lead` holds where whitespace at the front of `s`
/// is dropped; `gap` holds where whitespace was dropped just before `s`.
pub open spec fn patch_from(s: Seq<char>, lead: bool, gap: bool) -> Seq<char>
    decreases s.len(),
{
    if s.len() == 0 {
        seq![]
    } else if starts_with(s, bar_mark()) {
        seq!['|'] + patch_from(s.skip(7), false, false)
    } else if starts_with(s, eq_mark()) {
        seq!['=', '=', '='] + patch_from(s.skip(6), false, false)
    } else if is_space(s[0]) {
        let t = s.skip(1);
        if drops(lead, t) {
            patch_from(t, lead, true)
        } else {
            seq![' '] + patch_from(t, false, false)
        }
    } else {
        seq![s[0]] + patch_from(s.skip(1), opens(s[0]) || (s[0] == '>' && gap), false)
    }
}

pub open spec fn patched(s: Seq<char>) -> Seq<char> {
    patch_from(s, true, false)
}

/// Where whitespace at the front is dropped, the output does not start with it.
proof fn lemma_lead_start(t: Seq<char>, g: bool)
    ensures
        patch_from(t, true, g).len() == 0 || !is_space(patch_from(t, true, g)[0]),
    decreases t.len(),
{
    if t.len() > 0 && !starts_with(t, bar_mark()) && !starts_with(t, eq_mark()) && is_space(t[0]) {
        lemma_lead_start(t.skip(1), true);
    }
}

/// On text that does not start with whitespace, `lead` makes no difference.
proof fn lemma_lead_irrelevant(u: Seq<char>, g: bool)
    requires
        u.len() == 0 || !is_space(u[0]),
    ensures
        patch_from(u, true, g) == patch_from(u, false, g),
{
}

/// Where the output (from a point where whitespace is kept) begins with
/// word characters, the input begins with the same characters.
proof fn lemma_word_prefix(t: Seq<char>, w: Seq<char>, g: bool)
    requires
        w.len() > 0,
        forall|i: int| 0 <= i < w.len() ==> is_word(#[trigger] w[i]),
        starts_with(patch_from(t, false, g), w),
    ensures
        starts_with(t, w),
    decreases t.len(),
{
    let r = patch_from(t, false, g);
    assert(r.take(w.len() as int)[0] == w[0]);
    assert(is_word(w[0]));
    if t.len() == 0 {
    } else if starts_with(t, bar_mark()) {
        assert(r[0] == '|');
    } else if starts_with(t, eq_mark()) {
        assert(r[0] == '=');
    } else if is_space(t[0]) {
        let u = t.skip(1);
        if u.len() == 0 {
            assert(patch_from(u, false, true).len() == 0);
        } else if drops(false, u) {
            lemma_word_prefix(u, w, true);
            assert(u[0] == u.take(w.len() as int)[0]);
        } else {
            assert(r[0] == ' ');
        }
    } else {
        let u = t.skip(1);
        assert(r == seq![t[0]] + patch_from(u, false, false));
        assert(r[0] == t[0]);
        assert(w[0] == t[0]);
        if w.len() > 1 {
            let w1 = w.skip(1);
            assert(patch_from(u, false, false).take(w1.len() as int) =~= r.take(w.len() as int).skip(1));
            assert(forall|i: int| 0 <= i < w1.len() ==> is_word(#[trigger] w1[i]) == is_word(w[i + 1]));
            lemma_word_prefix(u, w1, false);
            assert(t.take(w.len() as int) =~= seq![t[0]] + u.take(w1.len() as int));
            assert(w =~= seq![w[0]] + w1);
        } else {
            assert(t.take(1) =~= seq![t[0]]);
            assert(w =~= seq![w[0]]);
        }
    }
}

proof fn lemma_marks_are_words()
    ensures
        forall|i: int| 0 <= i < bar_mark().len() ==> is_word(#[trigger] bar_mark()[i]),
        forall|i: int| 0 <= i < eq_mark().len() ==> is_word(#[trigger] eq_mark()[i]),
{
    assert forall|i: int| 0 <= i < bar_mark().len() implies is_word(#[trigger] bar_mark()[i]) by {
        if i == 0 || i == 1 || i == 5 || i == 6 {
        } else {
        }
    }
    assert forall|i: int| 0 <= i < eq_mark().len() implies is_word(#[trigger] eq_mark()[i]) by {
        if i == 0 || i == 1 || i == 4 || i == 5 {
        } else {
        }
    }
}

proof fn lemma_mark_lifts(c: char, u: Seq<char>, t: Seq<char>, m: Seq<char>)
    requires
        m.len() > 1,
        forall|i: int| 0 <= i < m.len() ==> is_word(#[trigger] m[i]),
        u == patch_from(t, false, false),
        starts_with(seq![c] + u, m),
    ensures
        starts_with(seq![c] + t, m),
{
    let m1 = m.skip(1);
    assert((seq![c] + u).take(m.len() as int) == m);
    assert(m[0] == c);
    assert(u.take(m1.len() as int) =~= (seq![c] + u).take(m.len() as int).skip(1));
    lemma_word_prefix(t, m1, false);
    assert((seq![c] + t).take(m.len() as int) =~= seq![c] + t.take(m1.len() as int));
    assert(m =~= seq![c] + m1);
}

proof fn lemma_not_mark(c: char, u: Seq<char>, t: Seq<char>)
    requires
        is_word(c),
        u == patch_from(t, false, false),
        !starts_with(seq![c] + t, bar_mark()),
        !starts_with(seq![c] + t, eq_mark()),
    ensures
        !starts_with(seq![c] + u, bar_mark()),
        !starts_with(seq![c] + u, eq_mark()),
{
    lemma_marks_are_words();
    if starts_with(seq![c] + u, bar_mark()) {
        lemma_mark_lifts(c, u, t, bar_mark());
    }
    if starts_with(seq![c] + u, eq_mark()) {
        lemma_mark_lifts(c, u, t, eq_mark());
    }
}

/// From a point where whitespace is kept, text whose whitespace in front would
/// be kept patches to text whose whitespace in front is kept too.
proof fn lemma_first_of_patch(t: Seq<char>)
    requires
        t.len() > 0,
        !is_space(t[0]),
        !closes(t[0]),
        !brack_ahead(t),
        !lt_ahead(t),
    ensures
        patch_from(t, false, false).len() > 0,
        !is_space(patch_from(t, false, false)[0]),
        !closes(patch_from(t, false, false)[0]),
        !brack_ahead(patch_from(t, false, false)),
        !lt_ahead(patch_from(t, false, false)),
{
    let u = patch_from(t, false, false);
    if !starts_with(t, bar_mark()) && !starts_with(t, eq_mark()) && opens(t[0]) {
        let rest = patch_from(t.skip(1), true, false);
        lemma_lead_start(t.skip(1), false);
        assert(u == seq![t[0]] + rest);
        if u.len() >= 2 {
            assert(u[1] == rest[0]);
        }
    }
}

/// Patching is idempotent: patching patched text changes nothing.
pub proof fn lemma_patch_idempotent(s: Seq<char>)
    ensures
        patched(patched(s)) == patched(s),
{
    lemma_patch_from_idempotent(s, true, false);
}

proof fn lemma_patch_from_idempotent(s: Seq<char>, lead: bool, gap: bool)
    ensures
        patch_from(patch_from(s, lead, gap), lead, false) == patch_from(s, lead, gap),
    decreases s.len(),
{
    let r = patch_from(s, lead, gap);
    if s.len() == 0 {
    } else if starts_with(s, bar_mark()) {
        let u = patch_from(s.skip(7), false, false);
        lemma_patch_from_idempotent(s.skip(7), false, false);
        assert(r == seq!['|'] + u);
        assert(!starts_with(r, bar_mark()));
        assert(!starts_with(r, eq_mark()));
        assert(r.skip(1) =~= u);
    } else if starts_with(s, eq_mark()) {
        let u = patch_from(s.skip(6), false, false);
        lemma_patch_from_idempotent(s.skip(6), false, false);
        assert(r == seq!['=', '=', '='] + u);
        let r1 = r.skip(1);
        let r2 = r1.skip(1);
        let r3 = r2.skip(1);
        assert(r1 =~= seq!['=', '='] + u);
        assert(r2 =~= seq!['='] + u);
        assert(r3 =~= u);
        assert(!starts_with(r, bar_mark()));
        assert(!starts_with(r, eq_mark()));
        assert(!starts_with(r1, bar_mark()));
        assert(!starts_with(r1, eq_mark()));
        assert(!starts_with(r2, bar_mark()));
        assert(!starts_with(r2, eq_mark()));
        assert(patch_from(r2, false, false) == seq!['='] + patch_from(r3, false, false));
        assert(patch_from(r1, false, false) == seq!['='] + patch_from(r2, false, false));
        assert(patch_from(r, lead, false) == seq!['='] + patch_from(r1, false, false));
        assert(patch_from(r, lead, false) =~= r);
    } else if is_space(s[0]) {
        let t = s.skip(1);
        if drops(lead, t) {
            lemma_patch_from_idempotent(t, lead, true);
        } else {
            let u = patch_from(t, false, false);
            lemma_patch_from_idempotent(t, false, false);
            lemma_first_of_patch(t);
            assert(r == seq![' '] + u);
            assert(!starts_with(r, bar_mark()));
            assert(!starts_with(r, eq_mark()));
            assert(r.skip(1) =~= u);
            assert(!drops(lead, u));
        }
    } else {
        let c = s[0];
        let t = s.skip(1);
        let l1 = opens(c) || (c == '>' && gap);
        let u = patch_from(t, l1, false);
        lemma_patch_from_idempotent(t, l1, false);
        assert(r == seq![c] + u);
        assert(s =~= seq![c] + t);
        if is_word(c) {
            lemma_not_mark(c, u, t);
        } else {
            assert(!starts_with(r, bar_mark()));
            assert(!starts_with(r, eq_mark()));
        }
        assert(r.skip(1) =~= u);
        if l1 != opens(c) {
            lemma_lead_start(t, false);
            lemma_lead_irrelevant(u, false);
        }
        assert(patch_from(r, lead, false) == seq![c] + patch_from(u, opens(c), false));
    }
}

/// Applies the patch table to generated text.
pub fn patch(s: &str) -> (r: String)
    ensures
        r@ == patched(s@),
{
    let v = chars_of(s);
    let bar: Vec<char> = vec!['_', '_', 'b', 'a', 'r', '_', '_'];
    let eq: Vec<char> = vec!['_', '_', 'e', 'q', '_', '_'];
    assert(bar@ =~= bar_mark());
    assert(eq@ =~= eq_mark());
    let mut out = String::new();
    let mut lead = true;
    let mut gap = false;
    let mut i: usize = 0;
    assert(v@.skip(0) =~= v@);
    assert(out@ + patch_from(v@.skip(0), true, false) =~= patched(s@));
    while i < v.len()
        invariant
            v@ == s@,
            bar@ == bar_mark(),
            eq@ == eq_mark(),
            i <= v@.len(),
            patched(s@) == out@ + patch_from(v@.skip(i as int), lead, gap),
        decreases v@.len() - i,
    {
        let ghost rest = v@.skip(i as int);
        if matches_at(&v, i, &bar) {
            push_char(&mut out, '|');
            i = i + 7;
            lead = false;
            gap = false;
            assert(rest.skip(7) =~= v@.skip(i as int));
        } else if matches_at(&v, i, &eq) {
            push_char(&mut out, '=');
            push_char(&mut out, '=');
            push_char(&mut out, '=');
            i = i + 6;
            lead = false;
            gap = false;
            assert(rest.skip(6) =~= v@.skip(i as int));
        } else {
            let c = v[i];
            assert(rest[0] == c);
            assert(rest.skip(1) =~= v@.skip(i + 1));
            if space(c) {
                let drop = if lead || i + 1 == v.len() {
                    true
                } else {
                    let d = v[i + 1];
                    assert(rest.skip(1)[0] == d);
                    space(d) || closing(d) || brack_at(&v, i + 1) || (d == '<' && i + 2 < v.len()
                        && space(v[i + 2]))
                };
                if drop {
                    gap = true;
                } else {
                    push_char(&mut out, ' ');
                    lead = false;
                    gap = false;
                }
            } else {
                push_char(&mut out, c);
                lead = opening(c) || (c == '>' && gap);
                gap = false;
            }
            i = i + 1;
        }
        assert(patched(s@) =~= out@ + patch_from(v@.skip(i as int), lead, gap));
    }
    assert(v@.skip(i as int) =~= Seq::<char>::empty());
    assert(out@ =~= patched(s@));
    out
}

/// Whether an empty pair of brackets with whitespace inside starts at `j`.
fn brack_at(v: &Vec<char>, j: usize) -> (r: bool)
    requires
        j < v@.len(),
    ensures
        r == brack_ahead(v@.skip(j as int)),
{
    let n = v.len();
    let ghost t = v@.skip(j as int);
    if j + 1 >= n || v[j] != '[' || !space(v[j + 1]) {
        return false;
    }
    assert(t[0] == v@[j as int] && t[1] == v@[j + 1]);
    let mut k: usize = j + 2;
    assert(t.skip(2) =~= v@.skip(k as int));
    while k < n && space(v[k])
        invariant
            n == v@.len(),
            j + 2 <= k <= n,
            close_after_spaces(t.skip(2)) == close_after_spaces(v@.skip(k as int)),
        decreases n - k,
    {
        assert(v@.skip(k as int).skip(1) =~= v@.skip(k + 1));
        k = k + 1;
    }
    if k < n {
        assert(v@.skip(k as int)[0] == v@[k as int]);
        v[k] == ']'
    } else {
        false
    }
}

fn matches_at(v: &Vec<char>, i: usize, m: &Vec<char>) -> (r: bool)
    requires
        i < v@.len(),
    ensures
        r == starts_with(v@.skip(i as int), m@),
{
    if m.len() > v.len() - i {
        return false;
    }
    let n = v.len();
    let mut j: usize = 0;
    while j < m.len()
        invariant
            n == v@.len(),
            i < v@.len(),
            m@.len() <= v@.len() - i,
            j <= m@.len(),
            forall|k: int| 0 <= k < j ==> v@[i + k] == m@[k],
        decreases m@.len() - j,
    {
        assert(i + j < v@.len());
        if v[i + j] != m[j] {
            assert(v@.skip(i as int).take(m@.len() as int)[j as int] != m@[j as int]);
            return false;
        }
        j = j + 1;
    }
    assert(v@.skip(i as int).take(m@.len() as int) =~= m@);
    true
}

fn space(c: char) -> (r: bool)
    ensures
        r == is_space(c),
{
    c == ' ' || c == '\n' || c == '\t' || c == '\r'
}

fn opening(c: char) -> (r: bool)
    ensures
        r == opens(c),
{
    c == '[' || c == '(' || c == '<'
}

fn closing(c: char) -> (r: bool)
    ensures
        r == closes(c),
{
    c == ']' || c == ')' || c == '>' || c == ';' || c == ',' || c == ':'
}

} // verus!
