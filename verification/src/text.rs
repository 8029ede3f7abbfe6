//! Character-level string operations with exact specifications over `Seq<char>`.
use vstd::prelude::*;

verus! {

/// `needle` occurs in `hay` starting at position `i`.
pub open spec fn occurs_at(hay: Seq<char>, needle: Seq<char>, i: int) -> bool {
    0 <= i && i + needle.len() <= hay.len() && hay.subrange(i, i + needle.len()) =~= needle
}

/// `needle` occurs somewhere in `hay` (as `str::contains` with a string pattern).
pub open spec fn has_infix(hay: Seq<char>, needle: Seq<char>) -> bool {
    exists|i: int| #[trigger] occurs_at(hay, needle, i)
}

/// `hay` begins with `prefix`.
pub open spec fn has_prefix(hay: Seq<char>, prefix: Seq<char>) -> bool {
    occurs_at(hay, prefix, 0)
}

/// What `str::trim_start_matches` leaves of `s` for a non-empty pattern `p`:
/// every leading copy of `p` is removed.
pub open spec fn trim_start_spec(s: Seq<char>, p: Seq<char>) -> Seq<char>
    decreases s.len(),
{
    if p.len() > 0 && has_prefix(s, p) {
        trim_start_spec(s.subrange(p.len() as int, s.len() as int), p)
    } else {
        s
    }
}

/// What `str::trim_end_matches` leaves of `s` for a non-empty pattern `p`.
pub open spec fn trim_end_spec(s: Seq<char>, p: Seq<char>) -> Seq<char>
    decreases s.len(),
{
    if p.len() > 0 && occurs_at(s, p, s.len() - p.len()) {
        trim_end_spec(s.subrange(0, s.len() - p.len()), p)
    } else {
        s
    }
}

/// What `str::replace` gives for a non-empty pattern `f`: every non-overlapping
/// occurrence of `f`, scanning from the left, is replaced by `t`.
pub open spec fn replace_spec(s: Seq<char>, f: Seq<char>, t: Seq<char>) -> Seq<char>
    decreases s.len(),
{
    if s.len() == 0 || f.len() == 0 {
        s
    } else if has_prefix(s, f) {
        t + replace_spec(s.subrange(f.len() as int, s.len() as int), f, t)
    } else {
        seq![s[0]] + replace_spec(s.subrange(1, s.len() as int), f, t)
    }
}

/// The first `n` characters of `s` (all of `s` when it is shorter).
pub open spec fn prefix_chars(s: Seq<char>, n: nat) -> Seq<char> {
    if n <= s.len() {
        s.subrange(0, n as int)
    } else {
        s
    }
}

/// Concatenation of a sequence of strings.
pub open spec fn concat_all(parts: Seq<Seq<char>>) -> Seq<char>
    decreases parts.len(),
{
    if parts.len() == 0 {
        Seq::empty()
    } else {
        concat_all(parts.drop_last()) + parts.last()
    }
}

/// The characters of a string slice, in order.
#[verifier::external_body]
pub(crate) fn chars_of(s: &str) -> (v: Vec<char>)
    ensures
        v@ == s@,
{
    s.chars().collect()
}

/// Appends one character (`String::push`).
#[verifier::external_body]
pub(crate) fn push_char(s: &mut String, c: char)
    ensures
        final(s)@ == old(s)@.push(c),
{
    s.push(c)
}

/// Appends a string slice.
pub fn push_str(s: &mut String, t: &str)
    ensures
        final(s)@ == old(s)@ + t@,
{
    s.append(t);
}

/// A new `String` holding the characters of `v`.
pub fn string_of(v: &Vec<char>) -> (s: String)
    ensures
        s@ == v@,
{
    let mut s = String::new();
    let mut i: usize = 0;
    while i < v.len()
        invariant
            i <= v.len(),
            s@ == v@.subrange(0, i as int),
        decreases v.len() - i,
    {
        push_char(&mut s, v[i]);
        i = i + 1;
        assert(s@ =~= v@.subrange(0, i as int));
    }
    assert(s@ =~= v@);
    s
}

/// Does `needle` occur in `hay` at position `i`?
pub fn matches_at(hay: &Vec<char>, needle: &Vec<char>, i: usize) -> (r: bool)
    ensures
        r == occurs_at(hay@, needle@, i as int),
{
    if i > hay.len() || needle.len() > hay.len() - i {
        return false;
    }
    let mut k: usize = 0;
    while k < needle.len()
        invariant
            i + needle.len() <= hay.len(),
            k <= needle.len(),
            forall|j: int| 0 <= j < k ==> hay@[i + j] == needle@[j],
        decreases needle.len() - k,
    {
        if hay[i + k] != needle[k] {
            assert(hay@.subrange(i as int, i + needle.len())[k as int] != needle@[k as int]);
            return false;
        }
        k = k + 1;
    }
    assert(hay@.subrange(i as int, i + needle.len()) =~= needle@);
    true
}

/// `str::contains` with a string pattern.
pub fn contains_seq(hay: &Vec<char>, needle: &Vec<char>) -> (r: bool)
    ensures
        r == has_infix(hay@, needle@),
{
    if needle.len() > hay.len() {
        assert forall|i: int| !#[trigger] occurs_at(hay@, needle@, i) by {}
        return false;
    }
    let last = hay.len() - needle.len();
    let mut i: usize = 0;
    while i <= last
        invariant
            last == hay.len() - needle.len(),
            needle.len() <= hay.len(),
            i <= last + 1,
            forall|j: int| 0 <= j < i ==> !#[trigger] occurs_at(hay@, needle@, j),
        decreases last + 1 - i,
    {
        if matches_at(hay, needle, i) {
            return true;
        }
        i = i + 1;
    }
    assert forall|j: int| !#[trigger] occurs_at(hay@, needle@, j) by {
        if 0 <= j < i {
        }
    }
    false
}

/// `str::contains` with a string pattern, on string slices.
pub fn contains_str(hay: &str, needle: &str) -> (r: bool)
    ensures
        r == has_infix(hay@, needle@),
{
    let h = chars_of(hay);
    let n = chars_of(needle);
    contains_seq(&h, &n)
}

/// `str::starts_with` with a string pattern.
pub fn starts_with_str(s: &str, prefix: &str) -> (r: bool)
    ensures
        r == has_prefix(s@, prefix@),
{
    let h = chars_of(s);
    let p = chars_of(prefix);
    matches_at(&h, &p, 0)
}

/// `str::trim_start_matches` with a non-empty string pattern.
pub fn trim_start_matches(s: &str, p: &str) -> (r: String)
    requires
        p@.len() > 0,
    ensures
        r@ == trim_start_spec(s@, p@),
{
    let v = chars_of(s);
    let pv = chars_of(p);
    let mut i: usize = 0;
    assert(v@.subrange(0, v@.len() as int) =~= v@);
    while matches_at(&v, &pv, i)
        invariant
            i <= v.len(),
            pv@.len() > 0,
            trim_start_spec(v@.subrange(i as int, v@.len() as int), pv@) == trim_start_spec(
                v@,
                pv@,
            ),
        decreases v.len() - i,
    {
        let ghost rest = v@.subrange(i as int, v@.len() as int);
        assert(has_prefix(rest, pv@)) by {
            assert(rest.subrange(0, pv@.len() as int) =~= v@.subrange(
                i as int,
                i + pv@.len(),
            ));
        }
        assert(rest.subrange(pv@.len() as int, rest.len() as int) =~= v@.subrange(
            i + pv@.len(),
            v@.len() as int,
        ));
        i = i + pv.len();
    }
    let ghost rest = v@.subrange(i as int, v@.len() as int);
    assert(!has_prefix(rest, pv@)) by {
        if has_prefix(rest, pv@) {
            assert(v@.subrange(i as int, i + pv@.len()) =~= rest.subrange(0, pv@.len() as int));
        }
    }
    let mut out = String::new();
    let mut k: usize = i;
    while k < v.len()
        invariant
            i <= k <= v.len(),
            out@ =~= v@.subrange(i as int, k as int),
        decreases v.len() - k,
    {
        push_char(&mut out, v[k]);
        k = k + 1;
    }
    out
}

/// `str::trim_end_matches` with a non-empty string pattern.
pub fn trim_end_matches(s: &str, p: &str) -> (r: String)
    requires
        p@.len() > 0,
    ensures
        r@ == trim_end_spec(s@, p@),
{
    let v = chars_of(s);
    let pv = chars_of(p);
    let mut end: usize = v.len();
    assert(v@.subrange(0, v@.len() as int) =~= v@);
    while end >= pv.len() && matches_at(&v, &pv, end - pv.len())
        invariant
            end <= v.len(),
            pv@.len() > 0,
            trim_end_spec(v@.subrange(0, end as int), pv@) == trim_end_spec(v@, pv@),
        decreases end,
    {
        let ghost head = v@.subrange(0, end as int);
        assert(occurs_at(head, pv@, head.len() - pv@.len())) by {
            assert(head.subrange(head.len() - pv@.len(), head.len() as int) =~= v@.subrange(
                end - pv@.len(),
                end as int,
            ));
        }
        assert(head.subrange(0, head.len() - pv@.len()) =~= v@.subrange(
            0,
            end - pv@.len(),
        ));
        end = end - pv.len();
    }
    let ghost head = v@.subrange(0, end as int);
    assert(!occurs_at(head, pv@, head.len() - pv@.len())) by {
        if occurs_at(head, pv@, head.len() - pv@.len()) {
            assert(v@.subrange(end - pv@.len(), end as int) =~= head.subrange(
                head.len() - pv@.len(),
                head.len() as int,
            ));
        }
    }
    let mut out = String::new();
    let mut k: usize = 0;
    while k < end
        invariant
            k <= end <= v.len(),
            out@ =~= v@.subrange(0, k as int),
        decreases end - k,
    {
        push_char(&mut out, v[k]);
        k = k + 1;
    }
    out
}

/// `str::replace` with a non-empty string pattern.
pub fn replace_str(s: &str, f: &str, t: &str) -> (r: String)
    requires
        f@.len() > 0,
    ensures
        r@ == replace_spec(s@, f@, t@),
{
    let v = chars_of(s);
    let fv = chars_of(f);
    let mut out = String::new();
    let mut i: usize = 0;
    assert(v@.subrange(0, v@.len() as int) =~= v@);
    assert(out@ + replace_spec(v@, f@, t@) =~= replace_spec(v@, f@, t@));
    while i < v.len()
        invariant
            i <= v.len(),
            fv@ == f@,
            fv@.len() > 0,
            out@ + replace_spec(v@.subrange(i as int, v@.len() as int), f@, t@) == replace_spec(
                s@,
                f@,
                t@,
            ),
            v@ == s@,
        decreases v.len() - i,
    {
        let ghost rest = v@.subrange(i as int, v@.len() as int);
        if matches_at(&v, &fv, i) {
            assert(has_prefix(rest, f@)) by {
                assert(rest.subrange(0, f@.len() as int) =~= v@.subrange(i as int, i + f@.len()));
            }
            assert(rest.subrange(f@.len() as int, rest.len() as int) =~= v@.subrange(
                i + f@.len(),
                v@.len() as int,
            ));
            let ghost old_out = out@;
            push_str(&mut out, t);
            assert(out@ + replace_spec(v@.subrange(i + f@.len(), v@.len() as int), f@, t@)
                =~= old_out + (t@ + replace_spec(v@.subrange(i + f@.len(), v@.len() as int), f@, t@)));
            i = i + fv.len();
        } else {
            assert(!has_prefix(rest, f@)) by {
                if has_prefix(rest, f@) {
                    assert(v@.subrange(i as int, i + f@.len()) =~= rest.subrange(
                        0,
                        f@.len() as int,
                    ));
                }
            }
            assert(rest.subrange(1, rest.len() as int) =~= v@.subrange(i + 1, v@.len() as int));
            let c = v[i];
            let ghost old_out = out@;
            push_char(&mut out, c);
            assert(out@ + replace_spec(v@.subrange(i + 1, v@.len() as int), f@, t@)
                =~= old_out + (seq![c] + replace_spec(v@.subrange(i + 1, v@.len() as int), f@, t@)));
            i = i + 1;
        }
    }
    assert(v@.subrange(i as int, v@.len() as int) =~= Seq::<char>::empty());
    assert(out@ + Seq::<char>::empty() =~= out@);
    out
}

/// The first `n` characters of `s`; the whole of `s` when it is shorter.
pub fn prefix_string(s: &str, n: usize) -> (r: String)
    ensures
        r@ == prefix_chars(s@, n as nat),
{
    let v = chars_of(s);
    let end = if n < v.len() {
        n
    } else {
        v.len()
    };
    let mut out = String::new();
    let mut k: usize = 0;
    while k < end
        invariant
            k <= end <= v.len(),
            out@ =~= v@.subrange(0, k as int),
        decreases end - k,
    {
        push_char(&mut out, v[k]);
        k = k + 1;
    }
    assert(v@.subrange(0, v@.len() as int) =~= v@);
    out
}

/// String equality by characters.
pub fn eq_str(a: &str, b: &str) -> (r: bool)
    ensures
        r == (a@ == b@),
{
    let av = chars_of(a);
    let bv = chars_of(b);
    if av.len() != bv.len() {
        return false;
    }
    let r = matches_at(&av, &bv, 0);
    proof {
        if r {
            assert(av@.subrange(0, av@.len() as int) =~= av@);
        } else {
            assert(av@.subrange(0, bv@.len() as int) =~= av@);
        }
    }
    r
}

/// A copy of a string slice as a `String`.
pub fn to_owned_string(s: &str) -> (r: String)
    ensures
        r@ == s@,
{
    let mut r = String::new();
    r.append(s);
    r
}

/// The character sequences of a sequence of strings.
pub open spec fn views_of(v: Seq<String>) -> Seq<Seq<char>> {
    v.map_values(|s: String| s@)
}

/// A copy of a vector of strings.
pub fn clone_strings(v: &Vec<String>) -> (r: Vec<String>)
    ensures
        views_of(r@) == views_of(v@),
{
    let mut r: Vec<String> = Vec::new();
    let mut i: usize = 0;
    while i < v.len()
        invariant
            i <= v.len(),
            views_of(r@) =~= views_of(v@).subrange(0, i as int),
        decreases v.len() - i,
    {
        let ghost before = views_of(r@);
        let c = v[i].clone();
        r.push(c);
        assert(views_of(r@) =~= before.push(v@[i as int]@));
        i = i + 1;
    }
    r
}

/// Appends copies of the strings of `more` to `v`.
pub fn extend_strings(v: &mut Vec<String>, more: &Vec<String>)
    ensures
        views_of(final(v)@) == views_of(old(v)@) + views_of(more@),
{
    let mut i: usize = 0;
    while i < more.len()
        invariant
            i <= more.len(),
            views_of(v@) =~= views_of(old(v)@) + views_of(more@).subrange(0, i as int),
        decreases more.len() - i,
    {
        let ghost before = views_of(v@);
        let c = more[i].clone();
        v.push(c);
        assert(views_of(v@) =~= before.push(more@[i as int]@));
        i = i + 1;
    }
}

/// Does `s` occur among the strings of `v`?
pub fn contains_string(v: &Vec<String>, s: &str) -> (r: bool)
    ensures
        r == views_of(v@).contains(s@),
{
    let mut i: usize = 0;
    while i < v.len()
        invariant
            i <= v.len(),
            forall|j: int| 0 <= j < i ==> v@[j]@ != s@,
        decreases v.len() - i,
    {
        if eq_str(v[i].as_str(), s) {
            assert(views_of(v@)[i as int] == s@);
            return true;
        }
        i = i + 1;
    }
    assert forall|j: int| 0 <= j < views_of(v@).len() implies views_of(v@)[j] != s@ by {
        assert(v@[j]@ != s@);
    }
    false
}

/// What a pushed sequence contains.
pub proof fn lemma_push_contains<T>(s: Seq<T>, a: T, x: T)
    ensures
        s.push(a).contains(x) == (s.contains(x) || a == x),
{
    if s.contains(x) {
        let j = choose|j: int| 0 <= j < s.len() && s[j] == x;
        assert(s.push(a)[j] == x);
    }
    if a == x {
        assert(s.push(a)[s.len() as int] == x);
    }
    if s.push(a).contains(x) {
        let j = choose|j: int| 0 <= j < s.push(a).len() && s.push(a)[j] == x;
        if j < s.len() {
            assert(s[j] == x);
        }
    }
}

} // verus!
