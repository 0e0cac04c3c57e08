//! Splitting a string at a separator character and joining the pieces back.
//!
//! These are the two halves of the `PATH` round trip: the variable is split
//! into ordered directory components at startup, and a commit re-serializes
//! the components into one joined string. [`lemma_split_join`] states the
//! round-trip law.

use vstd::prelude::*;
use vstd::string::StrSliceExecFns;
use vstd::string::StringExecFns;
use crate::text::push_char;

verus! {

/// The pieces of `s` between occurrences of `sep`: always one piece more
/// than there are separators, so the empty sequence has the single empty
/// piece.
pub open spec fn split_chars(s: Seq<char>, sep: char) -> Seq<Seq<char>>
    decreases s.len(),
{
    if s.len() == 0 {
        seq![Seq::<char>::empty()]
    } else if s[0] == sep {
        seq![Seq::<char>::empty()] + split_chars(s.drop_first(), sep)
    } else {
        let rest = split_chars(s.drop_first(), sep);
        seq![seq![s[0]] + rest[0]] + rest.drop_first()
    }
}

/// The pieces of `l` joined with `sep` between each two.
pub open spec fn join_chars(l: Seq<Seq<char>>, sep: char) -> Seq<char>
    decreases l.len(),
{
    if l.len() == 0 {
        Seq::<char>::empty()
    } else if l.len() == 1 {
        l[0]
    } else {
        l[0] + seq![sep] + join_chars(l.drop_first(), sep)
    }
}

/// Splitting never yields an empty piece list.
pub proof fn lemma_split_len_pos(s: Seq<char>, sep: char)
    ensures
        split_chars(s, sep).len() >= 1,
    decreases s.len(),
{
    if s.len() > 0 {
        lemma_split_len_pos(s.drop_first(), sep);
    }
}

/// A string without the separator splits into itself alone.
pub proof fn lemma_split_no_sep(s: Seq<char>, sep: char)
    requires
        forall|j: int| 0 <= j < s.len() ==> s[j] != sep,
    ensures
        split_chars(s, sep) == seq![s],
    decreases s.len(),
{
    if s.len() == 0 {
        assert(s =~= Seq::<char>::empty());
        assert(split_chars(s, sep) =~~= seq![s]);
    } else {
        lemma_split_no_sep(s.drop_first(), sep);
        let rest = split_chars(s.drop_first(), sep);
        assert(seq![s[0]] + rest[0] =~= s);
        assert(split_chars(s, sep) =~= seq![s]);
    }
}

/// Splitting at the first separator: a separator-free prefix becomes the
/// first piece, and the remainder splits on its own.
pub proof fn lemma_split_sep_concat(a: Seq<char>, sep: char, b: Seq<char>)
    requires
        forall|j: int| 0 <= j < a.len() ==> a[j] != sep,
    ensures
        split_chars(a + seq![sep] + b, sep) == seq![a] + split_chars(b, sep),
    decreases a.len(),
{
    let s = a + seq![sep] + b;
    if a.len() == 0 {
        assert(s[0] == sep);
        assert(s.drop_first() =~= b);
        assert(a =~= Seq::<char>::empty());
        assert(split_chars(s, sep) =~~= seq![a] + split_chars(b, sep));
    } else {
        assert(s[0] == a[0]);
        assert(s[0] != sep);
        assert(s.drop_first() =~= a.drop_first() + seq![sep] + b);
        lemma_split_sep_concat(a.drop_first(), sep, b);
        let rest = split_chars(s.drop_first(), sep);
        lemma_split_len_pos(b, sep);
        assert(rest[0] == a.drop_first());
        assert(seq![s[0]] + rest[0] =~= a);
        assert(rest.drop_first() =~= split_chars(b, sep));
        assert(split_chars(s, sep) =~= seq![a] + split_chars(b, sep));
    }
}

/// Joining one more piece at the end.
pub proof fn lemma_join_push(l: Seq<Seq<char>>, sep: char, x: Seq<char>)
    ensures
        l.len() == 0 ==> join_chars(l.push(x), sep) == x,
        l.len() > 0 ==> join_chars(l.push(x), sep) == join_chars(l, sep) + seq![sep] + x,
    decreases l.len(),
{
    let p = l.push(x);
    if l.len() == 0 {
        assert(p.len() == 1);
        assert(join_chars(p, sep) == p[0]);
        assert(p[0] == x);
    } else if l.len() == 1 {
        assert(p.len() == 2);
        assert(p.drop_first() =~= seq![x]);
        assert(join_chars(p.drop_first(), sep) == x);
        assert(join_chars(p, sep) == p[0] + seq![sep] + x);
        assert(join_chars(l, sep) == l[0]);
        assert(p[0] == l[0]);
    } else {
        lemma_join_push(l.drop_first(), sep, x);
        assert(p.drop_first() =~= l.drop_first().push(x));
        assert(join_chars(p, sep) == p[0] + seq![sep] + join_chars(l.drop_first().push(x), sep));
        assert(p[0] == l[0]);
        assert(join_chars(l, sep) + seq![sep] + x =~= l[0] + seq![sep] + (join_chars(
            l.drop_first(),
            sep,
        ) + seq![sep] + x));
    }
}

/// The round-trip law: a non-empty piece list, none of whose pieces holds
/// the separator, is reproduced exactly when its joined form is split again.
pub proof fn lemma_split_join(l: Seq<Seq<char>>, sep: char)
    requires
        l.len() > 0,
        forall|i: int, j: int|
            0 <= i < l.len() && 0 <= j < l[i].len() ==> #[trigger] l[i][j] != sep,
    ensures
        split_chars(join_chars(l, sep), sep) == l,
    decreases l.len(),
{
    if l.len() == 1 {
        assert(join_chars(l, sep) == l[0]);
        assert(forall|j: int| 0 <= j < l[0].len() ==> l[0][j] != sep);
        lemma_split_no_sep(l[0], sep);
        assert(split_chars(join_chars(l, sep), sep) =~= l);
    } else {
        let rest = l.drop_first();
        assert(forall|i: int, j: int|
            0 <= i < rest.len() && 0 <= j < rest[i].len() ==> #[trigger] rest[i][j] != sep);
        lemma_split_join(rest, sep);
        assert(forall|j: int| 0 <= j < l[0].len() ==> l[0][j] != sep);
        lemma_split_sep_concat(l[0], sep, join_chars(rest, sep));
        assert(join_chars(l, sep) == l[0] + seq![sep] + join_chars(rest, sep));
        assert(split_chars(join_chars(l, sep), sep) =~= l);
    }
}

/// Split `s` into the pieces between occurrences of `sep`.
pub fn split_str(s: &str, sep: char) -> (r: Vec<String>)
    ensures
        r.deep_view() == split_chars(s@, sep),
{
    let n = s.unicode_len();
    let mut r: Vec<String> = Vec::new();
    let mut cur: usize = 0;
    let mut i: usize = 0;
    proof {
        assert(s@.subrange(0, n as int) =~= s@);
        assert(r.deep_view() =~= Seq::<Seq<char>>::empty());
        assert(r.deep_view() + split_chars(s@, sep) =~= split_chars(s@, sep));
    }
    while i < n
        invariant
            cur <= i <= n,
            n == s@.len(),
            forall|j: int| cur <= j < i ==> s@[j] != sep,
            split_chars(s@, sep) == r.deep_view() + split_chars(
                s@.subrange(cur as int, n as int),
                sep,
            ),
        decreases n - i,
    {
        if s.get_char(i) == sep {
            let piece = String::from_str(s.substring_char(cur, i));
            let ghost old_dv = r.deep_view();
            r.push(piece);
            proof {
                let a = s@.subrange(cur as int, i as int);
                let b = s@.subrange(i + 1, n as int);
                assert(s@.subrange(cur as int, n as int) =~= a + seq![sep] + b);
                lemma_split_sep_concat(a, sep, b);
                assert(r.deep_view() =~= old_dv.push(a));
                assert(r.deep_view() + split_chars(b, sep) =~= old_dv + (seq![a] + split_chars(
                    b,
                    sep,
                )));
            }
            cur = i + 1;
        }
        i = i + 1;
    }
    let piece = String::from_str(s.substring_char(cur, n));
    let ghost old_dv = r.deep_view();
    r.push(piece);
    proof {
        let a = s@.subrange(cur as int, n as int);
        lemma_split_no_sep(a, sep);
        assert(r.deep_view() =~= old_dv.push(a));
        assert(r.deep_view() =~= old_dv + seq![a]);
    }
    r
}

/// Join the pieces of `v` with `sep` between each two.
pub fn join_str(v: &Vec<String>, sep: char) -> (r: String)
    ensures
        r@ == join_chars(v.deep_view(), sep),
{
    let mut r = String::new();
    let mut i: usize = 0;
    while i < v.len()
        invariant
            i <= v.len(),
            r@ == join_chars(v.deep_view().subrange(0, i as int), sep),
        decreases v.len() - i,
    {
        if i > 0 {
            push_char(&mut r, sep);
        }
        r.append(v[i].as_str());
        proof {
            let dv = v.deep_view();
            let pre = dv.subrange(0, i as int);
            lemma_join_push(pre, sep, dv[i as int]);
            assert(dv.subrange(0, i + 1) =~= pre.push(dv[i as int]));
        }
        i = i + 1;
    }
    proof {
        assert(v.deep_view().subrange(0, v.len() as int) =~= v.deep_view());
    }
    r
}

} // verus!
