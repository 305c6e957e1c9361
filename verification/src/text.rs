//! Splitting text: pieces between separators, and lines the way a buffered
//! reader hands them out.

use vstd::prelude::*;

verus! {

/// The pieces of `s` between occurrences of `sep`, in order; `n`
/// separators give `n + 1` pieces, empty ones included.
pub open spec fn split_on(s: Seq<char>, sep: char) -> Seq<Seq<char>>
    decreases s.len(),
{
    if s.len() == 0 {
        seq![Seq::<char>::empty()]
    } else {
        let rest = split_on(s.drop_first(), sep);
        if s[0] == sep {
            seq![Seq::<char>::empty()] + rest
        } else {
            rest.update(0, seq![s[0]] + rest[0])
        }
    }
}

/// The views of a list of character vectors.
pub open spec fn views(v: Seq<Vec<char>>) -> Seq<Seq<char>> {
    v.map_values(|x: Vec<char>| x@)
}

/// `r` with `c` put in front of its first piece.
pub open spec fn prefix_first(c: Seq<char>, r: Seq<Seq<char>>) -> Seq<Seq<char>> {
    r.update(0, c + r[0])
}

/// Whether `s` holds no `sep`.
pub open spec fn free_of(s: Seq<char>, sep: char) -> bool {
    forall|i: int| 0 <= i < s.len() ==> s[i] != sep
}

/// Splitting always gives at least one piece.
pub proof fn lemma_split_nonempty(s: Seq<char>, sep: char)
    ensures
        split_on(s, sep).len() >= 1,
    decreases s.len(),
{
    if s.len() > 0 {
        lemma_split_nonempty(s.drop_first(), sep);
    }
}

/// A piece free of the separator, followed by the separator, splits off
/// as the first piece; with nothing after, it is the only piece.
pub proof fn lemma_split_piece(a: Seq<char>, sep: char, c: Seq<char>)
    requires
        free_of(a, sep),
    ensures
        split_on(a + seq![sep] + c, sep) == seq![a] + split_on(c, sep),
        split_on(a, sep) == seq![a],
    decreases a.len(),
{
    if a.len() == 0 {
        assert((a + seq![sep] + c).drop_first() =~= c);
        assert(a =~= Seq::<char>::empty());
    } else {
        let a2 = a.drop_first();
        lemma_split_piece(a2, sep, c);
        assert((a + seq![sep] + c).drop_first() =~= a2 + seq![sep] + c);
        assert(seq![a[0]] + a2 =~= a);
        lemma_split_nonempty(c, sep);
        assert((seq![a2] + split_on(c, sep)).update(0, seq![a[0]] + a2) =~= seq![a] + split_on(c, sep));
        assert(seq![a2].update(0, seq![a[0]] + a2) =~= seq![a]);
    }
}

/// Splits `s` at every `sep`.
pub fn split_chars(s: &Vec<char>, sep: char) -> (r: Vec<Vec<char>>)
    ensures
        views(r@) == split_on(s@, sep),
{
    let mut pieces: Vec<Vec<char>> = Vec::new();
    let mut cur: Vec<char> = Vec::new();
    let mut i: usize = 0;
    assert(s@.skip(0) =~= s@);
    proof {
        lemma_split_nonempty(s@, sep);
        assert(prefix_first(cur@, split_on(s@, sep)) =~= split_on(s@, sep));
        assert(views(pieces@) =~= Seq::<Seq<char>>::empty());
        assert(views(pieces@) + prefix_first(cur@, split_on(s@, sep)) =~= split_on(s@, sep));
    }
    while i < s.len()
        invariant
            0 <= i <= s.len(),
            views(pieces@) + prefix_first(cur@, split_on(s@.skip(i as int), sep)) == split_on(
                s@,
                sep,
            ),
        decreases s.len() - i,
    {
        let c = s[i];
        proof {
            lemma_split_nonempty(s@.skip(i + 1), sep);
            assert(s@.skip(i as int).drop_first() =~= s@.skip(i + 1));
        }
        let ghost rest = split_on(s@.skip(i + 1), sep);
        if c == sep {
            let ghost old_cur = cur@;
            pieces.push(cur);
            cur = Vec::new();
            assert(views(pieces@) =~= views(pieces@.drop_last()).push(old_cur));
            assert(prefix_first(cur@, rest) =~= rest);
            assert(prefix_first(old_cur, seq![Seq::<char>::empty()] + rest) =~= seq![old_cur]
                + rest);
            assert(views(pieces@) + prefix_first(cur@, rest) =~= views(pieces@.drop_last())
                + prefix_first(old_cur, split_on(s@.skip(i as int), sep)));
        } else {
            let ghost old_cur = cur@;
            cur.push(c);
            assert(old_cur + (seq![c] + rest[0]) =~= cur@ + rest[0]);
            assert(prefix_first(old_cur, rest.update(0, seq![c] + rest[0])) =~= prefix_first(
                cur@,
                rest,
            ));
        }
        i += 1;
    }
    proof {
        assert(s@.skip(i as int) =~= Seq::<char>::empty());
    }
    let ghost last = cur@;
    let ghost before = views(pieces@);
    pieces.push(cur);
    assert(views(pieces@) =~= before.push(last));
    assert(prefix_first(last, seq![Seq::<char>::empty()]) =~= seq![last]);
    assert(views(pieces@) =~= before + prefix_first(last, seq![Seq::<char>::empty()]));
    pieces
}


/// A line without the carriage return that ended it, if any.
pub open spec fn strip_cr(l: Seq<char>) -> Seq<char> {
    if l.len() > 0 && l.last() == '\r' {
        l.drop_last()
    } else {
        l
    }
}

/// The lines of `t` as a buffered reader hands them out: split at line
/// feeds; each line that ended in a line feed loses a carriage return
/// before it; a last line without a line feed counts only when non-empty.
pub open spec fn lines_of(t: Seq<char>) -> Seq<Seq<char>> {
    let p = split_on(t, '\n');
    let body = p.drop_last().map_values(|l: Seq<char>| strip_cr(l));
    if p.last().len() == 0 {
        body
    } else {
        body.push(p.last())
    }
}

/// A copy of `v`.
pub fn copy_chars(v: &Vec<char>) -> (r: Vec<char>)
    ensures
        r@ == v@,
{
    let mut r: Vec<char> = Vec::new();
    let mut i: usize = 0;
    while i < v.len()
        invariant
            0 <= i <= v.len(),
            r@ == v@.take(i as int),
        decreases v.len() - i,
    {
        r.push(v[i]);
        i += 1;
        assert(r@ =~= v@.take(i as int));
    }
    assert(v@.take(i as int) =~= v@);
    r
}

/// The lines of `t` (see `lines_of`).
pub fn lines(t: &Vec<char>) -> (r: Vec<Vec<char>>)
    ensures
        views(r@) == lines_of(t@),
{
    let pieces = split_chars(t, '\n');
    let ghost p = split_on(t@, '\n');
    proof {
        lemma_split_nonempty(t@, '\n');
    }
    assert(pieces@.len() == p.len());
    let n = pieces.len();
    let mut r: Vec<Vec<char>> = Vec::new();
    let mut i: usize = 0;
    while i + 1 < n
        invariant
            n == pieces@.len() == p.len(),
            n >= 1,
            views(pieces@) == p,
            0 <= i <= n - 1,
            views(r@) == p.take(i as int).map_values(|l: Seq<char>| strip_cr(l)),
        decreases n - i,
    {
        let mut line = copy_chars(&pieces[i]);
        assert(line@ == p[i as int]);
        if line.len() > 0 && line[line.len() - 1] == '\r' {
            line.pop();
        }
        assert(line@ =~= strip_cr(p[i as int]));
        let ghost before = views(r@);
        r.push(line);
        i += 1;
        assert(views(r@) =~= before.push(strip_cr(p[i - 1])));
        assert(views(r@) =~= p.take(i as int).map_values(|l: Seq<char>| strip_cr(l)));
    }
    assert(p.take(i as int) =~= p.drop_last());
    let last = copy_chars(&pieces[n - 1]);
    assert(last@ == p.last());
    if last.len() > 0 {
        let ghost before = views(r@);
        r.push(last);
        assert(views(r@) =~= before.push(p.last()));
    }
    r
}

} // verus!
