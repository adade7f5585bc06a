//! The derived-query compositor: pure, deterministic text transformations.
//!
//! Three derivation rules build new query text out of bank templates:
//! substring replacement (alternate registry hive), concatenation into a
//! separator-terminated multi-statement batch, and appending a filter clause.
//! Each executable function is pinned to a spec-level model of its rule, so a
//! derived entry's text is a mathematical function of its inputs alone.

use vstd::prelude::*;
use vstd::string::StrSliceExecFns;
use vstd::string::StringExecFns;

verus! {

/// Model of replacing, left to right and without overlap, every occurrence
/// of `from` in `s` by `to`. An empty pattern leaves the text unchanged.
pub open spec fn replaced(s: Seq<char>, from: Seq<char>, to: Seq<char>) -> Seq<char>
    decreases s.len(),
{
    if from.len() == 0 || s.len() == 0 {
        s
    } else if s.len() >= from.len() && s.take(from.len() as int) == from {
        to + replaced(s.skip(from.len() as int), from, to)
    } else {
        s.take(1) + replaced(s.skip(1), from, to)
    }
}

/// Model of joining `parts` into one batch, every part followed by the
/// one-character separator `sep`.
pub open spec fn joined(parts: Seq<Seq<char>>, sep: char) -> Seq<char>
    decreases parts.len(),
{
    if parts.len() == 0 {
        Seq::empty()
    } else {
        parts[0] + seq![sep] + joined(parts.skip(1), sep)
    }
}

/// Model of splitting `s` at every occurrence of `sep`, the separator
/// dropped; splitting empty text gives one empty field.
pub open spec fn split_on(s: Seq<char>, sep: char) -> Seq<Seq<char>>
    decreases s.len(),
{
    if s.len() == 0 {
        seq![Seq::<char>::empty()]
    } else {
        let rest = split_on(s.drop_last(), sep);
        if s.last() == sep {
            rest.push(Seq::empty())
        } else {
            rest.update(rest.len() - 1, rest.last().push(s.last()))
        }
    }
}

proof fn lemma_split_on_nonempty(s: Seq<char>, sep: char)
    ensures
        split_on(s, sep).len() >= 1,
    decreases s.len(),
{
    if s.len() > 0 {
        lemma_split_on_nonempty(s.drop_last(), sep);
    }
}

proof fn lemma_joined_drop_last(parts: Seq<Seq<char>>, sep: char)
    requires
        parts.len() > 0,
    ensures
        joined(parts, sep) == joined(parts.drop_last(), sep) + parts.last() + seq![sep],
    decreases parts.len(),
{
    if parts.len() == 1 {
        assert(parts.skip(1) =~= Seq::<Seq<char>>::empty());
        assert(parts.drop_last() =~= Seq::<Seq<char>>::empty());
        assert(joined(parts, sep) =~= joined(parts.drop_last(), sep) + parts.last() + seq![sep]);
    } else {
        let t = parts.skip(1);
        lemma_joined_drop_last(t, sep);
        assert(t.drop_last() =~= parts.drop_last().skip(1));
        assert(t.last() == parts.last());
        assert(parts.drop_last()[0] == parts[0]);
        assert(joined(parts, sep) =~= joined(parts.drop_last(), sep) + parts.last() + seq![sep]);
    }
}

proof fn lemma_split_on_append_free(s: Seq<char>, t: Seq<char>, sep: char)
    requires
        !t.contains(sep),
    ensures
        split_on(s + t, sep) == split_on(s, sep).update(
            split_on(s, sep).len() - 1,
            split_on(s, sep).last() + t,
        ),
    decreases t.len(),
{
    lemma_split_on_nonempty(s, sep);
    let sp = split_on(s, sep);
    if t.len() == 0 {
        assert(s + t =~= s);
        assert(sp.last() + t =~= sp.last());
        assert(sp.update(sp.len() - 1, sp.last() + t) =~~= sp);
    } else {
        let t0 = t.drop_last();
        assert(!t0.contains(sep)) by {
            assert(forall|i: int| 0 <= i < t0.len() ==> t0[i] == t[i] && !(t[i] == sep));
        }
        lemma_split_on_append_free(s, t0, sep);
        let u = s + t;
        assert(u.len() > 0);
        assert(u.drop_last() =~= s + t0);
        assert(u.last() == t.last());
        assert(t.last() != sep) by {
            assert(t[t.len() - 1] == t.last());
        }
        assert((sp.last() + t0).push(t.last()) =~= sp.last() + t);
        assert(split_on(u, sep) =~~= sp.update(sp.len() - 1, sp.last() + t));
    }
}

proof fn lemma_split_on_append_sep(s: Seq<char>, sep: char)
    ensures
        split_on(s.push(sep), sep) == split_on(s, sep).push(Seq::<char>::empty()),
{
    assert(s.push(sep).drop_last() =~= s);
    assert(s.push(sep).last() == sep);
}

/// A batch joined out of separator-free parts splits on that separator into
/// exactly its parts, in order, followed by one empty trailing field.
pub proof fn lemma_split_joined(parts: Seq<Seq<char>>, sep: char)
    requires
        forall|k: int| 0 <= k < parts.len() ==> !(#[trigger] parts[k]).contains(sep),
    ensures
        split_on(joined(parts, sep), sep) == parts.push(Seq::<char>::empty()),
    decreases parts.len(),
{
    if parts.len() == 0 {
        assert(seq![Seq::<char>::empty()] =~~= parts.push(Seq::<char>::empty()));
    } else {
        let init = parts.drop_last();
        assert(forall|k: int| 0 <= k < init.len() ==> !(#[trigger] init[k]).contains(sep)) by {
            assert(forall|k: int| 0 <= k < init.len() ==> init[k] == parts[k]);
        }
        lemma_split_joined(init, sep);
        lemma_joined_drop_last(parts, sep);
        let ji = joined(init, sep);
        assert(!parts.last().contains(sep)) by {
            assert(parts[parts.len() - 1] == parts.last());
        }
        lemma_split_on_append_free(ji, parts.last(), sep);
        let spi = split_on(ji, sep);
        assert(spi == init.push(Seq::<char>::empty()));
        assert(spi.last() == Seq::<char>::empty());
        assert(spi.last() + parts.last() =~= parts.last());
        assert(split_on(ji + parts.last(), sep) =~~= init.push(parts.last()));
        lemma_split_on_append_sep(ji + parts.last(), sep);
        assert(joined(parts, sep) =~= (ji + parts.last()).push(sep));
        assert(init.push(parts.last()).push(Seq::<char>::empty()) =~~= parts.push(
            Seq::<char>::empty(),
        ));
    }
}

/// The characters of `s` as a vector.
fn to_chars(s: &str) -> (r: Vec<char>)
    ensures
        r@ == s@,
{
    let n: usize = s.unicode_len();
    let mut r: Vec<char> = Vec::new();
    let mut i: usize = 0;
    while i < n
        invariant
            i <= n,
            n == s@.len(),
            r@ == s@.take(i as int),
        decreases n - i,
    {
        r.push(s.get_char(i));
        i += 1;
        proof {
            assert(r@ =~= s@.take(i as int));
        }
    }
    proof {
        assert(s@.take(n as int) =~= s@);
    }
    r
}

/// Whether `f` occurs in `b` at position `i`.
fn match_at(b: &Vec<char>, f: &Vec<char>, i: usize) -> (r: bool)
    requires
        i + f@.len() <= b@.len(),
    ensures
        r == (b@.subrange(i as int, i + f@.len()) == f@),
{
    let m: usize = f.len();
    let blen: usize = b.len();
    let mut j: usize = 0;
    while j < m
        invariant
            j <= m,
            m == f@.len(),
            blen == b@.len(),
            i + m <= blen,
            forall|k: int| 0 <= k < j ==> b@[i + k] == f@[k],
        decreases m - j,
    {
        if b[i + j] != f[j] {
            proof {
                assert(b@.subrange(i as int, i + f@.len())[j as int] == b@[i + j]);
            }
            return false;
        }
        j += 1;
    }
    proof {
        assert(b@.subrange(i as int, i + f@.len()) =~= f@);
    }
    true
}

/// Replace every occurrence of `from` in `base` by `to`, left to right and
/// without overlap. The hive-path derivation instantiates this with the two
/// registry hive prefixes.
pub fn replace_all(base: &str, from: &str, to: &str) -> (r: String)
    ensures
        r@ == replaced(base@, from@, to@),
{
    let m: usize = from.unicode_len();
    if m == 0 {
        return String::from_str(base);
    }
    let n: usize = base.unicode_len();
    let bchars = to_chars(base);
    let fchars = to_chars(from);
    let mut out = String::new();
    let mut i: usize = 0;
    proof {
        assert(base@.skip(0) =~= base@);
        assert(out@ + replaced(base@, from@, to@) =~= replaced(base@, from@, to@));
    }
    while i < n
        invariant
            i <= n,
            n == base@.len(),
            m == from@.len(),
            m >= 1,
            bchars@ == base@,
            fchars@ == from@,
            out@ + replaced(base@.skip(i as int), from@, to@) == replaced(base@, from@, to@),
        decreases n - i,
    {
        let ghost tail = base@.skip(i as int);
        if m <= n - i && match_at(&bchars, &fchars, i) {
            proof {
                assert(tail.take(m as int) =~= base@.subrange(i as int, i + m));
                assert(tail.skip(m as int) =~= base@.skip(i + m));
                assert(replaced(tail, from@, to@) == to@ + replaced(base@.skip(i + m), from@, to@));
                assert((out@ + to@) + replaced(base@.skip(i + m), from@, to@)
                    =~= out@ + replaced(tail, from@, to@));
            }
            out.append(to);
            i += m;
        } else {
            proof {
                if m <= n - i {
                    assert(tail.take(m as int) =~= base@.subrange(i as int, i + m));
                }
                assert(tail.skip(1) =~= base@.skip(i + 1));
                assert(replaced(tail, from@, to@) == tail.take(1) + replaced(base@.skip(i + 1), from@, to@));
                assert(tail.take(1) =~= base@.subrange(i as int, i + 1));
            }
            let c = base.substring_char(i, i + 1);
            proof {
                assert((out@ + c@) + replaced(base@.skip(i + 1), from@, to@)
                    =~= out@ + replaced(tail, from@, to@));
            }
            out.append(c);
            i += 1;
        }
    }
    proof {
        assert(base@.skip(n as int) =~= Seq::<char>::empty());
        assert(out@ + replaced(base@.skip(n as int), from@, to@) =~= out@);
    }
    out
}

/// Join the `parts` into one batch, each part followed by the one-character
/// separator `sep`; order is preserved.
pub fn concat_terminated(parts: &Vec<&str>, sep: &str) -> (r: String)
    requires
        sep@.len() == 1,
    ensures
        r@ == joined(parts@.map_values(|p: &str| p@), sep@[0]),
{
    let ghost vs = parts@.map_values(|p: &str| p@);
    let n: usize = parts.len();
    let mut out = String::new();
    let mut i: usize = 0;
    proof {
        assert(vs.skip(0) =~= vs);
        assert(out@ + joined(vs, sep@[0]) =~= joined(vs, sep@[0]));
    }
    while i < n
        invariant
            i <= n,
            n == parts@.len(),
            sep@.len() == 1,
            vs == parts@.map_values(|p: &str| p@),
            out@ + joined(vs.skip(i as int), sep@[0]) == joined(vs, sep@[0]),
        decreases n - i,
    {
        let ghost tail = vs.skip(i as int);
        proof {
            assert(tail[0] == vs[i as int]);
            assert(tail.skip(1) =~= vs.skip(i + 1));
            assert(sep@ =~= seq![sep@[0]]);
            assert(joined(tail, sep@[0]) == vs[i as int] + seq![sep@[0]] + joined(vs.skip(i + 1), sep@[0]));
        }
        out.append(parts[i]);
        out.append(sep);
        proof {
            assert(out@ + joined(vs.skip(i + 1), sep@[0]) =~= joined(vs, sep@[0]));
        }
        i += 1;
    }
    proof {
        assert(vs.skip(n as int) =~= Seq::<Seq<char>>::empty());
        assert(out@ + joined(vs.skip(n as int), sep@[0]) =~= out@);
    }
    out
}

/// Append a trailing filter clause to a base query.
pub fn append_clause(base: &str, clause: &str) -> (r: String)
    ensures
        r@ == base@ + clause@,
{
    let mut out = String::from_str(base);
    out.append(clause);
    out
}

} // verus!
