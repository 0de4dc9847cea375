//! The order in which tags and folders are listed: the distinct names,
//! sorted as Rust orders strings (by their UTF-8 bytes, which is the order of
//! their characters' code points).
use vstd::prelude::*;

use crate::text::chars_of;

verus! {

/// The texts of a list of strings.
pub open spec fn texts(v: Seq<String>) -> Seq<Seq<char>> {
    v.map_values(|x: String| x@)
}

/// `a` comes before `b`: at the first place where they differ `a` has the
/// smaller character, or `a` is a proper prefix of `b`.
pub open spec fn lex_lt(a: Seq<char>, b: Seq<char>) -> bool
    decreases a.len(),
{
    if a.len() == 0 {
        b.len() > 0
    } else if b.len() == 0 {
        false
    } else if a[0] < b[0] {
        true
    } else if a[0] > b[0] {
        false
    } else {
        lex_lt(a.drop_first(), b.drop_first())
    }
}

/// Each name comes before the next, so none is listed twice.
pub open spec fn strictly_sorted(s: Seq<Seq<char>>) -> bool {
    forall|i: int, j: int| 0 <= i < j < s.len() ==> lex_lt(#[trigger] s[i], #[trigger] s[j])
}

proof fn lemma_lex_irreflexive(a: Seq<char>)
    ensures
        !lex_lt(a, a),
    decreases a.len(),
{
    if a.len() > 0 {
        lemma_lex_irreflexive(a.drop_first());
    }
}

proof fn lemma_lex_asymmetric(a: Seq<char>, b: Seq<char>)
    ensures
        !(lex_lt(a, b) && lex_lt(b, a)),
    decreases a.len(),
{
    if a.len() > 0 && b.len() > 0 && a[0] == b[0] {
        lemma_lex_asymmetric(a.drop_first(), b.drop_first());
    }
}

proof fn lemma_lex_transitive(a: Seq<char>, b: Seq<char>, c: Seq<char>)
    requires
        lex_lt(a, b),
        lex_lt(b, c),
    ensures
        lex_lt(a, c),
    decreases a.len(),
{
    if a.len() > 0 && b.len() > 0 && c.len() > 0 && a[0] == b[0] && b[0] == c[0] {
        lemma_lex_transitive(a.drop_first(), b.drop_first(), c.drop_first());
    }
}

proof fn lemma_lex_total(a: Seq<char>, b: Seq<char>)
    requires
        a != b,
    ensures
        lex_lt(a, b) || lex_lt(b, a),
    decreases a.len(),
{
    if a.len() > 0 && b.len() > 0 && a[0] == b[0] {
        if a.drop_first() == b.drop_first() {
            assert(a =~= seq![a[0]] + a.drop_first());
            assert(b =~= seq![b[0]] + b.drop_first());
        }
        lemma_lex_total(a.drop_first(), b.drop_first());
    } else if a.len() == 0 && b.len() == 0 {
        assert(a =~= b);
    } else if a.len() > 0 && b.len() > 0 {
        assert(a[0] != b[0]);
    }
}

/// Whether `a` comes before `b`.
pub fn name_before(a: &str, b: &str) -> (r: bool)
    ensures
        r == lex_lt(a@, b@),
{
    let x = chars_of(a);
    let y = chars_of(b);
    let mut i: usize = 0;
    assert(x@.skip(0) =~= x@);
    assert(y@.skip(0) =~= y@);
    while i < x.len() && i < y.len()
        invariant
            x@ == a@,
            y@ == b@,
            i <= x.len(),
            i <= y.len(),
            lex_lt(x@, y@) == lex_lt(x@.skip(i as int), y@.skip(i as int)),
        decreases x.len() - i,
    {
        let ghost xs = x@.skip(i as int);
        let ghost ys = y@.skip(i as int);
        assert(xs[0] == x@[i as int]);
        assert(ys[0] == y@[i as int]);
        let c = x[i];
        let d = y[i];
        assert(xs.len() > 0 && ys.len() > 0);
        if c < d {
            assert(xs[0] < ys[0]);
            return true;
        }
        if c > d {
            assert(xs[0] > ys[0]);
            return false;
        }
        assert(xs[0] == ys[0]);
        assert(xs.drop_first() =~= x@.skip(i + 1));
        assert(ys.drop_first() =~= y@.skip(i + 1));
        i = i + 1;
    }
    assert(x@.skip(i as int).len() == x.len() - i);
    assert(y@.skip(i as int).len() == y.len() - i);
    i == x.len() && i < y.len()
}

/// The distinct names among `names`, sorted.
pub fn sorted_distinct(names: &Vec<String>) -> (r: Vec<String>)
    ensures
        strictly_sorted(texts(r@)),
        forall|s: Seq<char>|
            #![trigger texts(r@).contains(s)]
            texts(r@).contains(s) <==> texts(names@).contains(s),
{
    let ghost nv = texts(names@);
    let mut out: Vec<String> = Vec::new();
    let mut k: usize = 0;
    while k < names.len()
        invariant
            k <= names.len(),
            nv == texts(names@),
            strictly_sorted(texts(out@)),
            forall|s: Seq<char>|
                #![trigger texts(out@).contains(s)]
                texts(out@).contains(s) <==> nv.take(k as int).contains(s),
        decreases names.len() - k,
    {
        let name = &names[k];
        let ghost ov = texts(out@);
        // The first place whose name does not come before `name`.
        let mut p: usize = 0;
        while p < out.len() && name_before(out[p].as_str(), name.as_str())
            invariant
                p <= out.len(),
                ov == texts(out@),
                forall|q: int| 0 <= q < p ==> lex_lt(#[trigger] ov[q], name@),
            decreases out.len() - p,
        {
            assert(ov[p as int] == out@[p as int]@);
            p = p + 1;
        }
        proof {
            assert(nv.take(k + 1) =~= nv.take(k as int).push(name@));
            assert(nv[k as int] == name@);
        }
        if p < out.len() && out[p] == *name {
            proof {
                assert(ov[p as int] == name@);
                assert forall|s: Seq<char>| #![trigger ov.contains(s)] ov.contains(s) <==> nv.take(k + 1).contains(s) by {
                    if s == name@ {
                        assert(ov.contains(s));
                        assert(nv.take(k + 1)[k as int] == s);
                    }
                    if nv.take(k + 1).contains(s) && s != name@ {
                        let w = choose|w: int| 0 <= w < nv.take(k + 1).len() && #[trigger] nv.take(k + 1)[w] == s;
                        assert(nv.take(k as int)[w] == s);
                    }
                    if nv.take(k as int).contains(s) {
                        let w = choose|w: int| 0 <= w < nv.take(k as int).len() && #[trigger] nv.take(k as int)[w] == s;
                        assert(nv.take(k + 1)[w] == s);
                    }
                }
            }
        } else {
            proof {
                if p < out.len() {
                    assert(ov[p as int] == out@[p as int]@);
                    assert(!lex_lt(ov[p as int], name@));
                    assert(ov[p as int] != name@);
                    lemma_lex_total(ov[p as int], name@);
                }
            }
            out.insert(p, name.clone());
            proof {
                let nov = texts(out@);
                assert(nov =~= ov.insert(p as int, name@));
                assert forall|i: int, j: int| 0 <= i < j < nov.len() implies lex_lt(#[trigger] nov[i], #[trigger] nov[j]) by {
                    if j < p {
                        assert(nov[i] == ov[i] && nov[j] == ov[j]);
                    } else if j == p {
                        assert(nov[i] == ov[i]);
                    } else if i == p {
                        assert(nov[j] == ov[j - 1]);
                        if j - 1 > p {
                            lemma_lex_transitive(name@, ov[p as int], ov[j - 1]);
                        }
                    } else if i < p {
                        assert(nov[i] == ov[i] && nov[j] == ov[j - 1]);
                    } else {
                        assert(nov[i] == ov[i - 1] && nov[j] == ov[j - 1]);
                    }
                }
                assert forall|s: Seq<char>| #![trigger nov.contains(s)] nov.contains(s) <==> nv.take(k + 1).contains(s) by {
                    if nov.contains(s) {
                        let w = choose|w: int| 0 <= w < nov.len() && #[trigger] nov[w] == s;
                        if w < p {
                            assert(ov[w] == s);
                            assert(ov.contains(s));
                        } else if w > p {
                            assert(ov[w - 1] == s);
                            assert(ov.contains(s));
                        }
                        if s != name@ {
                            let w2 = choose|w2: int| 0 <= w2 < nv.take(k as int).len() && #[trigger] nv.take(k as int)[w2] == s;
                            assert(nv.take(k + 1)[w2] == s);
                        } else {
                            assert(nv.take(k + 1)[k as int] == s);
                        }
                    }
                    if nv.take(k + 1).contains(s) {
                        if s == name@ {
                            assert(nov[p as int] == s);
                        } else {
                            let w = choose|w: int| 0 <= w < nv.take(k + 1).len() && #[trigger] nv.take(k + 1)[w] == s;
                            assert(nv.take(k as int)[w] == s);
                            assert(ov.contains(s));
                            let w2 = choose|w2: int| 0 <= w2 < ov.len() && #[trigger] ov[w2] == s;
                            if w2 < p {
                                assert(nov[w2] == s);
                            } else {
                                assert(nov[w2 + 1] == s);
                            }
                        }
                    }
                }
            }
        }
        k = k + 1;
    }
    proof {
        assert(nv.take(k as int) =~= nv);
    }
    out
}

/// A sorted list of distinct names holds no name twice.
pub proof fn lemma_sorted_names_are_distinct(s: Seq<Seq<char>>)
    requires
        strictly_sorted(s),
    ensures
        s.no_duplicates(),
{
    assert forall|i: int, j: int| 0 <= i < s.len() && 0 <= j < s.len() && i != j implies s[i] != s[j] by {
        if i < j {
            assert(lex_lt(s[i], s[j]));
            lemma_lex_irreflexive(s[i]);
        } else {
            assert(lex_lt(s[j], s[i]));
            lemma_lex_irreflexive(s[j]);
        }
    }
}

} // verus!
