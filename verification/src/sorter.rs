//! The order in which the entries of a directory are listed.

use std::cmp::Ordering;
use vstd::prelude::*;
use vstd::seq_lib::lemma_multiset_commutative;

use crate::entry::{EntryKind, EntryModel, PathEntry};
use crate::text::{
    lemma_lex_antisymmetric, lemma_lex_irreflexive, lemma_lex_transitive, lex_rank, lowercase,
    rank_texts, to_lowercase, Rank,
};

verus! {

/// A sort policy. Each listing is sorted under exactly one.
#[derive(Clone, Copy, Debug, PartialEq, Eq, Structural)]
pub enum Sorter {
    /// Directories first; within a group by name, ignoring case.
    DirsFirst,
    /// Directories last; within a group by name, minding case.
    FilesFirst,
    /// By name alone, minding case.
    Alphabetical,
}

impl Sorter {
    /// The group an entry falls in; a smaller group is listed first.
    pub open spec fn group(self, e: EntryModel) -> int {
        match self {
            Sorter::DirsFirst => if e.kind == EntryKind::Directory { 0 } else { 1 },
            Sorter::FilesFirst => if e.kind == EntryKind::Directory { 1 } else { 0 },
            Sorter::Alphabetical => 0,
        }
    }

    /// The text by which an entry is ordered within its group.
    pub open spec fn sort_name(self, e: EntryModel) -> Seq<char> {
        match self {
            Sorter::DirsFirst => lowercase(e.name),
            Sorter::FilesFirst => e.name,
            Sorter::Alphabetical => e.name,
        }
    }

    /// Where `a` stands relative to `b`: the group decides, and within one
    /// group the lexicographic order of the sort names.
    pub open spec fn rank_of(self, a: EntryModel, b: EntryModel) -> Rank {
        if self.group(a) < self.group(b) {
            Rank::Before
        } else if self.group(a) > self.group(b) {
            Rank::After
        } else {
            lex_rank(self.sort_name(a), self.sort_name(b))
        }
    }

    /// No entry is listed after a later one.
    pub open spec fn is_sorted(self, s: Seq<EntryModel>) -> bool {
        forall|i: int, j: int| 0 <= i < j < s.len() ==> self.rank_of(s[i], s[j]) != Rank::After
    }

    /// The entries that tie with `e`.
    pub open spec fn ties_with(self, e: EntryModel) -> spec_fn(EntryModel) -> bool {
        |x: EntryModel| self.rank_of(x, e) == Rank::Same
    }

    /// Entries that tie stand in `out` in the order they have in `inp`.
    pub open spec fn keeps_ties(self, out: Seq<EntryModel>, inp: Seq<EntryModel>) -> bool {
        forall|e: EntryModel| #[trigger]
            out.filter(self.ties_with(e)) == inp.filter(self.ties_with(e))
    }

    /// `out` is `inp` sorted stably: the same entries, in order, ties kept.
    pub open spec fn is_sorting_of(self, out: Seq<EntryModel>, inp: Seq<EntryModel>) -> bool {
        &&& self.is_sorted(out)
        &&& out.to_multiset() == inp.to_multiset()
        &&& self.keeps_ties(out, inp)
    }

    /// Every entry ties with itself.
    pub proof fn lemma_rank_reflexive(self, a: EntryModel)
        ensures
            self.rank_of(a, a) == Rank::Same,
    {
        lemma_lex_irreflexive(self.sort_name(a));
    }

    /// Swapping the two entries mirrors the result.
    pub proof fn lemma_rank_mirror(self, a: EntryModel, b: EntryModel)
        ensures
            self.rank_of(a, b) == Rank::Before <==> self.rank_of(b, a) == Rank::After,
            self.rank_of(a, b) == Rank::Same <==> self.rank_of(b, a) == Rank::Same,
            self.rank_of(a, b) == Rank::After <==> self.rank_of(b, a) == Rank::Before,
    {
        lemma_lex_antisymmetric(self.sort_name(a), self.sort_name(b));
        lemma_lex_antisymmetric(self.sort_name(b), self.sort_name(a));
    }

    /// The order is transitive, and strict where one of the two steps is.
    pub proof fn lemma_rank_transitive(self, a: EntryModel, b: EntryModel, c: EntryModel)
        requires
            self.rank_of(a, b) != Rank::After,
            self.rank_of(b, c) != Rank::After,
        ensures
            self.rank_of(a, c) != Rank::After,
            self.rank_of(a, b) == Rank::Before || self.rank_of(b, c) == Rank::Before
                ==> self.rank_of(a, c) == Rank::Before,
            self.rank_of(a, b) == Rank::Same && self.rank_of(b, c) == Rank::Same
                ==> self.rank_of(a, c) == Rank::Same,
    {
        let ta = self.sort_name(a);
        let tb = self.sort_name(b);
        let tc = self.sort_name(c);
        if self.group(a) == self.group(b) && self.group(b) == self.group(c) {
            lemma_lex_antisymmetric(ta, tb);
            lemma_lex_antisymmetric(tb, tc);
            lemma_lex_antisymmetric(ta, tc);
            lemma_lex_irreflexive(ta);
            if ta != tb && tb != tc {
                lemma_lex_transitive(ta, tb, tc);
            }
        }
    }

    /// A listing has one stable sorting only: what is sorted, holds the same
    /// entries and keeps the ties in order is fixed by that.
    pub proof fn lemma_sorting_is_unique(
        self,
        a: Seq<EntryModel>,
        b: Seq<EntryModel>,
        inp: Seq<EntryModel>,
    )
        requires
            self.is_sorting_of(a, inp),
            self.is_sorting_of(b, inp),
        ensures
            a == b,
    {
        self.lemma_same_arrangement(a, b);
    }

    proof fn lemma_same_arrangement(self, a: Seq<EntryModel>, b: Seq<EntryModel>)
        requires
            self.is_sorted(a),
            self.is_sorted(b),
            a.to_multiset() == b.to_multiset(),
            self.keeps_ties(a, b),
        ensures
            a == b,
        decreases a.len(),
    {
        a.to_multiset_ensures();
        b.to_multiset_ensures();
        if a.len() > 0 {
            let n = a.len() as int;
            let x = a.last();
            let y = b.last();
            let a0 = a.drop_last();
            let b0 = b.drop_last();
            let t = self.ties_with(x);
            assert(a =~= a0.push(x));
            assert(b =~= b0.push(y));
            self.lemma_rank_reflexive(x);
            a0.lemma_filter_push(x, t);
            b0.lemma_filter_push(y, t);
            if !t(y) {
                // then y stands before x in a, and x before y in b
                assert(a.to_multiset().count(y) > 0);
                let i = choose|i: int| 0 <= i < n && a[i] == y;
                assert(b.to_multiset().count(x) > 0);
                let j = choose|j: int| 0 <= j < n && b[j] == x;
                self.lemma_rank_mirror(x, y);
                assert(false);
            }
            // of those that tie with x the last is x in a, and y in b
            assert(b.filter(t).last() == y);
            assert(x == y);
            a0.to_multiset_ensures();
            b0.to_multiset_ensures();
            assert(a0.to_multiset() =~= a.to_multiset().remove(x));
            assert(b0.to_multiset() =~= b.to_multiset().remove(x));
            assert forall|e: EntryModel| #[trigger]
                a0.filter(self.ties_with(e)) == b0.filter(self.ties_with(e)) by {
                let te = self.ties_with(e);
                a0.lemma_filter_push(x, te);
                b0.lemma_filter_push(x, te);
                if te(x) {
                    assert(b0.filter(te) =~= b.filter(te).drop_last());
                }
            }
            self.lemma_same_arrangement(a0, b0);
        }
    }

    /// Under the default policy a sorted listing holds its directories
    /// before everything else.
    pub proof fn lemma_dirs_precede_files(s: Seq<EntryModel>, i: int, j: int)
        requires
            Sorter::DirsFirst.is_sorted(s),
            0 <= i < s.len(),
            0 <= j < s.len(),
            s[i].kind == EntryKind::Directory,
            s[j].kind != EntryKind::Directory,
        ensures
            i < j,
    {
        if j < i {
            assert(Sorter::DirsFirst.rank_of(s[j], s[i]) == Rank::After);
        }
    }

    /// Under the default policy two entries of one group are ordered by
    /// their names without regard to case.
    pub proof fn lemma_same_group_by_folded_name(a: EntryModel, b: EntryModel)
        requires
            (a.kind == EntryKind::Directory) == (b.kind == EntryKind::Directory),
        ensures
            Sorter::DirsFirst.rank_of(a, b) == lex_rank(lowercase(a.name), lowercase(b.name)),
    {
    }

    /// Compares two entries under this policy.
    pub fn rank(&self, a: &PathEntry, b: &PathEntry) -> (r: Rank)
        ensures
            r == self.rank_of(a@, b@),
    {
        match self {
            Sorter::DirsFirst => {
                match (a.is_dir(), b.is_dir()) {
                    (true, false) => Rank::Before,
                    (false, true) => Rank::After,
                    _ => {
                        let x = to_lowercase(a.name.as_str());
                        let y = to_lowercase(b.name.as_str());
                        rank_texts(x.as_str(), y.as_str())
                    },
                }
            },
            Sorter::FilesFirst => {
                match (a.is_dir(), b.is_dir()) {
                    (true, false) => Rank::After,
                    (false, true) => Rank::Before,
                    _ => rank_texts(a.name.as_str(), b.name.as_str()),
                }
            },
            Sorter::Alphabetical => rank_texts(a.name.as_str(), b.name.as_str()),
        }
    }

    /// Compares two entries under this policy, in the form that the sorting
    /// functions of the standard library take.
    pub fn paths(&self, a: &PathEntry, b: &PathEntry) -> (r: Ordering)
        ensures
            r == Ordering::Less <==> self.rank_of(a@, b@) == Rank::Before,
            r == Ordering::Equal <==> self.rank_of(a@, b@) == Rank::Same,
            r == Ordering::Greater <==> self.rank_of(a@, b@) == Rank::After,
    {
        match self.rank(a, b) {
            Rank::Before => Ordering::Less,
            Rank::Same => Ordering::Equal,
            Rank::After => Ordering::Greater,
        }
    }

    /// The first position of the sorted `v` whose entry does not stand before `x`.
    fn lower_bound(&self, v: &Vec<PathEntry>, x: &PathEntry) -> (p: usize)
        requires
            self.is_sorted(v.deep_view()),
        ensures
            p <= v.len(),
            forall|i: int| 0 <= i < p ==> self.rank_of(v.deep_view()[i], x@) == Rank::Before,
            forall|i: int| p <= i < v.len() ==> self.rank_of(v.deep_view()[i], x@) != Rank::Before,
    {
        let ghost s = v.deep_view();
        let mut lo: usize = 0;
        let mut hi: usize = v.len();
        while lo < hi
            invariant
                s == v.deep_view(),
                self.is_sorted(s),
                lo <= hi <= v.len(),
                forall|i: int| 0 <= i < lo ==> self.rank_of(s[i], x@) == Rank::Before,
                forall|i: int| hi <= i < s.len() ==> self.rank_of(s[i], x@) != Rank::Before,
            decreases hi - lo,
        {
            let mid = lo + (hi - lo) / 2;
            let r = self.rank(&v[mid], x);
            let ghost m = s[mid as int];
            if r == Rank::Before {
                assert forall|i: int| 0 <= i < mid + 1 implies self.rank_of(s[i], x@)
                    == Rank::Before by {
                    if i < mid {
                        self.lemma_rank_transitive(s[i], m, x@);
                    }
                }
                lo = mid + 1;
            } else {
                assert forall|i: int| mid <= i < s.len() implies self.rank_of(s[i], x@)
                    != Rank::Before by {
                    if mid < i {
                        self.lemma_rank_mirror(s[i], x@);
                        self.lemma_rank_mirror(m, x@);
                        self.lemma_rank_mirror(m, s[i]);
                        if self.rank_of(s[i], x@) == Rank::Before {
                            self.lemma_rank_transitive(m, s[i], x@);
                        }
                    }
                }
                hi = mid;
            }
        }
        lo
    }

    /// Sorts the entries under this policy. The sort is stable: entries that
    /// tie keep the order in which they came. Each entry is put in place by
    /// a binary search, so the number of comparisons stays near that of the
    /// best sorts; the moves are quadratic, which a listing can bear.
    pub fn sort(&self, entries: Vec<PathEntry>) -> (out: Vec<PathEntry>)
        ensures
            self.is_sorting_of(out.deep_view(), entries.deep_view()),
    {
        let ghost inp = entries.deep_view();
        let mut rest = entries;
        let mut out: Vec<PathEntry> = Vec::new();
        assert(inp.skip(rest.len() as int) =~= out.deep_view());
        while rest.len() > 0
            invariant
                rest.len() <= inp.len(),
                rest.deep_view() == inp.take(rest.len() as int),
                self.is_sorting_of(out.deep_view(), inp.skip(rest.len() as int)),
            decreases rest.len(),
        {
            let ghost k = rest.len() as int;
            let ghost old_out = out.deep_view();
            let ghost tail = inp.skip(k);
            let x = rest.pop().unwrap();
            let p = self.lower_bound(&out, &x);
            out.insert(p, x);
            proof {
                let xm = inp[k - 1];
                assert(x@ == inp.take(k)[k - 1]);
                let new_out = out.deep_view();
                let new_tail = inp.skip(k - 1);
                let front = old_out.take(p as int);
                let back = old_out.skip(p as int);
                assert(old_out =~= front + back);
                assert(new_out =~= front.push(xm) + back);
                assert(new_tail =~= seq![xm] + tail);
                // in order
                assert forall|i: int, j: int| 0 <= i < j < new_out.len() implies self.rank_of(
                    new_out[i],
                    new_out[j],
                ) != Rank::After by {
                    if i == p {
                        self.lemma_rank_mirror(old_out[j - 1], xm);
                    }
                }
                // the same entries
                lemma_multiset_commutative(front.push(xm), back);
                lemma_multiset_commutative(front, back);
                lemma_multiset_commutative(seq![xm], tail);
                front.to_multiset_ensures();
                Seq::<EntryModel>::empty().to_multiset_ensures();
                assert(new_out.to_multiset() =~= new_tail.to_multiset());
                // ties kept
                assert forall|e: EntryModel| #[trigger]
                    new_out.filter(self.ties_with(e)) == new_tail.filter(
                        self.ties_with(e),
                    ) by {
                    let t = self.ties_with(e);
                    Seq::filter_distributes_over_add(front, back, t);
                    Seq::filter_distributes_over_add(front.push(xm), back, t);
                    Seq::filter_distributes_over_add(seq![xm], tail, t);
                    front.lemma_filter_push(xm, t);
                    Seq::<EntryModel>::empty().lemma_filter_push(xm, t);
                    if t(xm) {
                        if front.filter(t).len() > 0 {
                            let y = front.filter(t)[0];
                            front.lemma_filter_pred(t, 0);
                            front.lemma_filter_contains_rev(t, y);
                            let iy = choose|iy: int| 0 <= iy < front.len() && front[iy] == y;
                            self.lemma_rank_mirror(xm, e);
                            self.lemma_rank_transitive(y, e, xm);
                        }
                    }
                }
            }
        }
        out
    }
}

} // verus!
