//! The marks that the user has set, kept per directory.

use vstd::prelude::*;

verus! {

/// A set of marks: pairs of a directory and a marked child of it.
pub type MarkSet = Set<(Seq<char>, Seq<char>)>;

/// The marks with the one on `path` in `dir` flipped.
pub open spec fn toggled(marks: MarkSet, dir: Seq<char>, path: Seq<char>) -> MarkSet {
    if marks.contains((dir, path)) {
        marks.remove((dir, path))
    } else {
        marks.insert((dir, path))
    }
}

/// The marked children of `dir`.
pub open spec fn marks_in(marks: MarkSet, dir: Seq<char>) -> Set<Seq<char>> {
    Set::new(|p: Seq<char>| marks.contains((dir, p)))
}

/// Whether `path` is marked in any directory.
pub open spec fn marked_anywhere(marks: MarkSet, path: Seq<char>) -> bool {
    exists|dir: Seq<char>| marks.contains((dir, path))
}

/// The marks without those children of `dir` that are not in `kept`.
pub open spec fn keeping(marks: MarkSet, dir: Seq<char>, kept: Set<Seq<char>>) -> MarkSet {
    Set::new(|m: (Seq<char>, Seq<char>)| marks.contains(m) && (m.0 != dir || kept.contains(m.1)))
}

/// Flipping a mark twice leaves the marks as they were.
pub proof fn lemma_toggle_twice(marks: MarkSet, dir: Seq<char>, path: Seq<char>)
    ensures
        toggled(toggled(marks, dir, path), dir, path) == marks,
{
    assert(toggled(toggled(marks, dir, path), dir, path) =~= marks);
}

/// Flipping a mark once on no marks leaves exactly that mark, in its
/// directory and in no other.
pub proof fn lemma_toggle_once(dir: Seq<char>, path: Seq<char>)
    ensures
        toggled(Set::empty(), dir, path) == set![(dir, path)],
        marks_in(toggled(Set::empty(), dir, path), dir) == set![path],
        forall|other: Seq<char>|
            other != dir ==> #[trigger] marks_in(toggled(Set::empty(), dir, path), other)
                == Set::<Seq<char>>::empty(),
{
    let one = toggled(Set::empty(), dir, path);
    assert(one =~= set![(dir, path)]);
    assert(marks_in(one, dir) =~= set![path]);
    assert forall|other: Seq<char>| other != dir implies #[trigger] marks_in(one, other)
        == Set::<Seq<char>>::empty() by {
        assert(marks_in(one, other) =~= Set::<Seq<char>>::empty());
    }
}

/// The marks of a session. Marks are kept per directory: those set in one
/// directory do not show in another, and they are still there when the
/// directory is visited again.
#[derive(Debug)]
pub struct SelectionSet {
    marks: Vec<(String, String)>,
}

impl View for SelectionSet {
    type V = MarkSet;

    closed spec fn view(&self) -> MarkSet {
        self.marks.deep_view().to_set()
    }
}

impl DeepView for SelectionSet {
    type V = MarkSet;

    open spec fn deep_view(&self) -> MarkSet {
        self@
    }
}

proof fn lemma_remove_distinct<A>(s: Seq<A>, i: int)
    requires
        s.no_duplicates(),
        0 <= i < s.len(),
    ensures
        s.remove(i).no_duplicates(),
        s.remove(i).to_set() == s.to_set().remove(s[i]),
{
    let r = s.remove(i);
    assert forall|x: A| s.to_set().remove(s[i]).contains(x) implies r.to_set().contains(x) by {
        let k = choose|k: int| 0 <= k < s.len() && s[k] == x;
        if k < i {
            assert(r[k] == x);
        } else {
            assert(r[k - 1] == x);
        }
    }
    assert(r.to_set() =~= s.to_set().remove(s[i]));
}

proof fn lemma_push_distinct<A>(s: Seq<A>, x: A)
    requires
        s.no_duplicates(),
        !s.contains(x),
    ensures
        s.push(x).no_duplicates(),
        s.push(x).to_set() == s.to_set().insert(x),
{
    s.lemma_push_to_set_commute(x);
}

/// The first `i + 1` entries of a sequence without duplicates are the first
/// `i` and one that is not among them.
proof fn lemma_take_next<A>(s: Seq<A>, i: int)
    requires
        s.no_duplicates(),
        0 <= i < s.len(),
    ensures
        s.take(i + 1) == s.take(i).push(s[i]),
        s.take(i + 1).to_set() == s.take(i).to_set().insert(s[i]),
        !s.take(i).to_set().contains(s[i]),
{
    assert(s.take(i + 1) =~= s.take(i).push(s[i]));
    s.take(i).lemma_push_to_set_commute(s[i]);
}

impl SelectionSet {
    #[verifier::type_invariant]
    closed spec fn distinct(self) -> bool {
        self.marks.deep_view().no_duplicates()
    }

    /// No marks.
    pub fn new() -> (r: Self)
        ensures
            r@ == MarkSet::empty(),
    {
        let r = SelectionSet { marks: Vec::new() };
        assert(r.marks.deep_view() =~= Seq::empty());
        r
    }

    /// Where the mark on `path` in `dir` is kept, if it is set.
    fn position(&self, dir: &String, path: &String) -> (r: Option<usize>)
        ensures
            r is Some <==> self@.contains((dir@, path@)),
            r is Some ==> r->Some_0 < self.marks.len() && self.marks.deep_view()[r->Some_0 as int]
                == (dir@, path@),
    {
        let mut i: usize = 0;
        while i < self.marks.len()
            invariant
                i <= self.marks.len(),
                forall|k: int| 0 <= k < i ==> self.marks.deep_view()[k] != (dir@, path@),
            decreases self.marks.len() - i,
        {
            if self.marks[i].0 == *dir && self.marks[i].1 == *path {
                assert(self.marks.deep_view()[i as int] == (dir@, path@));
                return Some(i);
            }
            i += 1;
        }
        None
    }

    /// Whether `path` is marked in `dir`.
    pub fn contains(&self, dir: &String, path: &String) -> (r: bool)
        ensures
            r == self@.contains((dir@, path@)),
    {
        self.position(dir, path).is_some()
    }

    /// Whether `path` is marked in any directory.
    pub fn is_marked(&self, path: &String) -> (r: bool)
        ensures
            r == marked_anywhere(self@, path@),
    {
        let mut i: usize = 0;
        while i < self.marks.len()
            invariant
                i <= self.marks.len(),
                forall|k: int| 0 <= k < i ==> self.marks.deep_view()[k].1 != path@,
            decreases self.marks.len() - i,
        {
            if self.marks[i].1 == *path {
                assert(self@.contains(self.marks.deep_view()[i as int]));
                return true;
            }
            i += 1;
        }
        assert forall|dir: Seq<char>| !self@.contains((dir, path@)) by {
            if self@.contains((dir, path@)) {
                let k = choose|k: int|
                    0 <= k < self.marks.deep_view().len() && self.marks.deep_view()[k] == (
                        dir,
                        path@,
                    );
                assert(self.marks.deep_view()[k].1 == path@);
            }
        }
        false
    }

    /// Sets the mark on `path` in `dir` if it is not set, and takes it away
    /// if it is.
    pub fn toggle(&mut self, dir: &String, path: &String)
        ensures
            final(self)@ == toggled(old(self)@, dir@, path@),
    {
        proof {
            use_type_invariant(&*self);
        }
        let found = self.position(dir, path);
        let ghost before = self.marks.deep_view();
        let mut marks: Vec<(String, String)> = Vec::new();
        std::mem::swap(&mut marks, &mut self.marks);
        match found {
            Some(i) => {
                marks.remove(i);
                proof {
                    lemma_remove_distinct(before, i as int);
                    assert(marks.deep_view() =~= before.remove(i as int));
                }
            },
            None => {
                marks.push((dir.clone(), path.clone()));
                proof {
                    lemma_push_distinct(before, (dir@, path@));
                    assert(marks.deep_view() =~= before.push((dir@, path@)));
                }
            },
        }
        self.marks = marks;
    }

    /// The marked children of `dir`, each once, in the order in which they
    /// were marked.
    pub fn marked_in(&self, dir: &String) -> (r: Vec<String>)
        ensures
            r.deep_view().no_duplicates(),
            r.deep_view().to_set() == marks_in(self@, dir@),
    {
        proof {
            use_type_invariant(self);
        }
        let ghost all = self.marks.deep_view();
        let mut found: Vec<String> = Vec::new();
        let mut i: usize = 0;
        assert(found.deep_view().to_set() =~= marks_in(all.take(0).to_set(), dir@));
        while i < self.marks.len()
            invariant
                all == self.marks.deep_view(),
                all.no_duplicates(),
                i <= self.marks.len(),
                found.deep_view().no_duplicates(),
                found.deep_view().to_set() == marks_in(all.take(i as int).to_set(), dir@),
            decreases self.marks.len() - i,
        {
            let ghost seen = all.take(i as int).to_set();
            let ghost prev = found.deep_view();
            proof {
                lemma_take_next(all, i as int);
            }
            if self.marks[i].0 == *dir {
                let ghost p = all[i as int].1;
                found.push(self.marks[i].1.clone());
                proof {
                    assert(all[i as int] == (dir@, p));
                    assert(!marks_in(seen, dir@).contains(p));
                    lemma_push_distinct(prev, p);
                    assert(found.deep_view() =~= prev.push(p));
                    assert(marks_in(seen.insert((dir@, p)), dir@) =~= marks_in(seen, dir@).insert(
                        p,
                    ));
                }
            } else {
                assert(marks_in(seen.insert(all[i as int]), dir@) =~= marks_in(seen, dir@));
            }
            i += 1;
        }
        assert(all.take(i as int) =~= all);
        found
    }

    /// The number of marked children of `dir`.
    pub fn count_in(&self, dir: &String) -> (r: usize)
        ensures
            marks_in(self@, dir@).finite(),
            r == marks_in(self@, dir@).len(),
            r == 0 <==> marks_in(self@, dir@).is_empty(),
    {
        let found = self.marked_in(dir);
        proof {
            found.deep_view().unique_seq_to_set();
            if found.len() > 0 {
                assert(found.deep_view().to_set().contains(found.deep_view()[0]));
            }
        }
        found.len()
    }

    /// Takes away the marks on those children of `dir` that are not among
    /// `kept`. The marks of other directories stay.
    pub fn retain_in(&mut self, dir: &String, kept: &Vec<String>)
        ensures
            final(self)@ == keeping(old(self)@, dir@, kept.deep_view().to_set()),
    {
        proof {
            use_type_invariant(&*self);
        }
        let ghost all = self.marks.deep_view();
        let ghost keep = kept.deep_view().to_set();
        let mut marks: Vec<(String, String)> = Vec::new();
        std::mem::swap(&mut marks, &mut self.marks);
        let mut out: Vec<(String, String)> = Vec::new();
        let mut i: usize = 0;
        assert(out.deep_view().to_set() =~= keeping(all.take(0).to_set(), dir@, keep));
        while i < marks.len()
            invariant
                all == marks.deep_view(),
                all.no_duplicates(),
                keep == kept.deep_view().to_set(),
                i <= marks.len(),
                out.deep_view().no_duplicates(),
                out.deep_view().to_set() == keeping(all.take(i as int).to_set(), dir@, keep),
            decreases marks.len() - i,
        {
            let ghost seen = all.take(i as int).to_set();
            let ghost prev = out.deep_view();
            let ghost m = all[i as int];
            proof {
                lemma_take_next(all, i as int);
            }
            let stays = if marks[i].0 == *dir {
                text_among(&marks[i].1, kept)
            } else {
                true
            };
            if stays {
                out.push((marks[i].0.clone(), marks[i].1.clone()));
                proof {
                    assert(!keeping(seen, dir@, keep).contains(m));
                    lemma_push_distinct(prev, m);
                    assert(out.deep_view() =~= prev.push(m));
                    assert(keeping(seen.insert(m), dir@, keep) =~= keeping(seen, dir@, keep).insert(
                        m,
                    ));
                }
            } else {
                assert(keeping(seen.insert(m), dir@, keep) =~= keeping(seen, dir@, keep));
            }
            i += 1;
        }
        assert(all.take(i as int) =~= all);
        self.marks = out;
    }
}

/// Whether `text` is one of `texts`.
pub fn text_among(text: &String, texts: &Vec<String>) -> (r: bool)
    ensures
        r == texts.deep_view().to_set().contains(text@),
{
    let mut i: usize = 0;
    while i < texts.len()
        invariant
            i <= texts.len(),
            forall|k: int| 0 <= k < i ==> texts.deep_view()[k] != text@,
        decreases texts.len() - i,
    {
        if texts[i] == *text {
            assert(texts.deep_view()[i as int] == text@);
            return true;
        }
        i += 1;
    }
    false
}

} // verus!
