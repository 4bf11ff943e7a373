//! The listing of one directory, kept sorted and refreshed when stale.

use vstd::prelude::*;

use crate::entry::{EntryKind, EntryModel, FilesystemError, PathEntry};
use crate::sorter::Sorter;

verus! {

/// The listing of one directory: its path, the path of its parent, its
/// children in sorted order, and the time of the last refresh in
/// milliseconds on the caller's clock.
///
/// The children are sorted under the listing's policy whenever a listing can
/// be observed. Reading the directory is the caller's part: the caller hands
/// in what it read, or the error it met.
#[derive(Debug)]
pub struct DirectoryEntry {
    path: String,
    parent: Option<String>,
    contents: Vec<PathEntry>,
    last_update: u64,
    sorter: Sorter,
    refresh_after: u64,
}

/// The mathematical value of a [`DirectoryEntry`].
pub struct ListingModel {
    pub path: Seq<char>,
    pub parent: Option<Seq<char>>,
    pub contents: Seq<EntryModel>,
    pub last_update: nat,
    pub sorter: Sorter,
    pub refresh_after: nat,
}

impl ListingModel {
    /// The time that has passed since the last refresh; a clock that ran
    /// backwards counts as no time.
    pub open spec fn elapsed(self, now: nat) -> nat {
        if now >= self.last_update {
            (now - self.last_update) as nat
        } else {
            0
        }
    }

    /// Whether the listing is due for a refresh at `now`.
    pub open spec fn is_stale(self, now: nat) -> bool {
        self.elapsed(now) >= self.refresh_after
    }

    /// Whether this is the listing of the directory `path`, with the parent
    /// `parent`, made at `now` from the children `children`: it holds them
    /// sorted under `sorter`, ties in the order in which they were read.
    pub open spec fn is_listing_of(
        self,
        path: Seq<char>,
        parent: Option<Seq<char>>,
        children: Seq<EntryModel>,
        now: nat,
        sorter: Sorter,
        refresh_after: nat,
    ) -> bool {
        &&& self.path == path
        &&& self.parent == parent
        &&& self.last_update == now
        &&& self.sorter == sorter
        &&& self.refresh_after == refresh_after
        &&& sorter.is_sorting_of(self.contents, children)
    }

    /// Whether this is a fresh listing of `children`, read at `now`, that
    /// stands in for `prev`: the same directory and policy.
    pub open spec fn is_refresh_of(self, prev: ListingModel, children: Seq<EntryModel>, now: nat)
        -> bool {
        self.is_listing_of(
            prev.path,
            prev.parent,
            children,
            now,
            prev.sorter,
            prev.refresh_after,
        )
    }

    /// What a refresh attempt at `now` may leave of `prev`, given what the
    /// read brought: a fresh listing where one was due and the read
    /// succeeded, and `prev` itself otherwise.
    pub open spec fn is_update_of(
        self,
        prev: ListingModel,
        listing: Result<Seq<EntryModel>, FilesystemError>,
        now: nat,
    ) -> bool {
        match listing {
            Ok(children) if prev.is_stale(now) => self.is_refresh_of(prev, children, now),
            _ => self == prev,
        }
    }

    /// What a listing is made from fixes the listing.
    pub proof fn lemma_listing_is_unique(
        self,
        other: ListingModel,
        path: Seq<char>,
        parent: Option<Seq<char>>,
        children: Seq<EntryModel>,
        now: nat,
        sorter: Sorter,
        refresh_after: nat,
    )
        requires
            self.is_listing_of(path, parent, children, now, sorter, refresh_after),
            other.is_listing_of(path, parent, children, now, sorter, refresh_after),
        ensures
            self == other,
    {
        sorter.lemma_sorting_is_unique(self.contents, other.contents, children);
    }

    /// A listing holds what was read, no more and no less, and under the
    /// default policy its directories before everything else.
    pub proof fn lemma_listing_holds_the_children(
        self,
        path: Seq<char>,
        parent: Option<Seq<char>>,
        children: Seq<EntryModel>,
        now: nat,
        sorter: Sorter,
        refresh_after: nat,
    )
        requires
            self.is_listing_of(path, parent, children, now, sorter, refresh_after),
        ensures
            self.contents.len() == children.len(),
            forall|e: EntryModel| self.contents.contains(e) <==> children.contains(e),
            sorter == Sorter::DirsFirst ==> forall|i: int, j: int|
                0 <= i < self.contents.len() && 0 <= j < self.contents.len()
                    && self.contents[i].kind == EntryKind::Directory && self.contents[j].kind
                    != EntryKind::Directory ==> i < j,
    {
        self.contents.to_multiset_ensures();
        children.to_multiset_ensures();
        assert forall|e: EntryModel| self.contents.contains(e) <==> children.contains(e) by {
            assert(self.contents.to_multiset().count(e) == children.to_multiset().count(e));
        }
        if sorter == Sorter::DirsFirst {
            assert forall|i: int, j: int|
                0 <= i < self.contents.len() && 0 <= j < self.contents.len()
                    && self.contents[i].kind == EntryKind::Directory && self.contents[j].kind
                    != EntryKind::Directory implies i < j by {
                Sorter::lemma_dirs_precede_files(self.contents, i, j);
            }
        }
    }
}

impl View for DirectoryEntry {
    type V = ListingModel;

    closed spec fn view(&self) -> ListingModel {
        ListingModel {
            path: self.path@,
            parent: self.parent.deep_view(),
            contents: self.contents.deep_view(),
            last_update: self.last_update as nat,
            sorter: self.sorter,
            refresh_after: self.refresh_after as nat,
        }
    }
}

impl DeepView for DirectoryEntry {
    type V = ListingModel;

    open spec fn deep_view(&self) -> ListingModel {
        self@
    }
}

/// The view of what was read from a directory.
pub open spec fn listing_view(listing: Result<Vec<PathEntry>, FilesystemError>) -> Result<
    Seq<EntryModel>,
    FilesystemError,
> {
    match listing {
        Ok(children) => Ok(children.deep_view()),
        Err(e) => Err(e),
    }
}

impl DirectoryEntry {
    #[verifier::type_invariant]
    closed spec fn sorted(self) -> bool {
        self.sorter.is_sorted(self.contents.deep_view())
    }

    /// Makes the listing of `path` from what was read of it at `now`, under
    /// the default policy: directories first, refreshed on every request.
    /// Fails with the error of the read, if it met one.
    pub fn new(
        path: String,
        parent: Option<String>,
        listing: Result<Vec<PathEntry>, FilesystemError>,
        now: u64,
    ) -> (r: Result<Self, FilesystemError>)
        ensures
            match listing {
                Ok(children) => r is Ok && r->Ok_0@.is_listing_of(
                    path@,
                    parent.deep_view(),
                    children.deep_view(),
                    now as nat,
                    Sorter::DirsFirst,
                    0,
                ),
                Err(e) => r is Err && r->Err_0 == e,
            },
    {
        Self::with_policy(path, parent, listing, now, Sorter::DirsFirst, 0)
    }

    /// Makes the listing of `path` from what was read of it at `now`, sorted
    /// under `sorter` and due for a refresh once `refresh_after`
    /// milliseconds have passed. Fails with the error of the read, if it met
    /// one.
    pub fn with_policy(
        path: String,
        parent: Option<String>,
        listing: Result<Vec<PathEntry>, FilesystemError>,
        now: u64,
        sorter: Sorter,
        refresh_after: u64,
    ) -> (r: Result<Self, FilesystemError>)
        ensures
            match listing {
                Ok(children) => r is Ok && r->Ok_0@.is_listing_of(
                    path@,
                    parent.deep_view(),
                    children.deep_view(),
                    now as nat,
                    sorter,
                    refresh_after as nat,
                ),
                Err(e) => r is Err && r->Err_0 == e,
            },
    {
        match listing {
            Ok(children) => {
                let contents = sorter.sort(children);
                Ok(
                    DirectoryEntry {
                        path,
                        parent,
                        contents,
                        last_update: now,
                        sorter,
                        refresh_after,
                    },
                )
            },
            Err(e) => Err(e),
        }
    }

    /// The absolute path of the directory.
    pub fn path(&self) -> (r: &String)
        ensures
            r@ == self@.path,
    {
        &self.path
    }

    /// The path of the parent directory; none at the root.
    pub fn parent(&self) -> (r: &Option<String>)
        ensures
            r.deep_view() == self@.parent,
    {
        &self.parent
    }

    /// The children, sorted under the listing's policy.
    pub fn contents(&self) -> (r: &Vec<PathEntry>)
        ensures
            r.deep_view() == self@.contents,
            self@.sorter.is_sorted(self@.contents),
    {
        proof {
            use_type_invariant(self);
        }
        &self.contents
    }

    /// The number of children.
    pub fn len(&self) -> (r: usize)
        ensures
            r == self@.contents.len(),
    {
        self.contents.len()
    }

    /// The child at position `i`, if there is one.
    pub fn get(&self, i: usize) -> (r: Option<&PathEntry>)
        ensures
            i < self@.contents.len() ==> r is Some && r->Some_0@ == self@.contents[i as int],
            i >= self@.contents.len() ==> r is None,
    {
        if i < self.contents.len() {
            Some(&self.contents[i])
        } else {
            None
        }
    }

    /// The first position at which `path` is listed, if it is listed.
    pub fn position(&self, path: &String) -> (r: Option<usize>)
        ensures
            match r {
                Some(i) => i < self@.contents.len() && self@.contents[i as int].path == path@
                    && forall|k: int| 0 <= k < i ==> self@.contents[k].path != path@,
                None => forall|k: int|
                    0 <= k < self@.contents.len() ==> self@.contents[k].path != path@,
            },
    {
        let mut i: usize = 0;
        while i < self.contents.len()
            invariant
                i <= self.contents.len(),
                forall|k: int| 0 <= k < i ==> self@.contents[k].path != path@,
            decreases self.contents.len() - i,
        {
            if self.contents[i].path == *path {
                return Some(i);
            }
            i += 1;
        }
        None
    }

    /// The time of the last refresh.
    pub fn last_update(&self) -> (r: u64)
        ensures
            r == self@.last_update,
    {
        self.last_update
    }

    /// The policy under which the children are sorted.
    pub fn sorter(&self) -> (r: Sorter)
        ensures
            r == self@.sorter,
    {
        self.sorter
    }

    /// The time after which the listing is due for a refresh.
    pub fn refresh_after(&self) -> (r: u64)
        ensures
            r == self@.refresh_after,
    {
        self.refresh_after
    }

    /// Whether the listing is due for a refresh at `now`.
    pub fn should_update(&self, now: u64) -> (r: bool)
        ensures
            r == self@.is_stale(now as nat),
    {
        let elapsed = if now >= self.last_update {
            now - self.last_update
        } else {
            0
        };
        elapsed >= self.refresh_after
    }

    /// Refreshes the listing from what was read of the directory at `now`,
    /// if it is due. A listing that is not due stays as it is. Where the
    /// read failed the listing also stays as it is, and the error is handed
    /// back for the caller to report or drop.
    pub fn update(&mut self, listing: Result<Vec<PathEntry>, FilesystemError>, now: u64) -> (r:
        Result<(), FilesystemError>)
        ensures
            final(self)@.is_update_of(old(self)@, listing_view(listing), now as nat),
            r is Err <==> old(self)@.is_stale(now as nat) && listing is Err,
            r is Err ==> listing is Err && r->Err_0 == listing->Err_0,
    {
        if !self.should_update(now) {
            return Ok(());
        }
        match listing {
            Ok(children) => {
                let contents = self.sorter.sort(children);
                self.contents = contents;
                self.last_update = now;
                Ok(())
            },
            Err(e) => Err(e),
        }
    }
}

} // verus!
