//! Filesystem paths as plain values: an anchor (prefix and root, possibly empty)
//! followed by the named segments below it.

use vstd::prelude::*;

verus! {

/// The mathematical value of a path.
pub struct PathView {
    pub anchor: Seq<char>,
    pub segments: Seq<Seq<char>>,
}

impl PathView {
    /// The path one level below `self`, named `name`.
    pub open spec fn join(self, name: Seq<char>) -> PathView {
        PathView { anchor: self.anchor, segments: self.segments.push(name) }
    }

    /// The number of named segments below the anchor.
    pub open spec fn depth(self) -> nat {
        self.segments.len()
    }

    /// The path with its last `levels` segments removed; the bare anchor if there
    /// are no more than that.
    pub open spec fn ancestor(self, levels: nat) -> PathView {
        PathView {
            anchor: self.anchor,
            segments: if levels <= self.segments.len() {
                self.segments.subrange(0, self.segments.len() - levels)
            } else {
                Seq::<Seq<char>>::empty()
            },
        }
    }

    /// The directory that holds `self`; a bare anchor has none.
    pub open spec fn parent(self) -> Option<PathView> {
        if self.segments.len() == 0 {
            None
        } else {
            Some(self.ancestor(1))
        }
    }
}

/// A filesystem path. The host converts between this and its own path type
/// component by component.
#[derive(Debug, PartialEq, Eq)]
pub struct FsPath {
    pub anchor: String,
    pub segments: Vec<String>,
}

impl View for FsPath {
    type V = PathView;

    open spec fn view(&self) -> PathView {
        PathView { anchor: self.anchor@, segments: self.segments.deep_view() }
    }
}

impl DeepView for FsPath {
    type V = PathView;

    open spec fn deep_view(&self) -> PathView {
        self@
    }
}

/// Copies the first `count` strings of `source`, or all of them if there are
/// fewer.
pub fn copy_prefix(source: &Vec<String>, count: usize) -> (copy: Vec<String>)
    ensures
        copy.deep_view() == source.deep_view().subrange(
            0,
            if count <= source.len() {
                count as int
            } else {
                source.len() as int
            },
        ),
{
    let count = if count <= source.len() {
        count
    } else {
        source.len()
    };
    let mut copy: Vec<String> = Vec::new();
    let mut i: usize = 0;
    while i < count
        invariant
            i <= count <= source.len(),
            copy.len() == i,
            forall|k: int| 0 <= k < i ==> copy[k]@ == source[k]@,
        decreases count - i,
    {
        copy.push(source[i].clone());
        i += 1;
    }
    assert(copy.deep_view() =~= source.deep_view().subrange(0, count as int));
    copy
}

impl Clone for FsPath {
    fn clone(&self) -> (copy: FsPath)
        ensures
            copy@ == self@,
    {
        let segments = copy_prefix(&self.segments, self.segments.len());
        assert(self.segments.deep_view().subrange(0, self.segments.len() as int)
            =~= self.segments.deep_view());
        FsPath { anchor: self.anchor.clone(), segments }
    }
}

impl FsPath {
    /// The path below `anchor` that is reached through `segments` in turn.
    pub fn new(anchor: String, segments: Vec<String>) -> (path: FsPath)
        ensures
            path@ == (PathView { anchor: anchor@, segments: segments.deep_view() }),
    {
        FsPath { anchor, segments }
    }

    /// The number of named segments below the anchor.
    pub fn depth(&self) -> (depth: usize)
        ensures
            depth == self@.depth(),
    {
        self.segments.len()
    }

    /// The path one level below `self`, named `name`.
    pub fn join(&self, name: &str) -> (joined: FsPath)
        ensures
            joined@ == self@.join(name@),
    {
        let mut segments = copy_prefix(&self.segments, self.segments.len());
        let ghost kept = segments.deep_view();
        assert(kept =~= self.segments.deep_view());
        segments.push(name.to_owned());
        assert(segments.deep_view() =~= kept.push(name@));
        FsPath { anchor: self.anchor.clone(), segments }
    }

    /// The path with its last `levels` segments removed; the bare anchor if there
    /// are no more than that.
    pub fn ancestor(&self, levels: usize) -> (up: FsPath)
        ensures
            up@ == self@.ancestor(levels as nat),
    {
        let keep = if levels <= self.segments.len() {
            self.segments.len() - levels
        } else {
            0
        };
        let segments = copy_prefix(&self.segments, keep);
        assert(self.segments.deep_view().subrange(0, 0) =~= Seq::<Seq<char>>::empty());
        FsPath { anchor: self.anchor.clone(), segments }
    }

    /// The directory that holds `self`, or `None` for a bare anchor.
    pub fn parent(&self) -> (up: Option<FsPath>)
        ensures
            up.deep_view() == self@.parent(),
    {
        if self.segments.len() == 0 {
            None
        } else {
            Some(self.ancestor(1))
        }
    }

    /// Whether two paths have the same anchor and the same segments.
    pub fn same_as(&self, other: &FsPath) -> (same: bool)
        ensures
            same == (self@ == other@),
    {
        if self.anchor != other.anchor {
            assert(self@.anchor != other@.anchor);
            return false;
        }
        if self.segments.len() != other.segments.len() {
            assert(self@.segments.len() != other@.segments.len());
            return false;
        }
        let mut i: usize = 0;
        while i < self.segments.len()
            invariant
                i <= self.segments.len(),
                self.segments.len() == other.segments.len(),
                forall|k: int| 0 <= k < i ==> self.segments[k]@ == other.segments[k]@,
            decreases self.segments.len() - i,
        {
            if self.segments[i] != other.segments[i] {
                assert(self@.segments[i as int] != other@.segments[i as int]);
                return false;
            }
            i += 1;
        }
        assert(self@.segments =~= other@.segments);
        true
    }
}

/// Joining a name and then taking the parent gives the path back.
pub proof fn lemma_parent_of_join(path: PathView, name: Seq<char>)
    ensures
        path.join(name).parent() == Some(path),
        path.join(name).depth() == path.depth() + 1,
{
    assert(path.join(name).segments.subrange(0, path.segments.len() as int) =~= path.segments);
}

} // verus!
