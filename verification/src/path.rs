//! A lexical path model for import resolution.
//!
//! Paths are held as the loader-facing shape this core reads: an absolute
//! flag and a list of segments. Normalization resolves `.` and `..` segments
//! lexically, without touching storage.

use vstd::prelude::*;

verus! {

/// One path segment.
#[derive(Debug, Clone, PartialEq, Eq, Hash)]
pub enum PathSeg {
    /// An ordinary named component.
    Normal(String),
    /// The parent-directory component, `..`.
    Parent,
    /// The current-directory component, `.`.
    Current,
}

/// A file path: whether it is anchored at the root, and its segments in
/// order.
#[derive(Debug, Clone, PartialEq, Eq, Hash)]
pub struct FilePath {
    /// Whether the path begins with the root-anchor marker.
    pub absolute: bool,
    /// The path components, in order.
    pub segments: Vec<PathSeg>,
}

impl PathSeg {
    /// Makes an owned copy, known to equal the original.
    pub fn duplicate(&self) -> (r: PathSeg)
        ensures
            r == *self,
    {
        match self {
            PathSeg::Normal(s) => PathSeg::Normal(s.clone()),
            PathSeg::Parent => PathSeg::Parent,
            PathSeg::Current => PathSeg::Current,
        }
    }
}

/// The lexically normalized form of a segment list: `.` components vanish,
/// and a `..` component removes a preceding named component, surviving only
/// at the front where nothing is left to remove.
pub open spec fn normalize_spec(segs: Seq<PathSeg>) -> Seq<PathSeg>
    decreases segs.len(),
{
    if segs.len() == 0 {
        Seq::empty()
    } else {
        let pre = normalize_spec(segs.drop_last());
        match segs.last() {
            PathSeg::Current => pre,
            PathSeg::Parent => if pre.len() > 0 && pre.last() matches PathSeg::Normal(_) {
                pre.drop_last()
            } else {
                pre.push(PathSeg::Parent)
            },
            PathSeg::Normal(s) => pre.push(PathSeg::Normal(s)),
        }
    }
}

/// The segments of `base` followed by those of `rel` when `rel` is relative;
/// `rel`'s own segments alone when it is absolute.
pub open spec fn join_spec(base: FilePath, rel: FilePath) -> (bool, Seq<PathSeg>) {
    if rel.absolute {
        (true, rel.segments@)
    } else {
        (base.absolute, base.segments@ + rel.segments@)
    }
}

/// Additional methods for paths.
pub trait PathExt {
    /// The absolute flag of the normalized form.
    spec fn normalized_absolute(&self) -> bool;

    /// The segments of the normalized form.
    spec fn normalized_segments(&self) -> Seq<PathSeg>;

    /// Lexically normalize a path.
    fn normalize(&self) -> (r: FilePath)
        ensures
            r.absolute == self.normalized_absolute(),
            r.segments@ == self.normalized_segments(),
    ;
}

impl PathExt for FilePath {
    open spec fn normalized_absolute(&self) -> bool {
        self.absolute
    }

    open spec fn normalized_segments(&self) -> Seq<PathSeg> {
        normalize_spec(self.segments@)
    }

    fn normalize(&self) -> (r: FilePath) {
        let mut out: Vec<PathSeg> = Vec::new();
        let mut i: usize = 0;
        proof {
            assert(self.segments@.subrange(0, 0) =~= Seq::<PathSeg>::empty());
        }
        while i < self.segments.len()
            invariant
                i <= self.segments@.len(),
                out@ == normalize_spec(self.segments@.subrange(0, i as int)),
            decreases self.segments@.len() - i,
        {
            proof {
                let pre = self.segments@.subrange(0, i as int);
                let cur = self.segments@.subrange(0, i as int + 1);
                assert(cur.drop_last() =~= pre);
                assert(cur.last() == self.segments@[i as int]);
            }
            match &self.segments[i] {
                PathSeg::Current => {},
                PathSeg::Parent => {
                    let pop = match out.last() {
                        Some(PathSeg::Normal(_)) => true,
                        _ => false,
                    };
                    if pop {
                        out.pop();
                    } else {
                        out.push(PathSeg::Parent);
                    }
                },
                PathSeg::Normal(_) => {
                    out.push(self.segments[i].duplicate());
                },
            }
            i = i + 1;
        }
        proof {
            assert(self.segments@.subrange(0, self.segments@.len() as int) =~= self.segments@);
        }
        FilePath { absolute: self.absolute, segments: out }
    }
}

impl FilePath {
    /// Makes an owned copy, equal to the original component for component.
    pub fn duplicate(&self) -> (r: FilePath)
        ensures
            r.absolute == self.absolute,
            r.segments@ == self.segments@,
    {
        let mut segs: Vec<PathSeg> = Vec::new();
        let mut i: usize = 0;
        while i < self.segments.len()
            invariant
                i <= self.segments@.len(),
                segs@ =~= self.segments@.subrange(0, i as int),
            decreases self.segments@.len() - i,
        {
            segs.push(self.segments[i].duplicate());
            i = i + 1;
        }
        proof {
            assert(self.segments@.subrange(0, self.segments@.len() as int) =~= self.segments@);
        }
        FilePath { absolute: self.absolute, segments: segs }
    }

    /// Adjoins `rel` to this path: an absolute `rel` replaces it, a relative
    /// one extends it.
    pub fn join(&self, rel: &FilePath) -> (r: FilePath)
        ensures
            (r.absolute, r.segments@) == join_spec(*self, *rel),
    {
        if rel.absolute {
            rel.duplicate()
        } else {
            let mut joined = self.duplicate();
            let ext = rel.duplicate();
            let mut i: usize = 0;
            let mut segs = ext.segments;
            proof {
                assert(joined.segments@ + segs@.subrange(0, 0) =~= joined.segments@);
            }
            let ghost orig = joined.segments@;
            while i < segs.len()
                invariant
                    i <= segs@.len(),
                    segs@ == rel.segments@,
                    joined.segments@ == orig + segs@.subrange(0, i as int),
                    joined.absolute == self.absolute,
                    orig == self.segments@,
                decreases segs@.len() - i,
            {
                joined.segments.push(segs[i].duplicate());
                proof {
                    assert(orig + segs@.subrange(0, i as int + 1) =~= (orig + segs@.subrange(
                        0,
                        i as int,
                    )).push(segs@[i as int]));
                }
                i = i + 1;
            }
            proof {
                assert(segs@.subrange(0, segs@.len() as int) =~= segs@);
            }
            joined
        }
    }

    /// The containing directory: the path without its last segment, or
    /// nothing when there is no segment to drop.
    pub fn parent(&self) -> (r: Option<FilePath>)
        ensures
            self.segments@.len() == 0 ==> r is None,
            self.segments@.len() > 0 ==> (r matches Some(p) && p.absolute == self.absolute
                && p.segments@ == self.segments@.drop_last()),
    {
        if self.segments.len() == 0 {
            None
        } else {
            let mut p = self.duplicate();
            p.segments.pop();
            proof {
                assert(p.segments@ =~= self.segments@.drop_last());
            }
            Some(p)
        }
    }
}

} // verus!
