//! Paths inside a workspace, kept as a base directory and the components
//! joined onto it. The library never touches the file system: it only says
//! where things are.

use crate::text::{concat3, texts};
use vstd::prelude::*;
use vstd::string::*;

verus! {

/// The mathematical content of a `WorkPath`.
pub struct PathView {
    /// The directory everything hangs from, as the caller wrote it.
    pub base: Seq<char>,
    /// The components joined onto the base, outermost first.
    pub parts: Seq<Seq<char>>,
}

impl PathView {
    /// The path one component further down.
    pub open spec fn join(self, part: Seq<char>) -> PathView {
        PathView { base: self.base, parts: self.parts.push(part) }
    }

    /// The path with its last component removed.
    pub open spec fn parent(self) -> PathView
        recommends
            self.parts.len() > 0,
    {
        PathView { base: self.base, parts: self.parts.drop_last() }
    }

    /// Whether `self` lies at or below `other`.
    pub open spec fn is_under(self, other: PathView) -> bool {
        &&& self.base == other.base
        &&& other.parts.is_prefix_of(self.parts)
    }
}

/// The components of a path written one after the other, each behind a
/// `/`.
pub open spec fn parts_text(parts: Seq<Seq<char>>) -> Seq<char>
    decreases parts.len(),
{
    if parts.len() == 0 {
        Seq::<char>::empty()
    } else {
        parts_text(parts.drop_last()) + seq!['/'] + parts.last()
    }
}

/// The usual way to write a path: the base, then each component behind a
/// `/`.
pub open spec fn path_text(p: PathView) -> Seq<char> {
    p.base + parts_text(p.parts)
}

/// A path: a base directory and the components joined onto it.
#[derive(Debug, PartialEq, Eq)]
pub struct WorkPath {
    pub base: String,
    pub parts: Vec<String>,
}

impl View for WorkPath {
    type V = PathView;

    open spec fn view(&self) -> PathView {
        PathView { base: self.base@, parts: texts(self.parts@) }
    }
}

impl WorkPath {
    /// The path of the base directory itself.
    pub fn new(base: &str) -> (p: WorkPath)
        ensures
            p@ == (PathView { base: base@, parts: Seq::empty() }),
    {
        let p = WorkPath { base: String::from_str(base), parts: Vec::new() };
        assert(texts(p.parts@) =~= Seq::<Seq<char>>::empty());
        p
    }

    /// A copy of this path.
    pub fn duplicate(&self) -> (p: WorkPath)
        ensures
            p@ == self@,
    {
        let mut parts: Vec<String> = Vec::new();
        let mut i: usize = 0;
        while i < self.parts.len()
            invariant
                i <= self.parts.len(),
                parts@.len() == i,
                texts(parts@) == texts(self.parts@).take(i as int),
            decreases self.parts.len() - i,
        {
            let ghost before = parts@;
            parts.push(self.parts[i].clone());
            assert forall|k: int| 0 <= k < i + 1 implies texts(parts@)[k] == texts(
                self.parts@,
            ).take(i + 1)[k] by {
                if k < i {
                    assert(texts(parts@)[k] == texts(before)[k]);
                }
            }
            assert(texts(parts@) =~= texts(self.parts@).take(i + 1));
            i = i + 1;
        }
        assert(texts(self.parts@).take(i as int) =~= texts(self.parts@));
        WorkPath { base: self.base.clone(), parts }
    }

    /// The path one component further down.
    pub fn join(&self, part: &str) -> (p: WorkPath)
        ensures
            p@ == self@.join(part@),
    {
        let mut p = self.duplicate();
        p.parts.push(String::from_str(part));
        assert(texts(p.parts@) =~= texts(self.parts@).push(part@));
        p
    }

    /// The directory that holds this path, where the library knows it: a
    /// path with no component has its parent outside the library's sight.
    pub fn parent(&self) -> (r: Option<WorkPath>)
        ensures
            self@.parts.len() == 0 ==> r is None,
            self@.parts.len() > 0 ==> r is Some && r->0@ == self@.parent(),
    {
        if self.parts.len() == 0 {
            return None;
        }
        let mut p = self.duplicate();
        p.parts.pop();
        assert(texts(p.parts@) =~= texts(self.parts@).drop_last());
        Some(p)
    }

    /// The last component, if there is one.
    pub fn file_name(&self) -> (r: Option<String>)
        ensures
            self@.parts.len() == 0 ==> r is None,
            self@.parts.len() > 0 ==> r is Some && r->0@ == self@.parts.last(),
    {
        if self.parts.len() == 0 {
            None
        } else {
            Some(self.parts[self.parts.len() - 1].clone())
        }
    }

    /// Whether two paths have the same base and the same components.
    pub fn same_as(&self, other: &WorkPath) -> (r: bool)
        ensures
            r == (self@ == other@),
    {
        if !(self.base == other.base) || self.parts.len() != other.parts.len() {
            proof {
                if self@ == other@ {
                    assert(texts(self.parts@).len() == texts(other.parts@).len());
                }
            }
            return false;
        }
        let mut i: usize = 0;
        while i < self.parts.len()
            invariant
                i <= self.parts.len(),
                self.parts.len() == other.parts.len(),
                self.base@ == other.base@,
                forall|k: int| 0 <= k < i ==> self.parts@[k]@ == other.parts@[k]@,
            decreases self.parts.len() - i,
        {
            if !(self.parts[i] == other.parts[i]) {
                assert(texts(self.parts@)[i as int] != texts(other.parts@)[i as int]);
                return false;
            }
            i = i + 1;
        }
        assert(texts(self.parts@) =~= texts(other.parts@));
        true
    }

    /// The path written out: the base, then each component behind a `/`.
    pub fn display(&self) -> (s: String)
        ensures
            s@ == path_text(self@),
    {
        let mut s = self.base.clone();
        let mut i: usize = 0;
        assert(texts(self.parts@).take(0) =~= Seq::<Seq<char>>::empty());
        assert(s@ =~= self.base@ + parts_text(texts(self.parts@).take(0)));
        while i < self.parts.len()
            invariant
                i <= self.parts.len(),
                s@ == self.base@ + parts_text(texts(self.parts@).take(i as int)),
            decreases self.parts.len() - i,
        {
            proof {
                reveal_strlit("/");
                let next = texts(self.parts@).take(i + 1);
                assert(next.drop_last() =~= texts(self.parts@).take(i as int));
                assert(next.last() == self.parts@[i as int]@);
            }
            let piece = concat3("/", self.parts[i].as_str(), "");
            s.append(piece.as_str());
            proof {
                reveal_strlit("");
                assert("/"@ =~= seq!['/']);
                assert(s@ =~= self.base@ + parts_text(texts(self.parts@).take(i + 1)));
            }
            i = i + 1;
        }
        assert(texts(self.parts@).take(i as int) =~= texts(self.parts@));
        s
    }
}

/// The tool's data directory: `aocsuite` in the user's data directory,
/// which is the one that `XDG_DATA_HOME` names, else `.local/share` in the
/// home directory. One of the two has to be known.
pub fn resolve_aocsuite_dir(xdg_data_home: Option<String>, home: Option<String>) -> (dir: WorkPath)
    requires
        xdg_data_home is Some || home is Some,
    ensures
        dir@ == match xdg_data_home {
            Some(data) => (PathView { base: data@, parts: seq!["aocsuite"@] }),
            None => (PathView { base: home->0@, parts: seq![".local"@, "share"@, "aocsuite"@] }),
        },
{
    match xdg_data_home {
        Some(data) => {
            let dir = WorkPath::new(data.as_str()).join("aocsuite");
            assert(dir@.parts =~= seq!["aocsuite"@]);
            dir
        },
        None => match home {
            Some(home) => {
                let dir = WorkPath::new(home.as_str()).join(".local").join("share").join(
                    "aocsuite",
                );
                assert(dir@.parts =~= seq![".local"@, "share"@, "aocsuite"@]);
                dir
            },
            None => WorkPath::new(""),
        },
    }
}

} // verus!
