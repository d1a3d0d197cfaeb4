//! Directory paths as a root and a list of components, with the operations
//! the launcher needs: parent, join, equality and rendering.
use vstd::prelude::*;
use vstd::string::*;

verus! {

/// What a path denotes: its root (`"/"`, a drive prefix such as `"C:\\"`, or
/// empty for a relative path) and its normal components.
pub struct PathModel {
    pub root: Seq<char>,
    pub parts: Seq<Seq<char>>,
}

/// A filesystem path held as plain values.
pub struct DirPath {
    pub root: String,
    pub parts: Vec<String>,
}

pub open spec fn part_views(v: Seq<String>) -> Seq<Seq<char>> {
    v.map_values(|s: String| s@)
}

impl View for DirPath {
    type V = PathModel;

    open spec fn view(&self) -> PathModel {
        PathModel { root: self.root@, parts: part_views(self.parts@) }
    }
}

pub open spec fn opt_view(o: Option<DirPath>) -> Option<PathModel> {
    match o {
        Some(p) => Some(p@),
        None => None,
    }
}

/// The parent directory: the path without its last component; a bare root or
/// an empty path has none.
pub open spec fn parent_of(p: PathModel) -> Option<PathModel> {
    if p.parts.len() == 0 {
        None
    } else {
        Some(PathModel { root: p.root, parts: p.parts.drop_last() })
    }
}

/// The path with one more component.
pub open spec fn joined(p: PathModel, name: Seq<char>) -> PathModel {
    PathModel { root: p.root, parts: p.parts.push(name) }
}

/// The components joined by `sep`, without a leading or trailing separator.
pub open spec fn joined_parts(parts: Seq<Seq<char>>, sep: char) -> Seq<char>
    decreases parts.len(),
{
    if parts.len() == 0 {
        Seq::empty()
    } else if parts.len() == 1 {
        parts[0]
    } else {
        joined_parts(parts.drop_last(), sep) + seq![sep] + parts.last()
    }
}

/// The text of a path: the root followed by the components joined by `sep`.
pub open spec fn rendered(p: PathModel, sep: char) -> Seq<char> {
    p.root + joined_parts(p.parts, sep)
}

fn copy_parts(v: &Vec<String>, n: usize) -> (r: Vec<String>)
    requires
        n <= v@.len(),
    ensures
        r@ == v@.subrange(0, n as int),
{
    let mut r: Vec<String> = Vec::new();
    let mut i: usize = 0;
    while i < n
        invariant
            i <= n,
            n <= v@.len(),
            r@ == v@.subrange(0, i as int),
        decreases n - i,
    {
        r.push(v[i].clone());
        i = i + 1;
        assert(r@ =~= v@.subrange(0, i as int));
    }
    r
}

impl DirPath {
    /// A path from its root and components.
    pub fn new(root: String, parts: Vec<String>) -> (r: DirPath)
        ensures
            r.root == root,
            r.parts == parts,
    {
        DirPath { root, parts }
    }

    /// A copy of this path.
    pub fn duplicate(&self) -> (r: DirPath)
        ensures
            r@ == self@,
    {
        let parts = copy_parts(&self.parts, self.parts.len());
        assert(parts@ =~= self.parts@);
        DirPath { root: self.root.clone(), parts }
    }

    /// The parent directory, if there is one.
    pub fn parent(&self) -> (r: Option<DirPath>)
        ensures
            opt_view(r) == parent_of(self@),
    {
        let n = self.parts.len();
        if n == 0 {
            None
        } else {
            let parts = copy_parts(&self.parts, n - 1);
            let r = DirPath { root: self.root.clone(), parts };
            assert(r@.parts =~= self@.parts.drop_last());
            Some(r)
        }
    }

    /// This path with `name` appended as a component.
    pub fn join(&self, name: &str) -> (r: DirPath)
        ensures
            r@ == joined(self@, name@),
    {
        let mut parts = copy_parts(&self.parts, self.parts.len());
        parts.push(name.to_owned());
        let r = DirPath { root: self.root.clone(), parts };
        assert(r@.parts =~= self@.parts.push(name@));
        r
    }

    /// Whether two paths denote the same location, component by component.
    pub fn same_as(&self, other: &DirPath) -> (r: bool)
        ensures
            r == (self@ == other@),
    {
        if self.root != other.root {
            return false;
        }
        if self.parts.len() != other.parts.len() {
            assert(self@.parts.len() != other@.parts.len());
            return false;
        }
        let n = self.parts.len();
        let mut i: usize = 0;
        while i < n
            invariant
                i <= n,
                n == self.parts@.len(),
                n == other.parts@.len(),
                forall|k: int| 0 <= k < i ==> self.parts@[k]@ == other.parts@[k]@,
            decreases n - i,
        {
            if self.parts[i] != other.parts[i] {
                assert(self@.parts[i as int] != other@.parts[i as int]);
                return false;
            }
            i = i + 1;
        }
        assert(self@.parts =~= other@.parts);
        true
    }
}

/// The text of `p`, with `sep` between components.
pub fn render(p: &DirPath, sep: &str) -> (r: String)
    requires
        sep@.len() == 1,
    ensures
        r@ == rendered(p@, sep@[0]),
{
    let mut out = p.root.clone();
    let n = p.parts.len();
    let mut i: usize = 0;
    while i < n
        invariant
            i <= n,
            n == p.parts@.len(),
            sep@.len() == 1,
            out@ == p@.root + joined_parts(p@.parts.subrange(0, i as int), sep@[0]),
        decreases n - i,
    {
        let ghost before = out@;
        let ghost head = p@.parts.subrange(0, i as int);
        let ghost next = p@.parts.subrange(0, i + 1);
        assert(next.drop_last() =~= head);
        assert(next.last() == p@.parts[i as int]);
        if i > 0 {
            out.append(sep);
            assert(sep@ =~= seq![sep@[0]]);
        } else {
            assert(head.len() == 0);
        }
        out.append(p.parts[i].as_str());
        assert(out@ =~= p@.root + joined_parts(next, sep@[0]));
        i = i + 1;
    }
    assert(p@.parts.subrange(0, n as int) =~= p@.parts);
    out
}

} // verus!
