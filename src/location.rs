//! Where the companion executable may lie, in order of precedence, and which
//! of those places wins.
use vstd::prelude::*;

verus! {

/// The directory a candidate path is taken relative to.
#[derive(Clone, Copy, PartialEq, Eq, Structural, Debug)]
pub enum Root {
    /// The application's resource directory.
    ResourceDir,
    /// The parent of the resource directory (bundle-style packaging).
    ResourceParent,
}

/// One place the executable may lie: a root and path components below it.
#[derive(Debug)]
pub struct Candidate {
    pub root: Root,
    pub components: Vec<String>,
}

impl View for Candidate {
    type V = (Root, Seq<Seq<char>>);

    open spec fn view(&self) -> (Root, Seq<Seq<char>>) {
        (self.root, self.components@.map_values(|c: String| c@))
    }
}

pub open spec fn exe_suffix() -> Seq<char> {
    seq!['.', 'e', 'x', 'e']
}

pub open spec fn binaries_dir() -> Seq<char> {
    seq!['b', 'i', 'n', 'a', 'r', 'i', 'e', 's']
}

pub open spec fn resources_dir() -> Seq<char> {
    seq!['R', 'e', 's', 'o', 'u', 'r', 'c', 'e', 's']
}

/// The places probed for an executable called `name`, highest precedence
/// first: the bare name, the name with the `.exe` suffix, both again under
/// `binaries`, and the bare name under a sibling `Resources` directory.
pub open spec fn candidate_views(name: Seq<char>) -> Seq<(Root, Seq<Seq<char>>)> {
    seq![
        (Root::ResourceDir, seq![name]),
        (Root::ResourceDir, seq![name + exe_suffix()]),
        (Root::ResourceDir, seq![binaries_dir(), name]),
        (Root::ResourceDir, seq![binaries_dir(), name + exe_suffix()]),
        (Root::ResourceParent, seq![resources_dir(), name]),
    ]
}

fn candidate(root: Root, components: Vec<String>) -> (r: Candidate)
    ensures
        r@ == (root, components@.map_values(|c: String| c@)),
{
    Candidate { root, components }
}

/// Lists the candidate locations of the executable `name` in probing order.
pub fn candidate_locations(name: &str) -> (r: Vec<Candidate>)
    ensures
        r@.map_values(|c: Candidate| c@) == candidate_views(name@),
{
    let ghost n = name@;
    proof {
        reveal_strlit(".exe");
        reveal_strlit("binaries");
        reveal_strlit("Resources");
    }
    let exe = String::from_str(name).concat(".exe");
    let exe2 = String::from_str(name).concat(".exe");
    let c0 = candidate(Root::ResourceDir, vec![String::from_str(name)]);
    let c1 = candidate(Root::ResourceDir, vec![exe]);
    let c2 = candidate(Root::ResourceDir, vec![String::from_str("binaries"), String::from_str(name)]);
    let c3 = candidate(Root::ResourceDir, vec![String::from_str("binaries"), exe2]);
    let c4 = candidate(Root::ResourceParent, vec![String::from_str("Resources"), String::from_str(name)]);
    let r = vec![c0, c1, c2, c3, c4];
    proof {
        assert(exe_suffix() =~= ".exe"@);
        assert(binaries_dir() =~= "binaries"@);
        assert(resources_dir() =~= "Resources"@);
        assert(c0@.1 =~= seq![n]);
        assert(c1@.1 =~= seq![n + exe_suffix()]);
        assert(c2@.1 =~= seq![binaries_dir(), n]);
        assert(c3@.1 =~= seq![binaries_dir(), n + exe_suffix()]);
        assert(c4@.1 =~= seq![resources_dir(), n]);
        assert(r@.map_values(|c: Candidate| c@) =~= candidate_views(n));
    }
    r
}

/// Picks the location to launch: the index of the first candidate, in
/// probing order, that is present (`present[i]` tells whether candidate `i`
/// exists). Whatever else is present, a candidate of higher precedence always
/// wins; `None` when nothing is present.
pub fn resolve_location(present: &[bool]) -> (r: Option<usize>)
    ensures
        r is None <==> forall|i: int| 0 <= i < present@.len() ==> !present@[i],
        r matches Some(k) ==> {
            &&& k < present@.len()
            &&& present@[k as int]
            &&& forall|j: int| 0 <= j < k ==> !present@[j]
        },
{
    let mut i: usize = 0;
    while i < present.len()
        invariant
            i <= present@.len(),
            forall|j: int| 0 <= j < i ==> !present@[j],
        decreases present@.len() - i,
    {
        if present[i] {
            return Some(i);
        }
        i = i + 1;
    }
    None
}

/// Whether a file with permission bits `mode` may not be executed by anyone
/// yet, so that execute permission has to be granted before launching it.
pub fn lacks_exec_permission(mode: u32) -> (r: bool)
    ensures
        r == (mode & 0o111u32 == 0),
{
    mode & 0o111u32 == 0
}

/// The permission bits `mode` with execute permission granted to owner,
/// group and others, every other bit kept.
pub fn with_exec_permission(mode: u32) -> (r: u32)
    ensures
        r == mode | 0o111u32,
        r & 0o111u32 == 0o111u32,
        r & !0o111u32 == mode & !0o111u32,
{
    let r = mode | 0o111u32;
    assert(r & 0o111u32 == 0o111u32) by (bit_vector)
        requires r == mode | 0o111u32;
    assert(r & !0o111u32 == mode & !0o111u32) by (bit_vector)
        requires r == mode | 0o111u32;
    r
}

} // verus!
