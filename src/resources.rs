//! Resource naming: logical, slash-separated resource names and the errors
//! a resource load reports.

use vstd::prelude::*;
use vstd::string::*;

verus! {

/// The standard library's I/O error, carried through unchanged.
#[verifier::external_type_specification]
#[verifier::external_body]
pub struct ExIoError(std::io::Error);

/// Why a resource could not be provided.
#[derive(Debug)]
pub enum Error {
    /// Reading the resource failed.
    Io(std::io::Error),
    /// A text resource holds a zero byte, so it cannot be handed on as a
    /// null-terminated string.
    FileContainsNil,
    /// The directory of the running executable could not be found.
    FailedToGetExePath,
}

/// The parts of a resource name between its slashes, in order. A name
/// with no slash is one part; an empty name is one empty part.
pub open spec fn name_parts(s: Seq<char>) -> Seq<Seq<char>>
    decreases s.len(),
{
    if s.len() == 0 {
        seq![Seq::empty()]
    } else {
        let p = name_parts(s.drop_last());
        if s.last() == '/' {
            p.push(Seq::empty())
        } else {
            p.update(p.len() - 1, p.last().push(s.last()))
        }
    }
}

pub open spec fn views(v: Seq<String>) -> Seq<Seq<char>> {
    v.map_values(|p: String| p@)
}

/// The path of resource `location` below the directory `root_dir`, both
/// as sequences of path components: the root's components followed by the
/// slash-separated parts of the name.
pub fn resource_name_to_path(root_dir: &Vec<String>, location: &str) -> (r: Vec<String>)
    ensures
        views(r@) == views(root_dir@) + name_parts(location@),
{
    let mut path: Vec<String> = root_dir.clone();
    let ghost root = views(root_dir@);
    assert(views(path@) == root);
    assert(location@.subrange(0, 0) =~= Seq::<char>::empty());
    assert(views(path@).subrange(root.len() as int, path@.len() as int) =~= Seq::<Seq<char>>::empty());
    assert(views(path@).subrange(0, root.len() as int) =~= root);
    let n = location.unicode_len();
    let mut start: usize = 0;
    let mut i: usize = 0;
    while i < n
        invariant
            n == location@.len(),
            start <= i <= n,
            name_parts(location@.subrange(0, i as int)) == views(path@).subrange(
                root.len() as int,
                path@.len() as int,
            ).push(location@.subrange(start as int, i as int)),
            views(path@).subrange(0, root.len() as int) == root,
            root.len() <= path@.len(),
        decreases n - i,
    {
        let c = location.get_char(i);
        let ghost before = views(path@);
        assert(location@.subrange(0, i + 1).drop_last() =~= location@.subrange(0, i as int));
        if c == '/' {
            let part = String::from_str(location.substring_char(start, i));
            path.push(part);
            start = i + 1;
            assert(views(path@) =~= before.push(part@));
            assert(views(path@).subrange(0, root.len() as int) =~= before.subrange(0, root.len() as int));
            assert(views(path@).subrange(root.len() as int, path@.len() as int) =~= before.subrange(
                root.len() as int,
                before.len() as int,
            ).push(part@));
            assert(location@.subrange(start as int, i + 1) =~= Seq::<char>::empty());
        } else {
            assert(location@.subrange(start as int, i + 1) =~= location@.subrange(
                start as int,
                i as int,
            ).push(c));
        }
        i = i + 1;
    }
    let ghost before = views(path@);
    let last = String::from_str(location.substring_char(start, n));
    path.push(last);
    assert(location@.subrange(0, n as int) =~= location@);
    assert(views(path@) =~= before.push(last@));
    assert(views(path@) =~= root + name_parts(location@)) by {
        assert(before =~= before.subrange(0, root.len() as int) + before.subrange(
            root.len() as int,
            before.len() as int,
        ));
    }
    path
}

/// Accepts the bytes of a text resource only when none of them is zero.
pub fn null_free_text(buffer: Vec<u8>) -> (r: Result<Vec<u8>, Error>)
    ensures
        (exists|i: int| 0 <= i < buffer@.len() && buffer@[i] == 0) ==> r matches Err(
            Error::FileContainsNil,
        ),
        (forall|i: int| 0 <= i < buffer@.len() ==> buffer@[i] != 0) ==> r is Ok && r->Ok_0@
            == buffer@,
{
    let mut i: usize = 0;
    while i < buffer.len()
        invariant
            i <= buffer@.len(),
            forall|j: int| 0 <= j < i ==> buffer@[j] != 0,
        decreases buffer@.len() - i,
    {
        if buffer[i] == 0 {
            return Err(Error::FileContainsNil);
        }
        i = i + 1;
    }
    Ok(buffer)
}

/// Where resources are found: the components of the root directory that
/// every resource name is resolved against.
pub struct Resources {
    root_path: Vec<String>,
}

impl Resources {
    pub closed spec fn spec_root(&self) -> Seq<Seq<char>> {
        views(self.root_path@)
    }

    /// Resources rooted at the directory with the given path components.
    pub fn from_root_parts(root_path: Vec<String>) -> (r: Self)
        ensures
            r.spec_root() == views(root_path@),
    {
        Resources { root_path }
    }

    /// The path components of the resource called `name`.
    pub fn resource_path(&self, name: &str) -> (r: Vec<String>)
        ensures
            views(r@) == self.spec_root() + name_parts(name@),
    {
        resource_name_to_path(&self.root_path, name)
    }
}

} // verus!
