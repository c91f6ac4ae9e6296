//! Shader and program construction: stage classification by resource
//! name, the resource names of a program, and the errors each stage
//! reports.

use vstd::prelude::*;
use vstd::string::*;
use crate::resources;

verus! {

/// The pipeline stage a shader is compiled for.
#[derive(Clone, Copy, Debug, PartialEq, Eq, Structural)]
pub enum ShaderKind {
    Vertex,
    Fragment,
}

/// Why a shader or program could not be built.
#[derive(Debug)]
pub enum Error {
    /// The named resource could not be loaded.
    ResourceLoad { name: String, inner: resources::Error },
    /// The stage of the named resource cannot be told from its extension.
    CanNotDetermineShaderTypeForResource { name: String },
    /// The named shader failed to compile; `message` is the driver's log.
    CompileError { name: String, message: String },
    /// The named program failed to link; `message` is the driver's log.
    LinkError { name: String, message: String },
}

pub open spec fn ends_with(s: Seq<char>, suffix: Seq<char>) -> bool {
    &&& suffix.len() <= s.len()
    &&& s.subrange(s.len() - suffix.len(), s.len() as int) == suffix
}

pub open spec fn vert_ext() -> Seq<char> {
    seq!['.', 'v', 'e', 'r', 't']
}

pub open spec fn frag_ext() -> Seq<char> {
    seq!['.', 'f', 'r', 'a', 'g']
}

/// Whether `s` ends with `suffix`, character by character.
pub fn str_ends_with(s: &str, suffix: &str) -> (r: bool)
    ensures
        r == ends_with(s@, suffix@),
{
    let n = s.unicode_len();
    let k = suffix.unicode_len();
    if k > n {
        return false;
    }
    let mut i: usize = 0;
    while i < k
        invariant
            n == s@.len(),
            k == suffix@.len(),
            k <= n,
            i <= k,
            forall|j: int| 0 <= j < i ==> s@[n - k + j] == suffix@[j],
        decreases k - i,
    {
        if s.get_char(n - k + i) != suffix.get_char(i) {
            assert(s@.subrange(n - k, n as int)[i as int] != suffix@[i as int]);
            return false;
        }
        i = i + 1;
    }
    assert(s@.subrange(n - k, n as int) =~= suffix@);
    true
}

/// The stage of a shader resource, told by its extension: `.vert` for the
/// vertex stage, `.frag` for the fragment stage.
pub fn shader_kind_for_resource(name: &str) -> (r: Result<ShaderKind, Error>)
    ensures
        ends_with(name@, vert_ext()) ==> r == Ok::<ShaderKind, Error>(ShaderKind::Vertex),
        !ends_with(name@, vert_ext()) && ends_with(name@, frag_ext()) ==> r == Ok::<
            ShaderKind,
            Error,
        >(ShaderKind::Fragment),
        !ends_with(name@, vert_ext()) && !ends_with(name@, frag_ext()) ==> (r matches Err(
            Error::CanNotDetermineShaderTypeForResource { name: n },
        ) && n@ == name@),
{
    proof {
        reveal_strlit(".vert");
        reveal_strlit(".frag");
    }
    assert(".vert"@ =~= vert_ext());
    assert(".frag"@ =~= frag_ext());
    if str_ends_with(name, ".vert") {
        Ok(ShaderKind::Vertex)
    } else if str_ends_with(name, ".frag") {
        Ok(ShaderKind::Fragment)
    } else {
        Err(Error::CanNotDetermineShaderTypeForResource { name: String::from_str(name) })
    }
}

/// The two resources a program called `name` is built from: its vertex
/// source, then its fragment source.
pub fn program_resource_names(name: &str) -> (r: Vec<String>)
    ensures
        r@.len() == 2,
        r@[0]@ == name@ + vert_ext(),
        r@[1]@ == name@ + frag_ext(),
{
    proof {
        reveal_strlit(".vert");
        reveal_strlit(".frag");
    }
    assert(".vert"@ =~= vert_ext());
    assert(".frag"@ =~= frag_ext());
    let vert = String::from_str(name).concat(".vert");
    let frag = String::from_str(name).concat(".frag");
    let mut r: Vec<String> = Vec::new();
    r.push(vert);
    r.push(frag);
    r
}

/// The outcome of a driver step that reports `status` zero on failure,
/// with `log` as its diagnostic: the log itself is the error.
pub fn status_outcome(status: i32, log: String) -> (r: Result<(), String>)
    ensures
        status != 0 ==> r is Ok,
        status == 0 ==> (r is Err && r->Err_0@ == log@),
{
    if status == 0 {
        Err(log)
    } else {
        Ok(())
    }
}

/// Charges a failed load of resource `name` to that resource.
pub fn resource_load_outcome<T>(name: &str, loaded: Result<T, resources::Error>) -> (r: Result<
    T,
    Error,
>)
    ensures
        loaded is Ok ==> (r is Ok && r->Ok_0 == loaded->Ok_0),
        loaded is Err ==> (r matches Err(Error::ResourceLoad { name: n, inner }) && n@ == name@
            && inner == loaded->Err_0),
{
    match loaded {
        Ok(v) => Ok(v),
        Err(inner) => Err(Error::ResourceLoad { name: String::from_str(name), inner }),
    }
}

/// The outcome of compiling the shader `name`: the driver reports
/// `status` zero on failure, with `log` as its diagnostic.
pub fn compile_outcome(name: &str, status: i32, log: String) -> (r: Result<(), Error>)
    ensures
        status != 0 ==> r is Ok,
        status == 0 ==> (r matches Err(Error::CompileError { name: n, message: m }) && n@ == name@
            && m@ == log@),
{
    if status == 0 {
        Err(Error::CompileError { name: String::from_str(name), message: log })
    } else {
        Ok(())
    }
}

/// The outcome of linking the program `name`: the driver reports `status`
/// zero on failure, with `log` as its diagnostic.
pub fn link_outcome(name: &str, status: i32, log: String) -> (r: Result<(), Error>)
    ensures
        status != 0 ==> r is Ok,
        status == 0 ==> (r matches Err(Error::LinkError { name: n, message: m }) && n@ == name@
            && m@ == log@),
{
    if status == 0 {
        Err(Error::LinkError { name: String::from_str(name), message: log })
    } else {
        Ok(())
    }
}

/// A buffer of `len` spaces for the driver to write a diagnostic log into.
pub fn whitespace_buffer(len: usize) -> (r: Vec<u8>)
    ensures
        r@.len() == len,
        forall|i: int| 0 <= i < len ==> r@[i] == 32u8,
{
    let mut buffer: Vec<u8> = Vec::with_capacity(len);
    let mut i: usize = 0;
    while i < len
        invariant
            i <= len,
            buffer@.len() == i,
            forall|j: int| 0 <= j < i ==> buffer@[j] == 32u8,
        decreases len - i,
    {
        buffer.push(32u8);
        i = i + 1;
    }
    buffer
}

} // verus!
