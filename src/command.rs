use vstd::prelude::*;
use vstd::utf8::{decode_utf8, valid_utf8};

use crate::error::{BuildError, HostQuery};
use crate::layout::{archive_path, split_on};
use crate::manifest::{ExtensionInfo, Identity};
use crate::scanner::names_view;

verus! {

/// What an external process left once it ended: whether it exited with
/// success, and what it wrote to its output and error streams.
#[derive(Debug, Clone)]
pub struct ProcessOutput {
    pub success: bool,
    pub stdout: Vec<u8>,
    pub stderr: Vec<u8>,
}

/// Text with the white space at both ends taken away.
pub uninterp spec fn trimmed(s: Seq<char>) -> Seq<char>;

/// Relies on `std::str::from_utf8`: the text that the bytes encode where they
/// are valid UTF-8, and nothing otherwise.
#[verifier::external_body]
pub(crate) fn utf8_text(b: &[u8]) -> (r: Option<&str>)
    ensures
        r is Some <==> valid_utf8(b@),
        r is Some ==> r->Some_0@ == decode_utf8(b@),
{
    std::str::from_utf8(b).ok()
}

/// Relies on `str::trim`: which characters count as white space is Unicode's
/// property, so the result is only named.
#[verifier::external_body]
fn trim_text(s: &str) -> (r: &str)
    ensures
        r@ == trimmed(s@),
{
    s.trim()
}

/// The flag that asks the host's configuration tool for a directory.
pub open spec fn query_flag(q: HostQuery) -> Seq<char> {
    match q {
        HostQuery::IncludeDir => "--includedir-server"@,
        HostQuery::ModuleDir => "--pkglibdir"@,
        HostQuery::ShareDir => "--sharedir"@,
    }
}

impl HostQuery {
    /// The flag that asks the host's configuration tool for this directory.
    pub fn flag(&self) -> (r: &'static str)
        ensures
            r@ == query_flag(*self),
    {
        match self {
            HostQuery::IncludeDir => "--includedir-server",
            HostQuery::ModuleDir => "--pkglibdir",
            HostQuery::ShareDir => "--sharedir",
        }
    }
}

/// The directory that a run of the host's configuration tool printed: its
/// output as text, trimmed. A failed run, or output that is no UTF-8 text,
/// leaves the directory unknown.
pub fn host_dir(output: &ProcessOutput, query: HostQuery) -> (r: Result<String, BuildError>)
    ensures
        if output.success && valid_utf8(output.stdout@) {
            r is Ok && r->Ok_0@ == trimmed(decode_utf8(output.stdout@))
        } else {
            r == Err::<String, BuildError>(BuildError::HostConfigUnavailable(query))
        },
{
    if !output.success {
        return Err(BuildError::HostConfigUnavailable(query));
    }
    match utf8_text(output.stdout.as_slice()) {
        Some(text) => Ok(String::from_str(trim_text(text))),
        None => Err(BuildError::HostConfigUnavailable(query)),
    }
}

/// The pieces of `s` between single spaces, empty pieces included, as
/// `str::split(' ')` gives them.
pub fn split_spaces(s: &str) -> (r: Vec<String>)
    ensures
        names_view(r@) == split_on(s@, ' '),
{
    let n: usize = s.unicode_len();
    let mut pieces: Vec<String> = Vec::new();
    let mut start: usize = 0;
    let mut i: usize = 0;
    assert(s@.take(0) == Seq::<char>::empty());
    assert(names_view(pieces@).push(s@.subrange(0, 0)) == seq![Seq::<char>::empty()]);
    while i < n
        invariant
            n == s@.len(),
            start <= i <= n,
            names_view(pieces@).push(s@.subrange(start as int, i as int)) == split_on(
                s@.take(i as int),
                ' ',
            ),
        decreases n - i,
    {
        let c = s.get_char(i);
        let ghost before = names_view(pieces@);
        assert(s@.take(i + 1).drop_last() == s@.take(i as int));
        assert(s@.take(i + 1).last() == c);
        if c == ' ' {
            pieces.push(String::from_str(s.substring_char(start, i)));
            assert(names_view(pieces@) == before.push(s@.subrange(start as int, i as int)));
            start = i + 1;
            assert(s@.subrange(start as int, i + 1) == Seq::<char>::empty());
        } else {
            assert(s@.subrange(start as int, i + 1) == s@.subrange(start as int, i as int).push(c));
            assert(before.push(s@.subrange(start as int, i as int)).update(
                before.len() as int,
                s@.subrange(start as int, i as int).push(c),
            ) == before.push(s@.subrange(start as int, i + 1)));
        }
        i = i + 1;
    }
    pieces.push(String::from_str(s.substring_char(start, n)));
    assert(s@.take(n as int) == s@);
    pieces
}

/// The arguments that compile the registration source into a
/// position-independent object against the host's headers.
pub open spec fn compile_args(
    source: Seq<char>,
    object: Seq<char>,
    include_dir: Seq<char>,
    id: Identity,
) -> Seq<Seq<char>> {
    seq![
        "-c"@,
        source,
        "-fPIC"@,
        "-o"@,
        object,
        "-I"@ + include_dir,
        "-Ltarget/release"@,
        "-l"@ + id.name,
    ]
}

/// The arguments that link the object and the whole static archive into the
/// shared library, followed by the extra flags split at single spaces.
pub open spec fn link_args(
    object: Seq<char>,
    library: Seq<char>,
    id: Identity,
    extra: Option<Seq<char>>,
) -> Seq<Seq<char>> {
    let base = seq![
        object,
        "-shared"@,
        "-o"@,
        library,
        "-Wl,--whole-archive"@,
        archive_path(id),
        "-Wl,--no-whole-archive"@,
    ];
    match extra {
        Some(e) => base + split_on(e, ' '),
        None => base,
    }
}

/// `a` followed by `b`.
fn prefixed(a: &str, b: &str) -> (r: String)
    ensures
        r@ == a@ + b@,
{
    let mut r = String::from_str(a);
    r.append(b);
    r
}

/// The compiler's arguments for the object file.
pub fn compile_command(source: &str, object: &str, include_dir: &str, info: &ExtensionInfo) -> (r:
    Vec<String>)
    ensures
        names_view(r@) == compile_args(source@, object@, include_dir@, info@),
{
    let mut r: Vec<String> = Vec::new();
    r.push(String::from_str("-c"));
    r.push(String::from_str(source));
    r.push(String::from_str("-fPIC"));
    r.push(String::from_str("-o"));
    r.push(String::from_str(object));
    r.push(prefixed("-I", include_dir));
    r.push(String::from_str("-Ltarget/release"));
    r.push(prefixed("-l", info.name.as_str()));
    assert(names_view(r@) == compile_args(source@, object@, include_dir@, info@));
    r
}

/// The compiler's arguments for the shared library.
pub fn link_command(object: &str, library: &str, info: &ExtensionInfo, extra: Option<&str>) -> (r:
    Vec<String>)
    ensures
        names_view(r@) == link_args(
            object@,
            library@,
            info@,
            match extra {
                Some(e) => Some(e@),
                None => None,
            },
        ),
{
    let mut r: Vec<String> = Vec::new();
    r.push(String::from_str(object));
    r.push(String::from_str("-shared"));
    r.push(String::from_str("-o"));
    r.push(String::from_str(library));
    r.push(String::from_str("-Wl,--whole-archive"));
    r.push(info.archive_path());
    r.push(String::from_str("-Wl,--no-whole-archive"));
    let ghost base = names_view(r@);
    match extra {
        Some(e) => {
            let mut pieces = split_spaces(e);
            r.append(&mut pieces);
            assert(names_view(r@) == base + split_on(e@, ' '));
        },
        None => {},
    }
    r
}

} // verus!
