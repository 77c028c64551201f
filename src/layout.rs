use vstd::prelude::*;

use crate::manifest::{ExtensionInfo, Identity};

verus! {

/// `file` placed in the directory `dir`.
pub open spec fn join_path(dir: Seq<char>, file: Seq<char>) -> Seq<char> {
    if dir.len() == 0 {
        file
    } else if dir.last() == '/' {
        dir + file
    } else {
        dir + seq!['/'] + file
    }
}

/// The versioned install script: `<name>--<version>.sql`.
pub open spec fn script_name(id: Identity) -> Seq<char> {
    id.name + "--"@ + id.version + ".sql"@
}

/// The descriptor: `<name>.control`.
pub open spec fn descriptor_name(id: Identity) -> Seq<char> {
    id.name + ".control"@
}

/// The generated registration source: `<name>.c`.
pub open spec fn source_name(id: Identity) -> Seq<char> {
    id.name + ".c"@
}

/// The compiled registration object: `<name>.o`.
pub open spec fn object_name(id: Identity) -> Seq<char> {
    id.name + ".o"@
}

/// The shared library: `lib<name>.so`.
pub open spec fn library_name(id: Identity) -> Seq<char> {
    "lib"@ + id.name + ".so"@
}

/// The project's pre-built static archive.
pub open spec fn archive_path(id: Identity) -> Seq<char> {
    "target/release/lib"@ + id.name + ".a"@
}

/// The descriptor's lines: a comment naming the extension, then one
/// `key = 'value'` line each for the description, the version and the module
/// path, and the fixed relocatable flag.
pub open spec fn descriptor_lines(id: Identity) -> Seq<Seq<char>> {
    seq![
        "# "@ + id.name + " extension"@,
        "comment = '"@ + id.description + "'"@,
        "default_version = '"@ + id.version + "'"@,
        "module_pathname = '$libdir/"@ + id.name + "'"@,
        "relocatable=true"@,
    ]
}

/// The descriptor's text: each of its lines, ended by a newline.
pub open spec fn descriptor_text(id: Identity) -> Seq<char> {
    let ls = descriptor_lines(id);
    let nl = seq!['\n'];
    ls[0] + nl + ls[1] + nl + ls[2] + nl + ls[3] + nl + ls[4] + nl
}

/// The pieces of `t` between the occurrences of `sep`, in order: one more
/// piece than there are separators, empty pieces included.
pub open spec fn split_on(t: Seq<char>, sep: char) -> Seq<Seq<char>>
    decreases t.len(),
{
    if t.len() == 0 {
        seq![seq![]]
    } else if t.last() == sep {
        split_on(t.drop_last(), sep).push(seq![])
    } else {
        let p = split_on(t.drop_last(), sep);
        p.update(p.len() - 1, p.last().push(t.last()))
    }
}

/// The value that a descriptor line gives after `opening`, up to the closing quote.
pub open spec fn line_value(line: Seq<char>, opening: Seq<char>) -> Option<Seq<char>> {
    if line.len() > opening.len() && line.take(opening.len() as int) == opening && line.last()
        == '\'' {
        Some(line.subrange(opening.len() as int, line.len() - 1))
    } else {
        None
    }
}

/// The value of the first line that begins with `opening`.
pub open spec fn first_value(lines: Seq<Seq<char>>, opening: Seq<char>) -> Option<Seq<char>>
    decreases lines.len(),
{
    if lines.len() == 0 {
        None
    } else {
        match line_value(lines[0], opening) {
            Some(v) => Some(v),
            None => first_value(lines.drop_first(), opening),
        }
    }
}

/// The identity that a descriptor text holds, read line by line: the name from
/// the module path, the description and the version from their own lines.
pub open spec fn read_descriptor(text: Seq<char>) -> Option<Identity> {
    let ls = split_on(text, '\n');
    match (
        first_value(ls, "module_pathname = '$libdir/"@),
        first_value(ls, "comment = '"@),
        first_value(ls, "default_version = '"@),
    ) {
        (Some(name), Some(description), Some(version)) => Some(
            Identity { name, description, version },
        ),
        _ => None,
    }
}

/// Text without a line break.
pub open spec fn no_newline(s: Seq<char>) -> bool {
    forall|i: int| 0 <= i < s.len() ==> s[i] != '\n'
}

/// Splitting never gives an empty list of pieces.
pub proof fn lemma_split_nonempty(t: Seq<char>, sep: char)
    ensures
        split_on(t, sep).len() >= 1,
    decreases t.len(),
{
    if t.len() > 0 {
        lemma_split_nonempty(t.drop_last(), sep);
    }
}

/// A text without the separator is a single piece.
pub proof fn lemma_split_plain(t: Seq<char>, sep: char)
    requires
        forall|i: int| 0 <= i < t.len() ==> t[i] != sep,
    ensures
        split_on(t, sep) == seq![t],
    decreases t.len(),
{
    if t.len() > 0 {
        lemma_split_plain(t.drop_last(), sep);
        assert(t.drop_last().push(t.last()) == t);
        assert(seq![t.drop_last()].update(0, t.drop_last().push(t.last())) == seq![t]);
    } else {
        assert(t == Seq::<char>::empty());
    }
}

/// The pieces of two texts joined by the separator are the pieces of the first
/// followed by those of the second.
pub proof fn lemma_split_join(x: Seq<char>, y: Seq<char>, sep: char)
    ensures
        split_on(x + seq![sep] + y, sep) == split_on(x, sep) + split_on(y, sep),
    decreases y.len(),
{
    let t = x + seq![sep] + y;
    if y.len() == 0 {
        assert(t.drop_last() == x);
        assert(split_on(y, sep) == seq![Seq::<char>::empty()]);
        assert(split_on(x, sep).push(seq![]) == split_on(x, sep) + seq![Seq::<char>::empty()]);
    } else {
        assert(t.drop_last() == x + seq![sep] + y.drop_last());
        lemma_split_join(x, y.drop_last(), sep);
        lemma_split_nonempty(y.drop_last(), sep);
        lemma_split_nonempty(x, sep);
        let a = split_on(x, sep);
        let b = split_on(y.drop_last(), sep);
        if y.last() == sep {
            assert((a + b).push(seq![]) == a + b.push(seq![]));
        } else {
            assert((a + b).update((a + b).len() - 1, (a + b).last().push(y.last())) == a
                + b.update(b.len() - 1, b.last().push(y.last())));
        }
    }
}

/// A descriptor line holds no line break where the values put into it hold none.
proof fn lemma_lines_plain(id: Identity)
    requires
        no_newline(id.name),
        no_newline(id.description),
        no_newline(id.version),
    ensures
        forall|k: int| 0 <= k < 5 ==> no_newline(#[trigger] descriptor_lines(id)[k]),
{
    reveal_strlit("# ");
    reveal_strlit(" extension");
    reveal_strlit("comment = '");
    reveal_strlit("'");
    reveal_strlit("default_version = '");
    reveal_strlit("module_pathname = '$libdir/");
    reveal_strlit("relocatable=true");
    let ls = descriptor_lines(id);
    assert forall|k: int| 0 <= k < 5 implies no_newline(#[trigger] ls[k]) by {
        assert forall|i: int| 0 <= i < ls[k].len() implies ls[k][i] != '\n' by {
            if k == 0 {
                if i >= 2 && i < 2 + id.name.len() {
                    assert(ls[k][i] == id.name[i - 2]);
                }
            } else if k == 1 {
                if i >= 11 && i < 11 + id.description.len() {
                    assert(ls[k][i] == id.description[i - 11]);
                }
            } else if k == 2 {
                if i >= 19 && i < 19 + id.version.len() {
                    assert(ls[k][i] == id.version[i - 19]);
                }
            } else if k == 3 {
                if i >= 27 && i < 27 + id.name.len() {
                    assert(ls[k][i] == id.name[i - 27]);
                }
            }
        }
    }
}

/// A descriptor text splits into its lines and one empty piece after the last
/// line break.
proof fn lemma_descriptor_split(id: Identity)
    requires
        no_newline(id.name),
        no_newline(id.description),
        no_newline(id.version),
    ensures
        split_on(descriptor_text(id), '\n') == descriptor_lines(id).push(seq![]),
{
    let ls = descriptor_lines(id);
    let nl = seq!['\n'];
    lemma_lines_plain(id);
    assert(no_newline(ls[0]) && no_newline(ls[1]) && no_newline(ls[2]) && no_newline(ls[3])
        && no_newline(ls[4]));
    let e = Seq::<char>::empty();
    let t4 = ls[4] + nl + e;
    let t3 = ls[3] + nl + t4;
    let t2 = ls[2] + nl + t3;
    let t1 = ls[1] + nl + t2;
    let t0 = ls[0] + nl + t1;
    assert(t0 == descriptor_text(id));
    lemma_split_join(ls[4], e, '\n');
    lemma_split_join(ls[3], t4, '\n');
    lemma_split_join(ls[2], t3, '\n');
    lemma_split_join(ls[1], t2, '\n');
    lemma_split_join(ls[0], t1, '\n');
    lemma_split_plain(ls[0], '\n');
    lemma_split_plain(ls[1], '\n');
    lemma_split_plain(ls[2], '\n');
    lemma_split_plain(ls[3], '\n');
    lemma_split_plain(ls[4], '\n');
    assert(split_on(e, '\n') == seq![e]);
    assert(split_on(t0, '\n') == ls.push(seq![]));
}

/// Writing a descriptor and reading it back line by line gives back the same
/// name, description and version, for values that hold no line break.
pub proof fn lemma_descriptor_round_trip(id: Identity)
    requires
        no_newline(id.name),
        no_newline(id.description),
        no_newline(id.version),
    ensures
        read_descriptor(descriptor_text(id)) == Some(id),
{
    reveal_strlit("# ");
    reveal_strlit(" extension");
    reveal_strlit("comment = '");
    reveal_strlit("'");
    reveal_strlit("default_version = '");
    reveal_strlit("module_pathname = '$libdir/");
    reveal_strlit("relocatable=true");
    lemma_descriptor_split(id);
    let ls = descriptor_lines(id).push(seq![]);
    let path = "module_pathname = '$libdir/"@;
    let comment = "comment = '"@;
    let version = "default_version = '"@;
    assert(line_value(ls[0], path) is None);
    assert(line_value(ls[0], comment) is None);
    assert(line_value(ls[0], version) is None);
    assert(ls[1].take(comment.len() as int) == comment);
    assert(ls[1].subrange(comment.len() as int, ls[1].len() - 1) == id.description);
    assert(line_value(ls[1], comment) == Some(id.description));
    assert(line_value(ls[1], path) is None) by {
        if ls[1].len() > path.len() && ls[1].take(path.len() as int) == path {
            assert(ls[1].take(path.len() as int)[0] == ls[1][0]);
        }
    }
    assert(line_value(ls[1], version) is None) by {
        if ls[1].len() > version.len() && ls[1].take(version.len() as int) == version {
            assert(ls[1].take(version.len() as int)[0] == ls[1][0]);
        }
    }
    assert(ls[2].take(version.len() as int) == version);
    assert(ls[2].subrange(version.len() as int, ls[2].len() - 1) == id.version);
    assert(line_value(ls[2], version) == Some(id.version));
    assert(line_value(ls[2], path) is None) by {
        if ls[2].len() > path.len() && ls[2].take(path.len() as int) == path {
            assert(ls[2].take(path.len() as int)[0] == ls[2][0]);
        }
    }
    assert(ls[3].take(path.len() as int) == path);
    assert(ls[3].subrange(path.len() as int, ls[3].len() - 1) == id.name);
    assert(line_value(ls[3], path) == Some(id.name));
    let l1 = ls.drop_first();
    let l2 = l1.drop_first();
    let l3 = l2.drop_first();
    assert(l1[0] == ls[1] && l2[0] == ls[2] && l3[0] == ls[3]);
    assert(first_value(l3, path) == Some(id.name));
    assert(first_value(l2, path) == Some(id.name));
    assert(first_value(l1, path) == Some(id.name));
    assert(first_value(ls, path) == Some(id.name));
    assert(first_value(l2, version) == Some(id.version));
    assert(first_value(l1, version) == Some(id.version));
    assert(first_value(ls, version) == Some(id.version));
    assert(first_value(l1, comment) == Some(id.description));
    assert(first_value(ls, comment) == Some(id.description));
    assert(Identity { name: id.name, description: id.description, version: id.version } == id);
}

/// `a` followed by `b`.
fn concat(a: &str, b: &str) -> (r: String)
    ensures
        r@ == a@ + b@,
{
    let mut r = String::from_str(a);
    r.append(b);
    r
}

/// `a`, `b` and `c` one after another.
fn concat3(a: &str, b: &str, c: &str) -> (r: String)
    ensures
        r@ == a@ + b@ + c@,
{
    let mut r = String::from_str(a);
    r.append(b);
    r.append(c);
    r
}

/// `file` placed in the directory `dir`: a separator is put between them
/// unless `dir` is empty or already ends with one.
pub fn join_path_exec(dir: &str, file: &str) -> (r: String)
    ensures
        r@ == join_path(dir@, file@),
{
    let n: usize = dir.unicode_len();
    if n == 0 {
        String::from_str(file)
    } else if dir.get_char(n - 1) == '/' {
        concat(dir, file)
    } else {
        proof {
            reveal_strlit("/");
        }
        concat3(dir, "/", file)
    }
}

impl ExtensionInfo {
    /// The file name of the versioned install script.
    pub fn script_name(&self) -> (r: String)
        ensures
            r@ == script_name(self@),
    {
        let mut r = concat3(self.name.as_str(), "--", self.version.as_str());
        r.append(".sql");
        r
    }

    /// The file name of the descriptor.
    pub fn descriptor_name(&self) -> (r: String)
        ensures
            r@ == descriptor_name(self@),
    {
        concat(self.name.as_str(), ".control")
    }

    /// The file name of the generated registration source.
    pub fn source_name(&self) -> (r: String)
        ensures
            r@ == source_name(self@),
    {
        concat(self.name.as_str(), ".c")
    }

    /// The file name of the compiled registration object.
    pub fn object_name(&self) -> (r: String)
        ensures
            r@ == object_name(self@),
    {
        concat(self.name.as_str(), ".o")
    }

    /// The file name of the shared library.
    pub fn library_name(&self) -> (r: String)
        ensures
            r@ == library_name(self@),
    {
        concat3("lib", self.name.as_str(), ".so")
    }

    /// Where the project's static archive lies, relative to the project.
    pub fn archive_path(&self) -> (r: String)
        ensures
            r@ == archive_path(self@),
    {
        concat3("target/release/lib", self.name.as_str(), ".a")
    }

    /// The text of the descriptor file.
    pub fn descriptor_text(&self) -> (r: String)
        ensures
            r@ == descriptor_text(self@),
    {
        proof {
            reveal_strlit("\n");
        }
        let mut r = concat3("# ", self.name.as_str(), " extension");
        r.append("\n");
        r.append("comment = '");
        r.append(self.description.as_str());
        r.append("'");
        r.append("\n");
        r.append("default_version = '");
        r.append(self.version.as_str());
        r.append("'");
        r.append("\n");
        r.append("module_pathname = '$libdir/");
        r.append(self.name.as_str());
        r.append("'");
        r.append("\n");
        r.append("relocatable=true");
        r.append("\n");
        r
    }
}

} // verus!
