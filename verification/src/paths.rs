//! File paths, as the host takes them apart.

use vstd::prelude::*;

use crate::strings;

verus! {

/// Whether some host separates the components of a path by `c`.
pub open spec fn may_separate(c: char) -> bool {
    c == '/' || c == '\\'
}

/// Whether `name` is the name of an entry of a directory on every host.
pub open spec fn is_entry_name(name: Seq<char>) -> bool {
    &&& name.len() > 0
    &&& !name.contains('/')
    &&& !name.contains('\\')
    &&& name != seq!['.']
    &&& name != seq!['.', '.']
}

/// Whether `path` may start with the letter of a drive.
pub open spec fn may_have_drive(path: Seq<char>) -> bool {
    path.len() > 1 && path[1] == ':'
}

/// Whether `name` is a file name that no host reads as anything but one.
pub open spec fn is_plain_name(name: Seq<char>) -> bool {
    is_entry_name(name) && !may_have_drive(name)
}

/// Whether `path` starts with two separators, behind which some hosts have rules of their own.
pub open spec fn has_double_start(path: Seq<char>) -> bool {
    path.len() > 1 && may_separate(path[0]) && may_separate(path[1])
}

/// Whether every host takes what stands behind the last slash of `path` for its file name: it is a
/// name, and nothing before it has rules of its own.
pub open spec fn ends_in_name(path: Seq<char>) -> bool {
    &&& !has_double_start(path)
    &&& is_entry_name(name_part(path))
    &&& strings::last_position(path, '/') is None ==> !may_have_drive(path)
}

/// Whether every host takes `directory` as it is where it stands before a slash: it ends in no
/// separator and in no lone dot, and it is not only a drive.
pub open spec fn is_settled(directory: Seq<char>) -> bool {
    let n = directory.len();
    &&& n > 0
    &&& !may_separate(directory[n - 1])
    &&& !(n == 2 && may_have_drive(directory))
    &&& !(n > 1 && directory[n - 1] == '.' && may_separate(directory[n - 2]))
    &&& !(n == 3 && directory[2] == '.' && may_have_drive(directory))
}

/// Whether `path` is a file name, or a directory, a slash and a file name, in a form that every
/// host takes apart alike.
pub open spec fn is_ordinary(path: Seq<char>) -> bool {
    &&& ends_in_name(path)
    &&& strings::last_position(path, '/') matches Some(p) ==> p == 0 || is_settled(path.take(p))
}

/// What stands behind the last slash of `path`.
pub open spec fn name_part(path: Seq<char>) -> Seq<char> {
    match strings::last_position(path, '/') {
        None => path,
        Some(p) => path.skip(p + 1),
    }
}

/// What stands before the last slash of `path`, or that slash where nothing does.
pub open spec fn directory_part(path: Seq<char>) -> Seq<char> {
    match strings::last_position(path, '/') {
        None => Seq::empty(),
        Some(p) => if p == 0 {
            seq!['/']
        } else {
            path.take(p)
        },
    }
}

/// Whether `path` is `directory` and `name` with a separator between them. None is needed behind
/// nothing and behind a slash. Whether one is needed behind a backslash or a colon, which may be
/// that of a drive, depends on the host.
pub open spec fn is_directory_and_name(
    path: Seq<char>,
    directory: Seq<char>,
    name: Seq<char>,
) -> bool {
    let with_slash = directory.push('/') + name;
    let with_backslash = directory.push('\\') + name;
    if directory.len() == 0 {
        path == name
    } else if directory.last() == '/' {
        path == directory + name
    } else if directory.last() == '\\' {
        path == directory + name || path == with_slash
    } else if directory.last() == ':' {
        path == directory + name || path == with_slash || path == with_backslash
    } else {
        path == with_slash || path == with_backslash
    }
}

/// Whether `path` is `directory` and `name` with a slash between them, or without one where none
/// is needed.
pub open spec fn is_joined_by_slash(
    path: Seq<char>,
    directory: Seq<char>,
    name: Seq<char>,
) -> bool {
    if directory.len() == 0 || directory.last() == '/' {
        path == directory + name
    } else {
        path == directory.push('/') + name
    }
}

/// Whether every host gives `directory` back where it is part of a path: it is empty, the root, or
/// one that is taken as it is.
pub open spec fn is_bare_directory(directory: Seq<char>) -> bool {
    directory.len() == 0 || directory == seq!['/'] || is_settled(directory)
}

/// A path that was made of a directory and a name with a slash between them is taken apart into
/// these two.
pub proof fn joined_paths_are_taken_apart(
    path: Seq<char>,
    directory: Seq<char>,
    name: Seq<char>,
)
    requires
        is_plain_name(name),
        is_joined_by_slash(path, directory, name),
        !has_double_start(path),
    ensures
        ends_in_name(path),
        name_part(path) == name,
        is_bare_directory(directory) ==> is_ordinary(path) && directory_part(path) == directory,
{
    if directory.len() == 0 {
        assert(path =~= name);
        strings::last_position_is_last(name, '/');
        if let Some(p) = strings::last_position(name, '/') {
            assert(name.contains(name[p]));
        }
    } else if directory.last() == '/' {
        let p = directory.len() - 1;
        assert(path.skip(p + 1) =~= name);
        slash_is_last(path, p, name);
    } else {
        let p = directory.len() as int;
        assert(path.skip(p + 1) =~= name);
        slash_is_last(path, p, name);
        assert(path.take(p) =~= directory);
    }
}

/// A path that was made of a directory that every host gives back starts with two separators only
/// where the directory does.
pub proof fn joined_paths_start_simply(path: Seq<char>, directory: Seq<char>, name: Seq<char>)
    requires
        is_plain_name(name),
        is_joined_by_slash(path, directory, name),
        is_bare_directory(directory),
        !has_double_start(directory),
    ensures
        !has_double_start(path),
{
    assert(name.contains(name[0]));
    if directory.len() == 0 {
        assert(path =~= name);
    }
}

proof fn slash_is_last(path: Seq<char>, p: int, name: Seq<char>)
    requires
        0 <= p < path.len(),
        path[p] == '/',
        path.skip(p + 1) == name,
        !name.contains('/'),
    ensures
        strings::last_position(path, '/') == Some(p),
{
    assert forall|j: int| p < j < path.len() implies #[trigger] path[j] != '/' by {
        assert(name[j - p - 1] == path[j]);
        assert(name.contains(name[j - p - 1]));
    }
    strings::last_position_is_unique(path, '/', p);
}

/// `std::path::Path::parent`: the path without its final component. The parent is a start of the
/// path, the empty path has none, and the parent of an ordinary path is what stands before its
/// last slash, or the root. For other paths, such as those with a backslash behind the last slash
/// or with a lone drive before it, it depends on the host, and is left unsaid.
#[verifier::external_body]
fn host_parent(path: &str) -> (r: Option<String>)
    ensures
        r matches Some(p) ==> p@.is_prefix_of(path@),
        path@.len() == 0 ==> r is None,
        is_ordinary(path@) ==> r is Some && r->0@ == directory_part(path@),
{
    std::path::Path::new(path).parent().map(|p| p.to_string_lossy().into_owned())
}

/// `std::path::Path::file_name`: the final component of the path, if it is a name. The name is
/// not empty, and it holds no slash unless the path holds a backslash. The empty path has none,
/// and a name behind the last slash of a path is its name. For other paths, such as those with a
/// backslash behind the last slash, it depends on the host, and is left unsaid.
#[verifier::external_body]
fn host_file_name(path: &str) -> (r: Option<String>)
    ensures
        r matches Some(n) ==> n@.len() > 0 && (!path@.contains('\\') ==> !n@.contains('/')),
        path@.len() == 0 ==> r is None,
        ends_in_name(path@) ==> r is Some && r->0@ == name_part(path@),
{
    std::path::Path::new(path).file_name().map(|n| n.to_string_lossy().into_owned())
}

/// `std::path::Path::join`: the path of `name` in `directory`. A plain name comes behind the
/// directory, with a separator of the host between the two where one is needed. Where `name` is no
/// plain name, a host may take it for a path of its own that replaces the directory, but the
/// result ends in it all the same. Where `directory` starts with two separators, a host may tidy
/// it up, and nothing is said.
#[verifier::external_body]
fn host_join(directory: &str, name: &str) -> (r: String)
    ensures
        !has_double_start(directory@) ==> name@.is_suffix_of(r@),
        !has_double_start(directory@) && is_plain_name(name@) ==> is_directory_and_name(
            r@,
            directory@,
            name@,
        ),
{
    std::path::Path::new(directory).join(name).to_string_lossy().into_owned()
}

/// `std::path::is_separator`: whether the host separates the components of a path by `c`. Every
/// host does so by the slash, some by the backslash too, and none by another character.
#[verifier::external_body]
pub(crate) fn host_separator(c: char) -> (b: bool)
    ensures
        c == '/' ==> b,
        b ==> c == '/' || c == '\\',
{
    std::path::is_separator(c)
}

/// A path, with the directory and the file name that the host finds in it.
#[derive(Debug, PartialEq)]
pub struct FilePath {
    pub text: String,
    pub parent: Option<String>,
    pub file_name: Option<String>,
}

impl Clone for FilePath {
    fn clone(&self) -> (r: Self)
        ensures
            r == *self,
    {
        FilePath {
            text: self.text.clone(),
            parent: clone_text(&self.parent),
            file_name: clone_text(&self.file_name),
        }
    }
}

/// A copy of a text that may be missing.
pub(crate) fn clone_text(text: &Option<String>) -> (r: Option<String>)
    ensures
        r == *text,
{
    match text {
        Some(t) => Some(t.clone()),
        None => None,
    }
}

/// The characters of a text that may be missing.
pub open spec fn optional_text(text: Option<String>) -> Option<Seq<char>> {
    match text {
        Some(t) => Some(t@),
        None => None,
    }
}

impl FilePath {
    /// What holds of every path that a host has taken apart.
    pub open spec fn is_host_path(self) -> bool {
        &&& self.parent matches Some(p) ==> p@.is_prefix_of(self.text@)
        &&& self.file_name matches Some(n) ==> n@.len() > 0 && (!self.text@.contains('\\')
            ==> !n@.contains('/'))
        &&& self.text@.len() == 0 ==> self.parent is None && self.file_name is None
        &&& ends_in_name(self.text@) ==> optional_text(self.file_name) == Some(
            name_part(self.text@),
        )
        &&& is_ordinary(self.text@) ==> optional_text(self.parent) == Some(
            directory_part(self.text@),
        )
    }

    /// The path that `text` denotes on this host.
    pub fn new(text: &str) -> (r: Self)
        ensures
            r.text@ == text@,
            r.is_host_path(),
    {
        FilePath {
            text: text.to_string(),
            parent: host_parent(text),
            file_name: host_file_name(text),
        }
    }

    /// The empty path.
    pub fn empty() -> (r: Self)
        ensures
            r.text@.len() == 0,
            r.parent is None,
            r.file_name is None,
            r.is_host_path(),
    {
        let r = FilePath { text: String::new(), parent: None, file_name: None };
        assert(!ends_in_name(r.text@));
        r
    }

    /// Whether this is the empty path.
    pub fn is_empty(&self) -> (b: bool)
        ensures
            b == (self.text@.len() == 0),
    {
        self.text.as_str().is_empty()
    }

    /// The path of `name` in `directory`.
    pub fn in_directory(directory: &str, name: &str) -> (r: Self)
        ensures
            r.is_in_directory(directory@, name@),
    {
        let text = host_join(directory, name);
        let r = FilePath::new(text.as_str());
        proof {
            if is_plain_name(name@) && is_joined_by_slash(r.text@, directory@, name@)
                && !has_double_start(r.text@) {
                joined_paths_are_taken_apart(r.text@, directory@, name@);
            }
        }
        r
    }

    /// Whether this is the path of `name` in `directory`: the two with a separator between them,
    /// and, where that is a slash, the host finds the two in it, the directory if every host gives
    /// it back. Where some host does not read `name` as a plain name, the path only ends in it.
    pub open spec fn is_in_directory(self, directory: Seq<char>, name: Seq<char>) -> bool {
        &&& self.is_host_path()
        &&& !has_double_start(directory) ==> name.is_suffix_of(self.text@)
        &&& !has_double_start(directory) && is_plain_name(name) ==> {
            &&& is_directory_and_name(self.text@, directory, name)
            &&& is_joined_by_slash(self.text@, directory, name) && !has_double_start(self.text@)
                ==> {
                &&& optional_text(self.file_name) == Some(name)
                &&& is_bare_directory(directory) ==> optional_text(self.parent) == Some(directory)
            }
        }
    }

    /// The extension of the file name: what stands behind its last dot, if that dot is not its
    /// first character.
    pub open spec fn spec_extension(self) -> Option<Seq<char>> {
        match self.file_name {
            None => None,
            Some(n) => match strings::last_position(n@, '.') {
                Some(p) if p > 0 => Some(n@.skip(p + 1)),
                _ => None,
            },
        }
    }

    /// The file name without its extension.
    pub open spec fn spec_file_stem(self) -> Option<Seq<char>> {
        match self.file_name {
            None => None,
            Some(n) => match strings::last_position(n@, '.') {
                Some(p) if p > 0 => Some(n@.take(p)),
                _ => Some(n@),
            },
        }
    }

    /// The extension of the file name.
    pub fn extension(&self) -> (r: Option<String>)
        ensures
            optional_text(r) == self.spec_extension(),
    {
        match &self.file_name {
            None => None,
            Some(name) => {
                let chars = strings::chars_of(name.as_str());
                match strings::find_last(&chars, '.') {
                    Some(p) => {
                        if p > 0 {
                            let r = strings::string_of(&chars, p + 1, chars.len());
                            assert(r@ =~= name@.skip(p + 1));
                            Some(r)
                        } else {
                            None
                        }
                    },
                    None => None,
                }
            },
        }
    }

    /// The file name without its extension.
    pub fn file_stem(&self) -> (r: Option<String>)
        ensures
            optional_text(r) == self.spec_file_stem(),
    {
        match &self.file_name {
            None => None,
            Some(name) => {
                let chars = strings::chars_of(name.as_str());
                match strings::find_last(&chars, '.') {
                    Some(p) => {
                        if p > 0 {
                            let r = strings::string_of(&chars, 0, p);
                            assert(r@ =~= name@.take(p as int));
                            Some(r)
                        } else {
                            Some(name.clone())
                        }
                    },
                    None => Some(name.clone()),
                }
            },
        }
    }

    /// The stem and the extension together, with the dot between them, are the file name.
    pub proof fn stem_and_extension_make_the_name(self)
        ensures
            self.file_name matches Some(n) ==> (match self.spec_extension() {
                Some(e) => n@ == self.spec_file_stem()->0 + seq!['.'] + e && !e.contains('.'),
                None => n@ == self.spec_file_stem()->0,
            }),
            self.file_name is None ==> self.spec_file_stem() is None
                && self.spec_extension() is None,
    {
        if let Some(n) = self.file_name {
            strings::last_position_is_last(n@, '.');
            if let Some(p) = strings::last_position(n@, '.') {
                assert(n@ =~= n@.take(p) + seq!['.'] + n@.skip(p + 1));
            }
        }
    }
}

} // verus!
