//! Laws of paths: how they are taken apart and put together.

use vstd::prelude::*;

use crate::paths;
use crate::paths::FilePath;
use crate::settings::{PathError, PathSettings};

verus! {

/// Whether `name` is a file name on every host: it is not empty, holds no separator, is neither
/// `.` nor `..`, and could not start with a drive.
pub open spec fn is_file_name(name: Seq<char>) -> bool {
    &&& name.len() > 0
    &&& forall|i: int| 0 <= i < name.len() ==> #[trigger] name[i] != '/' && name[i] != '\\'
    &&& name != seq!['.']
    &&& name != seq!['.', '.']
    &&& name.len() > 1 ==> name[1] != ':'
}

/// Whether `directory` ends in something that belongs to a name on every host, and does not start
/// with two separators.
pub open spec fn is_directory(directory: Seq<char>) -> bool {
    &&& directory.len() > 0
    &&& directory.last() != '/' && directory.last() != '\\' && directory.last() != ':'
        && directory.last() != '.'
    &&& directory.len() > 1 ==> !((directory[0] == '/' || directory[0] == '\\') && (directory[1]
        == '/' || directory[1] == '\\'))
}

proof fn file_names_are_plain(name: Seq<char>)
    requires
        is_file_name(name),
    ensures
        paths::is_plain_name(name),
{
    assert(!name.contains('/') && !name.contains('\\'));
}

/// A directory, a slash and a file name are taken apart into the directory and the file name. So
/// is a slash and a file name, of which the slash is the directory. A file name alone stands in
/// the directory without a name.
pub proof fn paths_are_taken_apart_at_the_last_slash(
    text: &str,
    directory: Seq<char>,
    name: Seq<char>,
    r: FilePath,
)
    requires
        call_ensures(FilePath::new, (text,), r),
        is_file_name(name),
        text@ == directory + seq!['/'] + name && (is_directory(directory) || directory.len() == 0)
            || text@ == name,
    ensures
        r.text@ == text@,
        r.file_name matches Some(n) && n@ == name,
        r.parent is Some,
        text@ == name ==> r.parent->0@.len() == 0,
        text@ != name ==> r.parent->0@ == (if directory.len() == 0 {
            seq!['/']
        } else {
            directory
        }),
{
    file_names_are_plain(name);
    let path = text@;
    if path == name {
        paths::joined_paths_are_taken_apart(path, seq![], name);
    } else if directory.len() == 0 {
        assert(path =~= seq!['/'] + name);
        assert(path[1] == name[0]);
        paths::joined_paths_are_taken_apart(path, seq!['/'], name);
    } else {
        assert(path =~= directory.push('/') + name);
        assert(path[0] == directory[0]);
        if directory.len() > 1 {
            assert(path[1] == directory[1]);
        }
        paths::joined_paths_are_taken_apart(path, directory, name);
    }
}

/// The empty path has neither a directory nor a file name, and only it is empty.
pub proof fn the_empty_path_has_no_parts(text: &str, r: FilePath, empty: FilePath, b: bool)
    requires
        call_ensures(FilePath::new, (text,), r),
        call_ensures(FilePath::empty, (), empty),
        call_ensures(FilePath::is_empty, (&r,), b),
    ensures
        b <==> text@.len() == 0,
        text@.len() == 0 ==> r.parent is None && r.file_name is None,
        empty.text@.len() == 0 && empty.parent is None && empty.file_name is None,
{
}

/// Whether `path` is a directory and a file name with a separator between them, which it is taken
/// apart into where the separator is a slash.
pub open spec fn joins(path: FilePath, directory: Seq<char>, name: Seq<char>) -> bool {
    &&& path.text@ == directory + seq!['/'] + name || path.text@ == directory + seq!['\\'] + name
    &&& path.text@ == directory + seq!['/'] + name ==> {
        &&& path.parent matches Some(p) && p@ == directory
        &&& path.file_name matches Some(n) && n@ == name
    }
}

pub(crate) proof fn paths_in_a_directory_join(path: FilePath, directory: Seq<char>, name: Seq<char>)
    requires
        is_directory(directory),
        is_file_name(name),
        path.is_in_directory(directory, name),
    ensures
        joins(path, directory, name),
{
    file_names_are_plain(name);
    let text = path.text@;
    assert(directory.push('/') + name =~= directory + seq!['/'] + name);
    assert(directory.push('\\') + name =~= directory + seq!['\\'] + name);
    if text == directory + seq!['/'] + name {
        assert(text[0] == directory[0]);
        if directory.len() > 1 {
            assert(text[1] == directory[1]);
        } else {
            assert(text[1] == '/');
        }
    }
}

/// The path of a file in a directory is the two with a separator between them, and is taken apart
/// into the two.
pub proof fn directory_and_name_are_joined(directory: &str, name: &str, r: FilePath)
    requires
        call_ensures(FilePath::in_directory, (directory, name), r),
        is_directory(directory@),
        is_file_name(name@),
    ensures
        joins(r, directory@, name@),
{
    paths_in_a_directory_join(r, directory@, name@);
}

/// The output path that follows the input path is the file name of the input in the directory of
/// the output. Where one of the two is missing, that is told, the file name before the directory.
pub proof fn the_output_follows_the_input(
    settings: PathSettings,
    r: Result<FilePath, PathError>,
)
    requires
        call_ensures(PathSettings::output_file_path_with_inputs_filename, (&settings,), r),
    ensures
        settings.input_file.file_name is None ==> r == Err::<FilePath, PathError>(
            PathError::NoInputFileName,
        ),
        settings.input_file.file_name is Some && settings.output_file.parent is None ==> r == Err::<
            FilePath,
            PathError,
        >(PathError::NoOutputDirectory),
        settings.input_file.file_name is Some && settings.output_file.parent is Some ==> {
            let name = settings.input_file.file_name->0@;
            let directory = settings.output_file.parent->0@;
            &&& r is Ok
            &&& is_file_name(name) && is_directory(directory) ==> joins(r->Ok_0, directory, name)
        },
{
    if settings.input_file.file_name is Some && settings.output_file.parent is Some {
        let name = settings.input_file.file_name->0@;
        let directory = settings.output_file.parent->0@;
        if is_file_name(name) && is_directory(directory) {
            paths_in_a_directory_join(r->Ok_0, directory, name);
        }
    }
}

/// Whether the output directory can be written into is tried with a file in that directory.
pub proof fn the_output_directory_is_tried(settings: PathSettings, r: Option<FilePath>)
    requires
        call_ensures(PathSettings::write_test_file, (&settings,), r),
    ensures
        r is Some <==> settings.output_file.parent is Some,
        r matches Some(path) ==> (is_directory(settings.output_file.parent->0@) ==> joins(
            path,
            settings.output_file.parent->0@,
            ".ravioni-write-test-22604.tmp"@,
        )),
{
    if let Some(path) = r {
        let name = ".ravioni-write-test-22604.tmp"@;
        reveal_strlit(".ravioni-write-test-22604.tmp");
        assert(name.len() == 29 && name[1] == 'r');
        assert forall|i: int| 0 <= i < name.len() implies #[trigger] name[i] != '/' && name[i]
            != '\\' by {}
        if is_directory(settings.output_file.parent->0@) {
            paths_in_a_directory_join(path, settings.output_file.parent->0@, name);
        }
    }
}

} // verus!
