//! Names of the files that are read and written.
use vstd::prelude::*;
use crate::validate::{contains, has_char, validation};

verus! {

/// `<filename>.<extension>`.
pub open spec fn joined_name(filename: Seq<char>, extension: Seq<char>) -> Seq<char> {
    filename + seq!['.'] + extension
}

/// A name that, joined to a directory, names an entry whose direct parent is
/// that directory: non-empty, without a separator, and neither `.` nor `..`.
pub open spec fn is_direct_child_name(n: Seq<char>) -> bool {
    &&& n.len() > 0
    &&& !contains(n, seq!['/'])
    &&& !contains(n, seq!['\\'])
    &&& n != seq!['.']
    &&& n != seq!['.', '.']
}

/// The name of the file to create in the working directory, if it stays there.
pub open spec fn destination(filename: Seq<char>, extension: Seq<char>) -> Option<Seq<char>> {
    let n = joined_name(filename, extension);
    if is_direct_child_name(n) {
        Some(n)
    } else {
        None
    }
}

/// The file name `<filename>.<extension>`.
pub fn template_file_name(filename: &str, extension: &str) -> (r: String)
    ensures
        r@ == joined_name(filename@, extension@),
{
    let mut r = String::from_str(filename);
    proof {
        reveal_strlit(".");
    }
    r.append(".");
    assert(r@ =~= filename@ + seq!['.']);
    r.append(extension);
    r
}

/// Whether `s` is exactly `.` or `..`.
fn is_dot_reference(s: &str) -> (r: bool)
    ensures
        r == (s@ == seq!['.'] || s@ == seq!['.', '.']),
{
    let n = s.unicode_len();
    if n == 1 {
        let r = s.get_char(0) == '.';
        assert(r ==> s@ =~= seq!['.']);
        r
    } else if n == 2 {
        let r = s.get_char(0) == '.' && s.get_char(1) == '.';
        assert(r ==> s@ =~= seq!['.', '.']);
        r
    } else {
        false
    }
}

/// The destination file name `<filename>.<extension>`, or `None` when a file of
/// that name would not sit directly in the working directory.
pub fn destination_name(filename: &str, extension: &str) -> (r: Option<String>)
    ensures
        match r {
            Some(n) => destination(filename@, extension@) == Some(n@),
            None => destination(filename@, extension@) is None,
        },
{
    let n = template_file_name(filename, extension);
    let s = n.as_str();
    if s.unicode_len() == 0 || has_char(s, '/') || has_char(s, '\\') || is_dot_reference(s) {
        None
    } else {
        Some(n)
    }
}

/// Every character of a joined name comes from the name, the dot or the extension.
proof fn lemma_joined_char(filename: Seq<char>, extension: Seq<char>, c: char)
    requires
        c != '.',
        contains(joined_name(filename, extension), seq![c]),
    ensures
        contains(filename, seq![c]) || contains(extension, seq![c]),
{
    let n = joined_name(filename, extension);
    let i = choose|i: int| 0 <= i && i + 1 <= n.len() && #[trigger] n.subrange(i, i + 1) == seq![c];
    assert(n.subrange(i, i + 1)[0] == n[i]);
    if i < filename.len() {
        assert(filename.subrange(i, i + 1) =~= seq![c]);
    } else {
        let k = i - filename.len() - 1;
        assert(n[i] == extension[k]);
        assert(extension.subrange(k, k + 1) =~= seq![c]);
    }
}

/// A destination name holding a separator, or naming the directory itself or its
/// parent, is refused: nothing is written outside the working directory.
pub proof fn lemma_escaping_destination_refused(filename: Seq<char>, extension: Seq<char>)
    requires
        contains(joined_name(filename, extension), seq!['/'])
            || contains(joined_name(filename, extension), seq!['\\'])
            || joined_name(filename, extension) == seq!['.', '.'],
    ensures
        destination(filename, extension) is None,
{
}

/// Names and extensions that pass validation always give a destination directly in
/// the working directory.
pub proof fn lemma_valid_inputs_have_destination(filename: Seq<char>, extension: Seq<char>)
    requires
        validation(filename, extension) is Ok,
    ensures
        destination(filename, extension) == Some(joined_name(filename, extension)),
{
    let n = joined_name(filename, extension);
    if contains(n, seq!['/']) {
        lemma_joined_char(filename, extension, '/');
    }
    if contains(n, seq!['\\']) {
        lemma_joined_char(filename, extension, '\\');
    }
    assert(n.len() >= 3);
}

} // verus!
