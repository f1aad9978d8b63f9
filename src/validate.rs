//! Validation of the requested file name and extension.
use vstd::prelude::*;

verus! {

/// Which of the two user-supplied parts a message is about.
#[derive(PartialEq, Eq, Structural, Clone, Copy, Debug)]
pub enum Field {
    Name,
    Extension,
}

/// True when `t` occurs as a contiguous piece of `s`.
pub open spec fn contains(s: Seq<char>, t: Seq<char>) -> bool {
    exists|i: int| 0 <= i && i + t.len() <= s.len() && #[trigger] s.subrange(i, i + t.len()) == t
}

/// The first of `/`, `\` and `..` (in that order) that occurs in `s`.
pub open spec fn first_forbidden(s: Seq<char>) -> Option<Seq<char>> {
    if contains(s, seq!['/']) {
        Some(seq!['/'])
    } else if contains(s, seq!['\\']) {
        Some(seq!['\\'])
    } else if contains(s, seq!['.', '.']) {
        Some(seq!['.', '.'])
    } else {
        None
    }
}

/// The pieces that may never appear in a file name or extension.
pub open spec fn is_forbidden(t: Seq<char>) -> bool {
    t == seq!['/'] || t == seq!['\\'] || t == seq!['.', '.']
}

pub open spec fn field_label(field: Field) -> Seq<char> {
    match field {
        Field::Name => "文件名"@,
        Field::Extension => "文件后缀"@,
    }
}

pub open spec fn invalid_chars_message(field: Field, value: Seq<char>, bad: Seq<char>) -> Seq<char> {
    "错误："@ + field_label(field) + " '"@ + value + "' 包含无效字符 '"@ + bad + "'。"@
}

pub open spec fn empty_message(field: Field) -> Seq<char> {
    "错误："@ + field_label(field) + "不能为空。"@
}

/// The error reported for one field, if any: a forbidden piece first, then emptiness.
pub open spec fn field_error(field: Field, value: Seq<char>) -> Option<Seq<char>> {
    match first_forbidden(value) {
        Some(bad) => Some(invalid_chars_message(field, value, bad)),
        None => if value.len() == 0 {
            Some(empty_message(field))
        } else {
            None
        },
    }
}

/// Outcome of validating a file name and extension: the name is checked first.
pub open spec fn validation(filename: Seq<char>, extension: Seq<char>) -> Result<(), Seq<char>> {
    match field_error(Field::Name, filename) {
        Some(m) => Err(m),
        None => match field_error(Field::Extension, extension) {
            Some(m) => Err(m),
            None => Ok(()),
        },
    }
}

impl Field {
    /// The word used for this field in messages.
    pub fn label(&self) -> (r: &'static str)
        ensures
            r@ == field_label(*self),
    {
        match self {
            Field::Name => "文件名",
            Field::Extension => "文件后缀",
        }
    }
}

/// Whether `s` holds the character `c`.
pub(crate) fn has_char(s: &str, c: char) -> (r: bool)
    ensures
        r == contains(s@, seq![c]),
{
    let n = s.unicode_len();
    let mut i: usize = 0;
    while i < n
        invariant
            n == s@.len(),
            i <= n,
            forall|j: int| 0 <= j < i ==> s@[j] != c,
        decreases n - i,
    {
        if s.get_char(i) == c {
            assert(s@.subrange(i as int, i + 1) == seq![c]);
            return true;
        }
        i = i + 1;
    }
    assert forall|j: int| 0 <= j && j + 1 <= s@.len() implies #[trigger] s@.subrange(j, j + 1) != seq![c] by {
        assert(s@.subrange(j, j + 1)[0] == s@[j]);
    }
    false
}

/// Whether `s` holds two consecutive dots.
pub(crate) fn has_double_dot(s: &str) -> (r: bool)
    ensures
        r == contains(s@, seq!['.', '.']),
{
    let n = s.unicode_len();
    let mut i: usize = 0;
    while i < n
        invariant
            n == s@.len(),
            i <= n,
            forall|j: int| 0 <= j < i && j + 1 < n ==> !(#[trigger] s@[j] == '.' && s@[j + 1] == '.'),
        decreases n - i,
    {
        if i + 1 < n && s.get_char(i) == '.' && s.get_char(i + 1) == '.' {
            assert(s@.subrange(i as int, i + 2) == seq!['.', '.']);
            return true;
        }
        i = i + 1;
    }
    assert forall|j: int| 0 <= j && j + 2 <= s@.len() implies #[trigger] s@.subrange(j, j + 2) != seq!['.', '.'] by {
        let w = s@.subrange(j, j + 2);
        assert(w[0] == s@[j] && w[1] == s@[j + 1]);
    }
    false
}

/// The first forbidden piece found in `s`, as a literal.
fn find_forbidden(s: &str) -> (r: Option<&'static str>)
    ensures
        match r {
            Some(t) => first_forbidden(s@) == Some(t@),
            None => first_forbidden(s@) is None,
        },
{
    proof {
        reveal_strlit("/");
        reveal_strlit("\\");
        reveal_strlit("..");
    }
    if has_char(s, '/') {
        assert("/"@ =~= seq!['/']);
        Some("/")
    } else if has_char(s, '\\') {
        assert("\\"@ =~= seq!['\\']);
        Some("\\")
    } else if has_double_dot(s) {
        assert(".."@ =~= seq!['.', '.']);
        Some("..")
    } else {
        None
    }
}

/// The error for one field, built as a message.
fn check_field(field: Field, value: &str) -> (r: Option<String>)
    ensures
        match r {
            Some(m) => field_error(field, value@) == Some(m@),
            None => field_error(field, value@) is None,
        },
{
    match find_forbidden(value) {
        Some(bad) => {
            let mut m = String::from_str("错误：");
            m.append(field.label());
            m.append(" '");
            m.append(value);
            m.append("' 包含无效字符 '");
            m.append(bad);
            m.append("'。");
            Some(m)
        },
        None => {
            if value.is_empty() {
                let mut m = String::from_str("错误：");
                m.append(field.label());
                m.append("不能为空。");
                Some(m)
            } else {
                None
            }
        },
    }
}

/// Rejects a file name or extension that is empty or holds `/`, `\` or `..`.
/// The name is checked before the extension; the first error found is returned.
pub fn validate_cli_inputs(filename: &str, extension: &str) -> (r: Result<(), String>)
    ensures
        r is Ok <==> validation(filename@, extension@) is Ok,
        r matches Err(m) ==> validation(filename@, extension@) == Err::<(), Seq<char>>(m@),
{
    if let Some(m) = check_field(Field::Name, filename) {
        return Err(m);
    }
    if let Some(m) = check_field(Field::Extension, extension) {
        return Err(m);
    }
    Ok(())
}

/// Any name holding `/`, `\` or `..` is rejected; the message names the name field
/// and the first of those pieces that occurs in it.
pub proof fn lemma_forbidden_name_rejected(filename: Seq<char>, extension: Seq<char>, bad: Seq<char>)
    requires
        is_forbidden(bad),
        contains(filename, bad),
    ensures
        first_forbidden(filename) matches Some(b) && is_forbidden(b) && contains(filename, b)
            && validation(filename, extension) == Err::<(), Seq<char>>(
            invalid_chars_message(Field::Name, filename, b),
        ),
{
}

/// With a valid name, any extension holding `/`, `\` or `..` is rejected; the message
/// names the extension field and the first of those pieces that occurs in it.
pub proof fn lemma_forbidden_extension_rejected(filename: Seq<char>, extension: Seq<char>, bad: Seq<char>)
    requires
        field_error(Field::Name, filename) is None,
        is_forbidden(bad),
        contains(extension, bad),
    ensures
        first_forbidden(extension) matches Some(b) && is_forbidden(b) && contains(extension, b)
            && validation(filename, extension) == Err::<(), Seq<char>>(
            invalid_chars_message(Field::Extension, extension, b),
        ),
{
}

/// An empty name is rejected with a fixed message, whatever the extension.
pub proof fn lemma_empty_name_rejected(extension: Seq<char>)
    ensures
        validation(Seq::empty(), extension) == Err::<(), Seq<char>>(empty_message(Field::Name)),
{
    assert(!contains(Seq::<char>::empty(), seq!['/']));
    assert(!contains(Seq::<char>::empty(), seq!['\\']));
    assert(!contains(Seq::<char>::empty(), seq!['.', '.']));
}

/// With a valid name, an empty extension is rejected with a fixed message.
pub proof fn lemma_empty_extension_rejected(filename: Seq<char>)
    requires
        field_error(Field::Name, filename) is None,
    ensures
        validation(filename, Seq::empty()) == Err::<(), Seq<char>>(empty_message(Field::Extension)),
{
    assert(!contains(Seq::<char>::empty(), seq!['/']));
    assert(!contains(Seq::<char>::empty(), seq!['\\']));
    assert(!contains(Seq::<char>::empty(), seq!['.', '.']));
}

/// When both the name and the extension are invalid, the name's error is reported.
pub proof fn lemma_name_error_first(filename: Seq<char>, extension: Seq<char>)
    requires
        field_error(Field::Name, filename) is Some,
        field_error(Field::Extension, extension) is Some,
    ensures
        validation(filename, extension) == Err::<(), Seq<char>>(field_error(Field::Name, filename).unwrap()),
{
}

} // verus!
