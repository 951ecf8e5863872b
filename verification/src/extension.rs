//! The extension of a relative path.
//!
//! Paths are text with `/` between components. The file name is the last
//! component that is neither empty nor `.`, so trailing separators and
//! trailing `.` components do not count. The extension is what follows the
//! last `.` of the file name, be that `.` its first character or a later
//! one; a file name without a `.` has the empty extension.

use vstd::prelude::*;
use vstd::string::StrSliceExecFns;

verus! {

/// The index of the last `mark` in `text`, or -1 where `text` holds none.
pub open spec fn last_index_of(text: Seq<char>, mark: char) -> int
    decreases text.len(),
{
    if text.len() == 0 {
        -1
    } else if text.last() == mark {
        text.len() - 1
    } else {
        last_index_of(text.drop_last(), mark)
    }
}

/// Whether `path` ends in a separator or in a `.` component: neither can end
/// a file name.
pub open spec fn ends_in_skipped(path: Seq<char>) -> bool {
    &&& path.len() > 0
    &&& {
        ||| path.last() == '/'
        ||| (path.last() == '.' && (path.len() == 1 || path[path.len() - 2] == '/'))
    }
}

/// The file name of `path`: its last component that is neither empty nor
/// `.`, or the empty text where it has none.
pub open spec fn file_name(path: Seq<char>) -> Seq<char>
    decreases path.len(),
{
    if path.len() == 0 {
        Seq::empty()
    } else if ends_in_skipped(path) {
        file_name(path.drop_last())
    } else {
        path.skip(last_index_of(path, '/') + 1)
    }
}

/// Whether `name` has a dot suffix: whether it holds a `.` at all.
pub open spec fn has_dot_suffix(name: Seq<char>) -> bool {
    last_index_of(name, '.') >= 0
}

/// What follows the last `.` of `name`, or the empty text where `name` has
/// no dot suffix.
pub open spec fn dot_suffix(name: Seq<char>) -> Seq<char> {
    if has_dot_suffix(name) {
        name.skip(last_index_of(name, '.') + 1)
    } else {
        Seq::empty()
    }
}

/// The extension of `path`: the dot suffix of its file name.
pub open spec fn extension_text(path: Seq<char>) -> Seq<char> {
    dot_suffix(file_name(path))
}

/// `last_index_of` is the one index that holds `mark` with no `mark` behind
/// it, and -1 exactly where there is no `mark` at all.
pub proof fn lemma_last_index_of(text: Seq<char>, mark: char)
    ensures
        -1 <= last_index_of(text, mark) < text.len(),
        last_index_of(text, mark) >= 0 ==> text[last_index_of(text, mark)] == mark,
        forall|j: int| last_index_of(text, mark) < j < text.len() ==> text[j] != mark,
    decreases text.len(),
{
    if text.len() > 0 && text.last() != mark {
        lemma_last_index_of(text.drop_last(), mark);
        assert forall|j: int| last_index_of(text, mark) < j < text.len() implies text[j]
            != mark by {
            if j < text.len() - 1 {
                assert(text.drop_last()[j] == text[j]);
            }
        }
    }
}

/// An index that holds `mark` with no `mark` behind it is `last_index_of`.
pub proof fn lemma_last_index_of_unique(text: Seq<char>, mark: char, at: int)
    requires
        -1 <= at < text.len(),
        at >= 0 ==> text[at] == mark,
        forall|j: int| at < j < text.len() ==> text[j] != mark,
    ensures
        last_index_of(text, mark) == at,
{
    lemma_last_index_of(text, mark);
}

/// Whether the first `end` characters of `chars` end in a separator or in a
/// `.` component.
fn prefix_ends_in_skipped(chars: &Vec<char>, end: usize) -> (skipped: bool)
    requires
        0 < end <= chars.len(),
    ensures
        skipped == ends_in_skipped(chars@.take(end as int)),
{
    let last: char = chars[end - 1];
    if last == '/' {
        true
    } else if last == '.' {
        end == 1 || chars[end - 2] == '/'
    } else {
        false
    }
}

/// The characters of `text`, one by one.
fn chars_of(text: &str) -> (chars: Vec<char>)
    ensures
        chars@ == text@,
{
    broadcast use vstd::string::group_string_axioms;

    let mut chars: Vec<char> = Vec::new();
    for c in iter: text.chars()
        invariant
            iter.seq() == text@,
            chars@ == text@.take(iter.index() as int),
    {
        chars.push(c);
    }
    chars
}

/// The extension of `path`, empty where its file name holds no `.`.
pub fn extension_of(path: &str) -> (extension: String)
    ensures
        extension@ == extension_text(path@),
{
    let chars = chars_of(path);
    let ghost whole = chars@;
    let mut end: usize = chars.len();
    assert(whole.take(end as int) == whole);
    while end > 0 && prefix_ends_in_skipped(&chars, end)
        invariant
            end <= chars.len(),
            chars@ == whole,
            file_name(whole) == file_name(whole.take(end as int)),
        decreases end,
    {
        assert(whole.take(end as int).drop_last() == whole.take(end as int - 1));
        end = end - 1;
    }
    let ghost head = whole.take(end as int);
    if end == 0 {
        return String::new();
    }
    let mut from: usize = end;
    while from > 0 && chars[from - 1] != '.' && chars[from - 1] != '/'
        invariant
            from <= end <= chars.len(),
            chars@ == whole,
            forall|j: int| from <= j < end ==> whole[j] != '.' && whole[j] != '/',
        decreases from,
    {
        from = from - 1;
    }
    proof {
        lemma_last_index_of(head, '/');
    }
    let ghost start = last_index_of(head, '/') + 1;
    let ghost name = head.skip(start);
    if from == 0 || chars[from - 1] == '/' {
        proof {
            lemma_last_index_of_unique(head, '/', from as int - 1);
            lemma_last_index_of_unique(name, '.', -1);
        }
        return String::new();
    }
    proof {
        assert(start <= from - 1) by {
            if start > from - 1 {
                assert(head[start - 1] == '/');
            }
        }
        lemma_last_index_of_unique(name, '.', from as int - 1 - start);
        assert(name.skip(from as int - start) == whole.subrange(from as int, end as int));
    }
    path.substring_char(from, end).to_owned()
}

/// The extension is empty for a file name without a `.`, and is the text
/// behind the file name's last `.` otherwise: the file name is then a stem, a
/// `.`, and the extension, and the extension holds neither `.` nor `/`. So
/// the extension is empty exactly where the file name holds no `.` or ends
/// in one.
pub proof fn lemma_extension_invariant(path: Seq<char>)
    ensures
        !has_dot_suffix(file_name(path)) ==> extension_text(path) == Seq::<char>::empty(),
        has_dot_suffix(file_name(path)) ==> {
            let name = file_name(path);
            let dot = last_index_of(name, '.');
            &&& 0 <= dot < name.len()
            &&& name == name.take(dot) + seq!['.'] + extension_text(path)
        },
        extension_text(path).len() == 0 <==> (!has_dot_suffix(file_name(path)) || file_name(
            path,
        ).last() == '.'),
        forall|j: int|
            0 <= j < extension_text(path).len() ==> extension_text(path)[j] != '.'
                && extension_text(path)[j] != '/',
{
    let name = file_name(path);
    let dot = last_index_of(name, '.');
    lemma_last_index_of(name, '.');
    lemma_file_name_has_no_separator(path);
    if has_dot_suffix(name) {
        assert(name =~= name.take(dot) + seq!['.'] + name.skip(dot + 1));
    }
}

/// The file name is a part of the path: the range of it that is returned.
pub proof fn lemma_file_name_is_part(path: Seq<char>) -> (range: (int, int))
    ensures
        0 <= range.0 <= range.1 <= path.len(),
        file_name(path) == path.subrange(range.0, range.1),
    decreases path.len(),
{
    if path.len() == 0 {
        assert(file_name(path) == path.subrange(0, 0));
        (0, 0)
    } else if ends_in_skipped(path) {
        let range = lemma_file_name_is_part(path.drop_last());
        assert(path.drop_last().subrange(range.0, range.1) == path.subrange(range.0, range.1));
        range
    } else {
        lemma_last_index_of(path, '/');
        let start = last_index_of(path, '/') + 1;
        assert(path.skip(start) == path.subrange(start, path.len() as int));
        (start, path.len() as int)
    }
}

/// The extension is a part of the path: the range of it that is returned.
pub proof fn lemma_extension_is_part(path: Seq<char>) -> (range: (int, int))
    ensures
        0 <= range.0 <= range.1 <= path.len(),
        extension_text(path) == path.subrange(range.0, range.1),
{
    let name_range = lemma_file_name_is_part(path);
    let name = file_name(path);
    if has_dot_suffix(name) {
        lemma_last_index_of(name, '.');
        let from = name_range.0 + last_index_of(name, '.') + 1;
        assert(extension_text(path) == path.subrange(from, name_range.1));
        (from, name_range.1)
    } else {
        assert(extension_text(path) == path.subrange(0, 0));
        (0, 0)
    }
}

/// A file name holds no separator and is no longer than the path.
pub proof fn lemma_file_name_has_no_separator(path: Seq<char>)
    ensures
        forall|j: int| 0 <= j < file_name(path).len() ==> file_name(path)[j] != '/',
        file_name(path).len() <= path.len(),
    decreases path.len(),
{
    if path.len() == 0 {
    } else if ends_in_skipped(path) {
        lemma_file_name_has_no_separator(path.drop_last());
    } else {
        lemma_last_index_of(path, '/');
    }
}

} // verus!
