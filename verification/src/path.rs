//! Lexical paths: strings of components separated by `/`.
//!
//! Nothing here touches a file system. A path is its text; its final
//! component, its parent and the split of a file name into stem and extension
//! are functions of that text alone.

use crate::text::chars_of;
use vstd::prelude::*;

verus! {

/// The separator between the components of a path.
pub open spec fn is_separator(c: char) -> bool {
    c == '/'
}

/// A path is rooted when it begins with a separator.
pub open spec fn rooted(path: Seq<char>) -> bool {
    path.len() > 0 && is_separator(path[0])
}

/// The index of the last occurrence of `c` in `s`, or `-1` if there is none.
pub open spec fn last_index(s: Seq<char>, c: char) -> int
    decreases s.len(),
{
    if s.len() == 0 {
        -1
    } else if s.last() == c {
        s.len() - 1
    } else {
        last_index(s.drop_last(), c)
    }
}

/// Where the final component of `path` begins and ends.
///
/// Separators at the end are passed over, and so is a component `.` that
/// follows another component. There is no final component in an empty path,
/// in a path of separators only, in a path that is `.` alone, and in one that
/// ends in `..`.
pub open spec fn name_span(path: Seq<char>) -> Option<(int, int)>
    decreases path.len(),
{
    if path.len() == 0 {
        None
    } else if is_separator(path.last()) {
        name_span(path.drop_last())
    } else {
        let start = last_index(path, '/') + 1;
        let component = path.subrange(start, path.len() as int);
        if component == seq!['.'] {
            if start == 0 {
                None
            } else {
                name_span(path.drop_last())
            }
        } else if component == seq!['.', '.'] {
            None
        } else {
            Some((start, path.len() as int))
        }
    }
}

/// The final component of `path`, if it has one.
pub open spec fn file_name_of(path: Seq<char>) -> Option<Seq<char>> {
    match name_span(path) {
        Some((start, end)) => Some(path.subrange(start, end)),
        None => None,
    }
}

/// `dir` without the separators that end it; a lone separator stays.
pub open spec fn trim_separators(dir: Seq<char>) -> Seq<char>
    decreases dir.len(),
{
    if dir.len() > 1 && is_separator(dir.last()) {
        trim_separators(dir.drop_last())
    } else {
        dir
    }
}

/// The text before the final component of `path`, without the separators
/// that end it. The parent of a bare file name is the empty path.
pub open spec fn parent_of(path: Seq<char>) -> Option<Seq<char>> {
    match name_span(path) {
        Some((start, _)) => Some(trim_separators(path.take(start))),
        None => None,
    }
}

/// `name` appended to `base` as a further component. A rooted `name` replaces
/// `base`; a separator is put between the two unless `base` is empty or ends
/// in one already.
pub open spec fn joined(base: Seq<char>, name: Seq<char>) -> Seq<char> {
    if rooted(name) {
        name
    } else if base.len() == 0 || is_separator(base.last()) {
        base + name
    } else {
        base + seq!['/'] + name
    }
}

/// The stem and the extension of the final component of `path`: the text
/// before and after its last dot. A name without a dot has no extension, nor
/// has one whose only dot comes first.
pub open spec fn name_and_extension_of(path: Seq<char>) -> Option<(Seq<char>, Seq<char>)> {
    match file_name_of(path) {
        Some(name) => {
            let dot = last_index(name, '.');
            if dot <= 0 {
                None
            } else {
                Some((name.take(dot), name.skip(dot + 1)))
            }
        },
        None => None,
    }
}

/// A component that can be the final one of a path: not empty, free of
/// separators, and neither `.` nor `..`.
pub open spec fn plain_name(name: Seq<char>) -> bool {
    &&& name.len() > 0
    &&& forall|i: int| 0 <= i < name.len() ==> !is_separator(#[trigger] name[i])
    &&& name != seq!['.']
    &&& name != seq!['.', '.']
}

/// `last_index` finds an occurrence, and nothing occurs after it.
pub proof fn lemma_last_index(s: Seq<char>, c: char)
    ensures
        -1 <= last_index(s, c) < s.len(),
        last_index(s, c) >= 0 ==> s[last_index(s, c)] == c,
        forall|j: int| last_index(s, c) < j < s.len() ==> s[j] != c,
    decreases s.len(),
{
    if s.len() > 0 && s.last() != c {
        lemma_last_index(s.drop_last(), c);
        assert forall|j: int| last_index(s, c) < j < s.len() implies s[j] != c by {
            if j < s.len() - 1 {
                assert(s.drop_last()[j] == s[j]);
            }
        }
    }
}

/// A character that occurs at `i` and not after it is the last occurrence.
pub proof fn lemma_last_index_is(s: Seq<char>, c: char, i: int)
    requires
        -1 <= i < s.len(),
        i >= 0 ==> s[i] == c,
        forall|j: int| i < j < s.len() ==> s[j] != c,
    ensures
        last_index(s, c) == i,
{
    lemma_last_index(s, c);
}

/// The final component of a path is a plain name.
pub proof fn lemma_file_name_is_plain(path: Seq<char>)
    ensures
        match name_span(path) {
            Some((start, end)) => 0 <= start < end <= path.len() && plain_name(
                path.subrange(start, end),
            ),
            None => true,
        },
    decreases path.len(),
{
    if path.len() > 0 {
        lemma_last_index(path, '/');
        let start = last_index(path, '/') + 1;
        let component = path.subrange(start, path.len() as int);
        if is_separator(path.last()) || (component == seq!['.'] && start != 0) {
            lemma_file_name_is_plain(path.drop_last());
            if let Some((s, e)) = name_span(path.drop_last()) {
                assert(path.drop_last().subrange(s, e) == path.subrange(s, e));
            }
        } else if component != seq!['.'] && component != seq!['.', '.'] {
            assert forall|i: int| 0 <= i < component.len() implies !is_separator(
                #[trigger] component[i],
            ) by {
                assert(component[i] == path[start + i]);
            }
        }
    }
}

/// A plain name joined to a directory is the final component of the result,
/// and the directory, without the separators that end it, is the parent.
pub proof fn lemma_joined_plain(base: Seq<char>, name: Seq<char>)
    requires
        plain_name(name),
    ensures
        file_name_of(joined(base, name)) == Some(name),
        parent_of(joined(base, name)) == Some(trim_separators(base)),
{
    let path = joined(base, name);
    let start = path.len() - name.len();
    assert(!is_separator(name[0]));
    assert(path.subrange(start, path.len() as int) == name);
    assert(!is_separator(name[name.len() - 1]));
    assert(path.last() == name[name.len() - 1]);
    assert forall|j: int| start <= j < path.len() implies path[j] != '/' by {
        assert(path[j] == name[j - start]);
    }
    if start > 0 {
        assert(path[start - 1] == '/');
    }
    lemma_last_index_is(path, '/', start - 1);
    assert(name_span(path) == Some((start, path.len() as int)));
    let dir = path.take(start);
    if base.len() == 0 || is_separator(base.last()) {
        assert(dir == base);
    } else {
        assert(dir == base + seq!['/']);
        assert(dir.drop_last() == base);
        assert(trim_separators(dir) == trim_separators(base));
    }
}

/// The stem and the extension of a path make up its final component around
/// one dot; the stem is not empty, and the extension holds no further dot.
pub proof fn lemma_name_and_extension(path: Seq<char>)
    ensures
        match name_and_extension_of(path) {
            Some((stem, extension)) => {
                &&& file_name_of(path) == Some(stem + seq!['.'] + extension)
                &&& stem.len() > 0
                &&& forall|i: int| 0 <= i < extension.len() ==> extension[i] != '.'
                &&& forall|i: int| 0 <= i < stem.len() ==> !is_separator(#[trigger] stem[i])
                &&& forall|i: int|
                    0 <= i < extension.len() ==> !is_separator(#[trigger] extension[i])
            },
            None => true,
        },
{
    lemma_file_name_is_plain(path);
    if let Some(name) = file_name_of(path) {
        lemma_last_index(name, '.');
        let dot = last_index(name, '.');
        if dot > 0 {
            let stem = name.take(dot);
            let extension = name.skip(dot + 1);
            assert(name == stem + seq!['.'] + extension);
            assert forall|i: int| 0 <= i < extension.len() implies extension[i] != '.' by {
                assert(extension[i] == name[dot + 1 + i]);
            }
            assert forall|i: int| 0 <= i < stem.len() implies !is_separator(
                #[trigger] stem[i],
            ) by {
                assert(stem[i] == name[i]);
            }
            assert forall|i: int| 0 <= i < extension.len() implies !is_separator(
                #[trigger] extension[i],
            ) by {
                assert(extension[i] == name[dot + 1 + i]);
            }
        }
    }
}

/// The index after the last `c` among the first `end` characters.
fn after_last(chars: &Vec<char>, end: usize, c: char) -> (start: usize)
    requires
        end <= chars.len(),
    ensures
        start == last_index(chars@.take(end as int), c) + 1,
{
    let mut start: usize = end;
    while start > 0 && chars[start - 1] != c
        invariant
            start <= end <= chars.len(),
            forall|j: int| start <= j < end ==> chars@[j] != c,
        decreases start,
    {
        start -= 1;
    }
    proof {
        lemma_last_index_is(chars@.take(end as int), c, start as int - 1);
    }
    start
}

/// Whether `path` begins at the root.
pub fn has_root(path: &str) -> (r: bool)
    ensures
        r == rooted(path@),
{
    path.unicode_len() > 0 && path.get_char(0) == '/'
}

/// The span of the final component among `chars`.
fn final_span(chars: &Vec<char>) -> (r: Option<(usize, usize)>)
    ensures
        match r {
            Some((start, end)) => name_span(chars@) == Some((start as int, end as int)) && start
                < end <= chars.len(),
            None => name_span(chars@) is None,
        },
{
    let mut end: usize = chars.len();
    assert(chars@.take(end as int) == chars@);
    while end > 0
        invariant
            end <= chars.len(),
            name_span(chars@) == name_span(chars@.take(end as int)),
        decreases end,
    {
        let ghost prefix = chars@.take(end as int);
        assert(prefix.drop_last() == chars@.take(end - 1));
        if chars[end - 1] == '/' {
            end -= 1;
        } else {
            let start = after_last(chars, end, '/');
            proof {
                lemma_last_index(prefix, '/');
            }
            let ghost component = prefix.subrange(start as int, end as int);
            if end - start == 1 && chars[start] == '.' {
                assert(component == seq!['.']);
                if start == 0 {
                    return None;
                }
                end -= 1;
            } else if end - start == 2 && chars[start] == '.' && chars[start + 1] == '.' {
                assert(component == seq!['.', '.']);
                return None;
            } else {
                assert(component != seq!['.']) by {
                    if component == seq!['.'] {
                        assert(component.len() == 1);
                        assert(component[0] == '.');
                    }
                }
                assert(component != seq!['.', '.']) by {
                    if component == seq!['.', '.'] {
                        assert(component.len() == 2);
                        assert(component[0] == '.');
                        assert(component[1] == '.');
                    }
                }
                return Some((start, end));
            }
        }
    }
    assert(chars@.take(0).len() == 0);
    None
}

/// The final component of `path`, if it has one.
pub fn file_name(path: &str) -> (r: Option<String>)
    ensures
        match r {
            Some(name) => file_name_of(path@) == Some(name@),
            None => file_name_of(path@) is None,
        },
{
    let chars = chars_of(path);
    match final_span(&chars) {
        Some((start, end)) => Some(path.substring_char(start, end).to_owned()),
        None => None,
    }
}

/// The directory that holds the final component of `path`, if it has one.
pub fn parent(path: &str) -> (r: Option<String>)
    ensures
        match r {
            Some(dir) => parent_of(path@) == Some(dir@),
            None => parent_of(path@) is None,
        },
{
    let chars = chars_of(path);
    match final_span(&chars) {
        Some((start, _)) => {
            let mut end: usize = start;
            while end > 1 && chars[end - 1] == '/'
                invariant
                    end <= start <= chars.len(),
                    trim_separators(chars@.take(start as int)) == trim_separators(
                        chars@.take(end as int),
                    ),
                decreases end,
            {
                assert(chars@.take(end as int).drop_last() == chars@.take(end - 1));
                end -= 1;
            }
            Some(path.substring_char(0, end).to_owned())
        },
        None => None,
    }
}

/// Appends `name` to `base` as a further component.
pub fn join(base: &str, name: &str) -> (r: String)
    ensures
        r@ == joined(base@, name@),
{
    if has_root(name) {
        return name.to_owned();
    }
    let len = base.unicode_len();
    let mut out = base.to_owned();
    if len > 0 && base.get_char(len - 1) != '/' {
        proof {
            reveal_strlit("/");
        }
        out.append("/");
        assert("/"@ == seq!['/']);
    }
    out.append(name);
    out
}

/// Splits the final component of `path` into stem and extension.
///
/// There is no result where the path has no final component, or where that
/// component has no extension.
pub fn to_name_and_extension(path: &str) -> (r: Option<(String, String)>)
    ensures
        match r {
            Some((stem, extension)) => name_and_extension_of(path@) == Some((stem@, extension@)),
            None => name_and_extension_of(path@) is None,
        },
{
    let chars = chars_of(path);
    match final_span(&chars) {
        Some((start, end)) => {
            let after_dot = after_last(&chars, end, '.');
            let ghost name = chars@.subrange(start as int, end as int);
            proof {
                let prefix = chars@.take(end as int);
                lemma_last_index(prefix, '.');
                assert forall|j: int| 0 <= j < name.len() implies name[j] == prefix[start + j] by {}
                if after_dot > start {
                    lemma_last_index_is(name, '.', after_dot - 1 - start);
                } else {
                    lemma_last_index_is(name, '.', -1);
                }
            }
            if after_dot <= start + 1 {
                None
            } else {
                let stem = path.substring_char(start, after_dot - 1).to_owned();
                let extension = path.substring_char(after_dot, end).to_owned();
                assert(stem@ == name.take(after_dot - 1 - start));
                assert(extension@ == name.skip(after_dot - start));
                Some((stem, extension))
            }
        },
        None => None,
    }
}

} // verus!
