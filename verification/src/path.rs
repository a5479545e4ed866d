//! File-system paths as text: components joined by `/`, and a file extension
//! appended after a dot.

use crate::text::{chars_of, push_str, string_from_chars};
use vstd::prelude::*;

verus! {

/// `part` placed under `base`: the two are parted by one `/`, which is left out
/// where `base` is empty or already ends in one.
pub open spec fn joined(base: Seq<char>, part: Seq<char>) -> Seq<char> {
    if base.len() == 0 || base.last() == '/' {
        base + part
    } else {
        base + seq!['/'] + part
    }
}

/// `path` with `.` and `extension` appended.
pub open spec fn with_extension(path: Seq<char>, extension: Seq<char>) -> Seq<char> {
    path + seq!['.'] + extension
}

/// The index of the last `mark` in `name`, or -1 where it has none.
pub open spec fn last_index(name: Seq<char>, mark: char) -> int
    decreases name.len(),
{
    if name.len() == 0 {
        -1
    } else if name.last() == mark {
        name.len() - 1
    } else {
        last_index(name.drop_last(), mark)
    }
}

/// The index of the last `.` of `name`, or -1 where it has none.
pub open spec fn last_dot(name: Seq<char>) -> int {
    last_index(name, '.')
}

/// The directory of a path: what stands before its last `/`; nothing where
/// it has none.
pub open spec fn parent_of(path: Seq<char>) -> Seq<char> {
    let slash = last_index(path, '/');
    if slash < 0 {
        Seq::empty()
    } else {
        path.take(slash)
    }
}

/// The extension of a file name: what follows its last `.`, where that is not
/// empty and the dot is not the name's first character.
pub open spec fn extension_of(name: Seq<char>) -> Option<Seq<char>> {
    let dot = last_dot(name);
    if 0 < dot < name.len() - 1 {
        Some(name.subrange(dot + 1, name.len() as int))
    } else {
        None
    }
}

/// The name of the file of a path: what follows its last `/`.
pub open spec fn file_name_of(path: Seq<char>) -> Seq<char> {
    path.skip(last_index(path, '/') + 1)
}

/// `path` without the extension of its file name.
pub open spec fn without_extension(path: Seq<char>) -> Seq<char> {
    let name = file_name_of(path);
    let dot = last_dot(name);
    if dot > 0 {
        path.take(path.len() - name.len() + dot)
    } else {
        path
    }
}

/// `path` with the extension of its file name replaced by `extension`, or
/// with `extension` added where the name has none.
pub open spec fn with_replaced_extension(path: Seq<char>, extension: Seq<char>) -> Seq<char> {
    with_extension(without_extension(path), extension)
}

/// Replaces the extension of the file name of `path`, or adds one.
pub fn replace_extension(path: &str, extension: &str) -> (out: String)
    ensures
        out@ == with_replaced_extension(path@, extension@),
{
    let chars = chars_of(path);
    let start = end_of_last(&chars, '/');
    let mut name: Vec<char> = Vec::new();
    let mut i: usize = start;
    while i < chars.len()
        invariant
            start <= i <= chars.len(),
            name@ == chars@.subrange(start as int, i as int),
        decreases chars.len() - i,
    {
        name.push(chars[i]);
        i += 1;
    }
    let dot_end = end_of_last(&name, '.');
    let keep: usize = if dot_end > 1 {
        start + (dot_end - 1)
    } else {
        chars.len()
    };
    let mut out: Vec<char> = Vec::new();
    let mut j: usize = 0;
    while j < keep
        invariant
            j <= keep <= chars.len(),
            out@ == chars@.take(j as int),
        decreases keep - j,
    {
        out.push(chars[j]);
        j += 1;
    }
    out.push('.');
    push_str(&mut out, extension);
    string_from_chars(&out)
}

/// Places `part` under the path in `out`.
pub fn push_component(out: &mut Vec<char>, part: &str)
    ensures
        final(out)@ == joined(old(out)@, part@),
{
    if out.len() > 0 && out[out.len() - 1] != '/' {
        out.push('/');
    }
    push_str(out, part);
}

/// Places `part` under `base`.
pub fn join(base: &str, part: &str) -> (path: String)
    ensures
        path@ == joined(base@, part@),
{
    let mut out = chars_of(base);
    push_component(&mut out, part);
    string_from_chars(&out)
}

/// Appends `.` and `extension` to `path`.
pub fn append_extension(path: &str, extension: &str) -> (out: String)
    ensures
        out@ == with_extension(path@, extension@),
{
    let mut out = chars_of(path);
    out.push('.');
    push_str(&mut out, extension);
    string_from_chars(&out)
}

/// Where `name` has no `mark` from `from` on, its last `mark` is that of its
/// first `from` characters.
proof fn lemma_last_index_skips(name: Seq<char>, mark: char, from: int)
    requires
        0 <= from <= name.len(),
        forall|k: int| from <= k < name.len() ==> name[k] != mark,
    ensures
        last_index(name, mark) == last_index(name.take(from), mark),
    decreases name.len(),
{
    if from == name.len() {
        assert(name.take(from) == name);
    } else {
        lemma_last_index_skips(name.drop_last(), mark, from);
        assert(name.drop_last().take(from) == name.take(from));
    }
}

/// The number of characters of `chars` up to and with its last `mark`; 0
/// where it has none.
fn end_of_last(chars: &Vec<char>, mark: char) -> (end: usize)
    ensures
        end == last_index(chars@, mark) + 1,
        end <= chars.len(),
{
    let mut end: usize = chars.len();
    while end > 0 && chars[end - 1] != mark
        invariant
            end <= chars.len(),
            forall|k: int| end <= k < chars.len() ==> chars@[k] != mark,
        decreases end,
    {
        end -= 1;
    }
    proof {
        lemma_last_index_skips(chars@, mark, end as int);
    }
    end
}

/// The directory of a path.
pub fn get_parent(path: &str) -> (parent: String)
    ensures
        parent@ == parent_of(path@),
{
    let chars = chars_of(path);
    let end = end_of_last(&chars, '/');
    let mut out: Vec<char> = Vec::new();
    if end > 0 {
        let mut i: usize = 0;
        while i < end - 1
            invariant
                i <= end - 1,
                end <= chars.len(),
                out@ == chars@.take(i as int),
            decreases end - 1 - i,
        {
            out.push(chars[i]);
            i += 1;
        }
    }
    string_from_chars(&out)
}

/// The extension of a file name, if it has one.
pub fn get_extension(name: &str) -> (extension: Option<String>)
    ensures
        crate::text::opt_text(extension) == extension_of(name@),
{
    let chars = chars_of(name);
    let end = end_of_last(&chars, '.');
    if end <= 1 || end == chars.len() {
        return None;
    }
    let mut out: Vec<char> = Vec::new();
    let mut i: usize = end;
    while i < chars.len()
        invariant
            end <= i <= chars.len(),
            out@ == chars@.subrange(end as int, i as int),
        decreases chars.len() - i,
    {
        out.push(chars[i]);
        i += 1;
    }
    Some(string_from_chars(&out))
}

} // verus!
