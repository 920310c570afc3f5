use vstd::prelude::*;

verus! {

/// The index of the last `c` in `s`, or -1 where there is none.
pub open spec fn last_index_of(s: Seq<char>, c: char) -> int
    decreases s.len(),
{
    if s.len() == 0 {
        -1
    } else if s.last() == c {
        s.len() - 1
    } else {
        last_index_of(s.drop_last(), c)
    }
}

pub proof fn lemma_last_index_of_bounds(s: Seq<char>, c: char)
    ensures
        -1 <= last_index_of(s, c) < s.len(),
        s.len() > 0 && s.last() != c ==> last_index_of(s, c) < s.len() - 1,
        last_index_of(s, c) >= 0 ==> s[last_index_of(s, c)] == c,
    decreases s.len(),
{
    if s.len() > 0 && s.last() != c {
        lemma_last_index_of_bounds(s.drop_last(), c);
    }
}

/// Where the file name of a `/`-separated relative path lies, as a start
/// and end index: its last component, after skipping empty components and
/// `.`; `None` when there is none or it is `..`.
pub open spec fn spec_file_name_range(p: Seq<char>) -> Option<(int, int)>
    decreases p.len(),
{
    if p.len() == 0 {
        None
    } else if p.last() == '/' {
        spec_file_name_range(p.drop_last())
    } else {
        let start = last_index_of(p, '/') + 1;
        let segment = p.subrange(start, p.len() as int);
        proof {
            lemma_last_index_of_bounds(p, '/');
        }
        if segment == seq!['.'] {
            spec_file_name_range(p.subrange(0, start))
        } else if segment == seq!['.', '.'] {
            None
        } else {
            Some((start, p.len() as int))
        }
    }
}

/// The extension of a relative path: the part of its file name after the
/// last `.`, where the name has a `.` that is not its first character.
pub open spec fn spec_path_extension(p: Seq<char>) -> Option<Seq<char>> {
    match spec_file_name_range(p) {
        None => None,
        Some((start, end)) => {
            let name = p.subrange(start, end);
            let dot = last_index_of(name, '.');
            if dot <= 0 {
                None
            } else {
                Some(name.subrange(dot + 1, name.len() as int))
            }
        },
    }
}

/// A relative path with the extension of its file name replaced by `ext`
/// (added where it has none): everything after the file name's stem is cut
/// off, then `.` and `ext` are appended unless `ext` is empty. A path without
/// a file name is kept as it is.
pub open spec fn spec_path_with_extension(p: Seq<char>, ext: Seq<char>) -> Seq<char> {
    match spec_file_name_range(p) {
        None => p,
        Some((start, end)) => {
            let name = p.subrange(start, end);
            let dot = last_index_of(name, '.');
            let stem_end = if dot <= 0 { end } else { start + dot };
            p.subrange(0, stem_end) + if ext.len() == 0 { Seq::<char>::empty() } else { seq!['.'] + ext }
        },
    }
}

/// Calls `relative_path::RelativePath::extension` on the path.
///
/// The contract restates the crate's source: `file_name` takes the last
/// component, trimming `/` separators and skipping `.` components, and gives
/// `None` for `..`; `extension` splits that name at its last `.` and gives
/// `None` when there is no `.` or the only part before it is empty.
#[verifier::external_body]
pub(crate) fn path_extension(path: &str) -> (res: Option<String>)
    ensures
        match res {
            Some(e) => spec_path_extension(path@) == Some(e@),
            None => spec_path_extension(path@) is None,
        },
{
    match relative_path::RelativePath::new(path).extension() {
        Some(e) => Some(e.to_string()),
        None => None,
    }
}

/// Calls `relative_path::RelativePath::with_extension` and writes the path
/// out as a string.
///
/// The contract restates the crate's source: `set_extension` finds the file
/// stem (the file name before its last `.`, or the whole name where that part
/// would be empty or there is no `.`), truncates the path right after it and
/// pushes `.` and the extension unless the extension is empty; without a file
/// name the path is left unchanged.
#[verifier::external_body]
pub(crate) fn path_with_extension(path: &str, ext: &str) -> (res: String)
    ensures
        res@ == spec_path_with_extension(path@, ext@),
{
    relative_path::RelativePath::new(path).with_extension(ext).into_string()
}

} // verus!
