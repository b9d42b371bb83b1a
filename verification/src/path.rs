//! Paths as text: joining them and finding the stem of a file's name.
//!
//! A path is read as the host reads it, with `/` between its components.

use crate::text::chars_of;
use vstd::prelude::*;
use vstd::string::*;

verus! {

/// A path of the host's filesystem.
///
/// The host allows names that are no text. Such a path can be created,
/// handed on and opened, but it cannot be written into a document, and
/// nothing of it can be read here.
#[derive(Debug, Clone, PartialEq, Eq)]
pub enum HostPath {
    /// A path that is text.
    Text(String),
    /// A path that cannot be decoded as text.
    Opaque,
}

impl View for HostPath {
    type V = Option<Seq<char>>;

    /// The path's text, where it has one.
    open spec fn view(&self) -> Option<Seq<char>> {
        match self {
            HostPath::Text(text) => Some(text@),
            HostPath::Opaque => None,
        }
    }
}

/// `base` and `component` with one separator between them.
pub open spec fn joined(base: Seq<char>, component: Seq<char>) -> Seq<char> {
    base + seq!['/'] + component
}

/// `path` without the separators and the `.` components that it ends in.
pub open spec fn trimmed(path: Seq<char>) -> Seq<char>
    decreases path.len(),
{
    if path.len() >= 1 && path.last() == '/' {
        trimmed(path.drop_last())
    } else if path.len() >= 2 && path.last() == '.' && path[path.len() - 2] == '/' {
        trimmed(path.drop_last())
    } else {
        path
    }
}

/// Where the last component of `path` begins: behind its last separator, or
/// at 0 where it has none.
pub open spec fn last_component_start(path: Seq<char>) -> int
    decreases path.len(),
{
    if path.len() == 0 {
        0
    } else if path.last() == '/' {
        path.len() as int
    } else {
        last_component_start(path.drop_last())
    }
}

/// The name of the file or directory that `path` ends in. A path that ends
/// in the root, in `..` or in nothing at all has none.
pub open spec fn file_name(path: Seq<char>) -> Option<Seq<char>> {
    let kept = trimmed(path);
    let name = kept.skip(last_component_start(kept));
    if name.len() == 0 || name == seq!['.'] || name == seq!['.', '.'] {
        None
    } else {
        Some(name)
    }
}

/// Where the last `.` of `name` stands, or -1 where it has none.
pub open spec fn last_dot(name: Seq<char>) -> int
    decreases name.len(),
{
    if name.len() == 0 {
        -1
    } else if name.last() == '.' {
        name.len() - 1
    } else {
        last_dot(name.drop_last())
    }
}

/// `name` without its extension: what stands before its last `.`, or all of
/// it where it has no `.` or only the one that it begins with.
pub open spec fn without_extension(name: Seq<char>) -> Seq<char> {
    if last_dot(name) <= 0 {
        name
    } else {
        name.take(last_dot(name))
    }
}

/// The name that `path` ends in, without its extension.
pub open spec fn file_stem(path: Seq<char>) -> Option<Seq<char>> {
    match file_name(path) {
        Some(name) => Some(without_extension(name)),
        None => None,
    }
}

impl HostPath {
    /// The path one step below this one.
    pub fn join(&self, component: &str) -> (path: HostPath)
        ensures
            path@ == match self@ {
                Some(base) => Some(joined(base, component@)),
                None => None,
            },
    {
        match self {
            HostPath::Text(base) => {
                let mut text = base.clone();
                text.append("/");
                text.append(component);
                proof {
                    reveal_strlit("/");
                }
                HostPath::Text(text)
            },
            HostPath::Opaque => HostPath::Opaque,
        }
    }

    /// The path's text, or `None` where it has none.
    pub fn to_text(&self) -> (text: Option<String>)
        ensures
            match text {
                Some(t) => self@ == Some(t@),
                None => self@ is None,
            },
    {
        match self {
            HostPath::Text(text) => Some(text.clone()),
            HostPath::Opaque => None,
        }
    }
}

/// The name that `path` ends in, without its extension; `None` where the
/// path ends in no name.
pub fn file_stem_of(path: &str) -> (stem: Option<String>)
    ensures
        match stem {
            Some(s) => file_stem(path@) == Some(s@),
            None => file_stem(path@) is None,
        },
{
    let chars = chars_of(path);
    let mut end: usize = chars.len();
    assert(chars@.take(end as int) =~= chars@);
    loop
        invariant_except_break
            end <= chars@.len(),
            trimmed(chars@) == trimmed(chars@.take(end as int)),
        ensures
            end <= chars@.len(),
            trimmed(chars@) == chars@.take(end as int),
        decreases end,
    {
        let ghost head = chars@.take(end as int);
        if end >= 1 && chars[end - 1] == '/' {
            assert(head.drop_last() =~= chars@.take(end - 1));
            end -= 1;
        } else if end >= 2 && chars[end - 1] == '.' && chars[end - 2] == '/' {
            assert(head.drop_last() =~= chars@.take(end - 1));
            end -= 1;
        } else {
            break;
        }
    }
    let ghost kept = chars@.take(end as int);
    let mut start: usize = end;
    assert(kept.take(start as int) =~= kept);
    while start > 0 && chars[start - 1] != '/'
        invariant
            start <= end <= chars@.len(),
            kept == chars@.take(end as int),
            last_component_start(kept) == last_component_start(kept.take(start as int)),
        decreases start,
    {
        assert(kept.take(start as int).drop_last() =~= kept.take(start - 1));
        start -= 1;
    }
    let ghost name = kept.skip(start as int);
    if end == start {
        return None;
    }
    if end - start == 1 && chars[start] == '.' {
        assert(name =~= seq!['.']);
        return None;
    }
    if end - start == 2 && chars[start] == '.' && chars[start + 1] == '.' {
        assert(name =~= seq!['.', '.']);
        return None;
    }
    assert(name != seq!['.']) by {
        if name == seq!['.'] {
            assert(name.len() == 1 && name[0] == '.');
        }
    }
    assert(name != seq!['.', '.']) by {
        if name == seq!['.', '.'] {
            assert(name.len() == 2 && name[0] == '.' && name[1] == '.');
        }
    }
    let mut dot: usize = end;
    assert(name.take(dot - start) =~= name);
    while dot > start && chars[dot - 1] != '.'
        invariant
            start <= dot <= end <= chars@.len(),
            name == chars@.subrange(start as int, end as int),
            last_dot(name) == last_dot(name.take(dot - start)),
        decreases dot,
    {
        assert(name.take(dot - start).drop_last() =~= name.take(dot - start - 1));
        dot -= 1;
    }
    let stem_end: usize = if dot <= start + 1 {
        end
    } else {
        dot - 1
    };
    Some(path.substring_char(start, stem_end).to_owned())
}

} // verus!
