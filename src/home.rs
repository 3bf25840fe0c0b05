//! The application's home directory and the directories under it.
use vstd::prelude::*;

verus! {

pub open spec fn ends_with_separator(s: Seq<char>) -> bool {
    s.len() > 0 && (s.last() == '\\' || s.last() == '/')
}

/// A path with one more component, joined the way Windows paths are: with a
/// `\` unless the base is empty or already ends with a separator.
pub open spec fn joined(base: Seq<char>, name: Seq<char>) -> Seq<char> {
    if base.len() == 0 || ends_with_separator(base) {
        base + name
    } else {
        base + seq!['\\'] + name
    }
}

pub fn join_component(base: &str, name: &str) -> (r: String)
    ensures
        r@ == joined(base@, name@),
{
    let n = base.unicode_len();
    let mut s = base.to_owned();
    if n > 0 {
        let last = base.get_char(n - 1);
        if last != '\\' && last != '/' {
            crate::text::push_char(&mut s, '\\');
        }
    }
    s.append(name);
    s
}

pub open spec fn is_separator(c: char) -> bool {
    c == '/' || c == '\\'
}

/// The length of `s` without its trailing separators.
pub open spec fn trimmed_len(s: Seq<char>) -> int
    decreases s.len(),
{
    if s.len() > 0 && is_separator(s.last()) {
        trimmed_len(s.drop_last())
    } else {
        s.len() as int
    }
}

/// The start of the last component of `s[0..end]`: just after its last
/// separator, or 0.
pub open spec fn component_start(s: Seq<char>, end: int) -> int
    decreases end,
{
    if end <= 0 {
        0
    } else if is_separator(s[end - 1]) {
        end
    } else {
        component_start(s, end - 1)
    }
}

/// The last `.` of `name`, or -1.
pub open spec fn last_dot(name: Seq<char>, end: int) -> int
    decreases end,
{
    if end <= 0 {
        -1
    } else if name[end - 1] == '.' {
        end - 1
    } else {
        last_dot(name, end - 1)
    }
}

/// The extension of a path's file name: what follows the name's last `.`,
/// where that `.` is not the name's first character; none for `..`.
pub open spec fn extension(path: Seq<char>) -> Option<Seq<char>> {
    let end = trimmed_len(path);
    let name = path.subrange(component_start(path, end), end);
    let dot = last_dot(name, name.len() as int);
    if name == seq!['.', '.'] || dot <= 0 {
        None
    } else {
        Some(name.subrange(dot + 1, name.len() as int))
    }
}

proof fn lemma_trimmed_len_bound(s: Seq<char>)
    ensures
        0 <= trimmed_len(s) <= s.len(),
    decreases s.len(),
{
    if s.len() > 0 && is_separator(s.last()) {
        lemma_trimmed_len_bound(s.drop_last());
    }
}

fn file_name_bounds(path: &str) -> (r: (usize, usize))
    ensures
        r.1 as int == trimmed_len(path@),
        r.0 as int == component_start(path@, r.1 as int),
        r.0 <= r.1 <= path@.len(),
{
    let n = path.unicode_len();
    let mut end: usize = n;
    proof {
        lemma_trimmed_len_bound(path@);
        assert(path@.subrange(0, n as int) =~= path@);
    }
    while end > 0 && (path.get_char(end - 1) == '/' || path.get_char(end - 1) == '\\')
        invariant
            n == path@.len(),
            end <= n,
            trimmed_len(path@.subrange(0, end as int)) == trimmed_len(path@),
        decreases end,
    {
        let ghost sub = path@.subrange(0, end as int);
        assert(sub.drop_last() =~= path@.subrange(0, end - 1));
        end = end - 1;
    }
    proof {
        let sub = path@.subrange(0, end as int);
        assert(trimmed_len(sub) == end);
    }
    let mut start: usize = end;
    while start > 0 && !(path.get_char(start - 1) == '/' || path.get_char(start - 1) == '\\')
        invariant
            start <= end <= n,
            n == path@.len(),
            end as int == trimmed_len(path@),
            component_start(path@, end as int) == component_start(path@, start as int),
        decreases start,
    {
        start = start - 1;
    }
    (start, end)
}

/// The extension of a path's file name; see `extension`.
pub fn file_extension<'a>(path: &'a str) -> (r: Option<&'a str>)
    ensures
        match r {
            Some(e) => extension(path@) == Some(e@),
            None => extension(path@) is None,
        },
{
    let (start, end) = file_name_bounds(path);
    let name = path.substring_char(start, end);
    let len = end - start;
    let mut dot: usize = len;
    while dot > 0 && name.get_char(dot - 1) != '.'
        invariant
            dot <= len,
            len == name@.len(),
            last_dot(name@, len as int) == last_dot(name@, dot as int),
        decreases dot,
    {
        dot = dot - 1;
    }
    let ghost d = last_dot(name@, len as int);
    assert(d == dot - 1);
    proof {
        reveal_strlit("..");
        assert(".."@ =~= seq!['.', '.']);
    }
    if dot <= 1 || crate::text::starts_with(name, "..") && len == 2 {
        proof {
            if name@ == seq!['.', '.'] {
            } else if len == 2 && crate::text::has_prefix(name@, ".."@) {
                assert(name@ =~= name@.subrange(0, 2));
            }
        }
        return None;
    }
    proof {
        if len == 2 {
            assert(!crate::text::has_prefix(name@, ".."@));
            assert(name@.subrange(0, 2) =~= name@);
        }
    }
    Some(name.substring_char(dot, len))
}

/// The directory that holds the application's configuration and logs.
#[derive(Debug, Clone)]
pub struct PiingHome(pub String);

impl PiingHome {
    pub fn logs_dir(&self) -> (r: String)
        ensures
            r@ == joined(self.0@, "logs"@),
    {
        join_component(self.0.as_str(), "logs")
    }

    pub fn config_dir(&self) -> (r: String)
        ensures
            r@ == joined(self.0@, "config"@),
    {
        join_component(self.0.as_str(), "config")
    }
}

} // verus!
