//! Units of pipeline work, and the path rule that keeps archive entries inside the
//! extraction root.

use vstd::prelude::*;
use crate::text::{chars_of, push_char};

verus! {

/// Downloads `url` to `destination`.
#[derive(Debug)]
pub struct DownloadTask {
    pub url: String,
    pub destination: String,
}

/// Copies `source` to `destination` byte for byte, creating parent directories.
#[derive(Debug)]
pub struct CopyTask {
    pub source: String,
    pub destination: String,
}

/// Runs `program` with `args` in `dir` and reports its exit status.
#[derive(Debug)]
pub struct ExecuteTask {
    pub program: String,
    pub args: Vec<String>,
    pub dir: Option<String>,
}

/// Extracts the archive at `zip_path` under `destination`.
#[derive(Debug)]
pub struct UnzipTask {
    pub zip_path: String,
    pub destination: String,
}

/// The progress sink of a running task: the latest status message.
#[derive(Debug)]
pub struct TaskHandle {
    pub message: String,
}

impl TaskHandle {
    /// A sink with an empty message.
    pub fn new() -> (r: TaskHandle)
        ensures
            r.message@ == Seq::<char>::empty(),
    {
        TaskHandle { message: String::new() }
    }

    /// Replaces the status message.
    pub fn set_message(&mut self, message: &str)
        ensures
            final(self).message@ == message@,
    {
        self.message = String::from_str(message);
    }
}

pub open spec fn is_separator(c: char) -> bool {
    c == '/' || c == '\\'
}

/// The components of an archive entry path, split at '/' and '\'.
pub open spec fn path_parts(s: Seq<char>) -> Seq<Seq<char>>
    decreases s.len(),
{
    if s.len() == 0 {
        seq![Seq::empty()]
    } else {
        let rest = path_parts(s.drop_last());
        if is_separator(s.last()) {
            rest.push(Seq::empty())
        } else {
            rest.update(rest.len() - 1, rest.last().push(s.last()))
        }
    }
}

/// Whether walking `parts` from depth `depth` never climbs above the root: ".."
/// goes up one level, "" and "." stay, anything else goes down one.
pub open spec fn stays_inside(parts: Seq<Seq<char>>, depth: nat) -> bool
    decreases parts.len(),
{
    if parts.len() == 0 {
        true
    } else if parts[0] == ".."@ {
        depth > 0 && stays_inside(parts.skip(1), (depth - 1) as nat)
    } else if parts[0] == Seq::<char>::empty() || parts[0] == "."@ {
        stays_inside(parts.skip(1), depth)
    } else {
        stays_inside(parts.skip(1), depth + 1)
    }
}

/// Whether an archive entry named `name` lands inside the extraction root: it is
/// relative (no leading separator, no drive or scheme colon) and never climbs above
/// the root.
pub open spec fn entry_is_safe(name: Seq<char>) -> bool {
    &&& !(name.len() > 0 && is_separator(name[0]))
    &&& !name.contains(':')
    &&& stays_inside(path_parts(name), 0)
}

fn parts_of(s: &Vec<char>) -> (r: Vec<Vec<char>>)
    ensures
        r@.map_values(|p: Vec<char>| p@) == path_parts(s@),
{
    let mut r: Vec<Vec<char>> = Vec::new();
    r.push(Vec::new());
    let mut i: usize = 0;
    proof {
        assert(r@.map_values(|p: Vec<char>| p@) =~= path_parts(s@.take(0)));
    }
    while i < s.len()
        invariant
            0 <= i <= s@.len(),
            r@.len() >= 1,
            r@.map_values(|p: Vec<char>| p@) == path_parts(s@.take(i as int)),
        decreases s@.len() - i,
    {
        let c = s[i];
        let ghost pre = r@.map_values(|p: Vec<char>| p@);
        proof {
            assert(s@.take(i + 1).drop_last() == s@.take(i as int));
        }
        if c == '/' || c == '\\' {
            r.push(Vec::new());
            proof {
                assert(r@.map_values(|p: Vec<char>| p@) =~= pre.push(Seq::empty()));
            }
        } else {
            let mut piece = r.pop().unwrap();
            piece.push(c);
            r.push(piece);
            proof {
                assert(r@.map_values(|p: Vec<char>| p@) =~= pre.update(
                    pre.len() - 1,
                    pre.last().push(c),
                ));
            }
        }
        i += 1;
    }
    proof {
        assert(s@.take(s@.len() as int) == s@);
    }
    r
}

fn is_dot_dot(p: &Vec<char>) -> (r: bool)
    ensures
        r == (p@ == ".."@),
{
    proof {
        reveal_strlit("..");
    }
    let r = p.len() == 2 && p[0] == '.' && p[1] == '.';
    proof {
        if r {
            assert(p@ =~= ".."@);
        }
    }
    r
}

fn is_dot(p: &Vec<char>) -> (r: bool)
    ensures
        r == (p@ == "."@),
{
    proof {
        reveal_strlit(".");
    }
    let r = p.len() == 1 && p[0] == '.';
    proof {
        if r {
            assert(p@ =~= "."@);
        }
    }
    r
}

/// Whether an archive entry named `name` may be extracted: it must not escape the
/// extraction root.
pub fn entry_path_is_safe(name: &str) -> (r: bool)
    ensures
        r == entry_is_safe(name@),
{
    let s = chars_of(name);
    if s.len() > 0 && (s[0] == '/' || s[0] == '\\') {
        return false;
    }
    let mut k: usize = 0;
    while k < s.len()
        invariant
            0 <= k <= s@.len(),
            s@ == name@,
            !(name@.len() > 0 && is_separator(name@[0])),
            forall|j: int| 0 <= j < k ==> s@[j] != ':',
        decreases s@.len() - k,
    {
        if s[k] == ':' {
            assert(s@[k as int] == ':');
            return false;
        }
        k += 1;
    }
    let parts = parts_of(&s);
    let ghost ps = parts@.map_values(|p: Vec<char>| p@);
    let mut depth: u64 = 0;
    let mut i: usize = 0;
    proof {
        assert(ps.skip(0) == ps);
    }
    while i < parts.len()
        invariant
            0 <= i <= parts@.len(),
            ps == parts@.map_values(|p: Vec<char>| p@),
            ps == path_parts(name@),
            !(name@.len() > 0 && is_separator(name@[0])),
            !name@.contains(':'),
            depth <= i,
            stays_inside(ps, 0) == stays_inside(ps.skip(i as int), depth as nat),
        decreases parts@.len() - i,
    {
        proof {
            assert(ps.skip(i as int)[0] == parts@[i as int]@);
            assert(ps.skip(i as int).skip(1) == ps.skip(i + 1));
            reveal_strlit("");
        }
        let p = &parts[i];
        if is_dot_dot(p) {
            if depth == 0 {
                return false;
            }
            depth -= 1;
        } else if p.len() == 0 || is_dot(p) {
            proof {
                if p@.len() == 0 {
                    assert(p@ =~= Seq::<char>::empty());
                }
            }
        } else {
            proof {
                assert(p@ != Seq::<char>::empty());
            }
            depth += 1;
        }
        i += 1;
    }
    true
}

} // verus!
