//! Substitution of `${name}` placeholders in text.

use vstd::prelude::*;
use crate::text::{chars_of, push_char, str_eq};

verus! {

/// Whether `c` may appear in a placeholder name: an ASCII letter, digit or '_'.
pub open spec fn is_word_char(c: char) -> bool {
    (48 <= c as u32 <= 57) || (65 <= c as u32 <= 90) || (97 <= c as u32 <= 122) || c == '_'
}

/// The number of name characters at the start of `s`.
pub open spec fn word_run(s: Seq<char>) -> nat
    decreases s.len(),
{
    if s.len() > 0 && is_word_char(s[0]) {
        1 + word_run(s.skip(1))
    } else {
        0
    }
}

/// The value bound to `name` by the first entry of `vars` with that name.
pub open spec fn lookup(vars: Seq<(Seq<char>, Seq<char>)>, name: Seq<char>) -> Option<Seq<char>>
    decreases vars.len(),
{
    if vars.len() == 0 {
        None
    } else if vars[0].0 == name {
        Some(vars[0].1)
    } else {
        lookup(vars.skip(1), name)
    }
}

/// Whether `s` starts with a placeholder "${name}"; its name is `s[2..2 + word_run]`.
pub open spec fn starts_placeholder(s: Seq<char>) -> bool {
    s.len() >= 2 && s[0] == '$' && s[1] == '{' && 2 + word_run(s.skip(2)) < s.len() && s[2
        + word_run(s.skip(2)) as int] == '}'
}

/// `s` with every placeholder "${name}" whose name is bound in `vars` replaced by its
/// value, scanning from the left; other text, unknown placeholders included, stays.
pub open spec fn substitute(s: Seq<char>, vars: Seq<(Seq<char>, Seq<char>)>) -> Seq<char>
    decreases s.len(),
{
    if s.len() == 0 {
        s
    } else if starts_placeholder(s) {
        let k = word_run(s.skip(2)) as int;
        let name = s.subrange(2, 2 + k);
        let shown = match lookup(vars, name) {
            Some(v) => v,
            None => s.subrange(0, 3 + k),
        };
        shown + substitute(s.skip(3 + k), vars)
    } else {
        seq![s[0]] + substitute(s.skip(1), vars)
    }
}

pub open spec fn pair_views(v: Seq<(String, String)>) -> Seq<(Seq<char>, Seq<char>)> {
    v.map_values(|p: (String, String)| (p.0@, p.1@))
}

fn is_word(c: char) -> (r: bool)
    ensures
        r == is_word_char(c),
{
    let n = c as u32;
    (48 <= n && n <= 57) || (65 <= n && n <= 90) || (97 <= n && n <= 122) || c == '_'
}

proof fn lemma_word_run_bound(s: Seq<char>)
    ensures
        word_run(s) <= s.len(),
    decreases s.len(),
{
    if s.len() > 0 && is_word_char(s[0]) {
        lemma_word_run_bound(s.skip(1));
    }
}

fn lookup_var<'a>(vars: &'a [(String, String)], name: &str) -> (r: Option<&'a String>)
    ensures
        match lookup(pair_views(vars@), name@) {
            Some(v) => r matches Some(s) && s@ == v,
            None => r is None,
        },
{
    let ghost pv = pair_views(vars@);
    let mut i: usize = 0;
    proof {
        assert(pv.skip(0) == pv);
    }
    while i < vars.len()
        invariant
            0 <= i <= vars@.len(),
            pv == pair_views(vars@),
            lookup(pv, name@) == lookup(pv.skip(i as int), name@),
        decreases vars@.len() - i,
    {
        proof {
            assert(pv.skip(i as int)[0] == (vars@[i as int].0@, vars@[i as int].1@));
            assert(pv.skip(i as int).skip(1) == pv.skip(i + 1));
        }
        if str_eq(vars[i].0.as_str(), name) {
            return Some(&vars[i].1);
        }
        i += 1;
    }
    None
}

/// Replaces the placeholders "${name}" of `input` whose name `vars` binds (the first
/// binding of a name counts); everything else is kept as it is.
pub fn dollar_repl(input: &str, vars: &[(String, String)]) -> (r: String)
    ensures
        r@ == substitute(input@, pair_views(vars@)),
{
    let s = chars_of(input);
    let n = s.len();
    let ghost pv = pair_views(vars@);
    let mut out = String::new();
    let mut i: usize = 0;
    proof {
        assert(s@.skip(0) == s@);
        assert(Seq::<char>::empty() + substitute(s@, pv) == substitute(s@, pv));
    }
    while i < n
        invariant
            0 <= i <= n,
            n == s@.len(),
            s@ == input@,
            pv == pair_views(vars@),
            substitute(input@, pv) == out@ + substitute(s@.skip(i as int), pv),
        decreases n - i,
    {
        let ghost rest = s@.skip(i as int);
        let mut placeholder = false;
        let mut j: usize = i;
        if i + 1 < n && s[i] == '$' && s[i + 1] == '{' {
            j = i + 2;
            proof {
                assert(rest.skip(2) == s@.skip(i + 2));
            }
            while j < n && is_word(s[j])
                invariant
                    i + 2 <= j <= n,
                    n == s@.len(),
                    word_run(s@.skip(i + 2)) == (j - (i + 2)) + word_run(s@.skip(j as int)),
                decreases n - j,
            {
                proof {
                    assert(s@.skip(j as int)[0] == s@[j as int]);
                    assert(s@.skip(j as int).skip(1) == s@.skip(j + 1));
                }
                j += 1;
            }
            proof {
                if j < n {
                    assert(s@.skip(j as int)[0] == s@[j as int]);
                }
                assert(word_run(s@.skip(j as int)) == 0);
            }
            placeholder = j < n && s[j] == '}';
        }
        if placeholder {
            let ghost k = (j - (i + 2)) as int;
            proof {
                assert(starts_placeholder(rest));
                assert(word_run(rest.skip(2)) == k);
            }
            let mut name_chars = String::new();
            let mut m: usize = i + 2;
            while m < j
                invariant
                    i + 2 <= m <= j,
                    j < n,
                    n == s@.len(),
                    name_chars@ == s@.subrange(i + 2, m as int),
                decreases j - m,
            {
                push_char(&mut name_chars, s[m]);
                proof {
                    assert(s@.subrange(i + 2, m + 1) == s@.subrange(i + 2, m as int).push(s@[m as int]));
                }
                m += 1;
            }
            proof {
                assert(name_chars@ == rest.subrange(2, 2 + k));
            }
            match lookup_var(vars, name_chars.as_str()) {
                Some(v) => {
                    out.append(v.as_str());
                },
                None => {
                    let mut t: usize = i;
                    let ghost base = out@;
                    while t <= j
                        invariant
                            i <= t <= j + 1,
                            j < n,
                            n == s@.len(),
                            out@ == base + s@.subrange(i as int, t as int),
                        decreases j + 1 - t,
                    {
                        push_char(&mut out, s[t]);
                        proof {
                            assert(s@.subrange(i as int, t + 1) == s@.subrange(i as int, t as int).push(s@[t as int]));
                        }
                        t += 1;
                    }
                    proof {
                        assert(s@.subrange(i as int, j + 1) == rest.subrange(0, 3 + k));
                    }
                },
            }
            proof {
                assert(rest.skip(3 + k) == s@.skip(j + 1));
            }
            i = j + 1;
        } else {
            proof {
                assert(!starts_placeholder(rest)) by {
                    if starts_placeholder(rest) {
                        assert(rest[0] == s@[i as int]);
                        assert(rest[1] == s@[i + 1]);
                        assert(rest.skip(2) == s@.skip(i + 2));
                        assert(rest[2 + word_run(rest.skip(2)) as int] == s@[j as int]);
                    }
                }
                assert(rest[0] == s@[i as int]);
                assert(rest.skip(1) == s@.skip(i + 1));
            }
            push_char(&mut out, s[i]);
            i += 1;
        }
    }
    proof {
        assert(s@.skip(n as int) == Seq::<char>::empty());
        assert(out@ + Seq::<char>::empty() == out@);
    }
    out
}

} // verus!
