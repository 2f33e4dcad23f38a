//! Version selectors, numeric-aware version ordering and the "latest" choice.

use vstd::prelude::*;
use std::cmp::Ordering;
use crate::error::ResolveError;
use crate::text::{chars_of, concat2};

verus! {

/// Whether a selector is the "latest" sentinel.
pub open spec fn is_latest_sentinel(s: Seq<char>) -> bool {
    s == "latest"@
}

/// Whether `s` is the default selector, "latest".
pub fn is_default_str(s: &str) -> (r: bool)
    ensures
        r == is_latest_sentinel(s@),
{
    proof {
        reveal_strlit("latest");
    }
    if s.unicode_len() != 6 {
        return false;
    }
    let ok = s.get_char(0) == 'l' && s.get_char(1) == 'a' && s.get_char(2) == 't' && s.get_char(3)
        == 'e' && s.get_char(4) == 's' && s.get_char(5) == 't';
    proof {
        if ok {
            assert(s@ =~= "latest"@);
        }
    }
    ok
}

/// The pieces of `s` between '.' separators (one piece when there is none).
pub open spec fn split_dots(s: Seq<char>) -> Seq<Seq<char>>
    decreases s.len(),
{
    if s.len() == 0 {
        seq![Seq::empty()]
    } else {
        let rest = split_dots(s.drop_last());
        if s.last() == '.' {
            rest.push(Seq::empty())
        } else {
            rest.update(rest.len() - 1, rest.last().push(s.last()))
        }
    }
}

pub open spec fn is_digit(c: char) -> bool {
    48 <= c as u32 <= 57
}

/// The value of a string of decimal digits.
pub open spec fn digits_value(s: Seq<char>) -> nat
    decreases s.len(),
{
    if s.len() == 0 {
        0
    } else {
        digits_value(s.drop_last()) * 10 + (s.last() as u32 - 48) as nat
    }
}

pub open spec fn all_digits(s: Seq<char>) -> bool {
    forall|i: int| 0 <= i < s.len() ==> is_digit(#[trigger] s[i])
}

/// `s` read as an unsigned decimal number no greater than `max`: an optional '+',
/// then at least one digit, with a value that fits (how `str::parse` reads an
/// unsigned integer).
pub open spec fn parse_bounded(s: Seq<char>, max: nat) -> Option<nat> {
    let d = if s.len() > 0 && s[0] == '+' {
        s.skip(1)
    } else {
        s
    };
    if d.len() > 0 && all_digits(d) && digits_value(d) <= max {
        Some(digits_value(d))
    } else {
        None
    }
}

/// `s` read as an unsigned 32-bit number.
pub open spec fn parse_u32(s: Seq<char>) -> Option<nat> {
    parse_bounded(s, u32::MAX as nat)
}

/// Orders two lists of version components: numbers compare as integers, a
/// non-number sorts before a number, two non-numbers end the comparison as equal,
/// and a list that is a prefix of the other sorts first.
pub open spec fn compare_parts(a: Seq<Seq<char>>, b: Seq<Seq<char>>) -> Ordering
    decreases a.len(),
{
    if a.len() == 0 && b.len() == 0 {
        Ordering::Equal
    } else if a.len() == 0 {
        Ordering::Less
    } else if b.len() == 0 {
        Ordering::Greater
    } else {
        match (parse_u32(a[0]), parse_u32(b[0])) {
            (Some(x), Some(y)) => if x < y {
                Ordering::Less
            } else if x > y {
                Ordering::Greater
            } else {
                compare_parts(a.skip(1), b.skip(1))
            },
            (None, Some(_)) => Ordering::Less,
            (Some(_), None) => Ordering::Greater,
            (None, None) => Ordering::Equal,
        }
    }
}

/// Numeric-aware order of two dotted version strings.
pub open spec fn compare_version_strings(a: Seq<char>, b: Seq<char>) -> Ordering {
    compare_parts(split_dots(a), split_dots(b))
}

/// Whether `list[b]` is the "latest" choice: no entry is greater, and every entry
/// after it is smaller (so among equal greatest entries it is the last).
pub open spec fn is_latest_at(list: Seq<Seq<char>>, b: int) -> bool {
    &&& 0 <= b < list.len()
    &&& forall|j: int|
        0 <= j < list.len() ==> compare_version_strings(#[trigger] list[j], list[b])
            != Ordering::Greater
    &&& forall|j: int|
        b < j < list.len() ==> compare_version_strings(#[trigger] list[j], list[b])
            == Ordering::Less
}

/// The order is antisymmetric: `a < b` exactly when `b > a`, and equality is symmetric.
pub proof fn lemma_compare_antisymmetric(a: Seq<Seq<char>>, b: Seq<Seq<char>>)
    ensures
        (compare_parts(a, b) == Ordering::Less) == (compare_parts(b, a) == Ordering::Greater),
        (compare_parts(a, b) == Ordering::Equal) == (compare_parts(b, a) == Ordering::Equal),
    decreases a.len(),
{
    if a.len() > 0 && b.len() > 0 {
        lemma_compare_antisymmetric(a.skip(1), b.skip(1));
    }
}

/// The order is transitive: `a <= b` and `b <= c` give `a <= c`.
pub proof fn lemma_compare_transitive(a: Seq<Seq<char>>, b: Seq<Seq<char>>, c: Seq<Seq<char>>)
    requires
        compare_parts(a, b) != Ordering::Greater,
        compare_parts(b, c) != Ordering::Greater,
    ensures
        compare_parts(a, c) != Ordering::Greater,
    decreases a.len(),
{
    if a.len() > 0 && b.len() > 0 && c.len() > 0 {
        if parse_u32(a[0]) is Some && parse_u32(b[0]) is Some && parse_u32(c[0]) is Some {
            let x = parse_u32(a[0])->Some_0;
            let y = parse_u32(b[0])->Some_0;
            let z = parse_u32(c[0])->Some_0;
            if x == y && y == z {
                lemma_compare_transitive(a.skip(1), b.skip(1), c.skip(1));
            }
        }
    }
}

pub open spec fn string_views(list: Seq<String>) -> Seq<Seq<char>> {
    list.map_values(|s: String| s@)
}

/// The pieces of `s` between '.' separators.
pub fn split_on_dots(s: &Vec<char>) -> (r: Vec<Vec<char>>)
    ensures
        r@.map_values(|p: Vec<char>| p@) == split_dots(s@),
{
    let mut r: Vec<Vec<char>> = Vec::new();
    r.push(Vec::new());
    let mut i: usize = 0;
    proof {
        assert(r@.map_values(|p: Vec<char>| p@) =~= split_dots(s@.take(0)));
    }
    while i < s.len()
        invariant
            0 <= i <= s@.len(),
            r@.len() >= 1,
            r@.map_values(|p: Vec<char>| p@) == split_dots(s@.take(i as int)),
        decreases s@.len() - i,
    {
        let c = s[i];
        let ghost pre = r@.map_values(|p: Vec<char>| p@);
        proof {
            assert(s@.take(i + 1).drop_last() == s@.take(i as int));
        }
        if c == '.' {
            r.push(Vec::new());
            proof {
                assert(r@.map_values(|p: Vec<char>| p@) =~= pre.push(Seq::empty()));
            }
        } else {
            let last = r.len() - 1;
            let mut piece = r.pop().unwrap();
            piece.push(c);
            r.push(piece);
            proof {
                assert(r@.map_values(|p: Vec<char>| p@) =~= pre.update(
                    pre.len() - 1,
                    pre.last().push(c),
                ));
            }
        }
        i += 1;
    }
    proof {
        assert(s@.take(s@.len() as int) == s@);
    }
    r
}

/// `s` read as an unsigned decimal number no greater than `max`.
pub fn parse_component(s: &Vec<char>, max: u64) -> (r: Option<u64>)
    ensures
        r matches Some(x) ==> parse_bounded(s@, max as nat) == Some(x as nat),
        r is None ==> parse_bounded(s@, max as nat) is None,
{
    let start: usize = if s.len() > 0 && s[0] == '+' {
        1
    } else {
        0
    };
    let ghost d = if s@.len() > 0 && s@[0] == '+' {
        s@.skip(1)
    } else {
        s@
    };
    proof {
        assert(d == s@.skip(start as int));
    }
    if start >= s.len() {
        return None;
    }
    let mut v: u64 = 0;
    let mut i: usize = start;
    while i < s.len()
        invariant
            start <= i <= s@.len(),
            d == s@.skip(start as int),
            d == (if s@.len() > 0 && s@[0] == '+' {
                s@.skip(1)
            } else {
                s@
            }),
            v == digits_value(d.take(i - start)),
            v <= max,
            all_digits(d.take(i - start)),
        decreases s@.len() - i,
    {
        let c = s[i];
        let n = c as u32;
        proof {
            assert(d.take(i - start + 1).drop_last() == d.take(i - start));
            assert(d.take(i - start + 1).last() == c);
        }
        if n < 48 || n > 57 {
            proof {
                assert(!is_digit(d[i - start]));
                assert(!all_digits(d));
                assert(parse_bounded(s@, max as nat) is None);
            }
            return None;
        }
        let nv: u128 = v as u128 * 10 + (n - 48) as u128;
        if nv > max as u128 {
            proof {
                assert(d.take(i - start + 1).last() == d[i - start]);
                assert(all_digits(d.take(i - start + 1)) ==> is_digit(d[i - start]));
                lemma_digits_value_grows(d, (i - start + 1) as int, max as nat);
                assert(parse_bounded(s@, max as nat) is None);
            }
            return None;
        }
        v = nv as u64;
        i += 1;
        proof {
            assert forall|j: int| 0 <= j < i - start implies is_digit(#[trigger] d.take(i - start)[j]) by {
                if j < i - start - 1 {
                    assert(d.take(i - start)[j] == d.take(i - start - 1)[j]);
                }
            }
        }
    }
    proof {
        assert(d.take(s@.len() - start) == d);
    }
    Some(v)
}

proof fn lemma_digits_value_grows(d: Seq<char>, k: int, max: nat)
    requires
        0 < k <= d.len(),
        all_digits(d.take(k)) ==> digits_value(d.take(k)) > max,
    ensures
        !(d.len() > 0 && all_digits(d) && digits_value(d) <= max),
    decreases d.len() - k,
{
    if k < d.len() && all_digits(d) {
        assert(d.take(k + 1).drop_last() == d.take(k));
        assert(all_digits(d.take(k))) by {
            assert forall|j: int| 0 <= j < k implies is_digit(#[trigger] d.take(k)[j]) by {
                assert(d.take(k)[j] == d[j]);
            }
        }
        assert(all_digits(d.take(k + 1))) by {
            assert forall|j: int| 0 <= j < k + 1 implies is_digit(#[trigger] d.take(k + 1)[j]) by {
                assert(d.take(k + 1)[j] == d[j]);
            }
        }
        lemma_digits_value_grows(d, k + 1, max);
    } else if k == d.len() {
        assert(d.take(k) == d);
    }
}


pub open spec fn piece_views(v: Seq<Vec<char>>) -> Seq<Seq<char>> {
    v.map_values(|p: Vec<char>| p@)
}

fn compare_pieces(a: &Vec<Vec<char>>, b: &Vec<Vec<char>>) -> (r: Ordering)
    ensures
        r == compare_parts(piece_views(a@), piece_views(b@)),
{
    let ghost pa = piece_views(a@);
    let ghost pb = piece_views(b@);
    let mut k: usize = 0;
    proof {
        assert(pa.skip(0) == pa);
        assert(pb.skip(0) == pb);
    }
    while k < a.len() && k < b.len()
        invariant
            0 <= k <= a@.len(),
            k <= b@.len(),
            pa == piece_views(a@),
            pb == piece_views(b@),
            compare_parts(pa, pb) == compare_parts(pa.skip(k as int), pb.skip(k as int)),
        decreases a@.len() - k,
    {
        let x = parse_component(&a[k], 4294967295);
        let y = parse_component(&b[k], 4294967295);
        proof {
            assert(pa.skip(k as int)[0] == a@[k as int]@);
            assert(pb.skip(k as int)[0] == b@[k as int]@);
            assert(pa.skip(k as int).skip(1) == pa.skip(k + 1));
            assert(pb.skip(k as int).skip(1) == pb.skip(k + 1));
        }
        match (x, y) {
            (Some(x), Some(y)) => {
                if x < y {
                    return Ordering::Less;
                } else if x > y {
                    return Ordering::Greater;
                }
            },
            (None, Some(_)) => {
                return Ordering::Less;
            },
            (Some(_), None) => {
                return Ordering::Greater;
            },
            (None, None) => {
                return Ordering::Equal;
            },
        }
        k += 1;
    }
    if k < a.len() {
        Ordering::Greater
    } else if k < b.len() {
        Ordering::Less
    } else {
        Ordering::Equal
    }
}

/// Numeric-aware order of two dotted version strings: "1.2" < "1.2.0" < "1.10.0",
/// and "1.2.0-beta" < "1.2.0".
pub fn compare_versions(a: &str, b: &str) -> (r: Ordering)
    ensures
        r == compare_version_strings(a@, b@),
{
    let pa = split_on_dots(&chars_of(a));
    let pb = split_on_dots(&chars_of(b));
    compare_pieces(&pa, &pb)
}

/// The newest version in `list` by the numeric-aware order; when several compare
/// equal the last of them. None for an empty list.
pub fn get_latest_semver(list: &[String]) -> (r: Option<String>)
    ensures
        list@.len() == 0 ==> r is None,
        list@.len() > 0 ==> exists|b: int|
            is_latest_at(string_views(list@), b) && (r matches Some(s) && s@ == list@[b]@),
{
    if list.len() == 0 {
        return None;
    }
    let ghost views = string_views(list@);
    let mut best: usize = 0;
    let mut i: usize = 1;
    proof {
        lemma_compare_antisymmetric(split_dots(views[0]), split_dots(views[0]));
    }
    while i < list.len()
        invariant
            1 <= i <= list@.len(),
            views == string_views(list@),
            best < i,
            forall|j: int|
                0 <= j < i ==> compare_version_strings(#[trigger] views[j], views[best as int])
                    != Ordering::Greater,
            forall|j: int|
                best < j < i ==> compare_version_strings(#[trigger] views[j], views[best as int])
                    == Ordering::Less,
        decreases list@.len() - i,
    {
        let c = compare_versions(list[i].as_str(), list[best].as_str());
        proof {
            assert(views[i as int] == list@[i as int]@);
            assert(views[best as int] == list@[best as int]@);
        }
        match c {
            Ordering::Less => {},
            _ => {
                proof {
                    let k = views[i as int];
                    let old_best = views[best as int];
                    lemma_compare_antisymmetric(split_dots(k), split_dots(old_best));
                    assert forall|j: int| 0 <= j <= i implies compare_version_strings(
                        #[trigger] views[j],
                        k,
                    ) != Ordering::Greater by {
                        if j < i {
                            lemma_compare_transitive(
                                split_dots(views[j]),
                                split_dots(old_best),
                                split_dots(k),
                            );
                        } else {
                            lemma_compare_antisymmetric(split_dots(k), split_dots(k));
                        }
                    }
                }
                best = i;
            },
        }
        i += 1;
    }
    proof {
        assert(is_latest_at(views, best as int));
    }
    Some(list[best].clone())
}



/// The concrete version for a selector: for "latest", the newest version that the
/// source reported (an error when it reported none); otherwise the selector itself.
pub fn resolve_latest(selector: &str, newest: Option<String>, what: &str) -> (r: Result<
    String,
    ResolveError,
>)
    ensures
        !is_latest_sentinel(selector@) ==> (r matches Ok(s) && s@ == selector@),
        is_latest_sentinel(selector@) ==> match newest {
            Some(n) => r matches Ok(s) && s@ == n@,
            None => r matches Err(ResolveError::NotFound(_)),
        },
{
    if is_default_str(selector) {
        match newest {
            Some(n) => Ok(n),
            None => Err(ResolveError::NotFound(concat2("No versions found for ", what))),
        }
    } else {
        Ok(String::from_str(selector))
    }
}

} // verus!
