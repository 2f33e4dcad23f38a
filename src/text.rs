//! Conversions between strings and character sequences, and small text builders.

use vstd::prelude::*;

verus! {

/// Relies on String::push (std): appends one character.
#[verifier::external_body]
pub(crate) fn push_char(s: &mut String, c: char)
    ensures
        final(s)@ == old(s)@.push(c),
{
    s.push(c)
}

/// The characters of `s`.
pub fn chars_of(s: &str) -> (r: Vec<char>)
    ensures
        r@ == s@,
{
    let n = s.unicode_len();
    let mut r: Vec<char> = Vec::new();
    let mut i: usize = 0;
    while i < n
        invariant
            0 <= i <= n,
            n == s@.len(),
            r@ == s@.take(i as int),
        decreases n - i,
    {
        r.push(s.get_char(i));
        proof {
            assert(s@.take(i + 1) == s@.take(i as int).push(s@[i as int]));
        }
        i += 1;
    }
    proof {
        assert(s@.take(n as int) == s@);
    }
    r
}

/// The string with characters `v`.
pub fn string_from_chars(v: &[char]) -> (r: String)
    ensures
        r@ == v@,
{
    let mut r = String::new();
    let mut i: usize = 0;
    while i < v.len()
        invariant
            0 <= i <= v@.len(),
            r@ == v@.take(i as int),
        decreases v@.len() - i,
    {
        push_char(&mut r, v[i]);
        proof {
            assert(v@.take(i + 1) == v@.take(i as int).push(v@[i as int]));
        }
        i += 1;
    }
    proof {
        assert(v@.take(v@.len() as int) == v@);
    }
    r
}

/// The decimal digits of `n`, most significant first, without leading zeros.
pub open spec fn decimal(n: nat) -> Seq<char>
    decreases n,
{
    if n < 10 {
        seq![((48 + n) as u8) as char]
    } else {
        decimal(n / 10).push(((48 + n % 10) as u8) as char)
    }
}

fn write_decimal(n: u64, out: &mut String)
    ensures
        final(out)@ == old(out)@ + decimal(n as nat),
    decreases n,
{
    if n >= 10 {
        write_decimal(n / 10, out);
    }
    let d = (n % 10) as u8;
    push_char(out, (48 + d) as char);
    proof {
        if n < 10 {
            assert(decimal(n as nat) == seq![((48 + n) as u8) as char]);
        }
    }
}

/// The decimal digits of `n`, without sign or leading zeros.
pub fn u64_to_string(n: u64) -> (r: String)
    ensures
        r@ == decimal(n as nat),
{
    let mut r = String::new();
    write_decimal(n, &mut r);
    proof {
        assert(Seq::<char>::empty() + decimal(n as nat) == decimal(n as nat));
    }
    r
}

/// Concatenation of two strings.
pub fn concat2(a: &str, b: &str) -> (r: String)
    ensures
        r@ == a@ + b@,
{
    let mut r = String::from_str(a);
    r.append(b);
    r
}

/// Concatenation of three strings.
pub fn concat3(a: &str, b: &str, c: &str) -> (r: String)
    ensures
        r@ == a@ + b@ + c@,
{
    let mut r = String::from_str(a);
    r.append(b);
    r.append(c);
    r
}

/// The prefix of `s` before the first `c`, or all of `s` when there is none.
pub open spec fn before_first(s: Seq<char>, c: char) -> Seq<char>
    decreases s.len(),
{
    if s.len() == 0 {
        s
    } else if s[0] == c {
        Seq::empty()
    } else {
        seq![s[0]] + before_first(s.skip(1), c)
    }
}

/// The suffix of `s` after the last `c`, or all of `s` when there is none.
pub open spec fn after_last(s: Seq<char>, c: char) -> Seq<char>
    decreases s.len(),
{
    if s.len() == 0 {
        s
    } else if s.last() == c {
        Seq::empty()
    } else {
        after_last(s.drop_last(), c).push(s.last())
    }
}

proof fn lemma_before_first_step(s: Seq<char>, c: char, i: int)
    requires
        0 <= i < s.len(),
        forall|j: int| 0 <= j < i ==> s[j] != c,
    ensures
        s[i] == c ==> before_first(s, c) == s.take(i),
        s[i] != c ==> (before_first(s, c) == s.take(i + 1) + before_first(s.skip(i + 1), c)),
    decreases i,
{
    if i > 0 {
        lemma_before_first_step(s.skip(1), c, i - 1);
        assert(s.skip(1).skip(i) == s.skip(i + 1));
        assert(seq![s[0]] + s.skip(1).take(i - 1) == s.take(i));
        assert(seq![s[0]] + s.skip(1).take(i) == s.take(i + 1));
    } else {
        assert(s.take(0) == Seq::<char>::empty());
        assert(s.take(1) == seq![s[0]]);
    }
}

/// The prefix of `s` before the first `c`.
pub fn chars_before_first(s: &Vec<char>, c: char) -> (r: Vec<char>)
    ensures
        r@ == before_first(s@, c),
{
    let mut r: Vec<char> = Vec::new();
    let mut i: usize = 0;
    while i < s.len()
        invariant
            0 <= i <= s@.len(),
            r@ == s@.take(i as int),
            forall|j: int| 0 <= j < i ==> s@[j] != c,
        decreases s@.len() - i,
    {
        proof {
            lemma_before_first_step(s@, c, i as int);
        }
        if s[i] == c {
            return r;
        }
        r.push(s[i]);
        proof {
            assert(s@.take(i + 1) == s@.take(i as int).push(s@[i as int]));
        }
        i += 1;
    }
    proof {
        lemma_before_first_all(s@, c);
    }
    r
}

proof fn lemma_before_first_all(s: Seq<char>, c: char)
    requires
        forall|j: int| 0 <= j < s.len() ==> s[j] != c,
    ensures
        before_first(s, c) == s.take(s.len() as int),
    decreases s.len(),
{
    if s.len() > 0 {
        lemma_before_first_all(s.skip(1), c);
        assert(seq![s[0]] + s.skip(1) == s);
    }
}

/// The suffix of `s` after the last `c`.
pub fn chars_after_last(s: &Vec<char>, c: char) -> (r: Vec<char>)
    ensures
        r@ == after_last(s@, c),
{
    let mut i: usize = s.len();
    proof {
        assert(s@.take(s@.len() as int) == s@);
        assert(s@.skip(s@.len() as int) == Seq::<char>::empty());
        assert(s@ + Seq::<char>::empty() == s@);
    }
    while i > 0 && s[i - 1] != c
        invariant
            0 <= i <= s@.len(),
            after_last(s@, c) == after_last(s@.take(i as int), c) + s@.skip(i as int),
        decreases i,
    {
        let ghost t = s@.take(i as int);
        proof {
            assert(t.drop_last() == s@.take(i - 1));
            assert(t.last() == s@[i - 1]);
            assert(s@.skip(i - 1) == seq![s@[i - 1]] + s@.skip(i as int));
        }
        proof {
            assert(after_last(t.drop_last(), c).push(t.last()) + s@.skip(i as int) == after_last(
                t.drop_last(),
                c,
            ) + s@.skip(i - 1));
        }
        i -= 1;
    }
    let mut r: Vec<char> = Vec::new();
    let mut j: usize = i;
    while j < s.len()
        invariant
            i <= j <= s@.len(),
            r@ == s@.subrange(i as int, j as int),
        decreases s@.len() - j,
    {
        r.push(s[j]);
        proof {
            assert(s@.subrange(i as int, j + 1) == s@.subrange(i as int, j as int).push(s@[j as int]));
        }
        j += 1;
    }
    proof {
        assert(s@.subrange(i as int, s@.len() as int) == s@.skip(i as int));
        if i == 0 {
            assert(s@.take(0) == Seq::<char>::empty());
        } else {
            assert(s@.take(i as int).last() == c);
        }
        assert(after_last(s@.take(i as int), c) == Seq::<char>::empty());
        assert(Seq::<char>::empty() + s@.skip(i as int) == s@.skip(i as int));
    }
    r
}


/// Whether `a` and `b` hold the same characters.
pub fn str_eq(a: &str, b: &str) -> (r: bool)
    ensures
        r == (a@ == b@),
{
    let n = a.unicode_len();
    if n != b.unicode_len() {
        return false;
    }
    let mut i: usize = 0;
    while i < n
        invariant
            0 <= i <= n,
            n == a@.len(),
            n == b@.len(),
            forall|j: int| 0 <= j < i ==> a@[j] == b@[j],
        decreases n - i,
    {
        if a.get_char(i) != b.get_char(i) {
            return false;
        }
        i += 1;
    }
    proof {
        assert(a@ =~= b@);
    }
    true
}

/// Whether `s` contains the character `c`.
pub fn contains_char(s: &str, c: char) -> (r: bool)
    ensures
        r == s@.contains(c),
{
    let n = s.unicode_len();
    let mut i: usize = 0;
    while i < n
        invariant
            0 <= i <= n,
            n == s@.len(),
            forall|j: int| 0 <= j < i ==> s@[j] != c,
        decreases n - i,
    {
        if s.get_char(i) == c {
            assert(s@[i as int] == c);
            return true;
        }
        i += 1;
    }
    false
}



/// The lower-case form of `s` by Unicode case mapping.
pub uninterp spec fn lowercase_of(s: Seq<char>) -> Seq<char>;

/// Relies on str::to_lowercase (std): the lower-case mapping of the text, which
/// depends on its characters alone.
#[verifier::external_body]
pub(crate) fn to_lowercase(s: &str) -> (r: String)
    ensures
        r@ == lowercase_of(s@),
{
    s.to_lowercase()
}


/// `s` with every occurrence of the non-empty `pat`, scanning from the left, replaced
/// by `rep`.
pub open spec fn replace_all(s: Seq<char>, pat: Seq<char>, rep: Seq<char>) -> Seq<char>
    decreases s.len(),
{
    if s.len() == 0 {
        s
    } else if pat.len() > 0 && pat.len() <= s.len() && s.take(pat.len() as int) == pat {
        rep + replace_all(s.skip(pat.len() as int), pat, rep)
    } else {
        seq![s[0]] + replace_all(s.skip(1), pat, rep)
    }
}

fn starts_with_at(s: &Vec<char>, i: usize, pat: &Vec<char>) -> (r: bool)
    requires
        i <= s@.len(),
    ensures
        r == (pat@.len() <= s@.len() - i && s@.skip(i as int).take(pat@.len() as int) == pat@),
{
    if pat.len() > s.len() - i {
        return false;
    }
    let n = s.len();
    let mut k: usize = 0;
    while k < pat.len()
        invariant
            0 <= k <= pat@.len(),
            n == s@.len(),
            i <= s@.len(),
            pat@.len() <= s@.len() - i,
            forall|j: int| 0 <= j < k ==> s@[i + j] == pat@[j],
        decreases pat@.len() - k,
    {
        assert(i + k < n);
        if s[i + k] != pat[k] {
            assert(s@.skip(i as int).take(pat@.len() as int)[k as int] != pat@[k as int]);
            return false;
        }
        k += 1;
    }
    assert(s@.skip(i as int).take(pat@.len() as int) =~= pat@);
    true
}

/// `s` with every occurrence of `pat` replaced by `rep`.
pub fn replace_str(s: &str, pat: &str, rep: &str) -> (r: String)
    ensures
        r@ == replace_all(s@, pat@, rep@),
{
    let sc = chars_of(s);
    let pc = chars_of(pat);
    let mut out = String::new();
    let mut i: usize = 0;
    proof {
        assert(sc@.skip(0) == sc@);
        assert(Seq::<char>::empty() + replace_all(sc@, pat@, rep@) == replace_all(sc@, pat@, rep@));
    }
    while i < sc.len()
        invariant
            0 <= i <= sc@.len(),
            sc@ == s@,
            pc@ == pat@,
            replace_all(s@, pat@, rep@) == out@ + replace_all(sc@.skip(i as int), pat@, rep@),
        decreases sc@.len() - i,
    {
        let ghost rest = sc@.skip(i as int);
        if pc.len() > 0 && starts_with_at(&sc, i, &pc) {
            out.append(rep);
            proof {
                assert(rest.skip(pat@.len() as int) == sc@.skip(i + pat@.len()));
            }
            i += pc.len();
        } else {
            push_char(&mut out, sc[i]);
            proof {
                assert(rest[0] == sc@[i as int]);
                assert(rest.skip(1) == sc@.skip(i + 1));
            }
            i += 1;
        }
    }
    proof {
        assert(sc@.skip(sc@.len() as int) == Seq::<char>::empty());
        assert(out@ + Seq::<char>::empty() == out@);
    }
    out
}

/// Whether `t` occurs in `s`.
pub open spec fn has_infix(s: Seq<char>, t: Seq<char>) -> bool {
    exists|i: int| 0 <= i && i + t.len() <= s.len() && #[trigger] s.subrange(i, i + t.len()) == t
}

/// Whether `t` occurs in `s`.
pub fn contains_str(s: &str, t: &str) -> (r: bool)
    ensures
        r == has_infix(s@, t@),
{
    let sc = chars_of(s);
    let tc = chars_of(t);
    let n = sc.len();
    if tc.len() == 0 {
        assert(s@.subrange(0, 0 + t@.len() as int) =~= t@);
        return true;
    }
    let mut i: usize = 0;
    while i < n
        invariant
            0 <= i <= n,
            n == sc@.len(),
            sc@ == s@,
            tc@ == t@,
            t@.len() > 0,
            forall|j: int| 0 <= j < i && j + t@.len() <= s@.len() ==> #[trigger] s@.subrange(j, j + t@.len()) != t@,
        decreases n - i,
    {
        if starts_with_at(&sc, i, &tc) {
            assert(sc@.skip(i as int).take(t@.len() as int) =~= s@.subrange(i as int, i + t@.len()));
            return true;
        }
        proof {
            if i + t@.len() <= s@.len() {
                assert(sc@.skip(i as int).take(t@.len() as int) =~= s@.subrange(i as int, i + t@.len()));
            }
        }
        i += 1;
    }
    false
}


/// The suffix of `s` after the first `c`, or empty when there is none.
pub open spec fn after_first(s: Seq<char>, c: char) -> Seq<char>
    decreases s.len(),
{
    if s.len() == 0 {
        s
    } else if s[0] == c {
        s.skip(1)
    } else {
        after_first(s.skip(1), c)
    }
}

/// The suffix of `s` after the first `c`.
pub fn chars_after_first(s: &Vec<char>, c: char) -> (r: Vec<char>)
    ensures
        r@ == after_first(s@, c),
{
    let mut i: usize = 0;
    proof {
        assert(s@.skip(0) == s@);
    }
    while i < s.len()
        invariant
            0 <= i <= s@.len(),
            after_first(s@, c) == after_first(s@.skip(i as int), c),
        decreases s@.len() - i,
    {
        proof {
            assert(s@.skip(i as int)[0] == s@[i as int]);
            assert(s@.skip(i as int).skip(1) == s@.skip(i + 1));
        }
        if s[i] == c {
            let mut r: Vec<char> = Vec::new();
            let mut j: usize = i + 1;
            while j < s.len()
                invariant
                    i + 1 <= j <= s@.len(),
                    r@ == s@.subrange(i + 1, j as int),
                decreases s@.len() - j,
            {
                r.push(s[j]);
                proof {
                    assert(s@.subrange(i + 1, j + 1) == s@.subrange(i + 1, j as int).push(s@[j as int]));
                }
                j += 1;
            }
            proof {
                assert(s@.subrange(i + 1, s@.len() as int) == s@.skip(i + 1));
            }
            return r;
        }
        i += 1;
    }
    proof {
        assert(s@.skip(s@.len() as int) == Seq::<char>::empty());
    }
    Vec::new()
}


/// Whether `c` has the Unicode White_Space property.
pub open spec fn is_white_space(c: char) -> bool {
    let n = c as u32;
    (0x9 <= n <= 0xD) || n == 0x20 || n == 0x85 || n == 0xA0 || n == 0x1680 || (0x2000 <= n
        <= 0x200A) || n == 0x2028 || n == 0x2029 || n == 0x202F || n == 0x205F || n == 0x3000
}

/// `s` without its leading white space.
pub open spec fn trim_start_of(s: Seq<char>) -> Seq<char>
    decreases s.len(),
{
    if s.len() > 0 && is_white_space(s[0]) {
        trim_start_of(s.skip(1))
    } else {
        s
    }
}

/// `s` without its trailing white space.
pub open spec fn trim_end_of(s: Seq<char>) -> Seq<char>
    decreases s.len(),
{
    if s.len() > 0 && is_white_space(s.last()) {
        trim_end_of(s.drop_last())
    } else {
        s
    }
}

/// `s` without its leading and trailing white space.
pub open spec fn trim_of(s: Seq<char>) -> Seq<char> {
    trim_end_of(trim_start_of(s))
}

fn white_space(c: char) -> (r: bool)
    ensures
        r == is_white_space(c),
{
    let n = c as u32;
    (0x9 <= n && n <= 0xD) || n == 0x20 || n == 0x85 || n == 0xA0 || n == 0x1680 || (0x2000 <= n
        && n <= 0x200A) || n == 0x2028 || n == 0x2029 || n == 0x202F || n == 0x205F || n == 0x3000
}

/// `s` without its leading and trailing white space.
pub fn trim(s: &str) -> (r: String)
    ensures
        r@ == trim_of(s@),
{
    let c = chars_of(s);
    let n = c.len();
    let mut i: usize = 0;
    proof {
        assert(c@.skip(0) == c@);
    }
    while i < n && white_space(c[i])
        invariant
            0 <= i <= n,
            n == c@.len(),
            c@ == s@,
            trim_start_of(s@) == trim_start_of(c@.skip(i as int)),
        decreases n - i,
    {
        proof {
            assert(c@.skip(i as int)[0] == c@[i as int]);
            assert(c@.skip(i as int).skip(1) == c@.skip(i + 1));
        }
        i += 1;
    }
    proof {
        if i < n {
            assert(c@.skip(i as int)[0] == c@[i as int]);
        }
        assert(trim_start_of(s@) == c@.subrange(i as int, n as int));
    }
    let mut j: usize = n;
    proof {
        assert(c@.subrange(i as int, n as int) == c@.subrange(i as int, j as int));
    }
    while j > i && white_space(c[j - 1])
        invariant
            i <= j <= n,
            n == c@.len(),
            trim_of(s@) == trim_end_of(c@.subrange(i as int, j as int)),
        decreases j,
    {
        proof {
            let u = c@.subrange(i as int, j as int);
            assert(u.last() == c@[j - 1]);
            assert(u.drop_last() == c@.subrange(i as int, j - 1));
        }
        j -= 1;
    }
    proof {
        let u = c@.subrange(i as int, j as int);
        if j > i {
            assert(u.last() == c@[j - 1]);
        }
        assert(trim_end_of(u) == u);
    }
    let mut r = String::new();
    let mut k: usize = i;
    while k < j
        invariant
            i <= k <= j,
            j <= n,
            n == c@.len(),
            r@ == c@.subrange(i as int, k as int),
        decreases j - k,
    {
        push_char(&mut r, c[k]);
        proof {
            assert(c@.subrange(i as int, k + 1) == c@.subrange(i as int, k as int).push(c@[k as int]));
        }
        k += 1;
    }
    r
}


/// An occurrence of `t` in `a + [c] + b`, where `t` does not contain `c`, lies in `a`
/// or in `b`.
pub proof fn lemma_infix_split(a: Seq<char>, c: char, b: Seq<char>, t: Seq<char>)
    requires
        t.len() > 0,
        !t.contains(c),
        has_infix(a + seq![c] + b, t),
    ensures
        has_infix(a, t) || has_infix(b, t),
{
    let s = a + seq![c] + b;
    let i = choose|i: int| 0 <= i && i + t.len() <= s.len() && #[trigger] s.subrange(i, i + t.len()) == t;
    if i + t.len() <= a.len() {
        assert(a.subrange(i, i + t.len()) =~= s.subrange(i, i + t.len()));
    } else if i > a.len() {
        let k = i - a.len() - 1;
        assert(b.subrange(k, k + t.len()) =~= s.subrange(i, i + t.len()));
    } else {
        let m = a.len() - i;
        assert(s.subrange(i, i + t.len())[m] == s[a.len() as int]);
        assert(t[m] == c);
    }
}

/// A text shorter than `t`, or of its length but different, does not contain `t`.
pub proof fn lemma_no_infix_short(s: Seq<char>, t: Seq<char>)
    requires
        s.len() < t.len() || (s.len() == t.len() && s != t),
    ensures
        !has_infix(s, t),
{
    if has_infix(s, t) {
        let i = choose|i: int| 0 <= i && i + t.len() <= s.len() && #[trigger] s.subrange(i, i + t.len()) == t;
        assert(i == 0);
        assert(s.subrange(0, t.len() as int) =~= s);
    }
}

} // verus!
