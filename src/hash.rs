//! Digest formats, expected-hash sets, digest computation and verification.

use vstd::prelude::*;

verus! {

/// Which side of a game installation a file is meant for.
#[derive(Debug, Clone, Copy, PartialEq, Eq, Structural, Hash, Default)]
pub enum Side {
    #[default]
    Both,
    Client,
    Server,
}

/// The closed set of digest algorithms that expected hashes may use.
#[derive(Debug, Clone, Copy, PartialEq, Eq, Structural, Hash, Default)]
pub enum HashFormat {
    Sha1,
    #[default]
    Sha256,
    Sha384,
    Sha512,
    Sha512_256,
    Md5,
    Murmur2,
}

/// The formats in decreasing order of preference; the first one present is "the" hash.
pub open spec fn preferred_order() -> Seq<HashFormat> {
    seq![
        HashFormat::Sha512,
        HashFormat::Sha384,
        HashFormat::Sha256,
        HashFormat::Sha1,
        HashFormat::Md5,
        HashFormat::Murmur2,
    ]
}

/// The most preferred format that has an entry in `m`, if any.
pub open spec fn best_format(m: Map<HashFormat, Seq<char>>) -> Option<HashFormat> {
    if m.contains_key(HashFormat::Sha512) {
        Some(HashFormat::Sha512)
    } else if m.contains_key(HashFormat::Sha384) {
        Some(HashFormat::Sha384)
    } else if m.contains_key(HashFormat::Sha256) {
        Some(HashFormat::Sha256)
    } else if m.contains_key(HashFormat::Sha1) {
        Some(HashFormat::Sha1)
    } else if m.contains_key(HashFormat::Md5) {
        Some(HashFormat::Md5)
    } else if m.contains_key(HashFormat::Murmur2) {
        Some(HashFormat::Murmur2)
    } else {
        None
    }
}

impl HashFormat {
    /// The name of the format in packwiz metadata files.
    pub fn as_str_packwiz(&self) -> (r: &'static str)
        ensures
            r@ == packwiz_name(*self),
    {
        match self {
            HashFormat::Murmur2 => "murmur2",
            HashFormat::Md5 => "md5",
            HashFormat::Sha1 => "sha1",
            HashFormat::Sha256 => "sha256",
            HashFormat::Sha384 => "sha384",
            HashFormat::Sha512 => "sha512",
            HashFormat::Sha512_256 => "sha512-256",
        }
    }

    /// The name of the format in unsup manifests.
    pub fn as_str_unsup(&self) -> (r: &'static str)
        ensures
            r@ == unsup_name(*self),
    {
        match self {
            HashFormat::Murmur2 => "Murmur2-CF",
            HashFormat::Md5 => "MD5",
            HashFormat::Sha1 => "SHA-1",
            HashFormat::Sha256 => "SHA-2 256",
            HashFormat::Sha384 => "SHA-2 384",
            HashFormat::Sha512 => "SHA-2 512",
            HashFormat::Sha512_256 => "SHA-2 512/256",
        }
    }
}

pub open spec fn packwiz_name(f: HashFormat) -> Seq<char> {
    match f {
        HashFormat::Murmur2 => "murmur2"@,
        HashFormat::Md5 => "md5"@,
        HashFormat::Sha1 => "sha1"@,
        HashFormat::Sha256 => "sha256"@,
        HashFormat::Sha384 => "sha384"@,
        HashFormat::Sha512 => "sha512"@,
        HashFormat::Sha512_256 => "sha512-256"@,
    }
}

pub open spec fn unsup_name(f: HashFormat) -> Seq<char> {
    match f {
        HashFormat::Murmur2 => "Murmur2-CF"@,
        HashFormat::Md5 => "MD5"@,
        HashFormat::Sha1 => "SHA-1"@,
        HashFormat::Sha256 => "SHA-2 256"@,
        HashFormat::Sha384 => "SHA-2 384"@,
        HashFormat::Sha512 => "SHA-2 512"@,
        HashFormat::Sha512_256 => "SHA-2 512/256"@,
    }
}

/// The map that a list of (format, digest) entries describes; a later entry wins.
pub open spec fn entries_map(s: Seq<(HashFormat, String)>) -> Map<HashFormat, Seq<char>>
    decreases s.len(),
{
    if s.len() == 0 {
        Map::empty()
    } else {
        entries_map(s.drop_last()).insert(s.last().0, s.last().1@)
    }
}

proof fn lemma_entries_contains(s: Seq<(HashFormat, String)>, k: HashFormat)
    ensures
        entries_map(s).contains_key(k) <==> exists|i: int| 0 <= i < s.len() && #[trigger] s[i].0 == k,
    decreases s.len(),
{
    if s.len() > 0 {
        let p = s.drop_last();
        lemma_entries_contains(p, k);
        if exists|i: int| 0 <= i < s.len() && #[trigger] s[i].0 == k {
            let i = choose|i: int| 0 <= i < s.len() && #[trigger] s[i].0 == k;
            if i < p.len() {
                assert(p[i] == s[i]);
            }
        }
        if entries_map(p).contains_key(k) {
            let i = choose|i: int| 0 <= i < p.len() && #[trigger] p[i].0 == k;
            assert(s[i] == p[i]);
        }
    }
}

proof fn lemma_entries_value(s: Seq<(HashFormat, String)>, k: HashFormat, j: int)
    requires
        0 <= j < s.len(),
        s[j].0 == k,
        forall|l: int| j < l < s.len() ==> #[trigger] s[l].0 != k,
    ensures
        entries_map(s).contains_key(k),
        entries_map(s)[k] == s[j].1@,
    decreases s.len(),
{
    let p = s.drop_last();
    if j < p.len() {
        assert(p[j] == s[j]);
        assert forall|l: int| j < l < p.len() implies #[trigger] p[l].0 != k by {
            assert(p[l] == s[l]);
        }
        lemma_entries_value(p, k, j);
    }
}

/// Expected digests of one file, at most one per format.
#[derive(Debug)]
pub struct Hashes {
    entries: Vec<(HashFormat, String)>,
}

impl View for Hashes {
    type V = Map<HashFormat, Seq<char>>;

    closed spec fn view(&self) -> Map<HashFormat, Seq<char>> {
        entries_map(self.entries@)
    }
}

impl Hashes {
    /// A set with no expected digest.
    pub fn new() -> (r: Hashes)
        ensures
            r@ == Map::<HashFormat, Seq<char>>::empty(),
    {
        Hashes { entries: Vec::new() }
    }

    /// A set with one expected digest.
    pub fn new_single(format: HashFormat, hash: String) -> (r: Hashes)
        ensures
            r@ == Map::<HashFormat, Seq<char>>::empty().insert(format, hash@),
    {
        let mut r = Hashes::new();
        r.insert(format, hash);
        r
    }

    /// Whether no format has an expected digest.
    pub fn is_empty(&self) -> (r: bool)
        ensures
            r <==> self@.dom() == Set::<HashFormat>::empty(),
    {
        proof {
            if self.entries@.len() > 0 {
                let k = self.entries@[0].0;
                lemma_entries_contains(self.entries@, k);
                assert(self@.contains_key(k));
            } else {
                assert(self@.dom() =~= Set::<HashFormat>::empty());
            }
        }
        self.entries.len() == 0
    }

    /// The expected digest for `format`, if any.
    pub fn get(&self, format: HashFormat) -> (r: Option<&String>)
        ensures
            r is Some <==> self@.contains_key(format),
            r is Some ==> r.unwrap()@ == self@[format],
    {
        proof {
            lemma_entries_contains(self.entries@, format);
        }
        let mut i: usize = self.entries.len();
        while i > 0
            invariant
                0 <= i <= self.entries@.len(),
                forall|j: int| i <= j < self.entries@.len() ==> self.entries@[j].0 != format,
            decreases i,
        {
            i -= 1;
            if self.entries[i].0 == format {
                proof {
                    lemma_entries_value(self.entries@, format, i as int);
                }
                return Some(&self.entries[i].1);
            }
        }
        None
    }

    /// Sets the expected digest for `format`, replacing an earlier one.
    pub fn insert(&mut self, format: HashFormat, hash: String)
        ensures
            final(self)@ == old(self)@.insert(format, hash@),
    {
        let ghost before = self.entries@;
        self.entries.push((format, hash));
        proof {
            assert(self.entries@.drop_last() == before);
        }
    }

    /// The entry of the most preferred format present: SHA-512, SHA-384, SHA-256,
    /// SHA-1, MD5, then Murmur2.
    pub fn get_best_hash(&self) -> (r: Option<(HashFormat, String)>)
        ensures
            match best_format(self@) {
                None => r is None,
                Some(f) => r is Some && r.unwrap().0 == f && r.unwrap().1@ == self@[f],
            },
    {
        if let Some(h) = self.get(HashFormat::Sha512) {
            return Some((HashFormat::Sha512, h.clone()));
        }
        if let Some(h) = self.get(HashFormat::Sha384) {
            return Some((HashFormat::Sha384, h.clone()));
        }
        if let Some(h) = self.get(HashFormat::Sha256) {
            return Some((HashFormat::Sha256, h.clone()));
        }
        if let Some(h) = self.get(HashFormat::Sha1) {
            return Some((HashFormat::Sha1, h.clone()));
        }
        if let Some(h) = self.get(HashFormat::Md5) {
            return Some((HashFormat::Md5, h.clone()));
        }
        if let Some(h) = self.get(HashFormat::Murmur2) {
            return Some((HashFormat::Murmur2, h.clone()));
        }
        None
    }
}


/// The chosen hash is the first format of the preference order that has an entry,
/// whatever order the entries were added in.
pub proof fn lemma_best_is_first_present(m: Map<HashFormat, Seq<char>>, i: int)
    requires
        0 <= i < preferred_order().len(),
        m.contains_key(preferred_order()[i]),
        forall|j: int| 0 <= j < i ==> !m.contains_key(#[trigger] preferred_order()[j]),
    ensures
        best_format(m) == Some(preferred_order()[i]),
{
    assert(preferred_order()[0] == HashFormat::Sha512);
    assert(preferred_order()[1] == HashFormat::Sha384);
    assert(preferred_order()[2] == HashFormat::Sha256);
    assert(preferred_order()[3] == HashFormat::Sha1);
    assert(preferred_order()[4] == HashFormat::Md5);
    assert(preferred_order()[5] == HashFormat::Murmur2);
}

/// With SHA-1 and MD5 entries and no SHA-2 entry, SHA-1 is chosen.
pub proof fn lemma_sha1_over_md5(m: Map<HashFormat, Seq<char>>)
    requires
        m.contains_key(HashFormat::Sha1),
        m.contains_key(HashFormat::Md5),
        !m.contains_key(HashFormat::Sha512),
        !m.contains_key(HashFormat::Sha384),
        !m.contains_key(HashFormat::Sha256),
    ensures
        best_format(m) == Some(HashFormat::Sha1),
{
}

} // verus!
