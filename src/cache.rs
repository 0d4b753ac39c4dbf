use vstd::prelude::*;

verus! {

/// Link-preview metadata fetched for one URL.
pub struct UrlCache {
    pub url: String,
    pub title: String,
    pub description: Option<String>,
    pub image: Option<String>,
    pub favicon: Option<String>,
}

/// The mathematical content of a [`UrlCache`].
pub struct UrlMeta {
    pub url: Seq<char>,
    pub title: Seq<char>,
    pub description: Option<Seq<char>>,
    pub image: Option<Seq<char>>,
    pub favicon: Option<Seq<char>>,
}

pub open spec fn opt_view(o: Option<String>) -> Option<Seq<char>> {
    match o {
        Some(s) => Some(s@),
        None => None,
    }
}

impl View for UrlCache {
    type V = UrlMeta;

    open spec fn view(&self) -> UrlMeta {
        UrlMeta {
            url: self.url@,
            title: self.title@,
            description: opt_view(self.description),
            image: opt_view(self.image),
            favicon: opt_view(self.favicon),
        }
    }
}

/// The entry for `url` in a table of link metadata: the last one recorded wins.
pub open spec fn url_lookup(s: Seq<UrlMeta>, url: Seq<char>) -> Option<UrlMeta>
    decreases s.len(),
{
    if s.len() == 0 {
        None
    } else if s.last().url == url {
        Some(s.last())
    } else {
        url_lookup(s.drop_last(), url)
    }
}

/// The fingerprint recorded for `path`: the last one recorded wins.
pub open spec fn fp_lookup(s: Seq<(Seq<char>, Seq<u8>)>, path: Seq<char>) -> Option<Seq<u8>>
    decreases s.len(),
{
    if s.len() == 0 {
        None
    } else if s.last().0 == path {
        Some(s.last().1)
    } else {
        fp_lookup(s.drop_last(), path)
    }
}

/// Link metadata by URL, shared by all documents of one run.
pub struct UrlTable {
    pub entries: Vec<UrlCache>,
}

impl View for UrlTable {
    type V = Seq<UrlMeta>;

    open spec fn view(&self) -> Seq<UrlMeta> {
        self.entries@.map_values(|e: UrlCache| e@)
    }
}

pub fn strings_equal(a: &String, b: &String) -> (r: bool)
    ensures
        r == (a@ == b@),
{
    a.eq(b)
}

pub fn bytes_equal(a: &Vec<u8>, b: &Vec<u8>) -> (r: bool)
    ensures
        r == (a@ == b@),
{
    if a.len() != b.len() {
        return false;
    }
    let mut i: usize = 0;
    while i < a.len()
        invariant
            a@.len() == b@.len(),
            i <= a@.len(),
            forall|j: int| 0 <= j < i ==> a@[j] == b@[j],
        decreases a@.len() - i,
    {
        if a[i] != b[i] {
            return false;
        }
        i = i + 1;
    }
    proof {
        assert(a@ =~= b@);
    }
    true
}

impl UrlTable {
    pub fn new() -> (r: UrlTable)
        ensures
            r@ == Seq::<UrlMeta>::empty(),
    {
        UrlTable { entries: Vec::new() }
    }

    /// The metadata recorded for `url`, if any.
    pub fn get(&self, url: &String) -> (r: Option<&UrlCache>)
        ensures
            match r {
                Some(e) => url_lookup(self@, url@) == Some(e@),
                None => url_lookup(self@, url@) is None,
            },
    {
        let mut i: usize = self.entries.len();
        proof {
            assert(self@.subrange(0, i as int) =~= self@);
        }
        while i > 0
            invariant
                i <= self.entries@.len(),
                url_lookup(self@, url@) == url_lookup(self@.subrange(0, i as int), url@),
            decreases i,
        {
            let e = &self.entries[i - 1];
            proof {
                let s = self@.subrange(0, i as int);
                assert(s.drop_last() =~= self@.subrange(0, i - 1));
            }
            if strings_equal(&e.url, url) {
                return Some(e);
            }
            i = i - 1;
        }
        None
    }

    pub fn contains(&self, url: &String) -> (r: bool)
        ensures
            r == (url_lookup(self@, url@) is Some),
    {
        self.get(url).is_some()
    }

    /// Records `entry` under its own URL; it replaces what was known of that URL.
    pub fn insert(&mut self, entry: UrlCache)
        ensures
            final(self)@ == old(self)@.push(entry@),
            url_lookup(final(self)@, entry.url@) == Some(entry@),
            forall|k: Seq<char>| k != entry.url@ ==> url_lookup(final(self)@, k) == url_lookup(old(self)@, k),
    {
        let ghost e = entry@;
        self.entries.push(entry);
        proof {
            assert(self@ =~= old(self)@.push(e));
            assert(self@.drop_last() =~= old(self)@);
        }
    }
}

/// Fingerprints of documents by path.
pub struct FingerprintTable {
    pub entries: Vec<(String, Vec<u8>)>,
}

impl View for FingerprintTable {
    type V = Seq<(Seq<char>, Seq<u8>)>;

    open spec fn view(&self) -> Seq<(Seq<char>, Seq<u8>)> {
        self.entries@.map_values(|e: (String, Vec<u8>)| (e.0@, e.1@))
    }
}

impl FingerprintTable {
    pub fn new() -> (r: FingerprintTable)
        ensures
            r@ == Seq::<(Seq<char>, Seq<u8>)>::empty(),
    {
        FingerprintTable { entries: Vec::new() }
    }

    /// The fingerprint recorded for `path`, if any.
    pub fn get(&self, path: &String) -> (r: Option<&Vec<u8>>)
        ensures
            match r {
                Some(f) => fp_lookup(self@, path@) == Some(f@),
                None => fp_lookup(self@, path@) is None,
            },
    {
        let mut i: usize = self.entries.len();
        proof {
            assert(self@.subrange(0, i as int) =~= self@);
        }
        while i > 0
            invariant
                i <= self.entries@.len(),
                fp_lookup(self@, path@) == fp_lookup(self@.subrange(0, i as int), path@),
            decreases i,
        {
            let e = &self.entries[i - 1];
            proof {
                let s = self@.subrange(0, i as int);
                assert(s.drop_last() =~= self@.subrange(0, i - 1));
            }
            if strings_equal(&e.0, path) {
                return Some(&e.1);
            }
            i = i - 1;
        }
        None
    }

    /// Records `fp` as the fingerprint of `path`.
    pub fn insert(&mut self, path: String, fp: Vec<u8>)
        ensures
            final(self)@ == old(self)@.push((path@, fp@)),
            fp_lookup(final(self)@, path@) == Some(fp@),
            forall|k: Seq<char>| k != path@ ==> fp_lookup(final(self)@, k) == fp_lookup(old(self)@, k),
    {
        let ghost p = (path@, fp@);
        self.entries.push((path, fp));
        proof {
            assert(self@ =~= old(self)@.push(p));
            assert(self@.drop_last() =~= old(self)@);
        }
    }
}

/// What one run leaves for the next: link metadata and document fingerprints.
pub struct Cache {
    pub urls: UrlTable,
    pub contents: FingerprintTable,
}

impl Cache {
    /// The cache of a first run, or of one whose stored cache could not be read.
    pub fn empty() -> (r: Cache)
        ensures
            r.urls@.len() == 0,
            r.contents@.len() == 0,
    {
        Cache { urls: UrlTable::new(), contents: FingerprintTable::new() }
    }
}

} // verus!
