use vstd::prelude::*;
use crate::cache::{fp_lookup, bytes_equal, FingerprintTable};
use crate::hash::{get_hash, sha256_of};

verus! {

/// A source document as scanned: its path, the fingerprint of its text, and the text.
pub struct SourceDocument {
    pub path: String,
    pub fingerprint: Vec<u8>,
    pub text: String,
}

/// What became of one scanned document in a run.
#[derive(PartialEq, Eq, Structural, Clone, Copy, Debug)]
pub enum DocOutcome {
    /// Its fingerprint matched the previous run's record.
    Skipped,
    /// It was built and written.
    Built,
    /// One of its build steps failed; it is retried next run.
    Failed,
}

impl SourceDocument {
    /// A scanned document, fingerprinted from its text.
    pub fn new(path: String, text: String) -> (r: SourceDocument)
        ensures
            r.path@ == path@,
            r.text@ == text@,
            r.fingerprint@ == sha256_of(text@),
    {
        let fingerprint = get_hash(text.as_str());
        SourceDocument { path, fingerprint, text }
    }
}

pub open spec fn doc_keys(docs: Seq<SourceDocument>) -> Seq<(Seq<char>, Seq<u8>)> {
    docs.map_values(|d: SourceDocument| (d.path@, d.fingerprint@))
}

/// Whether `fp` is what the table records for `path`.
pub open spec fn is_recorded(t: Seq<(Seq<char>, Seq<u8>)>, path: Seq<char>, fp: Seq<u8>) -> bool {
    fp_lookup(t, path) == Some(fp)
}

/// The records that a run leaves: every document that was skipped or built,
/// in scan order, with its source fingerprint.
pub open spec fn run_records(
    docs: Seq<(Seq<char>, Seq<u8>)>,
    outcomes: Seq<DocOutcome>,
) -> Seq<(Seq<char>, Seq<u8>)>
    decreases docs.len(),
{
    if docs.len() == 0 || outcomes.len() == 0 {
        Seq::empty()
    } else {
        let r = run_records(docs.drop_last(), outcomes.drop_last());
        if outcomes.last() == DocOutcome::Failed {
            r
        } else {
            r.push(docs.last())
        }
    }
}

pub open spec fn unique_paths(docs: Seq<(Seq<char>, Seq<u8>)>) -> bool {
    forall|i: int, j: int| 0 <= i < j < docs.len() ==> docs[i].0 != docs[j].0
}

/// A document must be (re)built unless the previous run recorded exactly its
/// current fingerprint under its path.
pub fn needs_build(prev: &FingerprintTable, path: &String, fp: &Vec<u8>) -> (r: bool)
    ensures
        r == !is_recorded(prev@, path@, fp@),
{
    match prev.get(path) {
        Some(old_fp) => !bytes_equal(old_fp, fp),
        None => true,
    }
}

/// The fingerprint table that a run persists, given what became of each document.
pub fn next_fingerprints(docs: &Vec<SourceDocument>, outcomes: &Vec<DocOutcome>) -> (r: FingerprintTable)
    requires
        docs@.len() == outcomes@.len(),
    ensures
        r@ == run_records(doc_keys(docs@), outcomes@),
{
    let mut t = FingerprintTable::new();
    let mut i: usize = 0;
    while i < docs.len()
        invariant
            docs@.len() == outcomes@.len(),
            i <= docs@.len(),
            t@ == run_records(doc_keys(docs@).subrange(0, i as int), outcomes@.subrange(0, i as int)),
        decreases docs@.len() - i,
    {
        proof {
            let d = doc_keys(docs@).subrange(0, i + 1);
            let o = outcomes@.subrange(0, i + 1);
            assert(d.drop_last() =~= doc_keys(docs@).subrange(0, i as int));
            assert(o.drop_last() =~= outcomes@.subrange(0, i as int));
        }
        if outcomes[i] != DocOutcome::Failed {
            t.insert(docs[i].path.clone(), docs[i].fingerprint.clone());
        }
        i = i + 1;
    }
    proof {
        assert(doc_keys(docs@).subrange(0, i as int) =~= doc_keys(docs@));
        assert(outcomes@.subrange(0, i as int) =~= outcomes@);
    }
    t
}

/// When no document of a run failed and no source changed, the next run finds
/// every document recorded with its fingerprint, so `needs_build` is false for
/// each and every document is skipped.
pub proof fn unchanged_sources_are_all_skipped(
    docs: Seq<(Seq<char>, Seq<u8>)>,
    outcomes: Seq<DocOutcome>,
)
    requires
        docs.len() == outcomes.len(),
        unique_paths(docs),
        forall|i: int| 0 <= i < outcomes.len() ==> outcomes[i] != DocOutcome::Failed,
    ensures
        forall|i: int| 0 <= i < docs.len() ==> is_recorded(run_records(docs, outcomes), docs[i].0, docs[i].1),
    decreases docs.len(),
{
    if docs.len() > 0 {
        let d = docs.drop_last();
        let o = outcomes.drop_last();
        unchanged_sources_are_all_skipped(d, o);
        assert forall|i: int| 0 <= i < docs.len() implies is_recorded(run_records(docs, outcomes), docs[i].0, docs[i].1) by {
            let r = run_records(d, o);
            assert(r.push(docs.last()).drop_last() =~= r);
            if i < docs.len() - 1 {
                assert(d[i] == docs[i]);
                assert(docs[i].0 != docs.last().0);
            }
        }
    }
}

} // verus!
