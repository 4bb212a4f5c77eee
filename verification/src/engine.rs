//! The sketch of a genome as the matrix needs it, and the call into the
//! distance estimator.

use vstd::prelude::*;
use finch::filtering::FilterParams;
use finch::serialization::Sketch;
use finch::sketch_schemes::{KmerCount, SketchParams};

verus! {

/// Whether the hashes never decrease from one to the next.
pub open spec fn sorted(hashes: Seq<u64>) -> bool {
    forall|i: int, j: int| 0 <= i <= j < hashes.len() ==> hashes[i] <= hashes[j]
}

/// The part of a genome's sketch that a distance is estimated from: the
/// k-mer length it was made with and its hashes, which never decrease.
pub struct GenomeSketch {
    name: String,
    kmer_length: u8,
    hashes: Vec<u64>,
}

impl GenomeSketch {
    #[verifier::type_invariant]
    spec fn well_formed(self) -> bool {
        sorted(self.hashes@)
    }

    /// The name the sketch was made under.
    pub closed spec fn name_text(&self) -> Seq<char> {
        self.name@
    }

    /// The k-mer length.
    pub closed spec fn kmer(&self) -> u8 {
        self.kmer_length
    }

    /// The hashes, in order.
    pub closed spec fn hash_values(&self) -> Seq<u64> {
        self.hashes@
    }

    /// A sketch of the given hashes, if they never decrease; otherwise
    /// nothing.
    pub fn new(name: String, kmer_length: u8, hashes: Vec<u64>) -> (r: Option<Self>)
        ensures
            r is Some <==> sorted(hashes@),
            r matches Some(s) ==> s.name_text() == name@ && s.kmer() == kmer_length
                && s.hash_values() == hashes@,
    {
        if is_sorted(&hashes) {
            Some(GenomeSketch { name, kmer_length, hashes })
        } else {
            None
        }
    }

    /// The name the sketch was made under.
    pub fn name(&self) -> (r: &String)
        ensures
            r@ == self.name_text(),
    {
        &self.name
    }

    /// The k-mer length.
    pub fn kmer_length(&self) -> (k: u8)
        ensures
            k == self.kmer(),
    {
        self.kmer_length
    }

    /// The hashes, in order.
    pub fn hashes(&self) -> (r: &Vec<u64>)
        ensures
            r@ == self.hash_values(),
            sorted(r@),
    {
        proof {
            use_type_invariant(self);
        }
        &self.hashes
    }

    /// The estimated distance from this sketch to another, as decimal text.
    /// The estimator has an answer for every pair of sketches, so the result
    /// is never an error. Which text it is, is not stated: the estimate goes
    /// through floating-point arithmetic whose last digit, and whose sign at
    /// zero, may differ from one build or machine to the next.
    pub fn distance_to(&self, reference: &GenomeSketch) -> (r: Result<String, String>)
        ensures
            r is Ok,
    {
        proof {
            use_type_invariant(self);
            use_type_invariant(reference);
        }
        mash_distance_text(self, reference)
    }
}

/// Whether the hashes never decrease from one to the next.
pub fn is_sorted(hashes: &Vec<u64>) -> (b: bool)
    ensures
        b == sorted(hashes@),
{
    if hashes.len() < 2 {
        return true;
    }
    let mut i: usize = 1;
    while i < hashes.len()
        invariant
            1 <= i <= hashes.len(),
            sorted(hashes@.take(i as int)),
        decreases hashes.len() - i,
    {
        if hashes[i - 1] > hashes[i] {
            return false;
        }
        proof {
            let shorter = hashes@.take(i as int);
            let longer = hashes@.take(i + 1);
            assert forall|a: int, b: int| 0 <= a <= b < longer.len() implies longer[a]
                <= longer[b] by {
                if b < i {
                    assert(shorter[a] <= shorter[b]);
                } else if a < i {
                    assert(shorter[a] <= shorter[i - 1]);
                }
            }
        }
        i += 1;
    }
    proof {
        assert(hashes@.take(hashes.len() as int) =~= hashes@);
    }
    true
}

/// Calls `finch::distance::distance` on the two sketches, with the current
/// estimator rather than the legacy one, and gives the Mash distance it
/// reports, written with `{}`. Each sketch is handed over as a finch sketch
/// that holds the same hashes and the same k-mer length and has no scale.
///
/// The contract claims one thing of the estimator, which is not proved here:
/// it has no failing path. Given hashes in order, which the contract
/// demands, it ends by returning `Ok`. Nothing is claimed of the text.
#[verifier::external_body]
fn mash_distance_text(query: &GenomeSketch, reference: &GenomeSketch) -> (r: Result<String, String>)
    requires
        sorted(query.hashes@),
        sorted(reference.hashes@),
    ensures
        r is Ok,
{
    let convert = |s: &GenomeSketch| Sketch {
        name: s.name.clone(),
        seq_length: 0,
        num_valid_kmers: 0,
        comment: String::new(),
        hashes: s.hashes.iter().map(|h| KmerCount { hash: *h, kmer: Vec::new(), count: 0, extra_count: 0, label: None }).collect(),
        filter_params: FilterParams::default(),
        sketch_params: SketchParams::AllCounts { kmer_length: s.kmer_length },
    };
    match finch::distance::distance(&convert(query), &convert(reference), false) {
        Ok(d) => Ok(format!("{}", d.mash_distance)),
        Err(e) => Err(e.to_string()),
    }
}

} // verus!
