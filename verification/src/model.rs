//! The assembly report record and the values derived from it.
//!
//! Only three fields of a record are interpreted: the accession, the assembly
//! name and the organism name. Everything else is carried along untouched.

use vstd::prelude::*;

verus! {

/// One assembly report.
#[derive(Default, Debug, Clone, PartialEq)]
pub struct Root {
    pub accession: String,
    pub assembly_info: AssemblyInfo,
    pub assembly_stats: AssemblyStats,
    pub current_accession: String,
    pub organelle_info: Vec<OrganelleInfo>,
    pub organism: Organism2,
    pub source_database: String,
}

#[derive(Default, Debug, Clone, PartialEq)]
pub struct AssemblyInfo {
    pub assembly_level: String,
    pub assembly_method: String,
    pub assembly_name: String,
    pub assembly_status: String,
    pub assembly_type: String,
    pub bioproject_accession: String,
    pub bioproject_lineage: Vec<BioprojectLineage>,
    pub biosample: Biosample,
    pub blast_url: String,
    pub comments: String,
    pub diploid_role: String,
    pub linked_assemblies: Vec<LinkedAssembly>,
    pub refseq_category: String,
    pub release_date: String,
    pub sequencing_tech: String,
    pub submitter: String,
}

#[derive(Default, Debug, Clone, PartialEq)]
pub struct BioprojectLineage {
    pub bioprojects: Vec<Bioproject>,
}

#[derive(Default, Debug, Clone, PartialEq)]
pub struct Bioproject {
    pub accession: String,
    pub parent_accessions: Vec<String>,
    pub title: String,
}

#[derive(Default, Debug, Clone, PartialEq)]
pub struct Biosample {
    pub accession: String,
    pub attributes: Vec<Attribute>,
    pub description: Description,
    pub last_updated: String,
    pub models: Vec<String>,
    pub owner: Owner,
    pub package: String,
    pub publication_date: String,
    pub sample_ids: Vec<SampleId>,
    pub status: Status,
    pub submission_date: String,
}

#[derive(Default, Debug, Clone, PartialEq)]
pub struct Attribute {
    pub name: String,
    pub value: String,
}

#[derive(Default, Debug, Clone, PartialEq)]
pub struct Description {
    pub organism: Organism,
    pub title: String,
}

#[derive(Default, Debug, Clone, PartialEq)]
pub struct Organism {
    pub organism_name: String,
    pub tax_id: i64,
}

#[derive(Default, Debug, Clone, PartialEq)]
pub struct Owner {
    pub name: String,
}

#[derive(Default, Debug, Clone, PartialEq)]
pub struct SampleId {
    pub db: String,
    pub value: String,
}

#[derive(Default, Debug, Clone, PartialEq)]
pub struct Status {
    pub status: String,
    pub when: String,
}

#[derive(Default, Debug, Clone, PartialEq)]
pub struct LinkedAssembly {
    pub assembly_type: String,
    pub linked_assembly: String,
}

/// Assembly statistics. The GC percentage is kept as the bit pattern of its
/// binary64 value, so that it passes through unchanged.
#[derive(Default, Debug, Clone, PartialEq)]
pub struct AssemblyStats {
    pub contig_l50: i64,
    pub contig_n50: i64,
    pub gc_count: String,
    pub gc_percent_bits: u64,
    pub genome_coverage: String,
    pub number_of_component_sequences: i64,
    pub number_of_contigs: i64,
    pub number_of_organelles: i64,
    pub number_of_scaffolds: i64,
    pub scaffold_l50: i64,
    pub scaffold_n50: i64,
    pub total_number_of_chromosomes: i64,
    pub total_sequence_length: String,
    pub total_ungapped_length: String,
}

#[derive(Default, Debug, Clone, PartialEq)]
pub struct OrganelleInfo {
    pub description: String,
    pub submitter: String,
    pub total_seq_length: String,
}

#[derive(Default, Debug, Clone, PartialEq)]
pub struct Organism2 {
    pub organism_name: String,
    pub tax_id: i64,
}

/// A genome as the pipeline sees it: the name its matrix row carries and the
/// file its sequence is read from.
#[derive(Debug, Clone, PartialEq)]
pub struct ResolvedGenome {
    pub display_name: String,
    pub file_path: String,
}

impl ResolvedGenome {
    /// The pair of display name and file path.
    pub open spec fn view(&self) -> (Seq<char>, Seq<char>) {
        (self.display_name@, self.file_path@)
    }
}

impl Root {
    /// A record is usable when the three fields that the pipeline reads are
    /// all non-empty.
    pub open spec fn usable(&self) -> bool {
        &&& self.accession@.len() > 0
        &&& self.assembly_info.assembly_name@.len() > 0
        &&& self.organism.organism_name@.len() > 0
    }

    /// Whether the record is usable.
    pub fn is_usable(&self) -> (b: bool)
        ensures
            b == self.usable(),
    {
        !is_blank(self.accession.as_str()) && !is_blank(
            self.assembly_info.assembly_name.as_str(),
        ) && !is_blank(self.organism.organism_name.as_str())
    }
}

/// Whether the string holds no character at all.
pub fn is_blank(s: &str) -> (b: bool)
    ensures
        b == (s@.len() == 0),
{
    s.unicode_len() == 0
}

} // verus!
