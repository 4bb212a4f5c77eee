//! Display names and genome file paths derived from assembly metadata.

use vstd::prelude::*;
use vstd::string::StringExecFns;
use crate::model::{ResolvedGenome, Root};
use crate::order::{is_permutation, reordered};
use crate::text::{spaces_to_underscores, underscored};

verus! {

/// What becomes of one character of an organism name: a space or a hyphen
/// turns into an underscore, a period vanishes, anything else stays.
pub open spec fn sanitized_char(c: char) -> Seq<char> {
    if c == ' ' || c == '-' {
        seq!['_']
    } else if c == '.' {
        Seq::empty()
    } else {
        seq![c]
    }
}

/// The sanitized form of a name: each character replaced in turn, with no
/// collapsing of neighbouring underscores.
pub open spec fn sanitized(s: Seq<char>) -> Seq<char>
    decreases s.len(),
{
    if s.len() == 0 {
        Seq::empty()
    } else {
        sanitized(s.drop_last()) + sanitized_char(s.last())
    }
}

/// A name is clean when it holds no space, period or hyphen.
pub open spec fn clean(s: Seq<char>) -> bool {
    forall|i: int| 0 <= i < s.len() ==> s[i] != ' ' && s[i] != '.' && s[i] != '-'
}

/// A sanitized name holds no space, period or hyphen, whatever the name was.
pub proof fn sanitized_is_clean(s: Seq<char>)
    ensures
        clean(sanitized(s)),
    decreases s.len(),
{
    if s.len() > 0 {
        sanitized_is_clean(s.drop_last());
        let head = sanitized(s.drop_last());
        let tail = sanitized_char(s.last());
        assert forall|i: int| 0 <= i < (head + tail).len() implies (head + tail)[i] != ' ' && (
        head + tail)[i] != '.' && (head + tail)[i] != '-' by {
            if i < head.len() {
                assert((head + tail)[i] == head[i]);
            } else {
                assert((head + tail)[i] == tail[i - head.len()]);
            }
        }
    }
}

/// Sanitizing a clean name changes nothing, so sanitizing twice is the same
/// as sanitizing once.
pub proof fn sanitized_is_idempotent(s: Seq<char>)
    ensures
        sanitized(sanitized(s)) == sanitized(s),
{
    sanitized_is_clean(s);
    clean_is_fixed(sanitized(s));
}

/// A name without space, period or hyphen is its own sanitized form.
pub proof fn clean_is_fixed(s: Seq<char>)
    requires
        clean(s),
    ensures
        sanitized(s) == s,
    decreases s.len(),
{
    if s.len() > 0 {
        clean_is_fixed(s.drop_last());
        assert(s.drop_last() + seq![s.last()] =~= s);
    }
}

/// The display name of an organism.
pub fn sanitize_name(name: &str) -> (out: String)
    ensures
        out@ == sanitized(name@),
        clean(out@),
{
    let mut out = String::new();
    for c in it: name.chars()
        invariant
            it.seq() == name@,
            out@ == sanitized(name@.take(it.index() as int)),
    {
        proof {
            let k = it.index() as int;
            assert(name@.take(k + 1).drop_last() =~= name@.take(k));
            assert(sanitized(name@.take(k)) + seq![c] =~= sanitized(name@.take(k)).push(c));
            assert(sanitized(name@.take(k)) + seq!['_'] =~= sanitized(name@.take(k)).push('_'));
            assert(sanitized(name@.take(k)) + Seq::<char>::empty() =~= sanitized(name@.take(k)));
        }
        if c == ' ' || c == '-' {
            out.push('_');
        } else if c != '.' {
            out.push(c);
        }
    }
    proof {
        assert(name@.take(name@.len() as int) =~= name@);
        sanitized_is_clean(name@);
    }
    out
}

/// The path of the genome file of an assembly below a data root:
/// the root, `/data/`, the accession as a directory, then the file named by
/// the accession, an underscore, the assembly name with its spaces turned
/// into underscores, and `_genomic.fna`.
pub open spec fn assembly_path(
    root: Seq<char>,
    accession: Seq<char>,
    assembly_name: Seq<char>,
) -> Seq<char> {
    root + "/data/"@ + accession + "/"@ + accession + "_"@ + underscored(assembly_name)
        + "_genomic.fna"@
}

/// The genome file path for an accession and an assembly name. Periods and
/// hyphens of the assembly name stay as they are.
pub fn resolve_path(root_directory: &str, accession: &str, assembly_name: &str) -> (out: String)
    ensures
        out@ == assembly_path(root_directory@, accession@, assembly_name@),
{
    let file_name = spaces_to_underscores(assembly_name);
    let mut out = String::from_str(root_directory);
    out.append("/data/");
    out.append(accession);
    out.append("/");
    out.append(accession);
    out.append("_");
    out.append(file_name.as_str());
    out.append("_genomic.fna");
    out
}

/// The genome file path of a record.
pub fn ncbi_get_assembly_path(root_directory: &str, root: &Root) -> (out: String)
    ensures
        out@ == assembly_path(
            root_directory@,
            root.accession@,
            root.assembly_info.assembly_name@,
        ),
{
    resolve_path(
        root_directory,
        root.accession.as_str(),
        root.assembly_info.assembly_name.as_str(),
    )
}

/// The genome that a record resolves to.
pub open spec fn resolved(root_directory: Seq<char>, root: Root) -> (Seq<char>, Seq<char>) {
    (
        sanitized(root.organism.organism_name@),
        assembly_path(root_directory, root.accession@, root.assembly_info.assembly_name@),
    )
}

/// The genomes that a list of records resolves to, in the order of the
/// records.
pub open spec fn resolved_all(root_directory: Seq<char>, records: Seq<Root>) -> Seq<
    (Seq<char>, Seq<char>),
> {
    records.map_values(|r: Root| resolved(root_directory, r))
}

/// The names and paths of a list of genomes.
pub open spec fn genome_views(genomes: Seq<ResolvedGenome>) -> Seq<(Seq<char>, Seq<char>)> {
    genomes.map_values(|g: ResolvedGenome| g@)
}

/// Resolution follows the order of the records: records put in another
/// order resolve to the same genomes, put in that order.
pub proof fn resolution_follows_the_order(
    root_directory: Seq<char>,
    records: Seq<Root>,
    order: Seq<int>,
)
    requires
        is_permutation(order, records.len()),
    ensures
        resolved_all(root_directory, reordered(records, order)) == reordered(
            resolved_all(root_directory, records),
            order,
        ),
{
    assert(resolved_all(root_directory, reordered(records, order)) =~= reordered(
        resolved_all(root_directory, records),
        order,
    ));
}

/// Resolves one record.
pub fn resolve_genome(root_directory: &str, root: &Root) -> (g: ResolvedGenome)
    ensures
        g@ == resolved(root_directory@, *root),
{
    ResolvedGenome {
        display_name: sanitize_name(root.organism.organism_name.as_str()),
        file_path: ncbi_get_assembly_path(root_directory, root),
    }
}

/// Resolves every record, in the order given.
pub fn resolve_all(root_directory: &str, records: &Vec<Root>) -> (genomes: Vec<ResolvedGenome>)
    ensures
        genome_views(genomes@) == resolved_all(root_directory@, records@),
{
    let mut genomes: Vec<ResolvedGenome> = Vec::new();
    for i in 0..records.len()
        invariant
            genome_views(genomes@) == resolved_all(root_directory@, records@.take(i as int)),
    {
        let ghost before = genomes@;
        let genome = resolve_genome(root_directory, &records[i]);
        genomes.push(genome);
        proof {
            assert(genome_views(genomes@) =~= genome_views(before).push(genome@));
            assert(records@.take(i + 1) =~= records@.take(i as int).push(records[i as int]));
            assert(resolved_all(root_directory@, records@.take(i + 1)) =~= resolved_all(
                root_directory@,
                records@.take(i as int),
            ).push(resolved(root_directory@, records[i as int])));
        }
    }
    proof {
        assert(records@.take(records.len() as int) =~= records@);
    }
    genomes
}

/// The line that lists a genome: its display name, a space, its file path.
pub fn listing_line(genome: &ResolvedGenome) -> (line: String)
    ensures
        line@ == genome.display_name@ + " "@ + genome.file_path@,
{
    let mut line = String::from_str(genome.display_name.as_str());
    line.append(" ");
    line.append(genome.file_path.as_str());
    line
}

} // verus!
