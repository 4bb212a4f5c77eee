//! The existence gate: no work starts on an incomplete set of genome files.

use vstd::prelude::*;
use vstd::string::StringExecFns;
use crate::model::ResolvedGenome;

verus! {

/// The strings of a vector, as sequences of characters.
pub open spec fn views(v: Seq<String>) -> Seq<Seq<char>> {
    v.map_values(|s: String| s@)
}

/// The file paths of a list of genomes, in order.
pub open spec fn paths_of(genomes: Seq<ResolvedGenome>) -> Seq<Seq<char>> {
    genomes.map_values(|g: ResolvedGenome| g.file_path@)
}

/// The paths whose file is absent, in the order of the list.
pub open spec fn missing_paths(paths: Seq<Seq<char>>, present: Seq<bool>) -> Seq<Seq<char>>
    decreases paths.len(),
{
    if paths.len() == 0 || present.len() != paths.len() {
        Seq::empty()
    } else {
        let before = missing_paths(paths.drop_last(), present.drop_last());
        if present.last() {
            before
        } else {
            before.push(paths.last())
        }
    }
}

/// Every genome file that was found absent.
#[derive(Debug, Clone, PartialEq)]
pub struct MissingFileError {
    pub paths: Vec<String>,
}

impl MissingFileError {
    /// The absent paths.
    pub open spec fn view(&self) -> Seq<Seq<char>> {
        views(self.paths@)
    }
}

/// Nothing is missing exactly when every file is present.
pub proof fn nothing_missing_iff_all_present(paths: Seq<Seq<char>>, present: Seq<bool>)
    requires
        present.len() == paths.len(),
    ensures
        missing_paths(paths, present).len() == 0 <==> forall|i: int|
            0 <= i < present.len() ==> present[i],
    decreases paths.len(),
{
    if paths.len() > 0 {
        nothing_missing_iff_all_present(paths.drop_last(), present.drop_last());
        let shorter = present.drop_last();
        if present.last() && missing_paths(paths, present).len() == 0 {
            assert forall|i: int| 0 <= i < present.len() implies present[i] by {
                if i < shorter.len() {
                    assert(shorter[i] == present[i]);
                }
            }
        }
        if forall|i: int| 0 <= i < present.len() ==> present[i] {
            assert forall|i: int| 0 <= i < shorter.len() implies shorter[i] by {
                assert(shorter[i] == present[i]);
            }
        }
    }
}

/// A path is reported as missing exactly when it is the path of some genome
/// whose file is absent.
pub proof fn missing_are_the_absent(paths: Seq<Seq<char>>, present: Seq<bool>, path: Seq<char>)
    requires
        present.len() == paths.len(),
    ensures
        missing_paths(paths, present).contains(path) <==> exists|i: int|
            0 <= i < paths.len() && !present[i] && paths[i] == path,
    decreases paths.len(),
{
    if paths.len() > 0 {
        let shorter_paths = paths.drop_last();
        let shorter = present.drop_last();
        let before = missing_paths(shorter_paths, shorter);
        let last = paths.len() - 1;
        missing_are_the_absent(shorter_paths, shorter, path);
        if missing_paths(paths, present).contains(path) {
            let k = choose|k: int|
                0 <= k < missing_paths(paths, present).len() && missing_paths(paths, present)[k]
                    == path;
            if k < before.len() {
                assert(before[k] == path);
                assert(before.contains(path));
                let i = choose|i: int|
                    0 <= i < shorter_paths.len() && !shorter[i] && shorter_paths[i] == path;
                assert(!present[i] && paths[i] == path);
            } else {
                assert(!present[last] && paths[last] == path);
            }
        }
        if exists|i: int| 0 <= i < paths.len() && !present[i] && paths[i] == path {
            let i = choose|i: int| 0 <= i < paths.len() && !present[i] && paths[i] == path;
            if i < last {
                assert(!shorter[i] && shorter_paths[i] == path);
                assert(before.contains(path));
                let k = choose|k: int| 0 <= k < before.len() && before[k] == path;
                assert(missing_paths(paths, present)[k] == path);
            } else {
                assert(missing_paths(paths, present)[before.len() as int] == path);
            }
        }
    }
}

/// Checks the whole list against what was found on disk: `present[i]` says
/// whether the file of genome `i` exists. Every genome is looked at, also
/// after the first gap. With no gap the result holds all file paths, in
/// order, as the set to work on; with any gap it holds all the absent
/// paths and no set to work on.
pub fn existence_gate(genomes: &Vec<ResolvedGenome>, present: &Vec<bool>) -> (r: Result<
    Vec<String>,
    MissingFileError,
>)
    requires
        present.len() == genomes.len(),
    ensures
        r is Ok <==> forall|i: int| 0 <= i < present.len() ==> present[i],
        r matches Ok(files) ==> views(files@) == paths_of(genomes@),
        r matches Err(e) ==> e@ == missing_paths(paths_of(genomes@), present@) && e@.len() > 0,
{
    let mut files: Vec<String> = Vec::new();
    let mut missing: Vec<String> = Vec::new();
    for i in 0..genomes.len()
        invariant
            present.len() == genomes.len(),
            views(files@) == paths_of(genomes@.take(i as int)),
            views(missing@) == missing_paths(
                paths_of(genomes@.take(i as int)),
                present@.take(i as int),
            ),
    {
        proof {
            let k = i as int;
            assert(genomes@.take(k + 1).drop_last() =~= genomes@.take(k));
            assert(present@.take(k + 1).drop_last() =~= present@.take(k));
            assert(paths_of(genomes@.take(k + 1)).drop_last() =~= paths_of(genomes@.take(k)));
            assert(paths_of(genomes@.take(k + 1)) =~= paths_of(genomes@.take(k)).push(
                genomes[k].file_path@,
            ));
        }
        let ghost files_before = files@;
        let ghost missing_before = missing@;
        files.push(genomes[i].file_path.clone());
        assert(views(files@) =~= views(files_before).push(genomes[i as int].file_path@));
        if !present[i] {
            missing.push(genomes[i].file_path.clone());
            assert(views(missing@) =~= views(missing_before).push(genomes[i as int].file_path@));
        }
    }
    proof {
        assert(genomes@.take(genomes.len() as int) =~= genomes@);
        assert(present@.take(genomes.len() as int) =~= present@);
        nothing_missing_iff_all_present(paths_of(genomes@), present@);
    }
    if missing.len() == 0 {
        Ok(files)
    } else {
        Err(MissingFileError { paths: missing })
    }
}

/// The line that reports one absent file.
pub fn missing_file_message(path: &str) -> (line: String)
    ensures
        line@ == "File "@ + path@ + " does not exist"@,
{
    let mut line = String::from_str("File ");
    line.append(path);
    line.append(" does not exist");
    line
}

} // verus!
