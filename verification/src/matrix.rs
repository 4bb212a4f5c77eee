//! The distance matrix, one row at a time.

use vstd::prelude::*;
use vstd::string::StringExecFns;
use crate::engine::GenomeSketch;
use crate::gate::views;
use crate::model::ResolvedGenome;
use crate::order::{is_permutation, reordered};

verus! {

/// The estimator failed on a pair: `row` is the genome whose row was being
/// filled, `column` the genome it was compared with.
#[derive(Debug, Clone, PartialEq)]
pub struct EngineError {
    pub row: usize,
    pub column: usize,
    pub message: String,
}

/// The cells of a row as text: each value followed by a tab, the last one
/// too.
pub open spec fn cells_text(cells: Seq<Seq<char>>) -> Seq<char>
    decreases cells.len(),
{
    if cells.len() == 0 {
        Seq::empty()
    } else {
        cells_text(cells.drop_last()) + cells.last() + "\t"@
    }
}

/// A row as text: the display name, a tab, the cells, a newline.
pub open spec fn row_text(name: Seq<char>, cells: Seq<Seq<char>>) -> Seq<char> {
    name + "\t"@ + cells_text(cells) + "\n"@
}

/// A table of answers: `d(i, j)` is the text the estimator gave for genome
/// `i` as the query against genome `j` as the reference. Cell `(i, j)` of the
/// matrix is `0` on the diagonal, whatever the table holds there, and the
/// answer elsewhere. Cell `(j, i)` is an answer of its own.
pub open spec fn table_cell(d: spec_fn(int, int) -> Seq<char>, i: int, j: int) -> Seq<char> {
    if i == j {
        "0"@
    } else {
        d(i, j)
    }
}

/// The cells of row `i` of a matrix over `n` genomes.
pub open spec fn table_row(d: spec_fn(int, int) -> Seq<char>, n: nat, i: int) -> Seq<Seq<char>> {
    Seq::new(n, |j: int| table_cell(d, i, j))
}

/// The whole matrix over `n` genomes: row `i` belongs to genome `i`.
pub open spec fn table_of(d: spec_fn(int, int) -> Seq<char>, n: nat) -> Seq<Seq<Seq<char>>> {
    Seq::new(n, |i: int| table_row(d, n, i))
}

/// The answers after the genomes were put in another order: the answer for
/// the genomes now at `a` and `b` is the one they had before.
pub open spec fn reordered_answers(d: spec_fn(int, int) -> Seq<char>, order: Seq<int>) -> spec_fn(
    int,
    int,
) -> Seq<char> {
    |a: int, b: int| d(order[a], order[b])
}

/// The lines of a matrix: row `i` written under name `i`.
pub open spec fn matrix_lines(names: Seq<Seq<char>>, table: Seq<Seq<Seq<char>>>) -> Seq<
    Seq<char>,
> {
    Seq::new(names.len(), |i: int| row_text(names[i], table[i]))
}

/// The table with the columns of every row put in another order.
pub open spec fn reordered_columns(table: Seq<Seq<Seq<char>>>, order: Seq<int>) -> Seq<
    Seq<Seq<char>>,
> {
    Seq::new(table.len(), |i: int| reordered(table[i], order))
}

/// The matrix is square and every cell on its diagonal is `0`, whatever the
/// answers are.
pub proof fn diagonal_is_zero(d: spec_fn(int, int) -> Seq<char>, n: nat)
    ensures
        table_of(d, n).len() == n,
        forall|i: int|
            0 <= i < n ==> (#[trigger] table_of(d, n)[i]).len() == n && table_of(d, n)[i][i]
                == "0"@,
{
}

/// Putting the genomes in another order, with every pair keeping its answer,
/// moves the rows of the matrix in the same way, and the columns within each
/// row, and changes no value: cell `(i, j)` of the new matrix is the cell
/// that the two genomes now at `i` and `j` had before, and the new lines are
/// the old lines with their columns reordered, put in the new order.
///
/// This is a law of the table. That the estimator gives a pair the same
/// answer when asked again is not claimed anywhere.
pub proof fn reordering_moves_rows_and_columns(
    names: Seq<Seq<char>>,
    d: spec_fn(int, int) -> Seq<char>,
    order: Seq<int>,
)
    requires
        is_permutation(order, names.len()),
    ensures
        forall|i: int, j: int|
            0 <= i < names.len() && 0 <= j < names.len() ==> #[trigger] table_of(
                reordered_answers(d, order),
                names.len(),
            )[i][j] == table_of(d, names.len())[order[i]][order[j]],
        table_of(reordered_answers(d, order), names.len()) == reordered(
            reordered_columns(table_of(d, names.len()), order),
            order,
        ),
        matrix_lines(reordered(names, order), table_of(reordered_answers(d, order), names.len()))
            == reordered(
            matrix_lines(names, reordered_columns(table_of(d, names.len()), order)),
            order,
        ),
{
    let n = names.len();
    let before = table_of(d, n);
    let after = table_of(reordered_answers(d, order), n);
    assert forall|i: int, j: int| 0 <= i < n && 0 <= j < n implies #[trigger] after[i][j]
        == before[order[i]][order[j]] by {
        assert(0 <= order[i] < n && 0 <= order[j] < n);
        if i < j {
            assert(order[i] != order[j]);
        }
        if j < i {
            assert(order[j] != order[i]);
        }
        assert(after[i][j] == table_cell(reordered_answers(d, order), i, j));
        assert(before[order[i]][order[j]] == table_cell(d, order[i], order[j]));
    }
    let target = reordered(reordered_columns(before, order), order);
    assert forall|i: int| 0 <= i < n implies #[trigger] after[i] == target[i] by {
        assert(0 <= order[i] < n);
        assert forall|j: int| 0 <= j < n implies after[i][j] == #[trigger] target[i][j] by {
            assert(0 <= order[j] < n);
            assert(after[i][j] == before[order[i]][order[j]]);
        }
        assert(after[i] =~= target[i]);
    }
    assert(after =~= target);
    assert(matrix_lines(reordered(names, order), after) =~= reordered(
        matrix_lines(names, reordered_columns(before, order)),
        order,
    ));
}

/// Two tables of answers that agree on every pair of different genomes give
/// the same matrix, and under the same names the same lines.
pub proof fn equal_answers_give_equal_lines(
    names: Seq<Seq<char>>,
    first: spec_fn(int, int) -> Seq<char>,
    second: spec_fn(int, int) -> Seq<char>,
)
    requires
        forall|i: int, j: int|
            0 <= i < names.len() && 0 <= j < names.len() && i != j ==> #[trigger] first(i, j)
                == second(i, j),
    ensures
        table_of(first, names.len()) == table_of(second, names.len()),
        matrix_lines(names, table_of(first, names.len())) == matrix_lines(
            names,
            table_of(second, names.len()),
        ),
{
    let n = names.len();
    assert forall|i: int| 0 <= i < n implies #[trigger] table_of(first, n)[i] == table_of(
        second,
        n,
    )[i] by {
        assert forall|j: int| 0 <= j < n implies table_cell(first, i, j) == table_cell(
            second,
            i,
            j,
        ) by {
            if i != j {
                assert(first(i, j) == second(i, j));
            }
        }
        assert(table_row(first, n, i) =~= table_row(second, n, i));
    }
    assert(table_of(first, n) =~= table_of(second, n));
}

/// Writes one row: the name, a tab, then each cell followed by a tab, then a
/// newline.
pub fn render_row(name: &str, cells: &Vec<String>) -> (row: String)
    ensures
        row@ == row_text(name@, views(cells@)),
{
    let mut row = String::from_str(name);
    row.append("\t");
    for j in 0..cells.len()
        invariant
            row@ == name@ + "\t"@ + cells_text(views(cells@).take(j as int)),
    {
        proof {
            let all = views(cells@);
            assert(all.take(j + 1).drop_last() =~= all.take(j as int));
            assert(all.take(j + 1).last() == cells[j as int]@);
            let head = name@ + "\t"@;
            let done = cells_text(all.take(j as int));
            assert(head + done + cells[j as int]@ + "\t"@ =~= head + (done + cells[j as int]@
                + "\t"@));
        }
        row.append(cells[j].as_str());
        row.append("\t");
    }
    proof {
        assert(views(cells@).take(cells.len() as int) =~= views(cells@));
    }
    row.append("\n");
    row
}

/// Settles one cell from what the estimator answered, if it was asked at
/// all. On the diagonal nothing is asked and the cell is `0`. Elsewhere the
/// cell is the answer as it came, and a failure becomes the error of the
/// pair, with the estimator's own words.
pub fn settle_cell(row: usize, column: usize, answer: Option<Result<String, String>>) -> (r:
    Result<String, EngineError>)
    ensures
        match answer {
            None => r matches Ok(text) && text@ == "0"@,
            Some(Ok(text)) => r == Ok::<String, EngineError>(text),
            Some(Err(message)) => r == Err::<String, EngineError>(
                (EngineError { row, column, message }),
            ),
        },
{
    match answer {
        None => Ok(String::from_str("0")),
        Some(Ok(text)) => Ok(text),
        Some(Err(message)) => Err(EngineError { row, column, message }),
    }
}

/// The cell that an answer settles to, if it settles to one: `0` where the
/// estimator was not asked, its text where it answered, none where it failed.
pub open spec fn settled(answer: Option<Result<String, String>>) -> Option<Seq<char>> {
    match answer {
        None => Some("0"@),
        Some(Ok(text)) => Some(text@),
        Some(Err(_)) => None,
    }
}

/// Whether the answers are those of row `i` of the table `d`: none on the
/// diagonal, and for every other genome `j` the text `d(i, j)`.
pub open spec fn answers_of_row(
    answers: Seq<Option<Result<String, String>>>,
    d: spec_fn(int, int) -> Seq<char>,
    i: int,
) -> bool {
    forall|j: int|
        0 <= j < answers.len() ==> #[trigger] settled(answers[j]) == Some(table_cell(d, i, j))
}

/// Builds row `i` from the answers for its columns, from left to right, each
/// cell settled as `settle_cell` settles it. With no failure among the
/// answers the row holds one cell for each; otherwise the first failure
/// ends the row and names the pair, with the estimator's own words.
pub fn row_from_answers(i: usize, answers: &Vec<Option<Result<String, String>>>) -> (r: Result<
    Vec<String>,
    EngineError,
>)
    ensures
        r is Ok <==> forall|j: int| 0 <= j < answers.len() ==> settled(#[trigger] answers[j]) is Some,
        r matches Ok(cells) ==> cells.len() == answers.len() && forall|j: int|
            #![trigger answers[j]]
            #![trigger cells[j]]
            0 <= j < answers.len() ==> settled(answers[j]) == Some(cells[j]@),
        r matches Err(e) ==> e.row == i && e.column < answers.len() && answers[e.column as int]
            == Some(Err::<String, String>(e.message)) && forall|j: int|
            0 <= j < e.column ==> settled(#[trigger] answers[j]) is Some,
        forall|d: spec_fn(int, int) -> Seq<char>|
            answers_of_row(answers@, d, i as int) ==> r is Ok && views(r->Ok_0@) == table_row(
                d,
                answers.len() as nat,
                i as int,
            ),
{
    let mut cells: Vec<String> = Vec::new();
    for j in 0..answers.len()
        invariant
            cells.len() == j,
            forall|c: int|
                #![trigger answers[c]]
                #![trigger cells[c]]
                0 <= c < j ==> settled(answers[c]) == Some(cells[c]@),
    {
        let answer = match &answers[j] {
            None => None,
            Some(Ok(text)) => Some(Ok(text.clone())),
            Some(Err(message)) => Some(Err(message.clone())),
        };
        match settle_cell(i, j, answer) {
            Ok(text) => {
                cells.push(text);
            },
            Err(e) => {
                assert(answers[j as int] == Some(Err::<String, String>(e.message)));
                return Err(e);
            },
        }
    }
    proof {
        assert forall|d: spec_fn(int, int) -> Seq<char>|
            answers_of_row(answers@, d, i as int) implies views(cells@) == table_row(
            d,
            answers.len() as nat,
            i as int,
        ) by {
            assert forall|j: int| 0 <= j < answers.len() implies views(cells@)[j] == table_cell(
                d,
                i as int,
                j,
            ) by {
                assert(settled(answers@[j]) == Some(table_cell(d, i as int, j)));
                assert(settled(answers[j]) == Some(cells[j]@));
            }
            assert(views(cells@) =~= table_row(d, answers.len() as nat, i as int));
        }
    }
    Ok(cells)
}

/// Fills row `i` of the matrix, from left to right: on the diagonal the
/// estimator is not asked; everywhere else it is asked for the distance from
/// sketch `i` to sketch `j`; the row is then built from the answers as
/// `row_from_answers` builds it. The estimator answers every pair of
/// sketches, so every row is filled. What the answers are is not stated.
pub fn distance_row(sketches: &Vec<GenomeSketch>, i: usize) -> (r: Result<
    Vec<String>,
    EngineError,
>)
    requires
        i < sketches.len(),
    ensures
        r is Ok,
        r matches Ok(cells) ==> cells.len() == sketches.len() && cells[i as int]@ == "0"@,
{
    let mut answers: Vec<Option<Result<String, String>>> = Vec::new();
    for j in 0..sketches.len()
        invariant
            i < sketches.len(),
            answers.len() == j,
            forall|c: int| 0 <= c < j ==> settled(#[trigger] answers[c]) is Some,
            i < j ==> answers[i as int] is None,
    {
        if i == j {
            answers.push(None);
        } else {
            answers.push(Some(sketches[i].distance_to(&sketches[j])));
        }
    }
    let row = row_from_answers(i, &answers);
    proof {
        assert(settled(answers[i as int]) == Some("0"@));
    }
    row
}

/// One finished row: its cells, and the line that goes to the output.
#[derive(Debug, Clone, PartialEq)]
pub struct MatrixRow {
    pub cells: Vec<String>,
    pub line: String,
}

/// Row `i` of the matrix under the display name of genome `i`: the cells as
/// `distance_row` fills them, and the line that `render_row` writes of them.
pub fn matrix_row(genomes: &Vec<ResolvedGenome>, sketches: &Vec<GenomeSketch>, i: usize) -> (r:
    Result<MatrixRow, EngineError>)
    requires
        genomes.len() == sketches.len(),
        i < sketches.len(),
    ensures
        r is Ok,
        r matches Ok(row) ==> row.cells.len() == sketches.len() && row.cells[i as int]@ == "0"@
            && row.line@ == row_text(genomes[i as int].display_name@, views(row.cells@)),
{
    match distance_row(sketches, i) {
        Ok(cells) => {
            let line = render_row(genomes[i].display_name.as_str(), &cells);
            Ok(MatrixRow { cells, line })
        },
        Err(e) => Err(e),
    }
}

/// The lines that report the comparisons of row `i`, up to column `upto`:
/// one for each column but `i` itself, from left to right.
pub open spec fn progress_text(
    names: Seq<Seq<char>>,
    i: int,
    cells: Seq<Seq<char>>,
    upto: int,
) -> Seq<Seq<char>>
    decreases upto,
{
    if upto <= 0 {
        Seq::empty()
    } else {
        let before = progress_text(names, i, cells, upto - 1);
        if upto - 1 == i {
            before
        } else {
            before.push(names[i] + " "@ + names[upto - 1] + " "@ + cells[upto - 1])
        }
    }
}

/// The display names of a list of genomes, in order.
pub open spec fn names_of(genomes: Seq<ResolvedGenome>) -> Seq<Seq<char>> {
    genomes.map_values(|g: ResolvedGenome| g.display_name@)
}

/// The lines that report the comparisons behind row `i`: for every other
/// genome `j`, from left to right, the two display names and cell `j`.
pub fn progress_lines(genomes: &Vec<ResolvedGenome>, i: usize, cells: &Vec<String>) -> (lines:
    Vec<String>)
    requires
        cells.len() == genomes.len(),
        i < genomes.len(),
    ensures
        views(lines@) == progress_text(
            names_of(genomes@),
            i as int,
            views(cells@),
            genomes.len() as int,
        ),
{
    let mut lines: Vec<String> = Vec::new();
    for j in 0..genomes.len()
        invariant
            cells.len() == genomes.len(),
            i < genomes.len(),
            views(lines@) == progress_text(names_of(genomes@), i as int, views(cells@), j as int),
    {
        if j != i {
            let ghost before = lines@;
            let line = progress_line(
                genomes[i].display_name.as_str(),
                genomes[j].display_name.as_str(),
                cells[j].as_str(),
            );
            lines.push(line);
            assert(views(lines@) =~= views(before).push(line@));
        }
    }
    lines
}

/// The line that reports one comparison: the two display names and the
/// distance, with single spaces between.
pub fn progress_line(query: &str, reference: &str, distance: &str) -> (line: String)
    ensures
        line@ == query@ + " "@ + reference@ + " "@ + distance@,
{
    let mut line = String::from_str(query);
    line.append(" ");
    line.append(reference);
    line.append(" ");
    line.append(distance);
    line
}

/// How many comparisons a matrix over `n` genomes takes: every ordered pair
/// of two different genomes. Nothing if the number does not fit.
pub fn pairwise_comparisons(n: usize) -> (r: Option<usize>)
    ensures
        r == if n * (n - 1) <= usize::MAX {
            Some((n * (n - 1)) as usize)
        } else {
            None
        },
{
    if n == 0 {
        Some(0)
    } else {
        n.checked_mul(n - 1)
    }
}

} // verus!
