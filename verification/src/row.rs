//! Assembly of output rows from input cells and probe replies, preserving
//! input order, and generation of the output header row.

use vstd::prelude::*;
use vstd::string::StringExecFns;

use crate::outcome::CellProbes;
use crate::prober::check_redirect;
use crate::prober::check_status;
use crate::prober::is_eligible_spec;
use crate::prober::redirect_text_spec;
use crate::prober::status_outcome_spec;
use crate::text::decimal_of;
use crate::text::decimal_string;
use crate::text::error_string;
use crate::text::error_text;

verus! {

/// The one structural error: a row held fewer cells than the configured
/// column count. It is fatal to the whole run, unlike probe failures,
/// which are absorbed into per-cell sentinel outcomes.
#[derive(Clone, Copy, Debug, PartialEq, Eq, Structural)]
pub enum RowError {
    TooFewCells,
}

/// The status text of one cell's output triplet: the sentinel for an
/// unprobed (ineligible) cell, else the status probe's outcome rendered.
pub open spec fn cell_status_text(cell: Seq<char>, probes: Option<CellProbes>) -> Seq<char> {
    match probes {
        None => error_text(),
        Some(p) => status_outcome_spec(p.status_probe).text_spec(),
    }
}

/// The redirect text of one cell's output triplet: the sentinel for an
/// unprobed (ineligible) cell, else the redirect probe's outcome rendered.
pub open spec fn cell_redirect_text(cell: Seq<char>, probes: Option<CellProbes>) -> Seq<char> {
    match probes {
        None => error_text(),
        Some(p) => redirect_text_spec(cell, p.redirect_probe),
    }
}

/// The three output cells for one input cell: the original text verbatim,
/// the status text, the redirect text.
pub open spec fn triplet_spec(cell: Seq<char>, probes: Option<CellProbes>) -> Seq<Seq<char>> {
    seq![cell, cell_status_text(cell, probes), cell_redirect_text(cell, probes)]
}

/// The full output row for the first `n` cells of an input row: the
/// triplets of the cells, in input order.
pub open spec fn output_row_spec(
    cells: Seq<Seq<char>>,
    n: int,
    probes: Seq<Option<CellProbes>>,
) -> Seq<Seq<char>>
    decreases n,
{
    if n <= 0 {
        Seq::empty()
    } else {
        output_row_spec(cells, n - 1, probes) + triplet_spec(cells[n - 1], probes[n - 1])
    }
}

/// The collaboration contract between the probing loop and the assembler:
/// one probe slot per configured column, filled exactly for the cells that
/// are eligible for probing.
pub open spec fn probes_aligned(
    cells: Seq<Seq<char>>,
    n: int,
    probes: Seq<Option<CellProbes>>,
) -> bool {
    &&& probes.len() == n
    &&& forall|i: int|
        0 <= i < n && i < cells.len() ==> ((probes[i] is Some) <==> is_eligible_spec(cells[i]))
}

/// Law: an output row has exactly three cells per configured column,
/// whatever the probe outcomes were.
pub proof fn lemma_output_row_len(cells: Seq<Seq<char>>, n: int, probes: Seq<Option<CellProbes>>)
    requires
        n >= 0,
    ensures
        output_row_spec(cells, n, probes).len() == 3 * n,
    decreases n,
{
    if n > 0 {
        lemma_output_row_len(cells, n - 1, probes);
    }
}

/// Law: the triplet at column `i` of an output row is determined by cell
/// `i` and its own probes alone — the original text, then the status text,
/// then the redirect text — independently of every other cell.
pub proof fn lemma_output_row_index(
    cells: Seq<Seq<char>>,
    n: int,
    probes: Seq<Option<CellProbes>>,
    i: int,
)
    requires
        0 <= i < n,
    ensures
        output_row_spec(cells, n, probes)[3 * i] == cells[i],
        output_row_spec(cells, n, probes)[3 * i + 1] == cell_status_text(cells[i], probes[i]),
        output_row_spec(cells, n, probes)[3 * i + 2] == cell_redirect_text(cells[i], probes[i]),
    decreases n,
{
    lemma_output_row_len(cells, n - 1, probes);
    if i < n - 1 {
        lemma_output_row_index(cells, n - 1, probes, i);
    }
}

/// Law: a cell whose text is ineligible (it does not begin `https://`)
/// always yields its original text verbatim and the error sentinel for
/// both the status and the redirect output cells.
pub proof fn lemma_ineligible_cell(
    cells: Seq<Seq<char>>,
    n: int,
    probes: Seq<Option<CellProbes>>,
    i: int,
)
    requires
        probes_aligned(cells, n, probes),
        0 <= i < n,
        i < cells.len(),
        !is_eligible_spec(cells[i]),
    ensures
        output_row_spec(cells, n, probes)[3 * i] == cells[i],
        output_row_spec(cells, n, probes)[3 * i + 1] == error_text(),
        output_row_spec(cells, n, probes)[3 * i + 2] == error_text(),
{
    lemma_output_row_index(cells, n, probes, i);
}

/// Law: a cell's two probes are evaluated independently — its status text
/// depends on the status probe's reply alone, and its redirect text on the
/// redirect probe's reply alone, so a failure of either probe never taints
/// the other facet's outcome.
pub proof fn lemma_probe_independence(cell: Seq<char>, a: CellProbes, b: CellProbes)
    ensures
        a.status_probe == b.status_probe ==> cell_status_text(cell, Some(a)) == cell_status_text(
            cell,
            Some(b),
        ),
        a.redirect_probe == b.redirect_probe ==> cell_redirect_text(cell, Some(a))
            == cell_redirect_text(cell, Some(b)),
{
}

/// Law: the checker is deterministic — the output rows are a function of
/// the input cells and the probe replies alone, so a second run over the
/// same rows in which every probe came back the same produces an identical
/// output table.
pub proof fn lemma_rerun_identical(
    cells1: Seq<Seq<char>>,
    n1: int,
    probes1: Seq<Option<CellProbes>>,
    cells2: Seq<Seq<char>>,
    n2: int,
    probes2: Seq<Option<CellProbes>>,
)
    requires
        cells1 == cells2,
        n1 == n2,
        probes1 == probes2,
    ensures
        output_row_spec(cells1, n1, probes1) == output_row_spec(cells2, n2, probes2),
{
}

/// Assemble the output row for one input row: for each of the first `n`
/// cells, the original text, the rendered status outcome and the rendered
/// redirect outcome. A row with fewer than `n` cells is a structural error
/// and yields no partial output.
pub fn process_row(cells: &Vec<String>, n: usize, probes: &Vec<Option<CellProbes>>) -> (r: Result<
    Vec<String>,
    RowError,
>)
    requires
        probes_aligned(cells.deep_view(), n as int, probes@),
    ensures
        r is Ok <==> n <= cells@.len(),
        r matches Ok(row) ==> row.deep_view() == output_row_spec(
            cells.deep_view(),
            n as int,
            probes@,
        ) && row@.len() == 3 * n,
{
    if cells.len() < n {
        return Result::Err(RowError::TooFewCells);
    }
    let mut row: Vec<String> = Vec::new();
    let mut i: usize = 0;
    while i < n
        invariant
            i <= n,
            n <= cells@.len(),
            probes_aligned(cells.deep_view(), n as int, probes@),
            row@.len() == 3 * i,
            row.deep_view() == output_row_spec(cells.deep_view(), i as int, probes@),
        decreases n - i,
    {
        let ghost prev = row.deep_view();
        let cell_text = cells[i].clone();
        row.push(cell_text);
        match &probes[i] {
            Option::None => {
                row.push(error_string());
                row.push(error_string());
            },
            Option::Some(p) => {
                let so = check_status(&p.status_probe);
                row.push(so.render());
                let ro = check_redirect(&cells[i], &p.redirect_probe);
                row.push(ro.render());
            },
        }
        proof {
            assert(row.deep_view() =~= prev + triplet_spec(
                cells.deep_view()[i as int],
                probes@[i as int],
            ));
            assert(row.deep_view() =~= output_row_spec(
                cells.deep_view(),
                i as int + 1,
                probes@,
            ));
        }
        i = i + 1;
    }
    Result::Ok(row)
}

/// Process a whole table of input rows, in order: the output holds one row
/// per input row, row `j` of the output being the assembled row for row
/// `j` of the input. Any row with fewer than `n` cells aborts the run.
pub fn process_rows(
    rows: &Vec<Vec<String>>,
    n: usize,
    probes: &Vec<Vec<Option<CellProbes>>>,
) -> (r: Result<Vec<Vec<String>>, RowError>)
    requires
        probes@.len() == rows@.len(),
        forall|j: int|
            0 <= j < rows@.len() ==> probes_aligned(rows@[j].deep_view(), n as int, probes@[j]@),
    ensures
        r is Ok <==> (forall|j: int| 0 <= j < rows@.len() ==> n <= rows@[j]@.len()),
        r matches Ok(out) ==> out@.len() == rows@.len() && (forall|j: int|
            0 <= j < rows@.len() ==> out@[j].deep_view() == output_row_spec(
                rows@[j].deep_view(),
                n as int,
                probes@[j]@,
            )),
{
    let mut out: Vec<Vec<String>> = Vec::new();
    let mut j: usize = 0;
    while j < rows.len()
        invariant
            j <= rows@.len(),
            probes@.len() == rows@.len(),
            forall|k: int|
                0 <= k < rows@.len() ==> probes_aligned(
                    rows@[k].deep_view(),
                    n as int,
                    probes@[k]@,
                ),
            out@.len() == j,
            forall|k: int| 0 <= k < j ==> n <= rows@[k]@.len(),
            forall|k: int|
                0 <= k < j ==> out@[k].deep_view() == output_row_spec(
                    rows@[k].deep_view(),
                    n as int,
                    probes@[k]@,
                ),
        decreases rows@.len() - j,
    {
        match process_row(&rows[j], n, &probes[j]) {
            Result::Ok(row) => {
                out.push(row);
            },
            Result::Err(e) => {
                proof {
                    assert(!(n <= rows@[j as int]@.len()));
                }
                return Result::Err(e);
            },
        }
        j = j + 1;
    }
    Result::Ok(out)
}

/// The three header cells for 1-based column `i`: `Link i`,
/// `Link i Status Code`, `Link i Redirect`.
pub open spec fn header_triplet_spec(i: nat) -> Seq<Seq<char>> {
    seq![
        "Link "@ + decimal_of(i),
        "Link "@ + decimal_of(i) + " Status Code"@,
        "Link "@ + decimal_of(i) + " Redirect"@,
    ]
}

/// The header row for `n` configured columns: the header triplets of the
/// columns `1` to `n`, in order.
pub open spec fn headers_spec(n: nat) -> Seq<Seq<char>>
    decreases n,
{
    if n == 0 {
        Seq::empty()
    } else {
        headers_spec((n - 1) as nat) + header_triplet_spec(n)
    }
}

/// Build the output header row for `n` configured columns.
pub fn output_headers(n: usize) -> (r: Vec<String>)
    ensures
        r.deep_view() == headers_spec(n as nat),
        r@.len() == 3 * n,
{
    let mut r: Vec<String> = Vec::new();
    let mut i: usize = 0;
    while i < n
        invariant
            i <= n,
            r@.len() == 3 * i,
            r.deep_view() == headers_spec(i as nat),
        decreases n - i,
    {
        let ghost prev = r.deep_view();
        let num = decimal_string((i + 1) as u64);
        let mut link = String::from_str("Link ");
        link.append(num.as_str());
        let mut status_h = link.clone();
        status_h.append(" Status Code");
        let mut redirect_h = link.clone();
        redirect_h.append(" Redirect");
        r.push(link);
        r.push(status_h);
        r.push(redirect_h);
        proof {
            assert(r.deep_view() =~= prev + header_triplet_spec((i + 1) as nat));
            assert(r.deep_view() =~= headers_spec((i + 1) as nat));
        }
        i = i + 1;
    }
    r
}

} // verus!
