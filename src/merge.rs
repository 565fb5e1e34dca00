use vstd::prelude::*;
use crate::cell::{
    edit_output, output_of_edit, output_of_source, source_output, written_view, CellCoordinate,
    CellValue, CoordKey, Edit, OutputCell, OutputCellView, SourceCell,
};
use crate::changeset::Changeset;

verus! {

/// One sheet of the source document: its name and its cell range, row by row.
#[derive(Debug, Clone, PartialEq, Eq)]
pub struct SourceSheet {
    pub name: String,
    pub rows: Vec<Vec<SourceCell>>,
}

/// One sheet of the output document, with the same shape as its source sheet;
/// `None` marks a position where nothing is written.
#[derive(Debug, Clone, PartialEq, Eq)]
pub struct OutputSheet {
    pub name: String,
    pub rows: Vec<Vec<Option<OutputCell>>>,
}

/// Why the output document could not be built.
#[derive(Debug, Clone, PartialEq, Eq)]
pub enum MergeError {
    /// The output document refuses this sheet name.
    InvalidSheetName(String),
}

/// A character that a sheet name may not hold.
pub open spec fn forbidden_in_sheet_name(c: char) -> bool {
    c == '*' || c == '?' || c == ':' || c == '[' || c == ']' || c == '\\' || c == '/'
}

/// The sheet names that the output document accepts: not empty, at most 31
/// characters, none of `* ? : [ ] \ /`, and no apostrophe at either end.
pub open spec fn sheet_name_allowed(name: Seq<char>) -> bool {
    &&& 0 < name.len() <= 31
    &&& forall|i: int| 0 <= i < name.len() ==> !forbidden_in_sheet_name(#[trigger] name[i])
    &&& name[0] != '\''
    &&& name[name.len() - 1] != '\''
}

/// Relies on rust_xlsxwriter's `Worksheet::set_name`, which returns an error
/// exactly when the name is empty, longer than 31 characters, holds one of
/// `* ? : [ ] \ /`, or starts or ends with an apostrophe.
#[verifier::external_body]
fn worksheet_accepts_name(name: &String) -> (r: bool)
    ensures
        r == sheet_name_allowed(name@),
{
    rust_xlsxwriter::Worksheet::new().set_name(name.as_str()).is_ok()
}

/// The value written at a position: the edit's when there is one, the source
/// cell's otherwise.
pub open spec fn cell_choice(src: SourceCell, edit: Option<CellValue>) -> Option<OutputCellView> {
    match edit {
        Some(v) => Some(edit_output(v)),
        None => source_output(src),
    }
}

/// `out` is `src` with the edits of `cs` laid over it: same name, same shape,
/// and each position holds [`cell_choice`] of its source cell and its edit.
pub open spec fn sheet_merged(src: SourceSheet, cs: Changeset, out: OutputSheet) -> bool {
    &&& out.name@ == src.name@
    &&& out.rows@.len() == src.rows@.len()
    &&& forall|r: int|
        0 <= r < src.rows@.len() ==> (#[trigger] out.rows@[r])@.len() == src.rows@[r]@.len()
    &&& forall|r: int, c: int|
        0 <= r < src.rows@.len() && 0 <= c < src.rows@[r]@.len() ==> written_view(
            #[trigger] out.rows@[r]@[c],
        ) == cell_choice(src.rows@[r]@[c], cs.edit_at(src.name@, r, c))
}

/// `out` is the whole of `sheets` merged with `cs`, sheet by sheet, in order.
pub open spec fn workbook_merged(sheets: Seq<SourceSheet>, cs: Changeset, out: Seq<OutputSheet>) -> bool {
    &&& out.len() == sheets.len()
    &&& forall|i: int| 0 <= i < sheets.len() ==> sheet_merged(sheets[i], cs, #[trigger] out[i])
}

/// The edit in `edits` at (`row`, `col`), if any.
fn find_edit<'a>(edits: &Vec<(&'a CellCoordinate, &'a Edit)>, row: usize, col: usize) -> (r: Option<&'a Edit>)
    ensures
        match r {
            Some(e) => exists|j: int|
                0 <= j < edits@.len() && edits@[j].0.row == row && edits@[j].0.col == col
                    && *edits@[j].1 == *e,
            None => forall|j: int|
                0 <= j < edits@.len() ==> !(edits@[j].0.row == row && edits@[j].0.col == col),
        },
{
    let mut j: usize = 0;
    while j < edits.len()
        invariant
            0 <= j <= edits@.len(),
            forall|m: int|
                0 <= m < j ==> !(edits@[m].0.row == row && edits@[m].0.col == col),
        decreases edits@.len() - j,
    {
        let (coord, edit) = edits[j];
        if coord.row == row && coord.col == col {
            return Some(edit);
        }
        j = j + 1;
    }
    None
}

/// One row of a sheet, merged with the sheet's edits.
fn merge_row<'a>(
    src_row: &Vec<SourceCell>,
    row: usize,
    edits: &Vec<(&'a CellCoordinate, &'a Edit)>,
    Ghost(cs): Ghost<Changeset>,
    Ghost(sheet): Ghost<Seq<char>>,
) -> (out: Vec<Option<OutputCell>>)
    requires
        cs.lists_sheet_edits(sheet, edits@),
    ensures
        out@.len() == src_row@.len(),
        forall|c: int|
            0 <= c < src_row@.len() ==> written_view(#[trigger] out@[c]) == cell_choice(
                src_row@[c],
                cs.edit_at(sheet, row as int, c),
            ),
{
    let mut out: Vec<Option<OutputCell>> = Vec::new();
    let mut col: usize = 0;
    while col < src_row.len()
        invariant
            0 <= col <= src_row@.len(),
            out@.len() == col,
            cs.lists_sheet_edits(sheet, edits@),
            forall|c: int|
                0 <= c < col ==> written_view(#[trigger] out@[c]) == cell_choice(
                    src_row@[c],
                    cs.edit_at(sheet, row as int, c),
                ),
        decreases src_row@.len() - col,
    {
        let cell = match find_edit(edits, row, col) {
            Some(edit) => {
                let ghost j = choose|j: int|
                    0 <= j < edits@.len() && edits@[j].0.row == row && edits@[j].0.col == col
                        && *edits@[j].1 == *edit;
                assert(edits@[j].0.key() == (sheet, row as int, col as int));
                Some(output_of_edit(&edit.new_value))
            },
            None => {
                proof {
                    if cs@.contains_key((sheet, row as int, col as int)) {
                        let j = choose|j: int|
                            0 <= j < edits@.len() && #[trigger] edits@[j].0.key() == (
                                sheet,
                                row as int,
                                col as int,
                            );
                        assert(edits@[j].0.row == row && edits@[j].0.col == col);
                    }
                }
                output_of_source(&src_row[col])
            },
        };
        out.push(cell);
        col = col + 1;
    }
    out
}

/// Builds the output sheet for `src`: every source position gets the edit's
/// value where the changeset has one, the source cell's value otherwise.
/// Fails, naming the sheet, when the output document refuses its name.
pub fn merge_sheet(src: &SourceSheet, changeset: &Changeset) -> (r: Result<OutputSheet, MergeError>)
    ensures
        match r {
            Ok(out) => sheet_name_allowed(src.name@) && sheet_merged(*src, *changeset, out),
            Err(MergeError::InvalidSheetName(n)) => !sheet_name_allowed(src.name@) && n@
                == src.name@,
        },
{
    if !worksheet_accepts_name(&src.name) {
        return Err(MergeError::InvalidSheetName(src.name.clone()));
    }
    let edits = changeset.edits_for_sheet(&src.name);
    let mut rows: Vec<Vec<Option<OutputCell>>> = Vec::new();
    let mut r: usize = 0;
    while r < src.rows.len()
        invariant
            0 <= r <= src.rows@.len(),
            rows@.len() == r,
            changeset.lists_sheet_edits(src.name@, edits@),
            forall|i: int| 0 <= i < r ==> (#[trigger] rows@[i])@.len() == src.rows@[i]@.len(),
            forall|i: int, c: int|
                0 <= i < r && 0 <= c < src.rows@[i]@.len() ==> written_view(
                    #[trigger] rows@[i]@[c],
                ) == cell_choice(src.rows@[i]@[c], changeset.edit_at(src.name@, i, c)),
        decreases src.rows@.len() - r,
    {
        let row = merge_row(&src.rows[r], r, &edits, Ghost(*changeset), Ghost(src.name@));
        rows.push(row);
        r = r + 1;
    }
    Ok(OutputSheet { name: src.name.clone(), rows })
}

/// Builds the whole output document, sheet by sheet in source order. Fails on
/// the first sheet whose name the output document refuses.
pub fn merge_workbook(sheets: &Vec<SourceSheet>, changeset: &Changeset) -> (r: Result<
    Vec<OutputSheet>,
    MergeError,
>)
    ensures
        match r {
            Ok(out) => {
                &&& forall|i: int|
                    0 <= i < sheets@.len() ==> sheet_name_allowed(#[trigger] sheets@[i].name@)
                &&& workbook_merged(sheets@, *changeset, out@)
            },
            Err(MergeError::InvalidSheetName(n)) => exists|i: int|
                0 <= i < sheets@.len() && !sheet_name_allowed(#[trigger] sheets@[i].name@)
                    && n@ == sheets@[i].name@ && forall|m: int|
                    0 <= m < i ==> sheet_name_allowed(#[trigger] sheets@[m].name@),
        },
{
    let mut out: Vec<OutputSheet> = Vec::new();
    let mut i: usize = 0;
    while i < sheets.len()
        invariant
            0 <= i <= sheets@.len(),
            out@.len() == i,
            forall|m: int| 0 <= m < i ==> sheet_name_allowed(#[trigger] sheets@[m].name@),
            forall|m: int| 0 <= m < i ==> sheet_merged(sheets@[m], *changeset, #[trigger] out@[m]),
        decreases sheets@.len() - i,
    {
        match merge_sheet(&sheets[i], changeset) {
            Ok(sheet) => out.push(sheet),
            Err(e) => {
                return Err(e);
            },
        }
        i = i + 1;
    }
    Ok(out)
}

/// An edit is an unconditional overlay: wherever the changeset holds an edit
/// for a source position, the output holds that edit's value, whatever the
/// source cell held.
pub proof fn lemma_overlay_precedence(
    sheets: Seq<SourceSheet>,
    cs: Changeset,
    out: Seq<OutputSheet>,
    i: int,
    r: int,
    c: int,
)
    requires
        workbook_merged(sheets, cs, out),
        0 <= i < sheets.len(),
        0 <= r < sheets[i].rows@.len(),
        0 <= c < sheets[i].rows@[r]@.len(),
        cs@.contains_key((sheets[i].name@, r, c)),
    ensures
        written_view(out[i].rows@[r]@[c]) == Some(edit_output(cs@[(sheets[i].name@, r, c)])),
{
    assert(sheet_merged(sheets[i], cs, out[i]));
}

/// Where the changeset holds no edit for a source position, the output holds
/// the source cell's own converted value (nothing, for an empty cell).
pub proof fn lemma_pass_through(
    sheets: Seq<SourceSheet>,
    cs: Changeset,
    out: Seq<OutputSheet>,
    i: int,
    r: int,
    c: int,
)
    requires
        workbook_merged(sheets, cs, out),
        0 <= i < sheets.len(),
        0 <= r < sheets[i].rows@.len(),
        0 <= c < sheets[i].rows@[r]@.len(),
        !cs@.contains_key((sheets[i].name@, r, c)),
    ensures
        written_view(out[i].rows@[r]@[c]) == source_output(sheets[i].rows@[r]@[c]),
{
    assert(sheet_merged(sheets[i], cs, out[i]));
}

/// The output has the source's sheets, under the same names, in the same order.
pub proof fn lemma_sheet_order(sheets: Seq<SourceSheet>, cs: Changeset, out: Seq<OutputSheet>)
    requires
        workbook_merged(sheets, cs, out),
    ensures
        out.len() == sheets.len(),
        forall|i: int| 0 <= i < sheets.len() ==> (#[trigger] out[i]).name@ == sheets[i].name@,
{
    assert forall|i: int| 0 <= i < sheets.len() implies (#[trigger] out[i]).name@
        == sheets[i].name@ by {
        assert(sheet_merged(sheets[i], cs, out[i]));
    }
}

/// An edit whose coordinate names no source cell (no sheet of that name, or a
/// row or column outside that sheet's range) changes nothing in the output:
/// merging with it gives the same document as merging without it.
pub proof fn lemma_unmatched_edit_changes_nothing(
    sheets: Seq<SourceSheet>,
    without: Changeset,
    with: Changeset,
    out_without: Seq<OutputSheet>,
    out_with: Seq<OutputSheet>,
    k: CoordKey,
    v: CellValue,
)
    requires
        with@ == without@.insert(k, v),
        forall|i: int|
            0 <= i < sheets.len() && (#[trigger] sheets[i]).name@ == k.0 ==> !(0 <= k.1
                < sheets[i].rows@.len() && 0 <= k.2 < sheets[i].rows@[k.1]@.len()),
        workbook_merged(sheets, without, out_without),
        workbook_merged(sheets, with, out_with),
    ensures
        out_with.len() == out_without.len(),
        forall|i: int|
            0 <= i < sheets.len() ==> {
                &&& (#[trigger] out_with[i]).name@ == out_without[i].name@
                &&& out_with[i].rows@.len() == out_without[i].rows@.len()
                &&& forall|r: int|
                    0 <= r < out_with[i].rows@.len() ==> {
                        &&& (#[trigger] out_with[i].rows@[r])@.len()
                            == out_without[i].rows@[r]@.len()
                        &&& forall|c: int|
                            0 <= c < out_with[i].rows@[r]@.len() ==> written_view(
                                #[trigger] out_with[i].rows@[r]@[c],
                            ) == written_view(out_without[i].rows@[r]@[c])
                    }
            },
{
    assert forall|i: int| 0 <= i < sheets.len() implies {
        &&& (#[trigger] out_with[i]).name@ == out_without[i].name@
        &&& out_with[i].rows@.len() == out_without[i].rows@.len()
        &&& forall|r: int|
            0 <= r < out_with[i].rows@.len() ==> {
                &&& (#[trigger] out_with[i].rows@[r])@.len() == out_without[i].rows@[r]@.len()
                &&& forall|c: int|
                    0 <= c < out_with[i].rows@[r]@.len() ==> written_view(
                        #[trigger] out_with[i].rows@[r]@[c],
                    ) == written_view(out_without[i].rows@[r]@[c])
            }
    } by {
        let src = sheets[i];
        assert(sheet_merged(src, without, out_without[i]));
        assert(sheet_merged(src, with, out_with[i]));
        assert forall|r: int, c: int|
            0 <= r < src.rows@.len() && 0 <= c < src.rows@[r]@.len() implies written_view(
                #[trigger] out_with[i].rows@[r]@[c],
            ) == written_view(out_without[i].rows@[r]@[c]) by {
            assert((src.name@, r, c) != k);
            assert(with.edit_at(src.name@, r, c) == without.edit_at(src.name@, r, c));
        }
    }
}

/// An `Empty` edit on an existing source cell blanks it with an explicit empty
/// text value, which is distinct from a position where nothing is written.
pub proof fn lemma_empty_edit_blanks(
    sheets: Seq<SourceSheet>,
    cs: Changeset,
    out: Seq<OutputSheet>,
    i: int,
    r: int,
    c: int,
)
    requires
        workbook_merged(sheets, cs, out),
        0 <= i < sheets.len(),
        0 <= r < sheets[i].rows@.len(),
        0 <= c < sheets[i].rows@[r]@.len(),
        cs.edit_at(sheets[i].name@, r, c) == Some(CellValue::Empty),
    ensures
        written_view(out[i].rows@[r]@[c]) == Some(OutputCellView::Text(Seq::empty())),
        written_view(out[i].rows@[r]@[c]) != None::<OutputCellView>,
{
    lemma_overlay_precedence(sheets, cs, out, i, r, c);
}

} // verus!
