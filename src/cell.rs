use vstd::prelude::*;

verus! {

/// Display format applied to date/time cells in the output document.
pub const DATE_TIME_FORMAT: &'static str = "yyyy-mm-dd hh:mm:ss";

/// One grid position: sheet name, zero-based row and zero-based column.
#[derive(Debug, Clone)]
pub struct CellCoordinate {
    pub sheet_name: String,
    pub row: usize,
    pub col: usize,
}

/// The mathematical key of a coordinate.
pub type CoordKey = (Seq<char>, int, int);

impl CellCoordinate {
    pub open spec fn key(&self) -> CoordKey {
        (self.sheet_name@, self.row as int, self.col as int)
    }

    pub fn new(sheet_name: String, row: usize, col: usize) -> (r: CellCoordinate)
        ensures
            r.sheet_name == sheet_name,
            r.row == row,
            r.col == col,
    {
        CellCoordinate { sheet_name, row, col }
    }

    /// Structural equality: all three fields agree.
    pub fn same_position(&self, other: &CellCoordinate) -> (r: bool)
        ensures
            r == (self.key() == other.key()),
    {
        self.row == other.row && self.col == other.col && self.sheet_name == other.sheet_name
    }
}

impl PartialEq for CellCoordinate {
    fn eq(&self, other: &CellCoordinate) -> (r: bool) {
        self.same_position(other)
    }
}

impl vstd::std_specs::cmp::PartialEqSpecImpl for CellCoordinate {
    open spec fn obeys_eq_spec() -> bool {
        true
    }

    open spec fn eq_spec(&self, other: &CellCoordinate) -> bool {
        self.key() == other.key()
    }
}

/// What the user wants written into a cell.
///
/// Floating-point payloads (`Float`, `DateTime`) are carried as the IEEE-754
/// binary64 bit pattern of the number (`f64::to_bits`); the library never
/// computes with them, it only routes them to the output.
#[derive(Debug, Clone, PartialEq, Eq)]
pub enum CellValue {
    Empty,
    String(String),
    Int(i64),
    Float(u64),
    Bool(bool),
    Error(String),
    DateTime(u64),
}

/// A pending edit of one cell.
#[derive(Debug, Clone, PartialEq, Eq)]
pub struct Edit {
    pub new_value: CellValue,
}

/// A cell as read from the source document.
///
/// `Error` holds the textual name of the error kind; floating-point payloads
/// are binary64 bit patterns, as in [`CellValue`].
#[derive(Debug, Clone, PartialEq, Eq)]
pub enum SourceCell {
    Empty,
    String(String),
    Int(i64),
    Float(u64),
    Bool(bool),
    Error(String),
    DateTime(u64),
    DateTimeIso(String),
    DurationIso(String),
}

/// A value as it is written into the output document.
///
/// `Integer` is written as a double-precision number (values beyond the exact
/// integer range of a double lose precision); `Number` and `DateTime` hold
/// binary64 bit patterns, and `DateTime` is written with [`DATE_TIME_FORMAT`].
#[derive(Debug, Clone, PartialEq, Eq)]
pub enum OutputCell {
    Text(String),
    Integer(i64),
    Number(u64),
    Boolean(bool),
    DateTime(u64),
}

/// The mathematical value of an [`OutputCell`].
pub enum OutputCellView {
    Text(Seq<char>),
    Integer(i64),
    Number(u64),
    Boolean(bool),
    DateTime(u64),
}

impl View for OutputCell {
    type V = OutputCellView;

    open spec fn view(&self) -> OutputCellView {
        match self {
            OutputCell::Text(s) => OutputCellView::Text(s@),
            OutputCell::Integer(n) => OutputCellView::Integer(*n),
            OutputCell::Number(b) => OutputCellView::Number(*b),
            OutputCell::Boolean(b) => OutputCellView::Boolean(*b),
            OutputCell::DateTime(b) => OutputCellView::DateTime(*b),
        }
    }
}

/// The view of a possibly absent output cell.
pub open spec fn written_view(c: Option<OutputCell>) -> Option<OutputCellView> {
    match c {
        Some(v) => Some(v@),
        None => None,
    }
}

/// What an edit writes. An `Empty` edit writes an explicit empty text value so
/// that an edit can blank a cell; an error is written as its text.
pub open spec fn edit_output(v: CellValue) -> OutputCellView {
    match v {
        CellValue::Empty => OutputCellView::Text(Seq::empty()),
        CellValue::String(s) => OutputCellView::Text(s@),
        CellValue::Int(n) => OutputCellView::Integer(n),
        CellValue::Float(b) => OutputCellView::Number(b),
        CellValue::Bool(b) => OutputCellView::Boolean(b),
        CellValue::Error(e) => OutputCellView::Text(e@),
        CellValue::DateTime(b) => OutputCellView::DateTime(b),
    }
}

/// What an unedited source cell writes: nothing for an empty cell, otherwise
/// the same rules as for edits, ISO date and duration strings as plain text.
pub open spec fn source_output(c: SourceCell) -> Option<OutputCellView> {
    match c {
        SourceCell::Empty => None,
        SourceCell::String(s) => Some(OutputCellView::Text(s@)),
        SourceCell::Int(n) => Some(OutputCellView::Integer(n)),
        SourceCell::Float(b) => Some(OutputCellView::Number(b)),
        SourceCell::Bool(b) => Some(OutputCellView::Boolean(b)),
        SourceCell::Error(e) => Some(OutputCellView::Text(e@)),
        SourceCell::DateTime(b) => Some(OutputCellView::DateTime(b)),
        SourceCell::DateTimeIso(s) => Some(OutputCellView::Text(s@)),
        SourceCell::DurationIso(s) => Some(OutputCellView::Text(s@)),
    }
}

/// The output value for an edit.
pub fn output_of_edit(v: &CellValue) -> (r: OutputCell)
    ensures
        r@ == edit_output(*v),
{
    match v {
        CellValue::Empty => OutputCell::Text(String::new()),
        CellValue::String(s) => OutputCell::Text(s.clone()),
        CellValue::Int(n) => OutputCell::Integer(*n),
        CellValue::Float(b) => OutputCell::Number(*b),
        CellValue::Bool(b) => OutputCell::Boolean(*b),
        CellValue::Error(e) => OutputCell::Text(e.clone()),
        CellValue::DateTime(b) => OutputCell::DateTime(*b),
    }
}

/// The output value for an unedited source cell; `None` where nothing is written.
pub fn output_of_source(c: &SourceCell) -> (r: Option<OutputCell>)
    ensures
        written_view(r) == source_output(*c),
{
    match c {
        SourceCell::Empty => None,
        SourceCell::String(s) => Some(OutputCell::Text(s.clone())),
        SourceCell::Int(n) => Some(OutputCell::Integer(*n)),
        SourceCell::Float(b) => Some(OutputCell::Number(*b)),
        SourceCell::Bool(b) => Some(OutputCell::Boolean(*b)),
        SourceCell::Error(e) => Some(OutputCell::Text(e.clone())),
        SourceCell::DateTime(b) => Some(OutputCell::DateTime(*b)),
        SourceCell::DateTimeIso(s) => Some(OutputCell::Text(s.clone())),
        SourceCell::DurationIso(s) => Some(OutputCell::Text(s.clone())),
    }
}

} // verus!
