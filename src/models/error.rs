//! Diagnostics for rows of the store that could not be decoded.
use vstd::prelude::*;

verus! {

/// One column of a row kept for diagnostics.
#[derive(Debug, PartialEq, Eq, Clone)]
pub struct SavedSqliteColumn {
    pub name: String,
    pub ordinal: usize,
    /// The declared SQL type of the value (`NULL`, `TEXT`, `INTEGER`, ...).
    pub sql_type: String,
    /// The value rendered as text; none where it was null.
    pub value: Option<String>,
}

/// A row kept column by column for diagnostics.
#[derive(Debug, PartialEq, Eq, Clone)]
pub struct SavedSqliteRow {
    pub columns: Vec<SavedSqliteColumn>,
}

/// A row of the store that was skipped.
#[derive(Debug)]
pub enum EventReaderError {
    /// A row of `table_name` lacked a required value or could not be decoded.
    RecordParsingError { table_name: String, saved_row: SavedSqliteRow },
}

impl View for EventReaderError {
    type V = (Seq<char>, SavedSqliteRow);

    /// The table the skipped row came from, and the row.
    open spec fn view(&self) -> (Seq<char>, SavedSqliteRow) {
        match self {
            EventReaderError::RecordParsingError { table_name, saved_row } => (
                table_name@,
                *saved_row,
            ),
        }
    }
}

/// The tables and rows of a sequence of errors.
pub open spec fn diagnostics_view(errors: Seq<EventReaderError>) -> Seq<(Seq<char>, SavedSqliteRow)> {
    errors.map_values(|e: EventReaderError| e@)
}

/// Appending an error to a sequence of errors appends its view.
pub proof fn lemma_diagnostics_push(errors: Seq<EventReaderError>, e: EventReaderError)
    ensures
        diagnostics_view(errors.push(e)) == diagnostics_view(errors).push(e@),
{
    assert(diagnostics_view(errors.push(e)) =~= diagnostics_view(errors).push(e@));
}

impl EventReaderError {
    /// A skipped row of `table`.
    pub fn skipped_row(table: &str, saved_row: SavedSqliteRow) -> (r: Self)
        ensures
            r@ == (table@, saved_row),
    {
        EventReaderError::RecordParsingError { table_name: table.to_string(), saved_row }
    }

    /// The table the skipped row came from.
    pub open spec fn table(self) -> Seq<char> {
        match self {
            EventReaderError::RecordParsingError { table_name, .. } => table_name@,
        }
    }

    /// A one-line description of the error.
    pub fn message(&self) -> (r: String)
        ensures
            r@ == "failed to parse record from table "@ + self.table(),
    {
        match self {
            EventReaderError::RecordParsingError { table_name, .. } => {
                let mut text = "failed to parse record from table ".to_string();
                text.append(table_name.as_str());
                text
            },
        }
    }
}

} // verus!
