use vstd::prelude::*;

use crate::error::CassError;
use crate::value::TypedValue;
use crate::value::ValueType;

verus! {

/// The name and type of one column of a result.
#[derive(Debug, Clone, PartialEq, Eq)]
pub struct ColumnMeta {
    pub name: String,
    pub value_type: ValueType,
}

/// One row of a result: its column values in column order.
#[derive(Debug, PartialEq)]
pub struct Row {
    pub values: Vec<TypedValue>,
}

impl Row {
    /// The value of the column at `index`.
    pub fn get(&self, index: usize) -> (r: Result<&TypedValue, CassError>)
        ensures
            index < self.values@.len() ==> r == Ok::<&TypedValue, CassError>(
                &self.values@[index as int],
            ),
            index >= self.values@.len() ==> r == Err::<&TypedValue, CassError>(
                CassError::IndexError,
            ),
    {
        if index < self.values.len() {
            Ok(&self.values[index])
        } else {
            Err(CassError::IndexError)
        }
    }
}

/// A finished query result: column metadata, the rows of this page, and
/// the token that fetches the next page when the server truncated the
/// response. It never changes once made.
#[derive(Debug, PartialEq)]
pub struct CassandraResult {
    columns: Vec<ColumnMeta>,
    rows: Vec<Row>,
    paging_token: Option<Vec<u8>>,
}

/// A result seen as mathematical values.
pub ghost struct ResultView {
    pub columns: Seq<ColumnMeta>,
    pub rows: Seq<Row>,
    pub paging_token: Option<Seq<u8>>,
}

impl View for CassandraResult {
    type V = ResultView;

    closed spec fn view(&self) -> ResultView {
        ResultView {
            columns: self.columns@,
            rows: self.rows@,
            paging_token: match self.paging_token {
                Some(t) => Some(t@),
                None => None,
            },
        }
    }
}

/// The token as the result keeps it: an empty token means no more pages.
pub open spec fn kept_token(t: Option<Seq<u8>>) -> Option<Seq<u8>> {
    match t {
        Some(b) => if b.len() > 0 {
            Some(b)
        } else {
            None
        },
        None => None,
    }
}

impl CassandraResult {
    /// Holds a response: its columns, its rows and the paging token the
    /// server sent, if any. An empty token is the same as none.
    pub fn new(columns: Vec<ColumnMeta>, rows: Vec<Row>, paging_token: Option<Vec<u8>>) -> (r: Self)
        ensures
            r@.columns == columns@,
            r@.rows == rows@,
            r@.paging_token == kept_token(
                match paging_token {
                    Some(t) => Some(t@),
                    None => None,
                },
            ),
    {
        let token = match paging_token {
            Some(t) => if t.len() > 0 {
                Some(t)
            } else {
                None
            },
            None => None,
        };
        CassandraResult { columns, rows, paging_token: token }
    }

    /// A kept paging token is never empty.
    #[verifier::type_invariant]
    spec fn token_non_empty(&self) -> bool {
        match self.paging_token {
            Some(t) => t@.len() > 0,
            None => true,
        }
    }

    /// The number of rows in this page.
    pub fn row_count(&self) -> (r: u64)
        ensures
            r == self@.rows.len(),
    {
        self.rows.len() as u64
    }

    /// The number of columns.
    pub fn column_count(&self) -> (r: u64)
        ensures
            r == self@.columns.len(),
    {
        self.columns.len() as u64
    }

    /// The name of the column at `index`; `IndexError` out of range.
    pub fn column_name(&self, index: u64) -> (r: Result<String, CassError>)
        ensures
            index < self@.columns.len() ==> r is Ok && r->Ok_0@ == self@.columns[index as int].name@,
            index >= self@.columns.len() ==> r == Err::<String, CassError>(CassError::IndexError),
    {
        if index < self.columns.len() as u64 {
            Ok(self.columns[index as usize].name.clone())
        } else {
            Err(CassError::IndexError)
        }
    }

    /// The type of the column at `index`; `IndexError` out of range.
    pub fn column_type(&self, index: u64) -> (r: Result<ValueType, CassError>)
        ensures
            index < self@.columns.len() ==> r == Ok::<ValueType, CassError>(
                self@.columns[index as int].value_type,
            ),
            index >= self@.columns.len() ==> r == Err::<ValueType, CassError>(
                CassError::IndexError,
            ),
    {
        if index < self.columns.len() as u64 {
            Ok(self.columns[index as usize].value_type)
        } else {
            Err(CassError::IndexError)
        }
    }

    /// The first row, or none in an empty result. Reading it moves no
    /// cursor.
    pub fn first_row(&self) -> (r: Option<&Row>)
        ensures
            r is Some <==> self@.rows.len() > 0,
            r is Some ==> Some(*r.unwrap()) == first_row_of(self@),
    {
        if self.rows.len() == 0 {
            None
        } else {
            Some(&self.rows[0])
        }
    }

    /// Whether the server truncated the response, so that the paging token
    /// fetches more rows.
    pub fn has_more_pages(&self) -> (r: bool)
        ensures
            r == (self@.paging_token is Some),
    {
        self.paging_token.is_some()
    }

    /// The token that fetches the next page: present exactly when there are
    /// more pages, and never empty.
    pub fn paging_token(&self) -> (r: Option<&Vec<u8>>)
        ensures
            r is Some <==> self@.paging_token is Some,
            r is Some ==> Some(r.unwrap()@) == self@.paging_token,
            r is Some ==> r.unwrap()@.len() > 0,
    {
        proof {
            use_type_invariant(self);
        }
        match &self.paging_token {
            Some(t) => Some(t),
            None => None,
        }
    }

    /// The rows of this page, in order.
    pub fn rows(&self) -> (r: &Vec<Row>)
        ensures
            r@ == self@.rows,
    {
        &self.rows
    }

    /// Starts a fresh cursor over the rows of this page, before the first
    /// row. Each call gives a cursor of its own.
    pub fn iter(&self) -> (r: ResultIterator<'_>)
        ensures
            r@ == (IterView { rows: self@.rows, state: CursorState::NotStarted }),
    {
        ResultIterator { result: self, state: CursorState::NotStarted }
    }

    /// Gives up the result for its rows.
    pub fn into_rows(self) -> (r: Vec<Row>)
        ensures
            r@ == self@.rows,
    {
        self.rows
    }
}

/// The first row of a result, if it has one.
pub open spec fn first_row_of(res: ResultView) -> Option<Row> {
    if res.rows.len() == 0 {
        None
    } else {
        Some(res.rows[0])
    }
}

/// Where a row cursor stands.
#[derive(Debug, Clone, Copy, PartialEq, Eq, Structural)]
pub enum CursorState {
    /// before the first row
    NotStarted,
    /// on the row of this index
    Positioned(usize),
    /// past the last row, for good
    Exhausted,
}

/// A forward-only, single-pass cursor over the rows of one result. It
/// borrows the result and cannot outlive it.
pub struct ResultIterator<'a> {
    result: &'a CassandraResult,
    state: CursorState,
}

/// A cursor seen as mathematical values: the rows it walks and where it
/// stands.
pub ghost struct IterView {
    pub rows: Seq<Row>,
    pub state: CursorState,
}

impl<'a> View for ResultIterator<'a> {
    type V = IterView;

    closed spec fn view(&self) -> IterView {
        IterView { rows: self.result@.rows, state: self.state }
    }
}

/// Where a cursor over `n` rows stands after one more step from `s`.
pub open spec fn next_state(s: CursorState, n: nat) -> CursorState {
    match s {
        CursorState::NotStarted => if n > 0 {
            CursorState::Positioned(0)
        } else {
            CursorState::Exhausted
        },
        CursorState::Positioned(i) => if i + 1 < n {
            CursorState::Positioned((i + 1) as usize)
        } else {
            CursorState::Exhausted
        },
        CursorState::Exhausted => CursorState::Exhausted,
    }
}

/// Where a fresh cursor over `n` rows stands after `k` steps.
pub open spec fn state_after(n: nat, k: nat) -> CursorState
    decreases k,
{
    if k == 0 {
        CursorState::NotStarted
    } else {
        next_state(state_after(n, (k - 1) as nat), n)
    }
}

/// The row a cursor stands on, if any.
pub open spec fn cursor_row(v: IterView) -> Option<Row> {
    match v.state {
        CursorState::Positioned(i) => if i < v.rows.len() {
            Some(v.rows[i as int])
        } else {
            None
        },
        _ => None,
    }
}

impl<'a> ResultIterator<'a> {
    /// A cursor only ever stands on a row that exists.
    #[verifier::type_invariant]
    spec fn on_existing_row(&self) -> bool {
        match self.state {
            CursorState::Positioned(i) => i < self.result@.rows.len(),
            _ => true,
        }
    }

    /// Where the cursor stands.
    pub fn state(&self) -> (r: CursorState)
        ensures
            r == self@.state,
    {
        self.state
    }

    /// Moves to the next row. Returns whether the cursor now stands on a
    /// row; once past the last row it stays there.
    pub fn advance(&mut self) -> (r: bool)
        ensures
            final(self)@ == (IterView {
                rows: old(self)@.rows,
                state: next_state(old(self)@.state, old(self)@.rows.len()),
            }),
            r == (final(self)@.state is Positioned),
    {
        proof {
            use_type_invariant(&*self);
        }
        let n = self.result.rows.len();
        let next = match self.state {
            CursorState::NotStarted => if n > 0 {
                CursorState::Positioned(0)
            } else {
                CursorState::Exhausted
            },
            CursorState::Positioned(i) => if i + 1 < n {
                CursorState::Positioned(i + 1)
            } else {
                CursorState::Exhausted
            },
            CursorState::Exhausted => CursorState::Exhausted,
        };
        self.state = next;
        match self.state {
            CursorState::Positioned(_) => true,
            _ => false,
        }
    }

    /// The row the cursor stands on; `InvalidState` before the first
    /// advance and once exhausted.
    pub fn get_row(&self) -> (r: Result<&'a Row, CassError>)
        ensures
            r is Ok <==> cursor_row(self@) is Some,
            r is Ok ==> Some(*r.unwrap()) == cursor_row(self@),
            r is Err ==> r == Err::<&'a Row, CassError>(CassError::InvalidState),
    {
        proof {
            use_type_invariant(self);
        }
        match self.state {
            CursorState::Positioned(i) => Ok(&self.result.rows[i]),
            _ => Err(CassError::InvalidState),
        }
    }

    /// Advances, then hands out the row now under the cursor, if any.
    pub fn next(&mut self) -> (r: Option<&'a Row>)
        ensures
            final(self)@ == (IterView {
                rows: old(self)@.rows,
                state: next_state(old(self)@.state, old(self)@.rows.len()),
            }),
            r is Some <==> cursor_row(final(self)@) is Some,
            r is Some ==> Some(*r.unwrap()) == cursor_row(final(self)@),
    {
        if self.advance() {
            match self.get_row() {
                Ok(row) => Some(row),
                Err(_) => None,
            }
        } else {
            None
        }
    }
}

/// A fresh cursor over `rows` stands on row `k - 1` after its `k`-th
/// advance, for each `k` from 1 to the row count: every row once, in order.
/// After any later advance it is exhausted and stands on no row, so reading
/// a row there fails.
pub proof fn lemma_cursor_visits_each_row_once(rows: Seq<Row>, k: nat)
    requires
        rows.len() <= usize::MAX,
    ensures
        1 <= k <= rows.len() ==> state_after(rows.len(), k) == CursorState::Positioned(
            (k - 1) as usize,
        ) && cursor_row(IterView { rows, state: state_after(rows.len(), k) }) == Some(
            rows[k - 1],
        ),
        k > rows.len() ==> state_after(rows.len(), k) == CursorState::Exhausted && cursor_row(
            IterView { rows, state: state_after(rows.len(), k) },
        ) is None,
    decreases k,
{
    if k > 0 {
        lemma_cursor_visits_each_row_once(rows, (k - 1) as nat);
    }
}

/// The first row of a result is the row a fresh cursor stands on after one
/// advance; both are absent exactly when the result has no rows.
pub proof fn lemma_first_row_is_first_advance(res: ResultView)
    requires
        res.rows.len() <= usize::MAX,
    ensures
        first_row_of(res) == cursor_row(
            IterView { rows: res.rows, state: state_after(res.rows.len(), 1) },
        ),
        first_row_of(res) is None <==> res.rows.len() == 0,
{
    lemma_cursor_visits_each_row_once(res.rows, 1);
}

} // verus!
