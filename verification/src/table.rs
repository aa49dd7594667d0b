//! The rows of a report as tables.
//!
//! The three collections hold rows of three shapes. A [`Table`] holds any of
//! them in one shape: named columns, and records of cells in the order of the
//! columns. The records of a collection are the same in every layout; the
//! names of the columns are the layout's own.

use vstd::prelude::*;
use crate::model::{lemma_views_push, views};
use crate::rows::{
    AccountSummaryRow, AccountSummaryRowView, MarketDataRow, MarketDataRowView, PositionRow,
    PositionRowView,
};
use crate::value::Quantity;

verus! {

/// One field of a record.
#[derive(Debug, PartialEq, Eq)]
pub enum Cell {
    Text(String),
    Number(Quantity),
}

/// The model of a [`Cell`].
pub enum CellView {
    Text(Seq<char>),
    Number(Quantity),
}

impl View for Cell {
    type V = CellView;

    open spec fn view(&self) -> CellView {
        match self {
            Cell::Text(text) => CellView::Text(text@),
            Cell::Number(value) => CellView::Number(*value),
        }
    }
}

/// One row of a table; its model is the sequence of its cells' models.
#[derive(Debug, PartialEq, Eq)]
pub struct Record {
    pub cells: Vec<Cell>,
}

impl View for Record {
    type V = Seq<CellView>;

    open spec fn view(&self) -> Seq<CellView> {
        views(self.cells@)
    }
}

/// Columns and the records under them.
#[derive(Debug, PartialEq, Eq)]
pub struct Table {
    pub columns: Vec<String>,
    pub records: Vec<Record>,
}

/// The model of a [`Table`].
pub struct TableView {
    pub columns: Seq<Seq<char>>,
    pub records: Seq<Seq<CellView>>,
}

impl TableView {
    /// Whether every record has one cell for each column.
    pub open spec fn well_formed(self) -> bool {
        forall|i: int| 0 <= i < self.records.len() ==> (#[trigger] self.records[i]).len()
            == self.columns.len()
    }
}

impl View for Table {
    type V = TableView;

    open spec fn view(&self) -> TableView {
        TableView {
            columns: views(self.columns@),
            records: views(self.records@),
        }
    }
}

/// The record of an account-summary row: four cells of text.
pub open spec fn account_summary_record(row: AccountSummaryRowView) -> Seq<CellView> {
    seq![
        CellView::Text(row.account),
        CellView::Text(row.tag),
        CellView::Text(row.value),
        CellView::Text(row.currency),
    ]
}

/// The record of a position: account and symbol, then its size, its average
/// cost and its market value.
pub open spec fn position_record(row: PositionRowView) -> Seq<CellView> {
    seq![
        CellView::Text(row.account),
        CellView::Text(row.symbol),
        CellView::Number(Quantity::Reported(row.position)),
        CellView::Number(Quantity::Reported(row.average_cost)),
        CellView::Number(row.market_value()),
    ]
}

/// The record of a tick: symbol, label and value.
pub open spec fn market_data_record(row: MarketDataRowView) -> Seq<CellView> {
    seq![
        CellView::Text(row.symbol),
        CellView::Text(row.tick_type),
        CellView::Number(Quantity::Reported(row.value)),
    ]
}

/// The records of the account-summary rows: one per row, in the rows' order.
pub open spec fn account_summary_records(rows: Seq<AccountSummaryRowView>) -> Seq<Seq<CellView>> {
    Seq::new(rows.len(), |i: int| account_summary_record(rows[i]))
}

/// The records of the positions: one per row, in the rows' order.
pub open spec fn position_records(rows: Seq<PositionRowView>) -> Seq<Seq<CellView>> {
    Seq::new(rows.len(), |i: int| position_record(rows[i]))
}

/// The records of the ticks: one per row, in the rows' order.
pub open spec fn market_data_records(rows: Seq<MarketDataRowView>) -> Seq<Seq<CellView>> {
    Seq::new(rows.len(), |i: int| market_data_record(rows[i]))
}

fn text(content: &str) -> (cell: Cell)
    ensures
        cell@ == CellView::Text(content@),
{
    Cell::Text(content.to_owned())
}

fn account_summary_cells(row: &AccountSummaryRow) -> (record: Record)
    ensures
        record@ == account_summary_record(row@),
{
    let mut cells: Vec<Cell> = Vec::new();
    cells.push(text(row.account.as_str()));
    cells.push(text(row.tag.as_str()));
    cells.push(text(row.value.as_str()));
    cells.push(text(row.currency.as_str()));
    let record = Record { cells };
    assert(record@ =~= account_summary_record(row@));
    record
}

fn position_cells(row: &PositionRow) -> (record: Record)
    ensures
        record@ == position_record(row@),
{
    let mut cells: Vec<Cell> = Vec::new();
    cells.push(text(row.account.as_str()));
    cells.push(text(row.symbol.as_str()));
    cells.push(Cell::Number(Quantity::Reported(row.position)));
    cells.push(Cell::Number(Quantity::Reported(row.average_cost)));
    cells.push(Cell::Number(row.market_value()));
    let record = Record { cells };
    assert(record@ =~= position_record(row@));
    record
}

fn market_data_cells(row: &MarketDataRow) -> (record: Record)
    ensures
        record@ == market_data_record(row@),
{
    let mut cells: Vec<Cell> = Vec::new();
    cells.push(text(row.symbol.as_str()));
    cells.push(text(row.tick_type.as_str()));
    cells.push(Cell::Number(Quantity::Reported(row.value)));
    let record = Record { cells };
    assert(record@ =~= market_data_record(row@));
    record
}

/// The account-summary rows as records.
pub fn tabulate_account_summary(rows: &Vec<AccountSummaryRow>) -> (records: Vec<Record>)
    ensures
        views(records@) == account_summary_records(views(rows@)),
{
    let mut records: Vec<Record> = Vec::new();
    let mut i: usize = 0;
    while i < rows.len()
        invariant
            i <= rows.len(),
            views(records@) =~= account_summary_records(views(rows@)).take(i as int),
        decreases rows.len() - i,
    {
        let record = account_summary_cells(&rows[i]);
        proof {
            lemma_views_push(records@, record);
        }
        records.push(record);
        i += 1;
    }
    records
}

/// The positions as records.
pub fn tabulate_positions(rows: &Vec<PositionRow>) -> (records: Vec<Record>)
    ensures
        views(records@) == position_records(views(rows@)),
{
    let mut records: Vec<Record> = Vec::new();
    let mut i: usize = 0;
    while i < rows.len()
        invariant
            i <= rows.len(),
            views(records@) =~= position_records(views(rows@)).take(i as int),
        decreases rows.len() - i,
    {
        let record = position_cells(&rows[i]);
        proof {
            lemma_views_push(records@, record);
        }
        records.push(record);
        i += 1;
    }
    records
}

/// The ticks as records.
pub fn tabulate_market_data(rows: &Vec<MarketDataRow>) -> (records: Vec<Record>)
    ensures
        views(records@) == market_data_records(views(rows@)),
{
    let mut records: Vec<Record> = Vec::new();
    let mut i: usize = 0;
    while i < rows.len()
        invariant
            i <= rows.len(),
            views(records@) =~= market_data_records(views(rows@)).take(i as int),
        decreases rows.len() - i,
    {
        let record = market_data_cells(&rows[i]);
        proof {
            lemma_views_push(records@, record);
        }
        records.push(record);
        i += 1;
    }
    records
}

} // verus!
