//! The CSV layout of a report.
//!
//! Each collection that holds at least one row becomes a table of its own: a
//! header with the names of the columns, then one record per row. A label
//! goes with each table; it is meant for a side channel and is no part of the
//! CSV text. A blank line stands between any two tables and nowhere else:
//! every table but the last is followed by one. A collection without rows
//! leaves no trace: no label, no header, no blank line.

use vstd::prelude::*;
use crate::model::{lemma_views_push, views};
use crate::rows::{ReportResult, ReportResultView};
use crate::table::{
    account_summary_records, market_data_records, position_records, tabulate_account_summary,
    tabulate_market_data, tabulate_positions, CellView, Table, TableView,
};

verus! {

/// One table of a CSV rendering, with what goes around it.
#[derive(Debug, PartialEq, Eq)]
pub struct CsvSection {
    /// The line that announces the table on the side channel.
    pub label: String,
    /// The header and the records.
    pub table: Table,
    /// Whether a blank line follows the last record.
    pub blank_line_after: bool,
}

/// The model of a [`CsvSection`].
pub struct CsvSectionView {
    pub label: Seq<char>,
    pub table: TableView,
    pub blank_line_after: bool,
}

impl View for CsvSection {
    type V = CsvSectionView;

    open spec fn view(&self) -> CsvSectionView {
        CsvSectionView {
            label: self.label@,
            table: self.table@,
            blank_line_after: self.blank_line_after,
        }
    }
}

/// The header of the account-summary table.
pub open spec fn account_summary_header() -> Seq<Seq<char>> {
    seq!["account"@, "tag"@, "value"@, "currency"@]
}

/// The header of the positions table.
pub open spec fn position_header() -> Seq<Seq<char>> {
    seq!["account"@, "symbol"@, "position"@, "average_cost"@, "market_value"@]
}

/// The header of the market-data table.
pub open spec fn market_data_header() -> Seq<Seq<char>> {
    seq!["symbol"@, "tick_type"@, "value"@]
}

/// The section of a table, or nothing where the table has no records.
pub open spec fn shown(
    label: Seq<char>,
    header: Seq<Seq<char>>,
    records: Seq<Seq<CellView>>,
    blank_line_after: bool,
) -> Seq<CsvSectionView> {
    if records.len() == 0 {
        Seq::empty()
    } else {
        seq![
            CsvSectionView {
                label,
                table: TableView { columns: header, records },
                blank_line_after,
            },
        ]
    }
}

/// The sections of the CSV rendering of `report`.
///
/// A table is followed by a blank line exactly where a later collection
/// holds a row, that is, where another table follows it.
pub open spec fn csv_sections(report: ReportResultView) -> Seq<CsvSectionView> {
    shown(
        "# Account Summary"@,
        account_summary_header(),
        account_summary_records(report.account_summary),
        report.positions.len() > 0 || report.market_data.len() > 0,
    ) + shown(
        "# Positions"@,
        position_header(),
        position_records(report.positions),
        report.market_data.len() > 0,
    ) + shown(
        "# Market Data"@,
        market_data_header(),
        market_data_records(report.market_data),
        false,
    )
}

/// How many of the three collections of `report` hold a row.
pub open spec fn filled(report: ReportResultView) -> nat {
    let summary: nat = if report.account_summary.len() > 0 { 1 } else { 0 };
    let positions: nat = if report.positions.len() > 0 { 1 } else { 0 };
    let market_data: nat = if report.market_data.len() > 0 { 1 } else { 0 };
    summary + positions + market_data
}

fn push_shown(sections: &mut Vec<CsvSection>, label: &str, table: Table, blank_line_after: bool)
    ensures
        views(final(sections)@) == views(old(sections)@) + shown(
            label@,
            table@.columns,
            table@.records,
            blank_line_after,
        ),
{
    if table.records.len() > 0 {
        let section = CsvSection { label: label.to_owned(), table, blank_line_after };
        proof {
            lemma_views_push(sections@, section);
        }
        sections.push(section);
    }
    assert(views(sections@) =~= views(old(sections)@) + shown(
        label@,
        table@.columns,
        table@.records,
        blank_line_after,
    ));
}

/// Lays `report` out as CSV tables, one for each collection that holds a row.
pub fn render_csv(report: &ReportResult) -> (sections: Vec<CsvSection>)
    ensures
        views(sections@) == csv_sections(report@),
{
    let mut summary_header: Vec<String> = Vec::new();
    summary_header.push("account".to_owned());
    summary_header.push("tag".to_owned());
    summary_header.push("value".to_owned());
    summary_header.push("currency".to_owned());
    assert(views(summary_header@) =~= account_summary_header());

    let mut positions_header: Vec<String> = Vec::new();
    positions_header.push("account".to_owned());
    positions_header.push("symbol".to_owned());
    positions_header.push("position".to_owned());
    positions_header.push("average_cost".to_owned());
    positions_header.push("market_value".to_owned());
    assert(views(positions_header@) =~= position_header());

    let mut ticks_header: Vec<String> = Vec::new();
    ticks_header.push("symbol".to_owned());
    ticks_header.push("tick_type".to_owned());
    ticks_header.push("value".to_owned());
    assert(views(ticks_header@) =~= market_data_header());

    let positions_follow = report.positions.len() > 0;
    let market_data_follows = report.market_data.len() > 0;

    let mut sections: Vec<CsvSection> = Vec::new();
    assert(views(sections@) =~= Seq::<CsvSectionView>::empty());
    push_shown(
        &mut sections,
        "# Account Summary",
        Table {
            columns: summary_header,
            records: tabulate_account_summary(&report.account_summary),
        },
        positions_follow || market_data_follows,
    );
    push_shown(
        &mut sections,
        "# Positions",
        Table { columns: positions_header, records: tabulate_positions(&report.positions) },
        market_data_follows,
    );
    push_shown(
        &mut sections,
        "# Market Data",
        Table { columns: ticks_header, records: tabulate_market_data(&report.market_data) },
        false,
    );
    assert(views(sections@) =~= csv_sections(report@));
    sections
}

/// Empty collections are skipped.
///
/// A CSV rendering has as many tables as the report has collections with a
/// row, in the order account summary, positions, market data. Every table is
/// well formed and holds the header of its collection and one record for each
/// of the collection's rows, at least one.
pub proof fn law_csv_skips_empty_collections(report: ReportResultView)
    ensures
        csv_sections(report).len() == filled(report),
        forall|i: int|
            0 <= i < csv_sections(report).len() ==> {
                let table = (#[trigger] csv_sections(report)[i]).table;
                &&& table.records.len() > 0
                &&& table.well_formed()
                &&& {
                    ||| table.columns == account_summary_header() && table.records
                        == account_summary_records(report.account_summary)
                    ||| table.columns == position_header() && table.records == position_records(
                        report.positions,
                    )
                    ||| table.columns == market_data_header() && table.records
                        == market_data_records(report.market_data)
                }
            },
{
}

/// A blank line stands between any two tables, and nowhere else: a table is
/// followed by a blank line if and only if it is not the last one.
pub proof fn law_csv_blank_line_between_tables(report: ReportResultView)
    ensures
        forall|i: int|
            0 <= i < csv_sections(report).len() ==> ((#[trigger] csv_sections(
                report,
            )[i]).blank_line_after <==> i < csv_sections(report).len() - 1),
{
}

/// A report without positions.
///
/// Where the account summary and the market data hold rows and the positions
/// hold none, the rendering is exactly two tables: the account summary, with
/// one blank line after it, and the market data. Nothing of the positions is
/// in it.
pub proof fn law_csv_without_positions(report: ReportResultView)
    requires
        report.account_summary.len() > 0,
        report.positions.len() == 0,
        report.market_data.len() > 0,
    ensures
        csv_sections(report) == seq![
            CsvSectionView {
                label: "# Account Summary"@,
                table: TableView {
                    columns: account_summary_header(),
                    records: account_summary_records(report.account_summary),
                },
                blank_line_after: true,
            },
            CsvSectionView {
                label: "# Market Data"@,
                table: TableView {
                    columns: market_data_header(),
                    records: market_data_records(report.market_data),
                },
                blank_line_after: false,
            },
        ],
{
    assert(csv_sections(report) =~= seq![
        CsvSectionView {
            label: "# Account Summary"@,
            table: TableView {
                columns: account_summary_header(),
                records: account_summary_records(report.account_summary),
            },
            blank_line_after: true,
        },
        CsvSectionView {
            label: "# Market Data"@,
            table: TableView {
                columns: market_data_header(),
                records: market_data_records(report.market_data),
            },
            blank_line_after: false,
        },
    ]);
}

} // verus!
