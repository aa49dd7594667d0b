//! The JSON layout of a report.
//!
//! The document is one object with a member for each collection, always all
//! three and always in the same order. A member is named by its collection
//! and holds the list of the collection's records; a record is an object with
//! one field per column, named by the column.

use vstd::prelude::*;
use crate::model::views;
use crate::rows::{
    AccountSummaryRowView, MarketDataRowView, PositionRowView, ReportResult, ReportResultView,
};
use crate::table::{
    account_summary_records, market_data_records, position_records, tabulate_account_summary,
    tabulate_market_data, tabulate_positions, CellView, Table, TableView,
};
use crate::value::Quantity;

verus! {

/// One member of the top-level object: a name and the table under it.
#[derive(Debug, PartialEq, Eq)]
pub struct Member {
    pub name: String,
    pub table: Table,
}

/// The model of a [`Member`].
pub struct MemberView {
    pub name: Seq<char>,
    pub table: TableView,
}

impl View for Member {
    type V = MemberView;

    open spec fn view(&self) -> MemberView {
        MemberView { name: self.name@, table: self.table@ }
    }
}

/// A JSON document: the members of its top-level object. Its model is the
/// sequence of the members' models.
#[derive(Debug, PartialEq, Eq)]
pub struct JsonDocument {
    pub members: Vec<Member>,
}

impl View for JsonDocument {
    type V = Seq<MemberView>;

    open spec fn view(&self) -> Seq<MemberView> {
        views(self.members@)
    }
}

/// The field names of an account-summary record.
pub open spec fn account_summary_columns() -> Seq<Seq<char>> {
    seq!["account"@, "tag"@, "value"@, "currency"@]
}

/// The field names of a position record.
pub open spec fn position_columns() -> Seq<Seq<char>> {
    seq!["account"@, "symbol"@, "position"@, "averageCost"@, "marketValue"@]
}

/// The field names of a market-data record.
pub open spec fn market_data_columns() -> Seq<Seq<char>> {
    seq!["symbol"@, "tickType"@, "value"@]
}

/// The members of the document of `report`.
pub open spec fn json_members(report: ReportResultView) -> Seq<MemberView> {
    seq![
        MemberView {
            name: "accountSummary"@,
            table: TableView {
                columns: account_summary_columns(),
                records: account_summary_records(report.account_summary),
            },
        },
        MemberView {
            name: "positions"@,
            table: TableView {
                columns: position_columns(),
                records: position_records(report.positions),
            },
        },
        MemberView {
            name: "marketData"@,
            table: TableView {
                columns: market_data_columns(),
                records: market_data_records(report.market_data),
            },
        },
    ]
}

/// Lays `report` out as a JSON document.
pub fn render_json(report: &ReportResult) -> (document: JsonDocument)
    ensures
        document@ == json_members(report@),
        forall|i: int| 0 <= i < document@.len() ==> (#[trigger] document@[i]).table.well_formed(),
{
    let mut summary_columns: Vec<String> = Vec::new();
    summary_columns.push("account".to_owned());
    summary_columns.push("tag".to_owned());
    summary_columns.push("value".to_owned());
    summary_columns.push("currency".to_owned());
    assert(views(summary_columns@) =~= account_summary_columns());

    let mut position_names: Vec<String> = Vec::new();
    position_names.push("account".to_owned());
    position_names.push("symbol".to_owned());
    position_names.push("position".to_owned());
    position_names.push("averageCost".to_owned());
    position_names.push("marketValue".to_owned());
    assert(views(position_names@) =~= position_columns());

    let mut tick_columns: Vec<String> = Vec::new();
    tick_columns.push("symbol".to_owned());
    tick_columns.push("tickType".to_owned());
    tick_columns.push("value".to_owned());
    assert(views(tick_columns@) =~= market_data_columns());

    let mut members: Vec<Member> = Vec::new();
    members.push(
        Member {
            name: "accountSummary".to_owned(),
            table: Table {
                columns: summary_columns,
                records: tabulate_account_summary(&report.account_summary),
            },
        },
    );
    members.push(
        Member {
            name: "positions".to_owned(),
            table: Table {
                columns: position_names,
                records: tabulate_positions(&report.positions),
            },
        },
    );
    members.push(
        Member {
            name: "marketData".to_owned(),
            table: Table {
                columns: tick_columns,
                records: tabulate_market_data(&report.market_data),
            },
        },
    );
    let document = JsonDocument { members };
    assert(document@ =~= json_members(report@));
    document
}

/// The account-summary row that a record stands for: the record has four
/// cells of text.
pub open spec fn read_account_summary(record: Seq<CellView>) -> Option<AccountSummaryRowView> {
    if record.len() == 4 {
        match (record[0], record[1], record[2], record[3]) {
            (
                CellView::Text(account),
                CellView::Text(tag),
                CellView::Text(value),
                CellView::Text(currency),
            ) => Some(AccountSummaryRowView { account, tag, value, currency }),
            _ => None,
        }
    } else {
        None
    }
}

/// The position that a record stands for: the record has two cells of text
/// and three numbers, the last of them the product of the other two.
pub open spec fn read_position(record: Seq<CellView>) -> Option<PositionRowView> {
    if record.len() == 5 {
        match (record[0], record[1], record[2], record[3], record[4]) {
            (
                CellView::Text(account),
                CellView::Text(symbol),
                CellView::Number(Quantity::Reported(position)),
                CellView::Number(Quantity::Reported(average_cost)),
                CellView::Number(Quantity::Product(left, right)),
            ) => if left == position && right == average_cost {
                Some(PositionRowView { account, symbol, position, average_cost })
            } else {
                None
            },
            _ => None,
        }
    } else {
        None
    }
}

/// The tick that a record stands for: the record has two cells of text and
/// one reported number.
pub open spec fn read_market_data(record: Seq<CellView>) -> Option<MarketDataRowView> {
    if record.len() == 3 {
        match (record[0], record[1], record[2]) {
            (
                CellView::Text(symbol),
                CellView::Text(tick_type),
                CellView::Number(Quantity::Reported(value)),
            ) => Some(MarketDataRowView { symbol, tick_type, value }),
            _ => None,
        }
    } else {
        None
    }
}

/// The rows that `records` stand for, if `read` makes a row of every one.
pub open spec fn read_records<R>(
    records: Seq<Seq<CellView>>,
    read: spec_fn(Seq<CellView>) -> Option<R>,
) -> Option<Seq<R>> {
    if forall|i: int| 0 <= i < records.len() ==> read(#[trigger] records[i]) is Some {
        Some(Seq::new(records.len(), |i: int| read(records[i]).unwrap()))
    } else {
        None
    }
}

/// Whether `member` has the given name and the given field names.
pub open spec fn is_member(member: MemberView, name: Seq<char>, columns: Seq<Seq<char>>) -> bool {
    member.name == name && member.table.columns == columns
}

/// The report that a document stands for.
///
/// The document has exactly three members: `accountSummary`, `positions` and
/// `marketData`, each with the field names of its collection, and every
/// record reads as a row of that collection.
pub open spec fn read_report(members: Seq<MemberView>) -> Option<ReportResultView> {
    if members.len() == 3 && is_member(members[0], "accountSummary"@, account_summary_columns())
        && is_member(members[1], "positions"@, position_columns()) && is_member(
        members[2],
        "marketData"@,
        market_data_columns(),
    ) {
        match (
            read_records(
                members[0].table.records,
                |record: Seq<CellView>| read_account_summary(record),
            ),
            read_records(members[1].table.records, |record: Seq<CellView>| read_position(record)),
            read_records(
                members[2].table.records,
                |record: Seq<CellView>| read_market_data(record),
            ),
        ) {
            (Some(account_summary), Some(positions), Some(market_data)) => Some(
                ReportResultView { account_summary, positions, market_data },
            ),
            _ => None,
        }
    } else {
        None
    }
}

/// The JSON layout loses nothing.
///
/// The document of any report, with however many rows and with none, reads
/// back as that report: it has the three named members and no other, and each
/// member holds the rows of its collection, field by field and in order.
pub proof fn law_json_round_trip(report: ReportResultView)
    ensures
        read_report(json_members(report)) == Some(report),
{
    let members = json_members(report);
    let summary = read_records(
        members[0].table.records,
        |record: Seq<CellView>| read_account_summary(record),
    );
    let positions = read_records(
        members[1].table.records,
        |record: Seq<CellView>| read_position(record),
    );
    let market_data = read_records(
        members[2].table.records,
        |record: Seq<CellView>| read_market_data(record),
    );
    assert(summary is Some);
    assert(summary.unwrap() =~= report.account_summary);
    assert(positions is Some);
    assert(positions.unwrap() =~= report.positions);
    assert(market_data is Some);
    assert(market_data.unwrap() =~= report.market_data);
}

} // verus!
