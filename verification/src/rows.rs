//! The rows of a report.

use vstd::prelude::*;
use crate::model::views;
use crate::value::{Binary64, Quantity};

verus! {

/// One metric of one account.
///
/// `value` stays text: the gateway reports amounts, percentages and plain
/// words under the same field. `currency` is empty for a metric that is no
/// amount of money.
#[derive(Debug, PartialEq, Eq)]
pub struct AccountSummaryRow {
    pub account: String,
    pub tag: String,
    pub value: String,
    pub currency: String,
}

/// The model of an [`AccountSummaryRow`].
pub struct AccountSummaryRowView {
    pub account: Seq<char>,
    pub tag: Seq<char>,
    pub value: Seq<char>,
    pub currency: Seq<char>,
}

impl View for AccountSummaryRow {
    type V = AccountSummaryRowView;

    open spec fn view(&self) -> AccountSummaryRowView {
        AccountSummaryRowView {
            account: self.account@,
            tag: self.tag@,
            value: self.value@,
            currency: self.currency@,
        }
    }
}

/// One open position.
///
/// The row stores what the gateway reported. Its market value is derived, see
/// [`PositionRow::market_value`].
#[derive(Debug, PartialEq, Eq)]
pub struct PositionRow {
    pub account: String,
    pub symbol: String,
    pub position: Binary64,
    pub average_cost: Binary64,
}

/// The model of a [`PositionRow`].
pub struct PositionRowView {
    pub account: Seq<char>,
    pub symbol: Seq<char>,
    pub position: Binary64,
    pub average_cost: Binary64,
}

impl PositionRowView {
    /// The market value of the position: its size times its average cost.
    pub open spec fn market_value(self) -> Quantity {
        Quantity::Product(self.position, self.average_cost)
    }
}

impl View for PositionRow {
    type V = PositionRowView;

    open spec fn view(&self) -> PositionRowView {
        PositionRowView {
            account: self.account@,
            symbol: self.symbol@,
            position: self.position,
            average_cost: self.average_cost,
        }
    }
}

impl PositionRow {
    /// The market value of the position: the product of its size and its
    /// average cost, a notional estimate and no live valuation.
    pub fn market_value(&self) -> (value: Quantity)
        ensures
            value == self@.market_value(),
            value == Quantity::Product(self.position, self.average_cost),
    {
        Quantity::Product(self.position, self.average_cost)
    }
}

/// One tick of a market-data snapshot.
#[derive(Debug, PartialEq, Eq)]
pub struct MarketDataRow {
    pub symbol: String,
    pub tick_type: String,
    pub value: Binary64,
}

/// The model of a [`MarketDataRow`].
pub struct MarketDataRowView {
    pub symbol: Seq<char>,
    pub tick_type: Seq<char>,
    pub value: Binary64,
}

impl View for MarketDataRow {
    type V = MarketDataRowView;

    open spec fn view(&self) -> MarketDataRowView {
        MarketDataRowView { symbol: self.symbol@, tick_type: self.tick_type@, value: self.value }
    }
}

/// Everything one run collected: the only input of the renderers.
#[derive(Debug, PartialEq, Eq)]
pub struct ReportResult {
    pub account_summary: Vec<AccountSummaryRow>,
    pub positions: Vec<PositionRow>,
    pub market_data: Vec<MarketDataRow>,
}

/// The model of a [`ReportResult`].
pub struct ReportResultView {
    pub account_summary: Seq<AccountSummaryRowView>,
    pub positions: Seq<PositionRowView>,
    pub market_data: Seq<MarketDataRowView>,
}

impl ReportResultView {
    /// The report in which nothing has been collected yet.
    pub open spec fn empty() -> ReportResultView {
        ReportResultView {
            account_summary: Seq::empty(),
            positions: Seq::empty(),
            market_data: Seq::empty(),
        }
    }
}

impl View for ReportResult {
    type V = ReportResultView;

    open spec fn view(&self) -> ReportResultView {
        ReportResultView {
            account_summary: views(self.account_summary@),
            positions: views(self.positions@),
            market_data: views(self.market_data@),
        }
    }
}

impl ReportResult {
    /// A report with three empty collections.
    pub fn new() -> (report: ReportResult)
        ensures
            report@ == ReportResultView::empty(),
    {
        let report = ReportResult {
            account_summary: Vec::new(),
            positions: Vec::new(),
            market_data: Vec::new(),
        };
        assert(report@.account_summary =~= Seq::empty());
        assert(report@.positions =~= Seq::empty());
        assert(report@.market_data =~= Seq::empty());
        report
    }
}

} // verus!
