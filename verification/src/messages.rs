//! The messages of the three subscriptions, and what each becomes.
//!
//! Every subscription yields a closed set of message variants. One of them is
//! terminal: it carries nothing and says that the gateway has no more to send.
//! Each of the others becomes one row or is passed over.

use vstd::prelude::*;
use crate::model::option_view;
use crate::rows::{
    AccountSummaryRow, AccountSummaryRowView, MarketDataRow, MarketDataRowView, PositionRow,
    PositionRowView,
};
use crate::value::{Binary64, Quantity};

verus! {

/// A message of the account-summary subscription.
#[derive(Debug, PartialEq, Eq)]
pub enum AccountSummaryMessage {
    /// One metric of one account.
    Summary { account: String, tag: String, value: String, currency: String },
    /// All metrics have been sent.
    End,
}

/// The model of an [`AccountSummaryMessage`].
pub enum AccountSummaryMessageView {
    Summary { account: Seq<char>, tag: Seq<char>, value: Seq<char>, currency: Seq<char> },
    End,
}

impl View for AccountSummaryMessage {
    type V = AccountSummaryMessageView;

    open spec fn view(&self) -> AccountSummaryMessageView {
        match self {
            AccountSummaryMessage::Summary { account, tag, value, currency } => {
                AccountSummaryMessageView::Summary {
                    account: account@,
                    tag: tag@,
                    value: value@,
                    currency: currency@,
                }
            },
            AccountSummaryMessage::End => AccountSummaryMessageView::End,
        }
    }
}

impl AccountSummaryMessageView {
    /// Whether the message ends the subscription.
    pub open spec fn is_terminal(self) -> bool {
        self is End
    }

    /// The row that the message becomes: every `Summary` gives one, with the
    /// same four fields.
    pub open spec fn row(self) -> Option<AccountSummaryRowView> {
        match self {
            AccountSummaryMessageView::Summary { account, tag, value, currency } => Some(
                AccountSummaryRowView { account, tag, value, currency },
            ),
            AccountSummaryMessageView::End => None,
        }
    }
}

impl AccountSummaryMessage {
    /// Whether the message ends the subscription.
    pub fn is_terminal(&self) -> (terminal: bool)
        ensures
            terminal == self@.is_terminal(),
    {
        match self {
            AccountSummaryMessage::End => true,
            _ => false,
        }
    }

    /// The row that the message becomes, if it becomes one.
    pub fn into_row(self) -> (row: Option<AccountSummaryRow>)
        ensures
            option_view(row) == self@.row(),
    {
        match self {
            AccountSummaryMessage::Summary { account, tag, value, currency } => Some(
                AccountSummaryRow { account, tag, value, currency },
            ),
            AccountSummaryMessage::End => None,
        }
    }
}

/// A message of the positions subscription.
#[derive(Debug, PartialEq, Eq)]
pub enum PositionMessage {
    /// One open position: the account that holds it, the symbol of its
    /// contract, its size and its average cost.
    Position { account: String, symbol: String, position: Binary64, average_cost: Binary64 },
    /// All positions have been sent.
    End,
}

/// The model of a [`PositionMessage`].
pub enum PositionMessageView {
    Position { account: Seq<char>, symbol: Seq<char>, position: Binary64, average_cost: Binary64 },
    End,
}

impl View for PositionMessage {
    type V = PositionMessageView;

    open spec fn view(&self) -> PositionMessageView {
        match self {
            PositionMessage::Position { account, symbol, position, average_cost } => {
                PositionMessageView::Position {
                    account: account@,
                    symbol: symbol@,
                    position: *position,
                    average_cost: *average_cost,
                }
            },
            PositionMessage::End => PositionMessageView::End,
        }
    }
}

impl PositionMessageView {
    /// Whether the message ends the subscription.
    pub open spec fn is_terminal(self) -> bool {
        self is End
    }

    /// The row that the message becomes: every `Position` gives one, with the
    /// size and the average cost as they were reported.
    pub open spec fn row(self) -> Option<PositionRowView> {
        match self {
            PositionMessageView::Position { account, symbol, position, average_cost } => Some(
                PositionRowView { account, symbol, position, average_cost },
            ),
            PositionMessageView::End => None,
        }
    }
}

impl PositionMessage {
    /// Whether the message ends the subscription.
    pub fn is_terminal(&self) -> (terminal: bool)
        ensures
            terminal == self@.is_terminal(),
    {
        match self {
            PositionMessage::End => true,
            _ => false,
        }
    }

    /// The row that the message becomes, if it becomes one.
    ///
    /// The market value of the row is the product of the size and the average
    /// cost that the message reported, with nothing rounded in between.
    pub fn into_row(self) -> (row: Option<PositionRow>)
        ensures
            option_view(row) == self@.row(),
            self@ matches PositionMessageView::Position { position, average_cost, .. } ==> row
                is Some && row.unwrap()@.market_value() == Quantity::Product(
                position,
                average_cost,
            ),
    {
        match self {
            PositionMessage::Position { account, symbol, position, average_cost } => Some(
                PositionRow { account, symbol, position, average_cost },
            ),
            PositionMessage::End => None,
        }
    }
}

/// A message of a market-data snapshot.
#[derive(Debug, PartialEq, Eq)]
pub enum TickMessage {
    /// A price, under the label of its kind.
    Price { tick_type: String, price: Binary64 },
    /// A size, under the label of its kind.
    Size { tick_type: String, size: Binary64 },
    /// A price that came together with a size, under the label of the price's
    /// kind.
    PriceSize { tick_type: String, price: Binary64 },
    /// The snapshot is complete.
    SnapshotEnd,
    /// Any other tick. It carries nothing that a report shows.
    Other,
}

/// The model of a [`TickMessage`].
pub enum TickMessageView {
    Price { tick_type: Seq<char>, price: Binary64 },
    Size { tick_type: Seq<char>, size: Binary64 },
    PriceSize { tick_type: Seq<char>, price: Binary64 },
    SnapshotEnd,
    Other,
}

impl View for TickMessage {
    type V = TickMessageView;

    open spec fn view(&self) -> TickMessageView {
        match self {
            TickMessage::Price { tick_type, price } => TickMessageView::Price {
                tick_type: tick_type@,
                price: *price,
            },
            TickMessage::Size { tick_type, size } => TickMessageView::Size {
                tick_type: tick_type@,
                size: *size,
            },
            TickMessage::PriceSize { tick_type, price } => TickMessageView::PriceSize {
                tick_type: tick_type@,
                price: *price,
            },
            TickMessage::SnapshotEnd => TickMessageView::SnapshotEnd,
            TickMessage::Other => TickMessageView::Other,
        }
    }
}

impl TickMessageView {
    /// Whether the message ends the subscription.
    pub open spec fn is_terminal(self) -> bool {
        self is SnapshotEnd
    }

    /// The row that the message becomes in a snapshot of `symbol`: a price
    /// gives a row with the price, a size a row with the size, and any other
    /// message none.
    pub open spec fn row(self, symbol: Seq<char>) -> Option<MarketDataRowView> {
        match self {
            TickMessageView::Price { tick_type, price } => Some(
                MarketDataRowView { symbol, tick_type, value: price },
            ),
            TickMessageView::Size { tick_type, size } => Some(
                MarketDataRowView { symbol, tick_type, value: size },
            ),
            TickMessageView::PriceSize { tick_type, price } => Some(
                MarketDataRowView { symbol, tick_type, value: price },
            ),
            TickMessageView::SnapshotEnd => None,
            TickMessageView::Other => None,
        }
    }
}

impl TickMessage {
    /// Whether the message ends the subscription.
    pub fn is_terminal(&self) -> (terminal: bool)
        ensures
            terminal == self@.is_terminal(),
    {
        match self {
            TickMessage::SnapshotEnd => true,
            _ => false,
        }
    }

    /// The row that the message becomes in a snapshot of `symbol`, if it
    /// becomes one.
    pub fn into_row(self, symbol: &str) -> (row: Option<MarketDataRow>)
        ensures
            option_view(row) == self@.row(symbol@),
    {
        match self {
            TickMessage::Price { tick_type, price } => Some(
                MarketDataRow { symbol: symbol.to_owned(), tick_type, value: price },
            ),
            TickMessage::Size { tick_type, size } => Some(
                MarketDataRow { symbol: symbol.to_owned(), tick_type, value: size },
            ),
            TickMessage::PriceSize { tick_type, price } => Some(
                MarketDataRow { symbol: symbol.to_owned(), tick_type, value: price },
            ),
            TickMessage::SnapshotEnd => None,
            TickMessage::Other => None,
        }
    }
}

} // verus!
