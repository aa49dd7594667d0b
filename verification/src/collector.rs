//! The order of a run: which subscription to open, read or cancel next.
//!
//! A [`Collector`] does no work on the gateway. It names the next thing to do
//! as a [`Command`], the caller does it and reports what came of it as an
//! [`Event`], and the collector files the rows and names the next command.
//!
//! The three categories are collected one after another: account summary,
//! positions, and, where the run asks for it, a market-data snapshot. Within
//! one category the subscription is opened and then read message by message.
//! A message that becomes a row appends the row; the terminal message has the
//! subscription cancelled before anything else is done; any other message is
//! passed over. A subscription that the gateway refuses to open, or that runs
//! dry without its terminal message, leaves the category with the rows it has
//! and the run goes on with the next category.

use vstd::prelude::*;
use crate::messages::{
    AccountSummaryMessage, AccountSummaryMessageView, PositionMessage, PositionMessageView,
    TickMessage, TickMessageView,
};
use crate::model::{lemma_views_push, views};
use crate::rows::{
    AccountSummaryRowView, MarketDataRowView, PositionRowView, ReportResult, ReportResultView,
};

verus! {

/// One of the three kinds of data that a run collects.
#[derive(Clone, Copy, Debug, PartialEq, Eq, Structural)]
pub enum Category {
    AccountSummary,
    Positions,
    MarketData,
}

/// What the caller is to do next.
#[derive(Clone, Copy, Debug, PartialEq, Eq, Structural)]
pub enum Command {
    /// Ask the gateway for the subscription of the category.
    Open(Category),
    /// Read the next message of the category's subscription.
    Read(Category),
    /// Cancel the category's subscription.
    Cancel(Category),
    /// Nothing is left to collect: render the report.
    Finish,
}

/// What came of a command.
#[derive(Debug, PartialEq, Eq)]
pub enum Event {
    /// The subscription is open.
    Opened,
    /// The gateway refused the subscription.
    Refused,
    /// The account-summary subscription yielded a message.
    AccountSummary(AccountSummaryMessage),
    /// The positions subscription yielded a message.
    Position(PositionMessage),
    /// The market-data snapshot yielded a message.
    Tick(TickMessage),
    /// The subscription has no further message.
    Exhausted,
    /// The subscription is cancelled.
    Cancelled,
}

/// The model of an [`Event`].
pub enum EventView {
    Opened,
    Refused,
    AccountSummary(AccountSummaryMessageView),
    Position(PositionMessageView),
    Tick(TickMessageView),
    Exhausted,
    Cancelled,
}

impl View for Event {
    type V = EventView;

    open spec fn view(&self) -> EventView {
        match self {
            Event::Opened => EventView::Opened,
            Event::Refused => EventView::Refused,
            Event::AccountSummary(message) => EventView::AccountSummary(message@),
            Event::Position(message) => EventView::Position(message@),
            Event::Tick(message) => EventView::Tick(message@),
            Event::Exhausted => EventView::Exhausted,
            Event::Cancelled => EventView::Cancelled,
        }
    }
}

/// The command that follows the last one of `category`.
pub open spec fn after(category: Category, market_data: bool) -> Command {
    match category {
        Category::AccountSummary => Command::Open(Category::Positions),
        Category::Positions => if market_data {
            Command::Open(Category::MarketData)
        } else {
            Command::Finish
        },
        Category::MarketData => Command::Finish,
    }
}

/// The place of a command in a run. No run ever goes back to a lower place.
pub open spec fn place(command: Command) -> nat {
    match command {
        Command::Open(Category::AccountSummary) => 0,
        Command::Read(Category::AccountSummary) => 1,
        Command::Cancel(Category::AccountSummary) => 2,
        Command::Open(Category::Positions) => 3,
        Command::Read(Category::Positions) => 4,
        Command::Cancel(Category::Positions) => 5,
        Command::Open(Category::MarketData) => 6,
        Command::Read(Category::MarketData) => 7,
        Command::Cancel(Category::MarketData) => 8,
        Command::Finish => 9,
    }
}

/// What one message does to a collection that is being read: the terminal
/// message leaves the rows alone and asks for the cancel, a message with a row
/// appends it, and any other message changes nothing.
pub open spec fn drained<R>(rows: Seq<R>, terminal: bool, row: Option<R>) -> (Seq<R>, bool) {
    if terminal {
        (rows, true)
    } else {
        match row {
            Some(row) => (rows.push(row), false),
            None => (rows, false),
        }
    }
}

/// The model of a [`Collector`].
pub struct CollectorView {
    /// The symbol of the market-data snapshot.
    pub symbol: Seq<char>,
    /// Whether the run collects market data at all.
    pub market_data: bool,
    /// The command that the caller is working on.
    pub pending: Command,
    /// The rows collected so far.
    pub report: ReportResultView,
}

impl CollectorView {
    /// A run before its first command is done.
    pub open spec fn start(symbol: Seq<char>, market_data: bool) -> CollectorView {
        CollectorView {
            symbol,
            market_data,
            pending: Command::Open(Category::AccountSummary),
            report: ReportResultView::empty(),
        }
    }

    /// The same run with another command pending.
    pub open spec fn with_pending(self, pending: Command) -> CollectorView {
        CollectorView { pending, ..self }
    }

    /// The same run on its way to the category after `category`.
    pub open spec fn past(self, category: Category) -> CollectorView {
        self.with_pending(after(category, self.market_data))
    }

    /// The same run, still reading `category` or about to cancel it.
    pub open spec fn reading(self, category: Category, cancel: bool) -> CollectorView {
        if cancel {
            self.with_pending(Command::Cancel(category))
        } else {
            self
        }
    }

    /// The run after a message of the account-summary subscription.
    pub open spec fn account_summary(self, message: AccountSummaryMessageView) -> CollectorView {
        let (rows, cancel) = drained(
            self.report.account_summary,
            message.is_terminal(),
            message.row(),
        );
        CollectorView {
            report: ReportResultView { account_summary: rows, ..self.report },
            ..self
        }.reading(Category::AccountSummary, cancel)
    }

    /// The run after a message of the positions subscription.
    pub open spec fn position(self, message: PositionMessageView) -> CollectorView {
        let (rows, cancel) = drained(self.report.positions, message.is_terminal(), message.row());
        CollectorView {
            report: ReportResultView { positions: rows, ..self.report },
            ..self
        }.reading(Category::Positions, cancel)
    }

    /// The run after a message of the market-data snapshot.
    pub open spec fn tick(self, message: TickMessageView) -> CollectorView {
        let (rows, cancel) = drained(
            self.report.market_data,
            message.is_terminal(),
            message.row(self.symbol),
        );
        CollectorView {
            report: ReportResultView { market_data: rows, ..self.report },
            ..self
        }.reading(Category::MarketData, cancel)
    }

    /// The run after `event`. An event that does not answer the pending
    /// command changes nothing.
    pub open spec fn step(self, event: EventView) -> CollectorView {
        match (self.pending, event) {
            (Command::Open(category), EventView::Opened) => self.with_pending(
                Command::Read(category),
            ),
            (Command::Open(category), EventView::Refused) => self.past(category),
            (Command::Read(category), EventView::Exhausted) => self.past(category),
            (
                Command::Read(Category::AccountSummary),
                EventView::AccountSummary(message),
            ) => self.account_summary(message),
            (Command::Read(Category::Positions), EventView::Position(message)) => self.position(
                message,
            ),
            (Command::Read(Category::MarketData), EventView::Tick(message)) => self.tick(message),
            (Command::Cancel(category), EventView::Cancelled) => self.past(category),
            _ => self,
        }
    }

    /// The run after all of `events`, in their order.
    pub open spec fn run(self, events: Seq<EventView>) -> CollectorView
        decreases events.len(),
    {
        if events.len() == 0 {
            self
        } else {
            self.run(events.drop_last()).step(events.last())
        }
    }

    /// The commands that the run names while it takes `events`: the one
    /// pending after the first event, after the second, and so on.
    pub open spec fn commands(self, events: Seq<EventView>) -> Seq<Command> {
        Seq::new(events.len(), |i: int| self.run(events.take(i + 1)).pending)
    }
}

/// The state of one run.
#[derive(Debug, PartialEq, Eq)]
pub struct Collector {
    symbol: String,
    market_data: bool,
    pending: Command,
    report: ReportResult,
}

impl View for Collector {
    type V = CollectorView;

    closed spec fn view(&self) -> CollectorView {
        CollectorView {
            symbol: self.symbol@,
            market_data: self.market_data,
            pending: self.pending,
            report: self.report@,
        }
    }
}

impl Collector {
    /// A run that has collected nothing yet. Its market-data snapshot, if
    /// `market_data` asks for one, is of `symbol`.
    pub fn new(symbol: &str, market_data: bool) -> (collector: Collector)
        ensures
            collector@ == CollectorView::start(symbol@, market_data),
    {
        Collector {
            symbol: symbol.to_owned(),
            market_data,
            pending: Command::Open(Category::AccountSummary),
            report: ReportResult::new(),
        }
    }

    /// The command that the caller is to carry out now.
    pub fn pending(&self) -> (command: Command)
        ensures
            command == self@.pending,
    {
        self.pending
    }

    /// The symbol of the market-data snapshot.
    pub fn symbol(&self) -> (symbol: &str)
        ensures
            symbol@ == self@.symbol,
    {
        self.symbol.as_str()
    }

    /// The rows collected so far.
    pub fn report(&self) -> (report: &ReportResult)
        ensures
            report@ == self@.report,
    {
        &self.report
    }

    /// Ends the run and hands out what it collected.
    pub fn into_report(self) -> (report: ReportResult)
        ensures
            report@ == self@.report,
    {
        self.report
    }

    fn next_after(&self, category: Category) -> (command: Command)
        ensures
            command == after(category, self@.market_data),
    {
        match category {
            Category::AccountSummary => Command::Open(Category::Positions),
            Category::Positions => if self.market_data {
                Command::Open(Category::MarketData)
            } else {
                Command::Finish
            },
            Category::MarketData => Command::Finish,
        }
    }

    /// Takes in what came of the pending command and names the next one.
    ///
    /// An event that does not answer the pending command is ignored: the
    /// command stays pending and the rows stay as they are.
    pub fn handle(&mut self, event: Event) -> (next: Command)
        ensures
            final(self)@ == old(self)@.step(event@),
            next == final(self)@.pending,
    {
        match (self.pending, event) {
            (Command::Open(category), Event::Opened) => {
                self.pending = Command::Read(category);
            },
            (Command::Open(category), Event::Refused) => {
                self.pending = self.next_after(category);
            },
            (Command::Read(category), Event::Exhausted) => {
                self.pending = self.next_after(category);
            },
            (Command::Read(Category::AccountSummary), Event::AccountSummary(message)) => {
                let cancel = drain(
                    &mut self.report.account_summary,
                    message.is_terminal(),
                    message.into_row(),
                );
                if cancel {
                    self.pending = Command::Cancel(Category::AccountSummary);
                }
            },
            (Command::Read(Category::Positions), Event::Position(message)) => {
                let cancel = drain(
                    &mut self.report.positions,
                    message.is_terminal(),
                    message.into_row(),
                );
                if cancel {
                    self.pending = Command::Cancel(Category::Positions);
                }
            },
            (Command::Read(Category::MarketData), Event::Tick(message)) => {
                let terminal = message.is_terminal();
                let row = message.into_row(self.symbol.as_str());
                let cancel = drain(&mut self.report.market_data, terminal, row);
                if cancel {
                    self.pending = Command::Cancel(Category::MarketData);
                }
            },
            (Command::Cancel(category), Event::Cancelled) => {
                self.pending = self.next_after(category);
            },
            _ => {},
        }
        self.pending
    }
}

impl Collector {
    /// Takes in a whole sequence of events, one after another, and hands out
    /// the command that each of them led to.
    pub fn replay(&mut self, events: Vec<Event>) -> (commands: Vec<Command>)
        ensures
            final(self)@ == old(self)@.run(views(events@)),
            commands@ == old(self)@.commands(views(events@)),
    {
        let ghost start = self@;
        let ghost all = views(events@);
        let mut commands: Vec<Command> = Vec::new();
        for event in it: events
            invariant
                it.seq() == events@,
                all == views(events@),
                self@ == start.run(all.take(it.index() as int)),
                commands@ =~= start.commands(all).take(it.index() as int),
        {
            proof {
                let k = it.index() as int;
                assert(all.take(k + 1).drop_last() =~= all.take(k));
                assert(all.take(k + 1).last() == event@);
            }
            let next = self.handle(event);
            commands.push(next);
        }
        proof {
            assert(all.take(all.len() as int) =~= all);
        }
        commands
    }
}

/// The events of a subscription that yields `messages`, one event each.
pub open spec fn summary_events(messages: Seq<AccountSummaryMessageView>) -> Seq<EventView> {
    Seq::new(messages.len(), |i: int| EventView::AccountSummary(messages[i]))
}

/// The row of each of `messages`, in the order of the messages.
pub open spec fn summary_rows(messages: Seq<AccountSummaryMessageView>) -> Seq<
    AccountSummaryRowView,
> {
    Seq::new(messages.len(), |i: int| messages[i].row().unwrap())
}

/// A run that takes one more event is the run so far, one step on.
pub proof fn lemma_run_push(state: CollectorView, events: Seq<EventView>, event: EventView)
    ensures
        state.run(events.push(event)) == state.run(events).step(event),
{
    assert(events.push(event).drop_last() =~= events);
}

proof fn lemma_summaries_read(state: CollectorView, messages: Seq<AccountSummaryMessageView>)
    requires
        state.pending == Command::Read(Category::AccountSummary),
        forall|i: int| 0 <= i < messages.len() ==> messages[i] is Summary,
    ensures
        state.run(summary_events(messages)) == (CollectorView {
            report: ReportResultView {
                account_summary: state.report.account_summary + summary_rows(messages),
                ..state.report
            },
            ..state
        }),
    decreases messages.len(),
{
    if messages.len() == 0 {
        assert(state.report.account_summary + summary_rows(messages)
            =~= state.report.account_summary);
    } else {
        let front = messages.drop_last();
        lemma_summaries_read(state, front);
        assert(summary_events(messages).drop_last() =~= summary_events(front));
        assert(messages.last() is Summary);
        assert((state.report.account_summary + summary_rows(front)).push(
            messages.last().row().unwrap(),
        ) =~= state.report.account_summary + summary_rows(messages));
    }
}

/// Reading an account summary to its end.
///
/// Let a run that is reading the account summary take any number of
/// `Summary` messages and then `End`. Afterwards the collection has grown by
/// exactly one row per message, in the order in which the messages came, and
/// the other two collections are as they were. Each `Summary` was answered
/// with another read and `End` with the cancel: the cancel is named once, and
/// only after `End`. Once the caller has cancelled, the run opens the
/// positions. Neither the drain nor the cancel touches the symbol, the choice
/// of market data or, after `End`, any row.
pub proof fn law_account_summary_drain(
    state: CollectorView,
    messages: Seq<AccountSummaryMessageView>,
)
    requires
        state.pending == Command::Read(Category::AccountSummary),
        forall|i: int| 0 <= i < messages.len() ==> messages[i] is Summary,
    ensures
        ({
            let events = summary_events(messages).push(
                EventView::AccountSummary(AccountSummaryMessageView::End),
            );
            let end = state.run(events);
            &&& end.report.account_summary == state.report.account_summary + summary_rows(
                messages,
            )
            &&& end.report.account_summary.len() == state.report.account_summary.len()
                + messages.len()
            &&& end.report.positions == state.report.positions
            &&& end.report.market_data == state.report.market_data
            &&& state.commands(events) == Seq::new(
                messages.len(),
                |i: int| Command::Read(Category::AccountSummary),
            ).push(Command::Cancel(Category::AccountSummary))
            &&& end.symbol == state.symbol
            &&& end.market_data == state.market_data
            &&& end.step(EventView::Cancelled) == end.with_pending(
                Command::Open(Category::Positions),
            )
        }),
{
    let events = summary_events(messages).push(
        EventView::AccountSummary(AccountSummaryMessageView::End),
    );
    let expected = Seq::new(messages.len(), |i: int| Command::Read(Category::AccountSummary)).push(
        Command::Cancel(Category::AccountSummary),
    );
    lemma_summaries_read(state, messages);
    lemma_run_push(
        state,
        summary_events(messages),
        EventView::AccountSummary(AccountSummaryMessageView::End),
    );
    assert forall|i: int| 0 <= i < events.len() implies state.commands(events)[i]
        == expected[i] by {
        if i < messages.len() {
            let front = messages.take(i + 1);
            lemma_summaries_read(state, front);
            assert(events.take(i + 1) =~= summary_events(front));
        } else {
            assert(events.take(i + 1) =~= events);
        }
    }
    assert(state.commands(events) =~= expected);
}

/// The events of a positions subscription that yields `messages`.
pub open spec fn position_events(messages: Seq<PositionMessageView>) -> Seq<EventView> {
    Seq::new(messages.len(), |i: int| EventView::Position(messages[i]))
}

/// The row of each of `messages`, in the order of the messages.
pub open spec fn position_rows(messages: Seq<PositionMessageView>) -> Seq<PositionRowView> {
    Seq::new(messages.len(), |i: int| messages[i].row().unwrap())
}

proof fn lemma_positions_read(state: CollectorView, messages: Seq<PositionMessageView>)
    requires
        state.pending == Command::Read(Category::Positions),
        forall|i: int| 0 <= i < messages.len() ==> messages[i] is Position,
    ensures
        state.run(position_events(messages)) == (CollectorView {
            report: ReportResultView {
                positions: state.report.positions + position_rows(messages),
                ..state.report
            },
            ..state
        }),
    decreases messages.len(),
{
    if messages.len() == 0 {
        assert(state.report.positions + position_rows(messages) =~= state.report.positions);
    } else {
        let front = messages.drop_last();
        lemma_positions_read(state, front);
        assert(position_events(messages).drop_last() =~= position_events(front));
        assert(messages.last() is Position);
        assert((state.report.positions + position_rows(front)).push(
            messages.last().row().unwrap(),
        ) =~= state.report.positions + position_rows(messages));
    }
}

/// Reading the positions to their end.
///
/// Let a run that is reading the positions take any number of `Position`
/// messages and then `End`. Afterwards the collection has grown by exactly
/// one row per message, in the order in which the messages came, each with
/// the product of its size and its average cost as its market value, and the
/// other two collections are as they were. The cancel is named once, in
/// answer to `End`; once the caller has cancelled, the run goes on to what
/// follows the positions. Neither the drain nor the cancel touches the symbol,
/// the choice of market data or, after `End`, any row.
pub proof fn law_positions_drain(state: CollectorView, messages: Seq<PositionMessageView>)
    requires
        state.pending == Command::Read(Category::Positions),
        forall|i: int| 0 <= i < messages.len() ==> messages[i] is Position,
    ensures
        ({
            let events = position_events(messages).push(
                EventView::Position(PositionMessageView::End),
            );
            let end = state.run(events);
            &&& end.report.positions == state.report.positions + position_rows(messages)
            &&& end.report.account_summary == state.report.account_summary
            &&& end.report.market_data == state.report.market_data
            &&& state.commands(events) == Seq::new(
                messages.len(),
                |i: int| Command::Read(Category::Positions),
            ).push(Command::Cancel(Category::Positions))
            &&& end.symbol == state.symbol
            &&& end.market_data == state.market_data
            &&& end.step(EventView::Cancelled) == end.with_pending(
                after(Category::Positions, state.market_data),
            )
        }),
        forall|i: int|
            0 <= i < messages.len() ==> (#[trigger] position_rows(messages)[i]).market_value()
                == crate::value::Quantity::Product(
                messages[i]->position,
                messages[i]->average_cost,
            ),
{
    let end_event = EventView::Position(PositionMessageView::End);
    let events = position_events(messages).push(end_event);
    let expected = Seq::new(messages.len(), |i: int| Command::Read(Category::Positions)).push(
        Command::Cancel(Category::Positions),
    );
    lemma_positions_read(state, messages);
    lemma_run_push(state, position_events(messages), end_event);
    assert forall|i: int| 0 <= i < events.len() implies state.commands(events)[i]
        == expected[i] by {
        if i < messages.len() {
            let front = messages.take(i + 1);
            lemma_positions_read(state, front);
            assert(events.take(i + 1) =~= position_events(front));
        } else {
            assert(events.take(i + 1) =~= events);
        }
    }
    assert(state.commands(events) =~= expected);
}

/// The events of a market-data snapshot that yields `messages`.
pub open spec fn tick_events(messages: Seq<TickMessageView>) -> Seq<EventView> {
    Seq::new(messages.len(), |i: int| EventView::Tick(messages[i]))
}

/// The rows of those of `messages` that become one in a snapshot of `symbol`,
/// in the order of the messages.
pub open spec fn tick_rows(messages: Seq<TickMessageView>, symbol: Seq<char>) -> Seq<
    MarketDataRowView,
>
    decreases messages.len(),
{
    if messages.len() == 0 {
        Seq::empty()
    } else {
        let front = tick_rows(messages.drop_last(), symbol);
        match messages.last().row(symbol) {
            Some(row) => front.push(row),
            None => front,
        }
    }
}

proof fn lemma_ticks_read(state: CollectorView, messages: Seq<TickMessageView>)
    requires
        state.pending == Command::Read(Category::MarketData),
        forall|i: int| 0 <= i < messages.len() ==> !(#[trigger] messages[i]).is_terminal(),
    ensures
        state.run(tick_events(messages)) == (CollectorView {
            report: ReportResultView {
                market_data: state.report.market_data + tick_rows(messages, state.symbol),
                ..state.report
            },
            ..state
        }),
    decreases messages.len(),
{
    if messages.len() == 0 {
        assert(state.report.market_data + tick_rows(messages, state.symbol)
            =~= state.report.market_data);
    } else {
        let front = messages.drop_last();
        lemma_ticks_read(state, front);
        assert(tick_events(messages).drop_last() =~= tick_events(front));
        assert(!messages.last().is_terminal());
        let before = state.report.market_data + tick_rows(front, state.symbol);
        match messages.last().row(state.symbol) {
            Some(row) => {
                assert(before.push(row) =~= state.report.market_data + tick_rows(
                    messages,
                    state.symbol,
                ));
            },
            None => {},
        }
    }
}

/// Reading a market-data snapshot to its end.
///
/// Let a run that is reading the snapshot take any messages but
/// `SnapshotEnd`, and then `SnapshotEnd`. Afterwards the collection has grown
/// by the rows of the prices and sizes among them, in the order in which they
/// came; every other tick left no trace and raised no error. The cancel is
/// named once, in answer to `SnapshotEnd`, and after it the run is finished.
/// Neither the drain nor the cancel touches the symbol, the choice of market
/// data or, after `SnapshotEnd`, any row.
pub proof fn law_market_data_drain(state: CollectorView, messages: Seq<TickMessageView>)
    requires
        state.pending == Command::Read(Category::MarketData),
        forall|i: int| 0 <= i < messages.len() ==> !(#[trigger] messages[i]).is_terminal(),
    ensures
        ({
            let events = tick_events(messages).push(EventView::Tick(TickMessageView::SnapshotEnd));
            let end = state.run(events);
            &&& end.report.market_data == state.report.market_data + tick_rows(
                messages,
                state.symbol,
            )
            &&& end.report.account_summary == state.report.account_summary
            &&& end.report.positions == state.report.positions
            &&& state.commands(events) == Seq::new(
                messages.len(),
                |i: int| Command::Read(Category::MarketData),
            ).push(Command::Cancel(Category::MarketData))
            &&& end.symbol == state.symbol
            &&& end.market_data == state.market_data
            &&& end.step(EventView::Cancelled) == end.with_pending(Command::Finish)
        }),
{
    let end_event = EventView::Tick(TickMessageView::SnapshotEnd);
    let events = tick_events(messages).push(end_event);
    let expected = Seq::new(messages.len(), |i: int| Command::Read(Category::MarketData)).push(
        Command::Cancel(Category::MarketData),
    );
    lemma_ticks_read(state, messages);
    lemma_run_push(state, tick_events(messages), end_event);
    assert forall|i: int| 0 <= i < events.len() implies state.commands(events)[i]
        == expected[i] by {
        if i < messages.len() {
            let front = messages.take(i + 1);
            lemma_ticks_read(state, front);
            assert(events.take(i + 1) =~= tick_events(front));
        } else {
            assert(events.take(i + 1) =~= events);
        }
    }
    assert(state.commands(events) =~= expected);
}

/// A run never goes back: the command after an event stands at the place of
/// the command before it, or further on.
pub proof fn law_no_way_back(state: CollectorView, event: EventView)
    ensures
        place(state.pending) <= place(state.step(event).pending),
{
}

/// A cancel is named in one case only: the run was reading the category and
/// the event was the terminal message of that category's subscription.
pub proof fn law_cancel_follows_terminal(
    state: CollectorView,
    event: EventView,
    category: Category,
)
    requires
        state.step(event).pending == Command::Cancel(category),
        state.pending != Command::Cancel(category),
    ensures
        state.pending == Command::Read(category),
        match category {
            Category::AccountSummary => event == EventView::AccountSummary(
                AccountSummaryMessageView::End,
            ),
            Category::Positions => event == EventView::Position(PositionMessageView::End),
            Category::MarketData => event == EventView::Tick(TickMessageView::SnapshotEnd),
        },
        state.step(event).report == state.report,
{
}

/// Whether `after` is `before` with one more item at its end.
pub open spec fn one_more<R>(before: Seq<R>, after: Seq<R>) -> bool {
    after.len() == before.len() + 1 && after.drop_last() == before
}

/// A collection changes only while its own subscription is read, and then by
/// one row at its end: what was collected before stays, in its order.
pub proof fn law_rows_are_appended(state: CollectorView, event: EventView)
    ensures
        state.step(event).report.account_summary != state.report.account_summary ==> {
            &&& state.pending == Command::Read(Category::AccountSummary)
            &&& one_more(state.report.account_summary, state.step(event).report.account_summary)
        },
        state.step(event).report.positions != state.report.positions ==> {
            &&& state.pending == Command::Read(Category::Positions)
            &&& one_more(state.report.positions, state.step(event).report.positions)
        },
        state.step(event).report.market_data != state.report.market_data ==> {
            &&& state.pending == Command::Read(Category::MarketData)
            &&& one_more(state.report.market_data, state.step(event).report.market_data)
        },
{
    let next = state.step(event);
    if next.report.account_summary != state.report.account_summary {
        assert(next.report.account_summary.drop_last() =~= state.report.account_summary);
    }
    if next.report.positions != state.report.positions {
        assert(next.report.positions.drop_last() =~= state.report.positions);
    }
    if next.report.market_data != state.report.market_data {
        assert(next.report.market_data.drop_last() =~= state.report.market_data);
    }
}

/// A collection is frozen once the run is past reading it.
///
/// From the moment the cancel of a category is pending, or the run has moved
/// on to a later category (because the subscription ended, was refused or ran
/// dry), no sequence of events changes the category's collection.
pub proof fn law_collection_frozen(state: CollectorView, events: Seq<EventView>)
    ensures
        place(state.pending) <= place(state.run(events).pending),
        place(state.pending) >= place(Command::Cancel(Category::AccountSummary))
            ==> state.run(events).report.account_summary == state.report.account_summary,
        place(state.pending) >= place(Command::Cancel(Category::Positions)) ==> state.run(
            events,
        ).report.positions == state.report.positions,
        place(state.pending) >= place(Command::Cancel(Category::MarketData)) ==> state.run(
            events,
        ).report.market_data == state.report.market_data,
    decreases events.len(),
{
    if events.len() > 0 {
        law_collection_frozen(state, events.drop_last());
        law_no_way_back(state.run(events.drop_last()), events.last());
        law_rows_are_appended(state.run(events.drop_last()), events.last());
    }
}

/// Whether a command is about the market-data snapshot.
pub open spec fn touches_market_data(command: Command) -> bool {
    command == Command::Open(Category::MarketData) || command == Command::Read(
        Category::MarketData,
    ) || command == Command::Cancel(Category::MarketData)
}

proof fn lemma_without_market_data(symbol: Seq<char>, events: Seq<EventView>)
    ensures
        !CollectorView::start(symbol, false).run(events).market_data,
        !touches_market_data(CollectorView::start(symbol, false).run(events).pending),
        CollectorView::start(symbol, false).run(events).report.market_data == Seq::<
            MarketDataRowView,
        >::empty(),
    decreases events.len(),
{
    if events.len() > 0 {
        lemma_without_market_data(symbol, events.drop_last());
    }
}

/// A run without market data.
///
/// Whatever events a run that was started without market data takes, it
/// never names a command on the market-data snapshot (so the snapshot is
/// never asked for) and its market-data collection stays empty.
pub proof fn law_market_data_skipped(symbol: Seq<char>, events: Seq<EventView>)
    ensures
        !touches_market_data(CollectorView::start(symbol, false).pending),
        forall|i: int|
            0 <= i < events.len() ==> !touches_market_data(
                #[trigger] CollectorView::start(symbol, false).commands(events)[i],
            ),
        CollectorView::start(symbol, false).run(events).report.market_data == Seq::<
            MarketDataRowView,
        >::empty(),
{
    let start = CollectorView::start(symbol, false);
    lemma_without_market_data(symbol, events);
    assert forall|i: int| 0 <= i < events.len() implies !touches_market_data(
        #[trigger] start.commands(events)[i],
    ) by {
        lemma_without_market_data(symbol, events.take(i + 1));
    }
}

/// The step of reading that the three categories share: files `row` under
/// `rows` unless the message was terminal, and says whether the subscription
/// is to be cancelled.
fn drain<R: View>(rows: &mut Vec<R>, terminal: bool, row: Option<R>) -> (cancel: bool)
    ensures
        (views(final(rows)@), cancel) == drained(
            views(old(rows)@),
            terminal,
            crate::model::option_view(row),
        ),
{
    if terminal {
        true
    } else {
        match row {
            Some(row) => {
                proof {
                    lemma_views_push(rows@, row);
                }
                rows.push(row);
                false
            },
            None => false,
        }
    }
}

} // verus!
