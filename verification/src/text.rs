//! The text layout of a report.
//!
//! A rendering is a list of lines, and a line a list of pieces: literal text,
//! or a number with the width and the decimals it is to be printed with. The
//! layout has three sections in a fixed order (account summary, positions,
//! market data) and a closing line. Each section is a banner, its rows, and a
//! blank line; a section without rows shows one placeholder line in their
//! place.

use vstd::prelude::*;
use crate::model::{lemma_views_concat, lemma_views_push, views};
use crate::rows::{
    AccountSummaryRow, AccountSummaryRowView, MarketDataRow, MarketDataRowView, PositionRow,
    PositionRowView, ReportResult, ReportResultView,
};
use crate::value::Quantity;

verus! {

/// A part of a line.
#[derive(Debug, PartialEq, Eq)]
pub enum Piece {
    /// Text, printed as it is.
    Text(String),
    /// A number, printed in fixed notation with `decimals` digits after the
    /// point and padded with spaces on the left to at least `width`
    /// characters.
    Number { value: Quantity, width: usize, decimals: usize },
}

/// The model of a [`Piece`].
pub enum PieceView {
    Text(Seq<char>),
    Number { value: Quantity, width: usize, decimals: usize },
}

impl View for Piece {
    type V = PieceView;

    open spec fn view(&self) -> PieceView {
        match self {
            Piece::Text(text) => PieceView::Text(text@),
            Piece::Number { value, width, decimals } => PieceView::Number {
                value: *value,
                width: *width,
                decimals: *decimals,
            },
        }
    }
}

/// One line of a text rendering; its model is the sequence of its pieces'
/// models.
#[derive(Debug, PartialEq, Eq)]
pub struct Line {
    pub pieces: Vec<Piece>,
}

impl View for Line {
    type V = Seq<PieceView>;

    open spec fn view(&self) -> Seq<PieceView> {
        views(self.pieces@)
    }
}

/// The number of `=` signs in a rule.
pub const RULE_WIDTH: usize = 50;

/// The digits after the point of every number in a text rendering.
pub const DECIMALS: usize = 2;

/// The width to which the size of a position is padded.
pub const POSITION_WIDTH: usize = 8;

/// The text of a rule: [`RULE_WIDTH`] times `=`.
pub open spec fn rule() -> Seq<char> {
    Seq::new(RULE_WIDTH as nat, |i: int| '=')
}

/// A line that holds `text` and nothing else.
pub open spec fn text_line(text: Seq<char>) -> Seq<PieceView> {
    seq![PieceView::Text(text)]
}

/// A number with [`DECIMALS`] digits after the point, padded to `width`.
pub open spec fn number(value: Quantity, width: usize) -> PieceView {
    PieceView::Number { value, width, decimals: DECIMALS }
}

/// The three lines that open a section: a rule, the title, a rule.
pub open spec fn banner(title: Seq<PieceView>) -> Seq<Seq<PieceView>> {
    seq![text_line(rule()), title, text_line(rule())]
}

/// The title of the market-data section, which names the symbol asked for.
pub open spec fn market_data_title(symbol: Seq<char>) -> Seq<PieceView> {
    seq![PieceView::Text("MARKET DATA: "@), PieceView::Text(symbol)]
}

/// The line of an account-summary row: `account: tag = value`, followed by a
/// space and the currency where the row has one.
pub open spec fn account_summary_line(row: AccountSummaryRowView) -> Seq<PieceView> {
    let line = seq![
        PieceView::Text("  "@),
        PieceView::Text(row.account),
        PieceView::Text(": "@),
        PieceView::Text(row.tag),
        PieceView::Text(" = "@),
        PieceView::Text(row.value),
    ];
    if row.currency.len() == 0 {
        line
    } else {
        line.push(PieceView::Text(" "@)).push(PieceView::Text(row.currency))
    }
}

/// The line of a position: size, symbol, average cost and market value.
pub open spec fn position_line(row: PositionRowView) -> Seq<PieceView> {
    seq![
        PieceView::Text("  "@),
        number(Quantity::Reported(row.position), POSITION_WIDTH),
        PieceView::Text(" "@),
        PieceView::Text(row.symbol),
        PieceView::Text(" @ $"@),
        number(Quantity::Reported(row.average_cost), 0),
        PieceView::Text(" avg (value: $"@),
        number(row.market_value(), 0),
        PieceView::Text(")"@),
    ]
}

/// The line of a tick: its label and its value.
pub open spec fn market_data_line(row: MarketDataRowView) -> Seq<PieceView> {
    seq![
        PieceView::Text("  "@),
        PieceView::Text(row.tick_type),
        PieceView::Text(": "@),
        number(Quantity::Reported(row.value), 0),
    ]
}

/// The lines of the account-summary rows, one per row, in the rows' order.
pub open spec fn account_summary_lines(rows: Seq<AccountSummaryRowView>) -> Seq<Seq<PieceView>> {
    Seq::new(rows.len(), |i: int| account_summary_line(rows[i]))
}

/// The lines of the positions, one per row, in the rows' order.
pub open spec fn position_lines(rows: Seq<PositionRowView>) -> Seq<Seq<PieceView>> {
    Seq::new(rows.len(), |i: int| position_line(rows[i]))
}

/// The lines of the ticks, one per row, in the rows' order.
pub open spec fn market_data_lines(rows: Seq<MarketDataRowView>) -> Seq<Seq<PieceView>> {
    Seq::new(rows.len(), |i: int| market_data_line(rows[i]))
}

/// What a section shows under its banner: its lines, or, where it has none,
/// the placeholder alone.
pub open spec fn body(lines: Seq<Seq<PieceView>>, placeholder: Seq<char>) -> Seq<Seq<PieceView>> {
    if lines.len() == 0 {
        seq![text_line(placeholder)]
    } else {
        lines
    }
}

/// A whole section: banner, body, and a blank line.
pub open spec fn section(
    title: Seq<PieceView>,
    lines: Seq<Seq<PieceView>>,
    placeholder: Seq<char>,
) -> Seq<Seq<PieceView>> {
    banner(title) + body(lines, placeholder) + seq![Seq::<PieceView>::empty()]
}

/// The text rendering of `report`, for a run that asked for market data of
/// `symbol`.
pub open spec fn text_lines(report: ReportResultView, symbol: Seq<char>) -> Seq<Seq<PieceView>> {
    section(
        text_line("ACCOUNT SUMMARY"@),
        account_summary_lines(report.account_summary),
        "  (no account summary)"@,
    ) + section(text_line("POSITIONS"@), position_lines(report.positions), "  (no positions)"@)
        + section(
        market_data_title(symbol),
        market_data_lines(report.market_data),
        "  (no data - may need market data subscription)"@,
    ) + seq![text_line("Done!"@)]
}

fn text(content: &str) -> (piece: Piece)
    ensures
        piece@ == PieceView::Text(content@),
{
    Piece::Text(content.to_owned())
}

fn fixed(value: Quantity, width: usize) -> (piece: Piece)
    ensures
        piece@ == number(value, width),
{
    Piece::Number { value, width, decimals: DECIMALS }
}

fn line_of(content: &str) -> (line: Line)
    ensures
        line@ == text_line(content@),
{
    let mut pieces: Vec<Piece> = Vec::new();
    pieces.push(text(content));
    let line = Line { pieces };
    assert(line@ =~= text_line(content@));
    line
}

fn rule_line() -> (line: Line)
    ensures
        line@ == text_line(rule()),
{
    let rule_text = "==================================================";
    proof {
        reveal_strlit("==================================================");
        assert(rule_text@ =~= rule());
    }
    line_of(rule_text)
}

fn render_account_summary_line(row: &AccountSummaryRow) -> (line: Line)
    ensures
        line@ == account_summary_line(row@),
{
    let mut pieces: Vec<Piece> = Vec::new();
    pieces.push(text("  "));
    pieces.push(text(row.account.as_str()));
    pieces.push(text(": "));
    pieces.push(text(row.tag.as_str()));
    pieces.push(text(" = "));
    pieces.push(text(row.value.as_str()));
    if !row.currency.as_str().is_empty() {
        pieces.push(text(" "));
        pieces.push(text(row.currency.as_str()));
    }
    let line = Line { pieces };
    assert(line@ =~= account_summary_line(row@));
    line
}

fn render_position_line(row: &PositionRow) -> (line: Line)
    ensures
        line@ == position_line(row@),
{
    let mut pieces: Vec<Piece> = Vec::new();
    pieces.push(text("  "));
    pieces.push(fixed(Quantity::Reported(row.position), POSITION_WIDTH));
    pieces.push(text(" "));
    pieces.push(text(row.symbol.as_str()));
    pieces.push(text(" @ $"));
    pieces.push(fixed(Quantity::Reported(row.average_cost), 0));
    pieces.push(text(" avg (value: $"));
    pieces.push(fixed(row.market_value(), 0));
    pieces.push(text(")"));
    let line = Line { pieces };
    assert(line@ =~= position_line(row@));
    line
}

fn render_market_data_line(row: &MarketDataRow) -> (line: Line)
    ensures
        line@ == market_data_line(row@),
{
    let mut pieces: Vec<Piece> = Vec::new();
    pieces.push(text("  "));
    pieces.push(text(row.tick_type.as_str()));
    pieces.push(text(": "));
    pieces.push(fixed(Quantity::Reported(row.value), 0));
    let line = Line { pieces };
    assert(line@ =~= market_data_line(row@));
    line
}

fn render_account_summary_lines(rows: &Vec<AccountSummaryRow>) -> (lines: Vec<Line>)
    ensures
        views(lines@) == account_summary_lines(views(rows@)),
{
    let mut lines: Vec<Line> = Vec::new();
    let mut i: usize = 0;
    while i < rows.len()
        invariant
            i <= rows.len(),
            views(lines@) =~= account_summary_lines(views(rows@)).take(i as int),
        decreases rows.len() - i,
    {
        let line = render_account_summary_line(&rows[i]);
        proof {
            lemma_views_push(lines@, line);
        }
        lines.push(line);
        i += 1;
    }
    lines
}

fn render_position_lines(rows: &Vec<PositionRow>) -> (lines: Vec<Line>)
    ensures
        views(lines@) == position_lines(views(rows@)),
{
    let mut lines: Vec<Line> = Vec::new();
    let mut i: usize = 0;
    while i < rows.len()
        invariant
            i <= rows.len(),
            views(lines@) =~= position_lines(views(rows@)).take(i as int),
        decreases rows.len() - i,
    {
        let line = render_position_line(&rows[i]);
        proof {
            lemma_views_push(lines@, line);
        }
        lines.push(line);
        i += 1;
    }
    lines
}

fn render_market_data_lines(rows: &Vec<MarketDataRow>) -> (lines: Vec<Line>)
    ensures
        views(lines@) == market_data_lines(views(rows@)),
{
    let mut lines: Vec<Line> = Vec::new();
    let mut i: usize = 0;
    while i < rows.len()
        invariant
            i <= rows.len(),
            views(lines@) =~= market_data_lines(views(rows@)).take(i as int),
        decreases rows.len() - i,
    {
        let line = render_market_data_line(&rows[i]);
        proof {
            lemma_views_push(lines@, line);
        }
        lines.push(line);
        i += 1;
    }
    lines
}

/// Appends a section to `out`: the banner with `title`, then `lines`, or the
/// placeholder where there are none, then a blank line.
fn push_section(out: &mut Vec<Line>, title: Line, lines: Vec<Line>, placeholder: &str)
    ensures
        views(final(out)@) == views(old(out)@) + section(title@, views(lines@), placeholder@),
{
    let ghost before = views(out@);
    let ghost title_model = title@;
    let ghost lines_model = views(lines@);
    let mut lines = lines;

    let first_rule = rule_line();
    proof {
        lemma_views_push(out@, first_rule);
    }
    out.push(first_rule);
    proof {
        lemma_views_push(out@, title);
    }
    out.push(title);
    let second_rule = rule_line();
    proof {
        lemma_views_push(out@, second_rule);
    }
    out.push(second_rule);
    assert(views(out@) =~= before + banner(title_model));

    if lines.len() == 0 {
        let placeholder_line = line_of(placeholder);
        proof {
            lemma_views_push(out@, placeholder_line);
        }
        out.push(placeholder_line);
    } else {
        proof {
            lemma_views_concat(out@, lines@);
        }
        out.append(&mut lines);
    }
    assert(views(out@) =~= before + banner(title_model) + body(lines_model, placeholder@));

    let blank = Line { pieces: Vec::new() };
    assert(blank@ =~= Seq::<PieceView>::empty());
    proof {
        lemma_views_push(out@, blank);
    }
    out.push(blank);
    assert(views(out@) =~= before + section(title_model, lines_model, placeholder@));
}

/// Lays `report` out as text, for a run that asked for market data of
/// `symbol`.
///
/// The three sections come in the order account summary, positions, market
/// data, each row on a line of its own in the order of its collection, and an
/// empty collection shows its placeholder line.
pub fn render_text(report: &ReportResult, symbol: &str) -> (lines: Vec<Line>)
    ensures
        views(lines@) == text_lines(report@, symbol@),
{
    let mut out: Vec<Line> = Vec::new();
    assert(views(out@) =~= Seq::<Seq<PieceView>>::empty());

    let summary = render_account_summary_lines(&report.account_summary);
    push_section(&mut out, line_of("ACCOUNT SUMMARY"), summary, "  (no account summary)");

    let positions = render_position_lines(&report.positions);
    push_section(&mut out, line_of("POSITIONS"), positions, "  (no positions)");

    let mut title: Vec<Piece> = Vec::new();
    title.push(text("MARKET DATA: "));
    title.push(text(symbol));
    let title = Line { pieces: title };
    assert(title@ =~= market_data_title(symbol@));
    let market_data = render_market_data_lines(&report.market_data);
    push_section(
        &mut out,
        title,
        market_data,
        "  (no data - may need market data subscription)",
    );

    let done = line_of("Done!");
    proof {
        lemma_views_push(out@, done);
    }
    out.push(done);
    assert(views(out@) =~= text_lines(report@, symbol@));
    out
}

} // verus!
