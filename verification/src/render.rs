//! The choice among the three layouts.

use vstd::prelude::*;
use crate::csv_output::{csv_sections, render_csv, CsvSection, CsvSectionView};
use crate::json::{json_members, render_json, JsonDocument};
use crate::model::views;
use crate::rows::{ReportResult, ReportResultView};
use crate::json::MemberView;
use crate::text::{render_text, text_lines, Line, PieceView};

verus! {

/// The layout of a rendering. A run picks one, once.
#[derive(Clone, Copy, Debug, PartialEq, Eq, Structural)]
pub enum OutputFormat {
    Text,
    Json,
    Csv,
}

/// A report laid out in one of the three formats.
#[derive(Debug, PartialEq, Eq)]
pub enum Rendering {
    /// Lines of text, top to bottom.
    Text(Vec<Line>),
    /// One JSON document.
    Json(JsonDocument),
    /// CSV tables, first to last.
    Csv(Vec<CsvSection>),
}

/// The model of a [`Rendering`].
pub enum RenderingView {
    Text(Seq<Seq<PieceView>>),
    Json(Seq<MemberView>),
    Csv(Seq<CsvSectionView>),
}

impl View for Rendering {
    type V = RenderingView;

    open spec fn view(&self) -> RenderingView {
        match self {
            Rendering::Text(lines) => RenderingView::Text(views(lines@)),
            Rendering::Json(document) => RenderingView::Json(document@),
            Rendering::Csv(sections) => RenderingView::Csv(views(sections@)),
        }
    }
}

/// The rendering of `report` in `format`, for a run that asked for market
/// data of `symbol`. Only the text layout shows the symbol.
pub open spec fn rendered(
    report: ReportResultView,
    symbol: Seq<char>,
    format: OutputFormat,
) -> RenderingView {
    match format {
        OutputFormat::Text => RenderingView::Text(text_lines(report, symbol)),
        OutputFormat::Json => RenderingView::Json(json_members(report)),
        OutputFormat::Csv => RenderingView::Csv(csv_sections(report)),
    }
}

/// Lays `report` out in `format`.
pub fn render(report: &ReportResult, symbol: &str, format: OutputFormat) -> (rendering: Rendering)
    ensures
        rendering@ == rendered(report@, symbol@, format),
{
    match format {
        OutputFormat::Text => Rendering::Text(render_text(report, symbol)),
        OutputFormat::Json => Rendering::Json(render_json(report)),
        OutputFormat::Csv => Rendering::Csv(render_csv(report)),
    }
}

} // verus!
