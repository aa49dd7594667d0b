use plat_ibkr::csv_output::{render_csv, CsvSection};
use plat_ibkr::json::{render_json, JsonDocument, Member};
use plat_ibkr::render::{render, OutputFormat, Rendering};
use plat_ibkr::rows::{AccountSummaryRow, MarketDataRow, PositionRow, ReportResult};
use plat_ibkr::table::{
    tabulate_account_summary, tabulate_market_data, tabulate_positions, Cell, Record, Table,
};
use plat_ibkr::text::{render_text, Line, Piece, DECIMALS, POSITION_WIDTH, RULE_WIDTH};
use plat_ibkr::value::{Binary64, Quantity};
use serde_json::Value;

fn number(value: f64) -> Binary64 {
    Binary64 { bits: value.to_bits() }
}

fn evaluate(quantity: Quantity) -> f64 {
    match quantity {
        Quantity::Reported(value) => f64::from_bits(value.bits),
        Quantity::Product(left, right) => f64::from_bits(left.bits) * f64::from_bits(right.bits),
    }
}

fn summary_row(account: &str, tag: &str, value: &str, currency: &str) -> AccountSummaryRow {
    AccountSummaryRow {
        account: account.to_string(),
        tag: tag.to_string(),
        value: value.to_string(),
        currency: currency.to_string(),
    }
}

fn position_row(account: &str, symbol: &str, size: f64, cost: f64) -> PositionRow {
    PositionRow {
        account: account.to_string(),
        symbol: symbol.to_string(),
        position: number(size),
        average_cost: number(cost),
    }
}

fn tick_row(symbol: &str, tick_type: &str, value: f64) -> MarketDataRow {
    MarketDataRow {
        symbol: symbol.to_string(),
        tick_type: tick_type.to_string(),
        value: number(value),
    }
}

fn full_report() -> ReportResult {
    ReportResult {
        account_summary: vec![
            summary_row("DU123", "AccountType", "INDIVIDUAL", ""),
            summary_row("DU123", "NetLiquidation", "10000", "USD"),
        ],
        positions: vec![
            position_row("DU123", "AAPL", 100.0, 150.25),
            position_row("DU123", "MSFT", -2.5, 300.0),
        ],
        market_data: vec![tick_row("AAPL", "Bid", 150.25), tick_row("AAPL", "BidSize", 300.0)],
    }
}

fn without_positions() -> ReportResult {
    ReportResult {
        account_summary: vec![summary_row("DU123", "NetLiquidation", "10000", "USD")],
        positions: vec![],
        market_data: vec![tick_row("AAPL", "Bid", 150.25)],
    }
}

/// The characters of a line, as a terminal shows them.
fn line_text(line: &Line) -> String {
    let mut text = String::new();
    for piece in &line.pieces {
        match piece {
            Piece::Text(part) => text.push_str(part),
            Piece::Number { value, width, decimals } => {
                text.push_str(&format!("{:>1$.2$}", evaluate(*value), *width, *decimals));
            }
        }
    }
    text
}

fn text_of(lines: &[Line]) -> Vec<String> {
    lines.iter().map(line_text).collect()
}

/// The JSON value of a document.
fn json_value(document: &JsonDocument) -> Value {
    let mut object = serde_json::Map::new();
    for member in &document.members {
        let mut records = Vec::new();
        for record in &member.table.records {
            let mut fields = serde_json::Map::new();
            for (column, cell) in member.table.columns.iter().zip(&record.cells) {
                let value = match cell {
                    Cell::Text(text) => Value::from(text.as_str()),
                    Cell::Number(value) => Value::from(evaluate(*value)),
                };
                fields.insert(column.clone(), value);
            }
            records.push(Value::Object(fields));
        }
        object.insert(member.name.clone(), Value::Array(records));
    }
    Value::Object(object)
}

struct Field<'a>(&'a Cell);

impl serde::Serialize for Field<'_> {
    fn serialize<S: serde::Serializer>(&self, serializer: S) -> Result<S::Ok, S::Error> {
        match self.0 {
            Cell::Text(text) => serializer.serialize_str(text),
            Cell::Number(value) => serializer.serialize_f64(evaluate(*value)),
        }
    }
}

/// The CSV text of a rendering, without the labels.
fn csv_text(sections: &[CsvSection]) -> String {
    let mut out: Vec<u8> = Vec::new();
    for section in sections {
        let mut writer = csv::Writer::from_writer(Vec::new());
        writer.write_record(&section.table.columns).unwrap();
        for record in &section.table.records {
            let fields: Vec<Field> = record.cells.iter().map(Field).collect();
            writer.serialize(fields).unwrap();
        }
        out.extend(writer.into_inner().unwrap());
        if section.blank_line_after {
            out.push(b'\n');
        }
    }
    String::from_utf8(out).unwrap()
}

fn labels(sections: &[CsvSection]) -> Vec<&str> {
    sections.iter().map(|section| section.label.as_str()).collect()
}

const RULE: &str = "==================================================";

#[test]
fn text_of_a_full_report() {
    let lines = render_text(&full_report(), "AAPL");
    assert_eq!(
        text_of(&lines),
        vec![
            RULE,
            "ACCOUNT SUMMARY",
            RULE,
            "  DU123: AccountType = INDIVIDUAL",
            "  DU123: NetLiquidation = 10000 USD",
            "",
            RULE,
            "POSITIONS",
            RULE,
            "    100.00 AAPL @ $150.25 avg (value: $15025.00)",
            "     -2.50 MSFT @ $300.00 avg (value: $-750.00)",
            "",
            RULE,
            "MARKET DATA: AAPL",
            RULE,
            "  Bid: 150.25",
            "  BidSize: 300.00",
            "",
            "Done!",
        ]
    );
}

#[test]
fn text_of_an_empty_report_shows_every_placeholder() {
    let lines = render_text(&ReportResult::new(), "TSLA");
    assert_eq!(
        text_of(&lines),
        vec![
            RULE,
            "ACCOUNT SUMMARY",
            RULE,
            "  (no account summary)",
            "",
            RULE,
            "POSITIONS",
            RULE,
            "  (no positions)",
            "",
            RULE,
            "MARKET DATA: TSLA",
            RULE,
            "  (no data - may need market data subscription)",
            "",
            "Done!",
        ]
    );
}

#[test]
fn text_without_positions_keeps_the_section_with_its_placeholder() {
    let lines = text_of(&render_text(&without_positions(), "AAPL"));
    assert_eq!(lines.len(), 16);
    assert_eq!(lines[1], "ACCOUNT SUMMARY");
    assert_eq!(lines[3], "  DU123: NetLiquidation = 10000 USD");
    assert_eq!(lines[6], "POSITIONS");
    assert_eq!(lines[8], "  (no positions)");
    assert_eq!(lines[11], "MARKET DATA: AAPL");
    assert_eq!(lines[13], "  Bid: 150.25");
    assert_eq!(lines[15], "Done!");
}

#[test]
fn a_rule_is_fifty_signs_wide() {
    let lines = render_text(&ReportResult::new(), "AAPL");
    assert_eq!(RULE_WIDTH, 50);
    assert_eq!(lines[0].pieces, vec![Piece::Text("=".repeat(50))]);
    assert_eq!(lines[2], lines[0]);
}

#[test]
fn a_position_line_says_how_its_numbers_are_printed() {
    let report = ReportResult {
        account_summary: vec![],
        positions: vec![position_row("DU123", "AAPL", 100.0, 150.25)],
        market_data: vec![],
    };
    let lines = render_text(&report, "AAPL");
    assert_eq!((POSITION_WIDTH, DECIMALS), (8, 2));
    assert_eq!(
        lines[8].pieces,
        vec![
            Piece::Text("  ".to_string()),
            Piece::Number { value: Quantity::Reported(number(100.0)), width: 8, decimals: 2 },
            Piece::Text(" ".to_string()),
            Piece::Text("AAPL".to_string()),
            Piece::Text(" @ $".to_string()),
            Piece::Number { value: Quantity::Reported(number(150.25)), width: 0, decimals: 2 },
            Piece::Text(" avg (value: $".to_string()),
            Piece::Number {
                value: Quantity::Product(number(100.0), number(150.25)),
                width: 0,
                decimals: 2,
            },
            Piece::Text(")".to_string()),
        ]
    );
}

#[test]
fn csv_without_positions_is_two_tables() {
    let report = ReportResult {
        account_summary: vec![summary_row("DU123", "BuyingPower", "5000", "USD")],
        positions: vec![],
        market_data: vec![tick_row("AAPL", "Bid", 150.25)],
    };
    let sections = render_csv(&report);
    assert_eq!(sections.len(), 2);
    assert_eq!(labels(&sections), vec!["# Account Summary", "# Market Data"]);
    assert_eq!(
        csv_text(&sections),
        "account,tag,value,currency\n\
         DU123,BuyingPower,5000,USD\n\
         \n\
         symbol,tick_type,value\n\
         AAPL,Bid,150.25\n"
    );
}

#[test]
fn csv_of_three_tables() {
    let report = ReportResult {
        account_summary: vec![summary_row("DU123", "AccountType", "INDIVIDUAL", "")],
        positions: vec![position_row("DU123", "AAPL", 10.0, 150.5)],
        market_data: vec![tick_row("AAPL", "Bid", 150.25)],
    };
    let sections = render_csv(&report);
    assert_eq!(labels(&sections), vec!["# Account Summary", "# Positions", "# Market Data"]);
    assert_eq!(
        csv_text(&sections),
        "account,tag,value,currency\n\
         DU123,AccountType,INDIVIDUAL,\n\
         \n\
         account,symbol,position,average_cost,market_value\n\
         DU123,AAPL,10.0,150.5,1505.0\n\
         \n\
         symbol,tick_type,value\n\
         AAPL,Bid,150.25\n"
    );
}

#[test]
fn csv_of_a_full_report() {
    let sections = render_csv(&full_report());
    assert_eq!(labels(&sections), vec!["# Account Summary", "# Positions", "# Market Data"]);
    assert_eq!(
        csv_text(&sections),
        "account,tag,value,currency\n\
         DU123,AccountType,INDIVIDUAL,\n\
         DU123,NetLiquidation,10000,USD\n\
         \n\
         account,symbol,position,average_cost,market_value\n\
         DU123,AAPL,100.0,150.25,15025.0\n\
         DU123,MSFT,-2.5,300.0,-750.0\n\
         \n\
         symbol,tick_type,value\n\
         AAPL,Bid,150.25\n\
         AAPL,BidSize,300.0\n"
    );
}

#[test]
fn csv_of_an_empty_report_is_nothing() {
    let sections = render_csv(&ReportResult::new());
    assert!(sections.is_empty());
    assert_eq!(csv_text(&sections), "");
}

#[test]
fn csv_of_the_account_summary_alone_ends_with_its_last_record() {
    let report = ReportResult {
        account_summary: vec![summary_row("DU123", "BuyingPower", "5000", "USD")],
        positions: vec![],
        market_data: vec![],
    };
    let sections = render_csv(&report);
    assert_eq!(labels(&sections), vec!["# Account Summary"]);
    assert!(!sections[0].blank_line_after);
    assert_eq!(csv_text(&sections), "account,tag,value,currency\nDU123,BuyingPower,5000,USD\n");
}

#[test]
fn csv_of_positions_alone_ends_with_its_last_record() {
    let report = ReportResult {
        account_summary: vec![],
        positions: vec![position_row("DU123", "AAPL", 100.0, 150.25)],
        market_data: vec![],
    };
    let sections = render_csv(&report);
    assert_eq!(labels(&sections), vec!["# Positions"]);
    assert!(!sections[0].blank_line_after);
    assert_eq!(
        csv_text(&sections),
        "account,symbol,position,average_cost,market_value\n\
         DU123,AAPL,100.0,150.25,15025.0\n"
    );
}

#[test]
fn csv_of_market_data_alone_ends_with_its_last_record() {
    let report = ReportResult {
        account_summary: vec![],
        positions: vec![],
        market_data: vec![tick_row("AAPL", "Last", 151.0)],
    };
    let sections = render_csv(&report);
    assert_eq!(labels(&sections), vec!["# Market Data"]);
    assert!(!sections[0].blank_line_after);
    assert_eq!(csv_text(&sections), "symbol,tick_type,value\nAAPL,Last,151.0\n");
}

#[test]
fn csv_without_market_data_has_one_blank_line() {
    let report = ReportResult {
        account_summary: vec![summary_row("DU123", "BuyingPower", "5000", "USD")],
        positions: vec![position_row("DU123", "AAPL", 10.0, 150.5)],
        market_data: vec![],
    };
    let sections = render_csv(&report);
    assert_eq!(labels(&sections), vec!["# Account Summary", "# Positions"]);
    assert!(sections[0].blank_line_after);
    assert!(!sections[1].blank_line_after);
    assert_eq!(
        csv_text(&sections),
        "account,tag,value,currency\n\
         DU123,BuyingPower,5000,USD\n\
         \n\
         account,symbol,position,average_cost,market_value\n\
         DU123,AAPL,10.0,150.5,1505.0\n"
    );
}

#[test]
fn csv_has_a_blank_line_after_every_table_but_the_last() {
    let filled = [false, true];
    for summary in filled {
        for positions in filled {
            for market_data in filled {
                let report = ReportResult {
                    account_summary: if summary {
                        vec![summary_row("DU123", "BuyingPower", "5000", "USD")]
                    } else {
                        vec![]
                    },
                    positions: if positions {
                        vec![position_row("DU123", "AAPL", 10.0, 150.5)]
                    } else {
                        vec![]
                    },
                    market_data: if market_data {
                        vec![tick_row("AAPL", "Bid", 150.25)]
                    } else {
                        vec![]
                    },
                };
                let sections = render_csv(&report);
                let tables = [summary, positions, market_data].iter().filter(|&&on| on).count();
                assert_eq!(sections.len(), tables);
                for (i, section) in sections.iter().enumerate() {
                    assert_eq!(section.blank_line_after, i + 1 < tables);
                }
                let text = csv_text(&sections);
                let blank_lines = text.lines().filter(|line| line.is_empty()).count();
                assert_eq!(blank_lines, tables.saturating_sub(1));
                assert!(!text.starts_with('\n'));
                assert!(!text.ends_with("\n\n"));
            }
        }
    }
}

#[test]
fn csv_reads_back_as_the_rows() {
    let text = csv_text(&render_csv(&ReportResult {
        account_summary: vec![summary_row("DU123", "Note", "a \"quoted\", long value", "USD")],
        positions: vec![],
        market_data: vec![],
    }));
    let mut reader = csv::Reader::from_reader(text.as_bytes());
    let header: Vec<String> = reader.headers().unwrap().iter().map(str::to_string).collect();
    assert_eq!(header, vec!["account", "tag", "value", "currency"]);
    let records: Vec<csv::StringRecord> = reader.records().map(|record| record.unwrap()).collect();
    assert_eq!(records.len(), 1);
    assert_eq!(
        records[0].iter().collect::<Vec<&str>>(),
        vec!["DU123", "Note", "a \"quoted\", long value", "USD"]
    );
}

#[test]
fn json_decodes_to_the_three_collections() {
    let document = render_json(&full_report());
    let text = serde_json::to_string_pretty(&json_value(&document)).unwrap();
    let decoded: Value = serde_json::from_str(&text).unwrap();

    let object = decoded.as_object().unwrap();
    assert_eq!(
        object.keys().map(String::as_str).collect::<Vec<&str>>(),
        vec!["accountSummary", "positions", "marketData"]
    );

    let summary = object["accountSummary"].as_array().unwrap();
    assert_eq!(summary.len(), 2);
    for row in summary {
        let row = row.as_object().unwrap();
        assert_eq!(
            row.keys().map(String::as_str).collect::<Vec<&str>>(),
            vec!["account", "tag", "value", "currency"]
        );
        assert!(row.values().all(Value::is_string));
    }
    assert_eq!(summary[0]["tag"], Value::from("AccountType"));
    assert_eq!(summary[0]["currency"], Value::from(""));
    assert_eq!(summary[1]["value"], Value::from("10000"));

    let positions = object["positions"].as_array().unwrap();
    assert_eq!(positions.len(), 2);
    for row in positions {
        let row = row.as_object().unwrap();
        assert_eq!(
            row.keys().map(String::as_str).collect::<Vec<&str>>(),
            vec!["account", "symbol", "position", "averageCost", "marketValue"]
        );
        assert!(row["account"].is_string() && row["symbol"].is_string());
        assert!(row["position"].is_f64());
        assert!(row["averageCost"].is_f64());
        assert!(row["marketValue"].is_f64());
    }
    assert_eq!(positions[0]["symbol"], Value::from("AAPL"));
    assert_eq!(positions[0]["position"].as_f64(), Some(100.0));
    assert_eq!(positions[0]["averageCost"].as_f64(), Some(150.25));
    assert_eq!(positions[0]["marketValue"].as_f64(), Some(15025.0));
    assert_eq!(positions[1]["marketValue"].as_f64(), Some(-750.0));

    let market_data = object["marketData"].as_array().unwrap();
    assert_eq!(market_data.len(), 2);
    for row in market_data {
        let row = row.as_object().unwrap();
        assert_eq!(
            row.keys().map(String::as_str).collect::<Vec<&str>>(),
            vec!["symbol", "tickType", "value"]
        );
        assert!(row["symbol"].is_string() && row["tickType"].is_string());
        assert!(row["value"].is_f64());
    }
    assert_eq!(market_data[1]["tickType"], Value::from("BidSize"));
    assert_eq!(market_data[1]["value"].as_f64(), Some(300.0));
}

#[test]
fn json_of_an_empty_report_has_three_empty_collections() {
    let document = render_json(&ReportResult::new());
    let text = serde_json::to_string_pretty(&json_value(&document)).unwrap();
    assert_eq!(
        text,
        "{\n  \"accountSummary\": [],\n  \"positions\": [],\n  \"marketData\": []\n}"
    );
    let decoded: Value = serde_json::from_str(&text).unwrap();
    let object = decoded.as_object().unwrap();
    assert_eq!(object.len(), 3);
    for name in ["accountSummary", "positions", "marketData"] {
        assert_eq!(object[name], Value::Array(vec![]));
    }
}

#[test]
fn json_keeps_the_empty_collection_of_a_refused_subscription() {
    let document = render_json(&without_positions());
    assert_eq!(document.members.len(), 3);
    assert_eq!(document.members[1].name, "positions");
    assert!(document.members[1].table.records.is_empty());
    let value = json_value(&document);
    assert_eq!(value["positions"], Value::Array(vec![]));
    assert_eq!(value["accountSummary"].as_array().unwrap().len(), 1);
    assert_eq!(value["marketData"].as_array().unwrap().len(), 1);
}

#[test]
fn records_hold_the_fields_of_their_rows() {
    let report = full_report();
    let summary = tabulate_account_summary(&report.account_summary);
    assert_eq!(summary.len(), 2);
    assert_eq!(
        summary[0],
        Record {
            cells: vec![
                Cell::Text("DU123".to_string()),
                Cell::Text("AccountType".to_string()),
                Cell::Text("INDIVIDUAL".to_string()),
                Cell::Text("".to_string()),
            ],
        }
    );

    let positions = tabulate_positions(&report.positions);
    assert_eq!(
        positions,
        vec![
            Record {
                cells: vec![
                    Cell::Text("DU123".to_string()),
                    Cell::Text("AAPL".to_string()),
                    Cell::Number(Quantity::Reported(number(100.0))),
                    Cell::Number(Quantity::Reported(number(150.25))),
                    Cell::Number(Quantity::Product(number(100.0), number(150.25))),
                ],
            },
            Record {
                cells: vec![
                    Cell::Text("DU123".to_string()),
                    Cell::Text("MSFT".to_string()),
                    Cell::Number(Quantity::Reported(number(-2.5))),
                    Cell::Number(Quantity::Reported(number(300.0))),
                    Cell::Number(Quantity::Product(number(-2.5), number(300.0))),
                ],
            },
        ]
    );

    let market_data = tabulate_market_data(&report.market_data);
    assert_eq!(market_data.len(), 2);
    assert_eq!(
        market_data[1].cells,
        vec![
            Cell::Text("AAPL".to_string()),
            Cell::Text("BidSize".to_string()),
            Cell::Number(Quantity::Reported(number(300.0))),
        ]
    );
}

#[test]
fn the_two_layouts_name_their_columns_their_own_way() {
    let report = full_report();
    let document = render_json(&report);
    let sections = render_csv(&report);

    assert_eq!(document.members[0].table.columns, vec!["account", "tag", "value", "currency"]);
    assert_eq!(
        document.members[1],
        Member {
            name: "positions".to_string(),
            table: Table {
                columns: vec![
                    "account".to_string(),
                    "symbol".to_string(),
                    "position".to_string(),
                    "averageCost".to_string(),
                    "marketValue".to_string(),
                ],
                records: tabulate_positions(&report.positions),
            },
        }
    );
    assert_eq!(document.members[2].table.columns, vec!["symbol", "tickType", "value"]);

    assert_eq!(sections[0].table.columns, vec!["account", "tag", "value", "currency"]);
    assert_eq!(
        sections[1].table.columns,
        vec!["account", "symbol", "position", "average_cost", "market_value"]
    );
    assert_eq!(sections[2].table.columns, vec!["symbol", "tick_type", "value"]);
    for (member, section) in document.members.iter().zip(&sections) {
        assert_eq!(member.table.records, section.table.records);
    }
}

#[test]
fn render_lays_out_in_the_format_asked_for() {
    let report = full_report();
    assert_eq!(
        render(&report, "AAPL", OutputFormat::Text),
        Rendering::Text(render_text(&report, "AAPL"))
    );
    assert_eq!(render(&report, "AAPL", OutputFormat::Json), Rendering::Json(render_json(&report)));
    assert_eq!(render(&report, "AAPL", OutputFormat::Csv), Rendering::Csv(render_csv(&report)));
}
