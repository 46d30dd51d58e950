use weatherbar::{
    forecast_line, parse_forecast, render, symbol_icon, Forecast, HourSummary, ParseError,
    TimeseriesEntry, WeatherError,
};

fn entry(code: Option<&str>) -> TimeseriesEntry {
    TimeseriesEntry {
        time: "2024-01-01T00:00:00Z".to_string(),
        next_1_hours: code.map(|c| HourSummary { symbol_code: c.to_string() }),
    }
}

fn doc_of(codes: Vec<Option<&str>>) -> Forecast {
    Forecast { timeseries: codes.into_iter().map(entry).collect() }
}

#[test]
fn total_mapping_never_empty() {
    let inputs = [
        "",
        "clearsky",
        "clearsky_day",
        "nounderscore",
        "_",
        "__",
        "rain_showers_extra",
        "tornado",
        "SNOW",
        "snow ",
        "\u{f071}",
    ];
    for input in inputs {
        let glyph = symbol_icon(input);
        assert!(!glyph.is_empty());
        assert_eq!(glyph.chars().count(), 2);
    }
}

#[test]
fn suffix_is_stripped() {
    assert_eq!(symbol_icon("partlycloudy_day"), symbol_icon("partlycloudy"));
    assert_eq!(symbol_icon("partlycloudy_night"), symbol_icon("partlycloudy"));
    assert_eq!(symbol_icon("clearsky_polartwilight"), symbol_icon("clearsky"));
    assert_eq!(symbol_icon("fog_day"), symbol_icon("fog"));
}

#[test]
fn unknown_code_falls_back_to_default() {
    assert_eq!(symbol_icon("tornado_extreme"), symbol_icon(""));
    assert_eq!(symbol_icon(""), "\u{f071} ");
    assert_eq!(symbol_icon("drizzle"), "\u{f071} ");
}

#[test]
fn known_codes_map_to_their_glyphs() {
    assert_eq!(symbol_icon("clearsky"), "\u{f06e} ");
    assert_eq!(symbol_icon("cloudy"), "\u{f013} ");
    assert_eq!(symbol_icon("fair"), "\u{f002} ");
    assert_eq!(symbol_icon("fog"), "\u{f014} ");
    assert_eq!(symbol_icon("rain"), "\u{f01a} ");
    assert_eq!(symbol_icon("rainandthunder"), "\u{f01d} ");
    assert_eq!(symbol_icon("partlycloudy"), "\u{f002} ");
    assert_eq!(symbol_icon("heavysnowshowersandthunder"), "\u{f06b} ");
    assert_eq!(symbol_icon("lightssleetshowersandthunder"), "\u{f068} ");
    assert_eq!(symbol_icon("snowshowers"), "\u{f00a} ");
}

#[test]
fn extraction_is_capped_at_six() {
    let doc = doc_of(vec![Some("rain"); 10]);
    assert_eq!(doc.extract_symbol_codes().len(), 6);
}

#[test]
fn extraction_keeps_short_series_whole() {
    let doc = doc_of(vec![Some("rain"), Some("fog"), Some("cloudy")]);
    let codes = doc.extract_symbol_codes();
    assert_eq!(codes, vec!["rain", "fog", "cloudy"]);
}

#[test]
fn missing_hour_yields_empty_code_in_place() {
    let doc = doc_of(vec![Some("rain"), None, Some("fog")]);
    let codes = doc.extract_symbol_codes();
    assert_eq!(codes, vec!["rain", "", "fog"]);
}

#[test]
fn empty_series_yields_no_codes() {
    let doc = doc_of(vec![]);
    assert!(doc.extract_symbol_codes().is_empty());
}

#[test]
fn render_prepends_separator_and_concatenates() {
    assert_eq!(render(&vec![]), " ");
    assert_eq!(render(&vec!["cloudy".to_string()]), " \u{f013} ");
    assert_eq!(
        render(&vec!["cloudy".to_string(), "".to_string()]),
        " \u{f013} \u{f071} "
    );
}

#[test]
fn end_to_end_six_hours() {
    let doc = doc_of(vec![
        Some("clearsky_day"),
        Some("cloudy"),
        Some("rain"),
        Some("rainandthunder"),
        Some("fog"),
        Some("partlycloudy_night"),
    ]);
    assert_eq!(
        doc.render_line(),
        " \u{f06e} \u{f013} \u{f01a} \u{f01d} \u{f014} \u{f002} "
    );
}

fn entry_json(code: Option<&str>) -> String {
    match code {
        Some(c) => format!(
            r#"{{"time":"2024-01-01T00:00:00Z","data":{{"instant":{{"details":{{}}}},"next_1_hours":{{"summary":{{"symbol_code":"{}"}},"details":{{}}}}}}}}"#,
            c
        ),
        None => r#"{"time":"2024-01-01T00:00:00Z","data":{"instant":{"details":{}}}}"#.to_string(),
    }
}

fn doc_json(codes: Vec<Option<&str>>) -> String {
    let entries: Vec<String> = codes.into_iter().map(entry_json).collect();
    format!(
        r#"{{"type":"Feature","geometry":{{"type":"Point","coordinates":[11.47005,60.12237,170]}},"properties":{{"meta":{{"units":{{}}}},"timeseries":[{}]}}}}"#,
        entries.join(",")
    )
}

#[test]
fn parse_accepts_well_formed_document() {
    let body = doc_json(vec![Some("rain"), None, Some("snow_day")]);
    let doc = parse_forecast(&body).ok().expect("document should parse");
    assert_eq!(doc.timeseries.len(), 3);
    assert_eq!(
        doc.timeseries[0].next_1_hours.as_ref().map(|h| h.symbol_code.as_str()),
        Some("rain")
    );
    assert!(doc.timeseries[1].next_1_hours.is_none());
    assert_eq!(
        doc.timeseries[2].next_1_hours.as_ref().map(|h| h.symbol_code.as_str()),
        Some("snow_day")
    );
}

#[test]
fn forecast_line_from_body() {
    let body = doc_json(vec![Some("rain"), None]);
    let line = forecast_line(&body).ok().expect("body should render");
    assert_eq!(line, " \u{f01a} \u{f071} ");
}

#[test]
fn forecast_line_caps_at_six_hours() {
    let body = doc_json(vec![Some("cloudy"); 9]);
    let line = forecast_line(&body).ok().expect("body should render");
    assert_eq!(line, " \u{f013} \u{f013} \u{f013} \u{f013} \u{f013} \u{f013} ");
}

#[test]
fn unknown_extra_fields_are_ignored() {
    let body = r#"{"type":"Feature","geometry":{},"extra":1,"properties":{"meta":{},"other":[],"timeseries":[{"time":"t","note":null,"data":{"instant":{},"next_1_hours":{"summary":{"symbol_code":"fog","more":2},"details":{}}}}]}}"#;
    assert_eq!(forecast_line(body).unwrap(), " \u{f014} ");
}

#[test]
fn invalid_json_is_a_syntax_error() {
    let r = forecast_line("{not json");
    assert!(matches!(r, Err(ParseError::Syntax)));
}

#[test]
fn syntax_error_reports_and_exits_nonzero() {
    let e = match forecast_line("{not json") {
        Err(e) => WeatherError::Parse(e),
        Ok(_) => panic!("invalid JSON must not parse"),
    };
    assert_ne!(e.exit_code(), 0);
    assert!(!e.message().is_empty());
    assert_eq!(e.message(), "parse failed: response body is not valid JSON");
}

#[test]
fn missing_required_field_is_a_structure_error() {
    let body = r#"{"type":"Feature","geometry":{}}"#;
    match forecast_line(body) {
        Err(ParseError::Structure(path)) => assert_eq!(path, "properties"),
        other => panic!("expected a structure error, got {:?}", other.is_ok()),
    }
}

#[test]
fn mistyped_timeseries_is_a_structure_error() {
    let body = r#"{"type":"Feature","geometry":{},"properties":{"meta":{},"timeseries":5}}"#;
    match forecast_line(body) {
        Err(ParseError::Structure(path)) => assert_eq!(path, "properties.timeseries"),
        other => panic!("expected a structure error, got {:?}", other.is_ok()),
    }
}

#[test]
fn missing_symbol_code_is_a_structure_error() {
    let body = r#"{"type":"Feature","geometry":{},"properties":{"meta":{},"timeseries":[{"time":"t","data":{"instant":{},"next_1_hours":{"summary":{},"details":{}}}}]}}"#;
    match forecast_line(body) {
        Err(ParseError::Structure(path)) => {
            assert_eq!(path, "properties.timeseries.data.next_1_hours.summary.symbol_code")
        }
        other => panic!("expected a structure error, got {:?}", other.is_ok()),
    }
}

#[test]
fn null_hour_block_counts_as_absent() {
    let body = r#"{"type":"Feature","geometry":{},"properties":{"meta":{},"timeseries":[{"time":"t","data":{"instant":{},"next_1_hours":null}}]}}"#;
    let doc = parse_forecast(body).ok().expect("document should parse");
    assert!(doc.timeseries[0].next_1_hours.is_none());
    assert_eq!(forecast_line(body).unwrap(), " \u{f071} ");
}

#[test]
fn fetch_failure_reports_and_exits_nonzero() {
    let e = WeatherError::Fetch;
    assert_ne!(e.exit_code(), 0);
    assert_eq!(e.exit_code(), 1);
    assert_eq!(e.message(), "fetch failed: transport error or timeout");
}

#[test]
fn structure_error_message_names_the_field() {
    let e = WeatherError::Parse(ParseError::Structure("properties.meta".to_string()));
    assert_eq!(e.message(), "parse failed: missing or mistyped field properties.meta");
    assert_eq!(e.exit_code(), 2);
}
