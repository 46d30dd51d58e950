//! The forecast parser: decodes a response body into a [`Forecast`].
//!
//! The body is first read as a JSON tree by `serde_json`; the tree is then
//! checked strictly against the document layout: every field of the layout
//! must be present with the right type, while unknown fields are ignored and
//! the optional forward-looking blocks may be absent. Only the consumed path
//! (`properties.timeseries[].data.next_1_hours.summary.symbol_code`) is kept;
//! the fields the pipeline never reads are required to exist but stay opaque.
//!
//! The layout and what a document encodes are spelled out as spec functions
//! over [`JsonTree`]; the decode functions promise success exactly on
//! documents that match the layout, and a decoded forecast carries exactly
//! the times and symbol codes the document encodes.

use vstd::prelude::*;
use vstd::string::StringExecFns;

use crate::error::ParseError;
use crate::forecast::{spec_render, spec_symbol_codes, Forecast, HourSummary, TimeseriesEntry,
    HOURS_SHOWN};
use crate::json::{get_field, json_doc, json_parses, parse_json, value_as_array, value_as_str,
    value_is_null, value_model, JsonTree};

use serde_json;

verus! {

/// Whether `t` is an object that holds `key`.
pub open spec fn has_field(t: JsonTree, key: Seq<char>) -> bool {
    t matches JsonTree::Object(m) && m.contains_key(key)
}

/// The value under `key`; meaningful only when `has_field` holds.
pub open spec fn field_of(t: JsonTree, key: Seq<char>) -> JsonTree
    recommends
        has_field(t, key),
{
    t->Object_0[key]
}

/// Whether an entry's `data` block carries a one-hour forecast:
/// the field is there and is not null.
pub open spec fn hour_present(data: JsonTree) -> bool {
    has_field(data, "next_1_hours"@) && !(field_of(data, "next_1_hours"@) is Null)
}

/// The layout of a present one-hour block: `summary.symbol_code` must be a
/// string and `details` must be there.
pub open spec fn hour_wf(block: JsonTree) -> bool {
    &&& has_field(block, "summary"@)
    &&& has_field(field_of(block, "summary"@), "symbol_code"@)
    &&& field_of(field_of(block, "summary"@), "symbol_code"@) is Text
    &&& has_field(block, "details"@)
}

/// The layout of one time-series entry: `time` a string, `data` an object
/// holding `instant`, and a well-formed hour block when one is there.
pub open spec fn entry_wf(t: JsonTree) -> bool {
    &&& has_field(t, "time"@)
    &&& field_of(t, "time"@) is Text
    &&& has_field(t, "data"@)
    &&& has_field(field_of(t, "data"@), "instant"@)
    &&& (hour_present(field_of(t, "data"@)) ==> hour_wf(
        field_of(field_of(t, "data"@), "next_1_hours"@),
    ))
}

/// The timestamp text an entry encodes.
pub open spec fn entry_time(t: JsonTree) -> Seq<char> {
    field_of(t, "time"@)->Text_0
}

/// The symbol code an entry encodes: the text under
/// `data.next_1_hours.summary.symbol_code`, absent with the hour block.
pub open spec fn entry_hour_code(t: JsonTree) -> Option<Seq<char>> {
    let data = field_of(t, "data"@);
    if hour_present(data) {
        Some(
            field_of(
                field_of(field_of(data, "next_1_hours"@), "summary"@),
                "symbol_code"@,
            )->Text_0,
        )
    } else {
        None
    }
}

/// The entries of the document's time series.
pub open spec fn doc_series(t: JsonTree) -> Seq<JsonTree> {
    field_of(field_of(t, "properties"@), "timeseries"@)->Array_0
}

/// The layout of a whole document: `type` a string, `geometry`,
/// `properties.meta` and `properties.timeseries` there, the series an array
/// of well-formed entries.
pub open spec fn doc_wf(t: JsonTree) -> bool {
    &&& has_field(t, "type"@)
    &&& field_of(t, "type"@) is Text
    &&& has_field(t, "geometry"@)
    &&& has_field(t, "properties"@)
    &&& has_field(field_of(t, "properties"@), "meta"@)
    &&& has_field(field_of(t, "properties"@), "timeseries"@)
    &&& field_of(field_of(t, "properties"@), "timeseries"@) is Array
    &&& (forall|i: int|
        0 <= i < doc_series(t).len() ==> entry_wf(#[trigger] doc_series(t)[i]))
}

/// Whether a decoded entry carries exactly what the entry `t` encodes.
pub open spec fn entry_models(e: TimeseriesEntry, t: JsonTree) -> bool {
    &&& e.time@ == entry_time(t)
    &&& match entry_hour_code(t) {
        Some(c) => e.next_1_hours matches Some(h) && h.symbol_code@ == c,
        None => e.next_1_hours is None,
    }
}

/// Whether a decoded forecast carries exactly what the document `t` encodes:
/// one entry per series element, in order.
pub open spec fn forecast_models(doc: Forecast, t: JsonTree) -> bool {
    &&& doc.timeseries@.len() == doc_series(t).len()
    &&& (forall|i: int|
        0 <= i < doc_series(t).len() ==> entry_models(
            doc.timeseries@[i],
            #[trigger] doc_series(t)[i],
        ))
}

/// The symbol codes a document's first entries encode, one per entry, the
/// empty string for an entry without an hour block, capped at `HOURS_SHOWN`.
pub open spec fn tree_symbol_codes(t: JsonTree) -> Seq<Seq<char>> {
    let entries = doc_series(t);
    let m = if entries.len() < HOURS_SHOWN as nat {
        entries.len()
    } else {
        HOURS_SHOWN as nat
    };
    Seq::new(
        m,
        |i: int|
            match entry_hour_code(entries[i]) {
                Some(c) => c,
                None => Seq::empty(),
            },
    )
}

/// A forecast that models a document yields the document's own codes.
proof fn lemma_models_codes(doc: Forecast, t: JsonTree)
    requires
        forecast_models(doc, t),
    ensures
        spec_symbol_codes(doc.timeseries@) == tree_symbol_codes(t),
{
    assert forall|i: int|
        0 <= i < tree_symbol_codes(t).len() implies spec_symbol_codes(doc.timeseries@)[i]
        == tree_symbol_codes(t)[i] by {
        assert(entry_models(doc.timeseries@[i], doc_series(t)[i]));
    }
    assert(spec_symbol_codes(doc.timeseries@) =~= tree_symbol_codes(t));
}

/// A field required by the document layout: the value under the key, or a
/// structure error naming the field's path.
fn require_field<'a>(v: &'a serde_json::Value, key: &str, path: &str) -> (r: Result<
    &'a serde_json::Value,
    ParseError,
>)
    ensures
        r is Ok <==> has_field(value_model(*v), key@),
        r matches Ok(f) ==> value_model(*f) == field_of(value_model(*v), key@),
        r matches Err(e) ==> e matches ParseError::Structure(p) && p@ == path@,
{
    match get_field(v, key) {
        Some(f) => Ok(f),
        None => Err(ParseError::Structure(String::from_str(path))),
    }
}

/// A required string field: its text, or a structure error naming the path.
fn require_string<'a>(v: &'a serde_json::Value, key: &str, path: &str) -> (r: Result<
    &'a str,
    ParseError,
>)
    ensures
        r is Ok <==> has_field(value_model(*v), key@) && field_of(value_model(*v), key@) is Text,
        r matches Ok(s) ==> field_of(value_model(*v), key@) == JsonTree::Text(s@),
        r matches Err(e) ==> e matches ParseError::Structure(p) && p@ == path@,
{
    match get_field(v, key) {
        Some(f) => match value_as_str(f) {
            Some(s) => Ok(s),
            None => Err(ParseError::Structure(String::from_str(path))),
        },
        None => Err(ParseError::Structure(String::from_str(path))),
    }
}

/// Decodes one time-series entry: succeeds exactly on a well-formed entry,
/// and then carries exactly the time and optional symbol code it encodes.
fn decode_entry(v: &serde_json::Value) -> (r: Result<TimeseriesEntry, ParseError>)
    ensures
        r is Ok <==> entry_wf(value_model(*v)),
        r matches Ok(e) ==> entry_models(e, value_model(*v)),
        r matches Err(e) ==> e is Structure,
{
    let time = require_string(v, "time", "properties.timeseries.time")?;
    let data = require_field(v, "data", "properties.timeseries.data")?;
    let _instant = require_field(data, "instant", "properties.timeseries.data.instant")?;
    let next_1_hours = match get_field(data, "next_1_hours") {
        None => None,
        Some(block) => {
            if value_is_null(block) {
                None
            } else {
                let summary = require_field(
                    block,
                    "summary",
                    "properties.timeseries.data.next_1_hours.summary",
                )?;
                let code = require_string(
                    summary,
                    "symbol_code",
                    "properties.timeseries.data.next_1_hours.summary.symbol_code",
                )?;
                let _details = require_field(
                    block,
                    "details",
                    "properties.timeseries.data.next_1_hours.details",
                )?;
                Some(HourSummary { symbol_code: String::from_str(code) })
            }
        },
    };
    Ok(TimeseriesEntry { time: String::from_str(time), next_1_hours })
}

/// Decodes every element of the `timeseries` array, in order: succeeds
/// exactly when every element is a well-formed entry, with one decoded entry
/// per element; fails with the first structure error otherwise.
fn decode_timeseries(arr: &Vec<serde_json::Value>) -> (r: Result<Vec<TimeseriesEntry>, ParseError>)
    ensures
        r is Ok <==> (forall|i: int|
            0 <= i < arr@.len() ==> entry_wf(value_model(#[trigger] arr@[i]))),
        r matches Ok(entries) ==> entries@.len() == arr@.len() && (forall|i: int|
            0 <= i < arr@.len() ==> entry_models(entries@[i], value_model(#[trigger] arr@[i]))),
        r matches Err(e) ==> e is Structure,
{
    let mut entries: Vec<TimeseriesEntry> = Vec::new();
    let mut i: usize = 0;
    while i < arr.len()
        invariant
            i <= arr@.len(),
            entries@.len() == i,
            forall|j: int| 0 <= j < i ==> entry_wf(value_model(#[trigger] arr@[j])),
            forall|j: int|
                0 <= j < i ==> entry_models(entries@[j], value_model(#[trigger] arr@[j])),
        decreases arr@.len() - i,
    {
        let entry = match decode_entry(&arr[i]) {
            Ok(e) => e,
            Err(e) => {
                proof {
                    assert(!entry_wf(value_model(arr@[i as int])));
                }
                return Err(e);
            },
        };
        entries.push(entry);
        i += 1;
    }
    Ok(entries)
}

/// Decodes the whole document: succeeds exactly on a document that matches
/// the layout, and then carries exactly the entries the document encodes.
fn decode_forecast(v: &serde_json::Value) -> (r: Result<Forecast, ParseError>)
    ensures
        r is Ok <==> doc_wf(value_model(*v)),
        r matches Ok(doc) ==> forecast_models(doc, value_model(*v)),
        r matches Err(e) ==> e is Structure,
{
    let ghost t = value_model(*v);
    let _kind = require_string(v, "type", "type")?;
    let _geometry = require_field(v, "geometry", "geometry")?;
    let properties = require_field(v, "properties", "properties")?;
    let _meta = require_field(properties, "meta", "properties.meta")?;
    let timeseries_v = require_field(properties, "timeseries", "properties.timeseries")?;
    let arr = match value_as_array(timeseries_v) {
        Some(a) => a,
        None => {
            return Err(ParseError::Structure(String::from_str("properties.timeseries")));
        },
    };
    let ghost ts = doc_series(t);
    proof {
        assert(arr@.len() == ts.len());
        assert forall|i: int| 0 <= i < ts.len() implies value_model(#[trigger] arr@[i])
            == ts[i] by {}
    }
    let timeseries = match decode_timeseries(arr) {
        Ok(entries) => entries,
        Err(e) => {
            proof {
                assert(exists|i: int|
                    0 <= i < arr@.len() && !entry_wf(value_model(#[trigger] arr@[i])));
                let i = choose|i: int|
                    0 <= i < arr@.len() && !entry_wf(value_model(#[trigger] arr@[i]));
                assert(!entry_wf(ts[i]));
            }
            return Err(e);
        },
    };
    proof {
        assert forall|i: int| 0 <= i < ts.len() implies entry_wf(#[trigger] ts[i]) by {
            assert(entry_wf(value_model(arr@[i])));
        }
        assert forall|i: int|
            0 <= i < ts.len() implies entry_models(timeseries@[i], #[trigger] ts[i]) by {
            assert(entry_models(timeseries@[i], value_model(arr@[i])));
        }
    }
    Ok(Forecast { timeseries })
}

/// Parses a response body into a forecast: a syntax error exactly when the
/// body is not JSON, a structure error exactly when the document it encodes
/// does not match the layout, and otherwise the forecast carrying exactly
/// the entries the document encodes.
pub fn parse_forecast(body: &str) -> (r: Result<Forecast, ParseError>)
    ensures
        r is Ok <==> json_parses(body@) && doc_wf(json_doc(body@)),
        r matches Ok(doc) ==> forecast_models(doc, json_doc(body@)),
        (r matches Err(e) && e is Syntax) <==> !json_parses(body@),
{
    match parse_json(body) {
        Err(_) => Err(ParseError::Syntax),
        Ok(v) => decode_forecast(&v),
    }
}

/// The whole computation of a run, from response body to output line: parse
/// the body, take the first six hourly codes, map each to its glyph, and
/// render them behind a single leading separator. Succeeds exactly when the
/// body is a document matching the layout, and then the line is exactly the
/// rendering of the codes the document encodes.
pub fn forecast_line(body: &str) -> (r: Result<String, ParseError>)
    ensures
        r is Ok <==> json_parses(body@) && doc_wf(json_doc(body@)),
        r matches Ok(line) ==> line@ == spec_render(tree_symbol_codes(json_doc(body@))),
        (r matches Err(e) && e is Syntax) <==> !json_parses(body@),
{
    match parse_forecast(body) {
        Err(e) => Err(e),
        Ok(doc) => {
            let line = doc.render_line();
            proof {
                lemma_models_codes(doc, json_doc(body@));
            }
            Ok(line)
        },
    }
}

} // verus!
