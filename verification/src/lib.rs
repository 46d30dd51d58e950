//! Weather forecast glyph line library.
//!
//! Maps hourly weather symbol codes from a forecast document to icon-font
//! glyphs and renders them as a single status line: the pipeline is
//! parse, extract, map, render, with the network fetch left to the caller.

pub mod error;
pub mod forecast;
pub mod icons;
pub mod json;
pub mod parse;

pub use error::{ParseError, WeatherError};
pub use forecast::{render, Forecast, HourSummary, TimeseriesEntry};
pub use icons::symbol_icon;
pub use parse::{forecast_line, parse_forecast};
