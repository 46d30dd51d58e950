//! The forecast model and the pipeline stages that run on it: extracting the
//! hourly symbol codes and rendering them as one glyph line.
//!
//! The model keeps exactly what the pipeline reads from a forecast document:
//! the ordered time series, and for each entry the one-hour-ahead summary
//! code when the provider supplied one.

use vstd::prelude::*;
use vstd::string::StringExecFns;

use crate::icons::{spec_symbol_icon, symbol_icon};

verus! {

/// The one-hour-ahead summary of a time-series entry.
pub struct HourSummary {
    /// The provider's condition code, e.g. `partlycloudy_day`.
    pub symbol_code: String,
}

/// One entry of the forecast's time series.
pub struct TimeseriesEntry {
    /// The entry's timestamp, kept as delivered and never interpreted.
    pub time: String,
    /// The short-range forecast block, absent when the provider gave none.
    pub next_1_hours: Option<HourSummary>,
}

/// A parsed forecast document: the chronological time series,
/// in the order the provider delivered it.
pub struct Forecast {
    pub timeseries: Vec<TimeseriesEntry>,
}

/// How many leading entries of the time series are rendered.
pub const HOURS_SHOWN: usize = 6;

/// The symbol code an entry contributes: its one-hour summary code,
/// or the empty string when the entry has no such block.
pub open spec fn entry_code(e: TimeseriesEntry) -> Seq<char> {
    match e.next_1_hours {
        Some(h) => h.symbol_code@,
        None => Seq::empty(),
    }
}

/// The codes extracted from a time series: one per entry, in order,
/// cut off after the first `HOURS_SHOWN` entries.
pub open spec fn spec_symbol_codes(entries: Seq<TimeseriesEntry>) -> Seq<Seq<char>> {
    let m = if entries.len() < HOURS_SHOWN as nat {
        entries.len()
    } else {
        HOURS_SHOWN as nat
    };
    Seq::new(m, |i: int| entry_code(entries[i]))
}

/// The glyphs for a sequence of codes, concatenated in order.
pub open spec fn spec_icon_line(codes: Seq<Seq<char>>) -> Seq<char>
    decreases codes.len(),
{
    if codes.len() == 0 {
        Seq::empty()
    } else {
        spec_icon_line(codes.drop_last()) + spec_symbol_icon(codes.last())
    }
}

/// A rendered line: a single leading separator, then the glyphs.
pub open spec fn spec_render(codes: Seq<Seq<char>>) -> Seq<char> {
    " "@ + spec_icon_line(codes)
}

impl Forecast {
    /// Walks the first `HOURS_SHOWN` entries of the time series, in order,
    /// and yields one code per entry: the entry's one-hour summary code, or
    /// the empty string when that block is absent. No entry is skipped, and
    /// a shorter series yields exactly as many codes as it has entries.
    pub fn extract_symbol_codes(&self) -> (codes: Vec<String>)
        ensures
            codes.deep_view() == spec_symbol_codes(self.timeseries@),
            codes@.len() == spec_symbol_codes(self.timeseries@).len(),
            forall|i: int|
                0 <= i < codes@.len() ==> codes@[i]@ == entry_code(self.timeseries@[i]),
    {
        let n = self.timeseries.len();
        let m = if n < HOURS_SHOWN {
            n
        } else {
            HOURS_SHOWN
        };
        let mut codes: Vec<String> = Vec::new();
        let mut i: usize = 0;
        while i < m
            invariant
                m == spec_symbol_codes(self.timeseries@).len(),
                m <= self.timeseries@.len(),
                i <= m,
                codes@.len() == i,
                forall|j: int|
                    0 <= j < i ==> codes@[j]@ == entry_code(self.timeseries@[j]),
            decreases m - i,
        {
            let code = match &self.timeseries[i].next_1_hours {
                Some(h) => h.symbol_code.clone(),
                None => String::new(),
            };
            codes.push(code);
            i += 1;
        }
        proof {
            assert(codes.deep_view() =~= spec_symbol_codes(self.timeseries@));
        }
        codes
    }

    /// Renders the forecast as one line: the separator, then one glyph for
    /// each of the first `HOURS_SHOWN` entries' codes.
    pub fn render_line(&self) -> (line: String)
        ensures
            line@ == spec_render(spec_symbol_codes(self.timeseries@)),
    {
        let codes = self.extract_symbol_codes();
        render(&codes)
    }
}

/// Renders a sequence of symbol codes: a single leading separator, then the
/// glyph of each code in order, with nothing between the glyphs.
pub fn render(codes: &Vec<String>) -> (line: String)
    ensures
        line@ == spec_render(codes.deep_view()),
{
    let ghost all = codes.deep_view();
    let mut line = String::from_str(" ");
    let mut i: usize = 0;
    while i < codes.len()
        invariant
            all == codes.deep_view(),
            all.len() == codes@.len(),
            forall|j: int| 0 <= j < all.len() ==> all[j] == codes@[j]@,
            i <= codes@.len(),
            line@ == spec_render(all.take(i as int)),
        decreases codes@.len() - i,
    {
        let icon = symbol_icon(codes[i].as_str());
        line.append(icon);
        proof {
            let t = all.take(i + 1);
            assert(t.drop_last() =~= all.take(i as int));
            assert(t.last() == all[i as int]);
        }
        i += 1;
    }
    proof {
        assert(all.take(codes@.len() as int) =~= all);
    }
    line
}

} // verus!
