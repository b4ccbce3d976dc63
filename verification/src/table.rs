//! The adaptive table renderer: an ordered run of log records and a row
//! budget become concrete cell data — formatted text, per-cell colors,
//! zebra shading — together with the measured shocker-name column width.
//! Records beyond the budget are silently dropped; the widget layer only
//! has to lay these values out.

use vstd::prelude::*;
use vstd::string::StrSliceExecFns;
use crate::color::Rgb;
use crate::color::intensity_color;
use crate::color::spec_intensity_color;
use crate::model::LogEntry;
use crate::timefmt::TS_MAX_MS;
use crate::timefmt::TS_MIN_MS;
use crate::timefmt::format_duration;
use crate::timefmt::format_time_relative;
use crate::timefmt::spec_format_duration;
use crate::timefmt::spec_format_time_relative;
use crate::timefmt::spec_u64_string;
use crate::timefmt::u64_string;

verus! {

/// Fixed character width of the time column.
pub const TIME_COL_WIDTH: u16 = 8;

/// Fixed character width of the event-type column.
pub const TYPE_COL_WIDTH: u16 = 9;

/// Fixed character width of the intensity column.
pub const INTENSITY_COL_WIDTH: u16 = 6;

/// Fixed character width of the duration column.
pub const DURATION_COL_WIDTH: u16 = 8;

/// Floor of the measured shocker-name column width, sized for its header.
pub const MIN_SHOCKER_COL_WIDTH: usize = 7;

/// One rendered data row: the six cell texts in column order, the intensity
/// foreground color, and whether the zebra shading darkens this row. Time,
/// intensity and duration cells are right-aligned, the rest left-aligned.
#[derive(Debug)]
pub struct RowData {
    pub time: String,
    pub shocker_name: String,
    pub event_type: String,
    pub intensity_text: String,
    pub intensity_fg: Rgb,
    pub duration: String,
    pub controlled_by: String,
    pub shaded: bool,
}

/// The rendered table: the visible rows in display order and the measured
/// shocker-name column width (the other columns are fixed; the actor column
/// fills the leftover space).
#[derive(Debug)]
pub struct TableData {
    pub rows: Vec<RowData>,
    pub shocker_width: usize,
}

/// The six bold header labels, in column order.
pub fn header_labels() -> (h: [&'static str; 6])
    ensures
        h@[0]@ == "Time"@,
        h@[1]@ == "Shocker"@,
        h@[2]@ == "Type"@,
        h@[3]@ == "Intensity"@,
        h@[4]@ == "Duration"@,
        h@[5]@ == "By"@,
{
    ["Time", "Shocker", "Type", "Intensity", "Duration", "By"]
}

/// What one data row must hold for the record at `index`: the relative time,
/// the record's own strings, the decimal intensity with its gradient color,
/// the formatted duration, and shading on even indices.
pub open spec fn row_matches(row: RowData, entry: LogEntry, index: int, now: int) -> bool {
    &&& row.time@ == spec_format_time_relative(entry.created_on as int, now)
    &&& row.shocker_name@ == entry.shocker_name@
    &&& row.event_type@ == entry.typ@
    &&& row.intensity_text@ == spec_u64_string(entry.intensity as nat)
    &&& row.intensity_fg == spec_intensity_color(entry.intensity as nat)
    &&& row.duration@ == spec_format_duration(entry.duration as nat)
    &&& row.controlled_by@ == entry.controlled_by.name@
    &&& row.shaded == (index % 2 == 0)
}

/// The longest shocker-name, in characters, over a run of records.
pub open spec fn spec_max_name_len(entries: Seq<LogEntry>) -> nat
    decreases entries.len(),
{
    if entries.len() == 0 {
        0
    } else {
        let rest = spec_max_name_len(entries.drop_last());
        let last = entries.last().shocker_name@.len();
        if last > rest {
            last
        } else {
            rest
        }
    }
}

/// The measured shocker-name column width over the visible records: their
/// longest name, floored at the header's width.
pub open spec fn spec_shocker_width(visible: Seq<LogEntry>) -> nat {
    let m = spec_max_name_len(visible);
    if m > MIN_SHOCKER_COL_WIDTH as nat {
        m
    } else {
        MIN_SHOCKER_COL_WIDTH as nat
    }
}

/// Render the records into cell data for a region `height` rows tall:
/// exactly `min(log.len(), height)` rows come out, each matching its record,
/// and the shocker-name column width is measured over those visible rows.
#[verifier::loop_isolation(false)]
pub fn render_table(log: &Vec<LogEntry>, height: u16, now: i64) -> (t: TableData)
    requires
        TS_MIN_MS <= now <= TS_MAX_MS,
        forall|i: int| 0 <= i < log@.len() ==> (#[trigger] log@[i]).wf(),
    ensures
        t.rows@.len() == vstd::math::min(log@.len() as int, height as int),
        forall|i: int|
            0 <= i < t.rows@.len() ==> row_matches(#[trigger] t.rows@[i], log@[i], i, now as int),
        t.shocker_width == spec_shocker_width(log@.take(t.rows@.len() as int)),
{
    let n: usize = if log.len() < height as usize {
        log.len()
    } else {
        height as usize
    };
    let mut width: usize = MIN_SHOCKER_COL_WIDTH;
    let mut i: usize = 0;
    while i < n
        invariant
            i <= n,
            width == spec_shocker_width(log@.take(i as int)),
        decreases n - i,
    {
        let l = log[i].shocker_name.as_str().unicode_len();
        if l > width {
            width = l;
        }
        proof {
            assert(log@.take(i + 1).drop_last() =~= log@.take(i as int));
            assert(log@.take(i + 1).last() == log@[i as int]);
        }
        i = i + 1;
    }
    let mut rows: Vec<RowData> = Vec::new();
    let mut j: usize = 0;
    while j < n
        invariant
            j <= n,
            rows@.len() == j,
            forall|k: int|
                0 <= k < j ==> row_matches(#[trigger] rows@[k], log@[k], k, now as int),
        decreases n - j,
    {
        let entry = &log[j];
        let row = RowData {
            time: format_time_relative(entry.created_on, now),
            shocker_name: entry.shocker_name.clone(),
            event_type: entry.typ.clone(),
            intensity_text: u64_string(entry.intensity as u64),
            intensity_fg: intensity_color(entry.intensity),
            duration: format_duration(entry.duration),
            controlled_by: entry.controlled_by.name.clone(),
            shaded: j % 2 == 0,
        };
        rows.push(row);
        j = j + 1;
    }
    TableData { rows, shocker_width: width }
}

} // verus!
