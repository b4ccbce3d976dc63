//! The frame composer: wraps the rendered table in a titled, bordered
//! region. The border takes one row at the top and one at the bottom, so
//! the table gets the remaining interior height; the bottom title shows the
//! last successful refresh as an absolute `HH:MM:SS`.

use vstd::prelude::*;
use vstd::string::StringExecFns;
use crate::model::ViewModel;
use crate::table::TableData;
use crate::table::render_table;
use crate::table::row_matches;
use crate::table::spec_shocker_width;
use crate::timefmt::TS_MAX_MS;
use crate::timefmt::TS_MIN_MS;
use crate::timefmt::hms_string;
use crate::timefmt::spec_hms;

verus! {

/// The interior height left for the table once the top and bottom border
/// rows are taken; a region too small for both borders has no interior.
pub open spec fn spec_inner_height(h: nat) -> nat {
    if h >= 2 {
        (h - 2) as nat
    } else {
        0
    }
}

/// A composed frame: the fixed top title, the right-aligned bottom title
/// with the last-refresh time, and the table data for the interior.
#[derive(Debug)]
pub struct FrameData {
    pub top_title: String,
    pub bottom_title: String,
    pub table: TableData,
}

/// Compose the full frame for a region `height` rows tall: the titles and
/// the table rendered into the interior (the region minus the two border
/// rows).
pub fn compose_frame(model: &ViewModel, height: u16, now: i64) -> (f: FrameData)
    requires
        model.wf(),
        TS_MIN_MS <= now <= TS_MAX_MS,
    ensures
        f.top_title@ == " Shock Log "@,
        f.bottom_title@ == " Last Updated: "@ + spec_hms(model.last_updated as int) + " "@,
        f.table.rows@.len() == vstd::math::min(
            model.log@.len() as int,
            spec_inner_height(height as nat) as int,
        ),
        forall|i: int|
            0 <= i < f.table.rows@.len() ==> row_matches(
                #[trigger] f.table.rows@[i],
                model.log@[i],
                i,
                now as int,
            ),
        f.table.shocker_width == spec_shocker_width(model.log@.take(f.table.rows@.len() as int)),
{
    let inner_h: u16 = if height >= 2 {
        height - 2
    } else {
        0
    };
    let table: TableData = render_table(&model.log, inner_h, now);
    let mut bottom: String = " Last Updated: ".to_owned();
    let hms: String = hms_string(model.last_updated);
    bottom.append(hms.as_str());
    bottom.append(" ");
    let top: String = " Shock Log ".to_owned();
    FrameData { top_title: top, bottom_title: bottom, table }
}

} // verus!
