//! A point in time as plain calendar fields, and its two textual renderings:
//! the protocol form used in query flags and the filesystem-safe form used in
//! output file names.

use vstd::prelude::*;
use vstd::string::*;

use crate::text::{pad2_text, pad4_text, u32_pad2, u32_pad4};

verus! {

/// A UTC instant, second precision.
#[derive(Debug, Clone, Copy, PartialEq, Eq, Structural)]
pub struct Timestamp {
    pub year: u16,
    pub month: u8,
    pub day: u8,
    pub hour: u8,
    pub minute: u8,
    pub second: u8,
}

impl Timestamp {
    /// Field ranges of a rendered calendar time.
    pub open spec fn wf(self) -> bool {
        &&& self.year <= 9999
        &&& 1 <= self.month <= 12
        &&& 1 <= self.day <= 31
        &&& self.hour <= 23
        &&& self.minute <= 59
        &&& self.second <= 59
    }

    /// Decides whether the fields are in rendering range.
    pub fn is_wf(&self) -> (r: bool)
        ensures
            r == self.wf(),
    {
        self.year <= 9999 && 1 <= self.month && self.month <= 12 && 1 <= self.day && self.day <= 31
            && self.hour <= 23 && self.minute <= 59 && self.second <= 59
    }
}

/// The two timestamp renderings in use: `Protocol` for `--from`/`--to` query
/// flags, `FileName` for naming output files.
#[derive(Debug, Clone, Copy, PartialEq, Eq, Structural)]
pub enum TimeFormat {
    Protocol,
    FileName,
}

/// The exact text of `ts` under `fmt`.
pub open spec fn ts_text(ts: Timestamp, fmt: TimeFormat) -> Seq<char> {
    match fmt {
        TimeFormat::Protocol => pad4_text(ts.year as nat) + seq!['-'] + pad2_text(ts.month as nat)
            + seq!['-'] + pad2_text(ts.day as nat) + seq!['T'] + pad2_text(ts.hour as nat)
            + seq![':'] + pad2_text(ts.minute as nat) + seq![':'] + pad2_text(ts.second as nat)
            + seq!['Z'],
        TimeFormat::FileName => pad4_text(ts.year as nat) + seq!['-'] + pad2_text(ts.month as nat)
            + seq!['-'] + pad2_text(ts.day as nat) + seq!['_'] + pad2_text(ts.hour as nat)
            + seq!['-'] + pad2_text(ts.minute as nat) + seq!['-'] + pad2_text(ts.second as nat),
    }
}

/// Renders `ts` under `fmt`, character for character.
pub fn format_timestamp(ts: &Timestamp, fmt: TimeFormat) -> (r: String)
    requires
        ts.wf(),
    ensures
        r@ == ts_text(*ts, fmt),
{
    proof {
        reveal_strlit("-");
        reveal_strlit("_");
        reveal_strlit(":");
        reveal_strlit("T");
        reveal_strlit("Z");
    }
    let mut s = u32_pad4(ts.year as u32);
    s.append("-");
    let month = u32_pad2(ts.month as u32);
    s.append(month.as_str());
    s.append("-");
    let day = u32_pad2(ts.day as u32);
    s.append(day.as_str());
    match fmt {
        TimeFormat::Protocol => {
            s.append("T");
            let hour = u32_pad2(ts.hour as u32);
            s.append(hour.as_str());
            s.append(":");
            let minute = u32_pad2(ts.minute as u32);
            s.append(minute.as_str());
            s.append(":");
            let second = u32_pad2(ts.second as u32);
            s.append(second.as_str());
            s.append("Z");
        },
        TimeFormat::FileName => {
            s.append("_");
            let hour = u32_pad2(ts.hour as u32);
            s.append(hour.as_str());
            s.append("-");
            let minute = u32_pad2(ts.minute as u32);
            s.append(minute.as_str());
            s.append("-");
            let second = u32_pad2(ts.second as u32);
            s.append(second.as_str());
        },
    }
    assert(s@ =~= ts_text(*ts, fmt));
    s
}

} // verus!
