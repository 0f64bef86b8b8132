//! What the window monitor reports: focus-change events, and the rules that
//! turn the raw answers of the operating system into their text fields.

use vstd::prelude::*;
use vstd::slice::slice_subrange;

verus! {

/// One focus change: the window that came to the foreground.
///
/// Both fields are passed on as they are; either may be empty.
#[derive(Clone, Debug, PartialEq, Eq)]
pub struct ActivityEvent {
    /// Caption of the foreground window at the moment of the change.
    pub title: String,
    /// Name of the application that owns the window.
    pub process_name: String,
}

/// The text of an [`ActivityEvent`].
pub struct EventView {
    pub title: Seq<char>,
    pub process_name: Seq<char>,
}

impl View for ActivityEvent {
    type V = EventView;

    open spec fn view(&self) -> EventView {
        EventView { title: self.title@, process_name: self.process_name@ }
    }
}

/// The text that `String::from_utf16_lossy` decodes from `units`.
pub uninterp spec fn utf16_lossy_text(units: Seq<u16>) -> Seq<char>;

/// Calls `String::from_utf16_lossy`, which decodes UTF-16 and puts U+FFFD
/// in place of each unpaired surrogate. The contract only names the text:
/// it depends on the code units alone.
#[verifier::external_body]
fn decode_utf16_lossy(units: &[u16]) -> (text: String)
    ensures
        text@ == utf16_lossy_text(units@),
{
    String::from_utf16_lossy(units)
}

/// The code units that a call reported as written: the first `len` of
/// `buffer`, and never more than the buffer holds.
pub open spec fn measured_units(buffer: Seq<u16>, len: int) -> Seq<u16> {
    if len <= 0 {
        Seq::empty()
    } else if len < buffer.len() {
        buffer.take(len)
    } else {
        buffer
    }
}

/// Decodes the first `len` code units of `buffer`. A `len` beyond the
/// buffer's capacity is cut down to it.
pub fn decode_measured(buffer: &[u16], len: usize) -> (text: String)
    ensures
        text@ == utf16_lossy_text(measured_units(buffer@, len as int)),
{
    let n: usize = if len < buffer.len() {
        len
    } else {
        buffer.len()
    };
    let units = slice_subrange(buffer, 0, n);
    assert(units@ =~= measured_units(buffer@, len as int));
    decode_utf16_lossy(units)
}

/// The caption that a window reported into `buffer`, with `len` the number
/// of code units it claims to have written: the empty text where it wrote
/// none.
pub open spec fn window_title_of(buffer: Seq<u16>, len: int) -> Seq<char> {
    if len > 0 {
        utf16_lossy_text(measured_units(buffer, len))
    } else {
        Seq::empty()
    }
}

/// The caption of a window. A window that reported no text (`len` zero or
/// negative) has the empty caption: it raises an event like any other.
pub fn window_title(buffer: &[u16], len: i32) -> (title: String)
    ensures
        title@ == window_title_of(buffer@, len as int),
{
    if len > 0 {
        decode_measured(buffer, len as usize)
    } else {
        String::new()
    }
}

/// What the system answered when asked which executable owns a window.
pub enum ProcessLookup<'a> {
    /// The process could not be opened for inspection.
    Denied,
    /// The process was opened; `len` code units of its module name were
    /// written into `buffer`, none if the query failed.
    Answered { buffer: &'a [u16], len: u32 },
}

/// Name given to a process that could not be opened.
pub open spec fn protected_name() -> Seq<char> {
    "System/Protected"@
}

/// Name given to a process that was opened but did not tell its name.
pub open spec fn unknown_name() -> Seq<char> {
    "Unknown"@
}

/// The process name that stands for `lookup`: never absent.
pub open spec fn process_name_of(lookup: ProcessLookup) -> Seq<char> {
    match lookup {
        ProcessLookup::Denied => protected_name(),
        ProcessLookup::Answered { buffer, len } => if len > 0 {
            utf16_lossy_text(measured_units(buffer@, len as int))
        } else {
            unknown_name()
        },
    }
}

/// Resolves a lookup to a process name, with a fixed fallback name where the
/// system gave none. A failed lookup never becomes an error.
pub fn process_name(lookup: ProcessLookup) -> (name: String)
    ensures
        name@ == process_name_of(lookup),
{
    match lookup {
        ProcessLookup::Denied => "System/Protected".to_owned(),
        ProcessLookup::Answered { buffer, len } => {
            if len > 0 {
                decode_measured(buffer, len as usize)
            } else {
                "Unknown".to_owned()
            }
        },
    }
}

} // verus!
