//! The two HID report shapes the device sends and receives.
//!
//! `KeyboardReport` is what the keyboard interface pushes to the host: one
//! modifier byte and six key-codes, 7 bytes on the wire. `ControlDesctiptor`
//! is the report pair of the vendor control interface: a 7-byte output
//! report (host to device, a new pattern) and a 7-byte input report (device
//! to host, the current pattern).

use vstd::prelude::*;

use crate::pattern::ReportPattern;

verus! {

/// A keyboard input report: modifier bitfield and six key-codes.
#[derive(Clone, Copy, Debug, PartialEq, Eq)]
pub struct KeyboardReport {
    pub modifier: u8,
    pub keycodes: [u8; 6],
}

impl View for KeyboardReport {
    type V = Seq<u8>;

    open spec fn view(&self) -> Seq<u8> {
        seq![
            self.modifier,
            self.keycodes[0],
            self.keycodes[1],
            self.keycodes[2],
            self.keycodes[3],
            self.keycodes[4],
            self.keycodes[5],
        ]
    }
}

impl KeyboardReport {
    /// The report sent on button release: nothing pressed.
    pub fn empty() -> (r: Self)
        ensures
            r@ =~= Seq::new(7, |i: int| 0u8),
    {
        KeyboardReport { modifier: 0, keycodes: [0u8; 6] }
    }

    /// Bytes in a report on the wire.
    pub fn size() -> (n: usize)
        ensures
            n == 7,
    {
        6 + 1
    }
}

impl From<&ReportPattern> for KeyboardReport {
    /// The report that types the stored pattern: same modifier, same keys.
    fn from(p: &ReportPattern) -> (r: Self) {
        KeyboardReport { modifier: p.modifier, keycodes: p.keycodes }
    }
}

impl vstd::std_specs::convert::FromSpecImpl<&ReportPattern> for KeyboardReport {
    open spec fn obeys_from_spec() -> bool {
        true
    }

    open spec fn from_spec(p: &ReportPattern) -> KeyboardReport {
        KeyboardReport { modifier: p.modifier, keycodes: p.keycodes }
    }
}

/// A keyboard report carries exactly the bytes of the pattern it was built
/// from.
pub proof fn lemma_report_of_pattern_bytes(p: ReportPattern)
    ensures
        (KeyboardReport { modifier: p.modifier, keycodes: p.keycodes })@ == p@,
{
    assert((KeyboardReport { modifier: p.modifier, keycodes: p.keycodes })@ =~= p@);
}

/// The report pair of the vendor control interface: `set_report_pattern` is
/// written by the host with a new pattern, `get_report_pattern` is read by
/// the host and carries the packed current pattern.
#[derive(Clone, Copy, Debug, PartialEq, Eq)]
pub struct ControlDesctiptor {
    pub set_report_pattern: [u8; 7],
    pub get_report_pattern: [u8; 7],
}

impl Default for ControlDesctiptor {
    /// Both report buffers zeroed.
    fn default() -> (r: Self)
        ensures
            r.set_report_pattern@ =~= Seq::new(7, |i: int| 0u8),
            r.get_report_pattern@ =~= Seq::new(7, |i: int| 0u8),
    {
        ControlDesctiptor { set_report_pattern: [0u8; 7], get_report_pattern: [0u8; 7] }
    }
}

} // verus!
