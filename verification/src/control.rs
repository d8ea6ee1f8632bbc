//! The control channel: what the idle loop does with bytes the host wrote
//! to the vendor control interface.
//!
//! After a successful USB poll the loop pulls whatever the host sent to the
//! control OUT endpoint. A pull of exactly 7 bytes is a new pattern: it is
//! installed as the current pattern and persisted at once. Anything of
//! another length is discarded and the previous pattern stays in force.

use vstd::prelude::*;

use crate::crc::spec_crc16;
use crate::pattern::ReportPattern;
use crate::sampler::{spec_keyboard_out, InputSampler};
use crate::store::{lemma_saved_page_reloads, spec_saved_page, DataStorage, SettingsStoreError, BLOB_LEN};

verus! {

/// Decode bytes pulled from the control OUT endpoint. Exactly a 7-byte
/// report is a new pattern; everything else is rejected.
pub fn decode_control_report(data: &[u8]) -> (r: Option<ReportPattern>)
    ensures
        r is Some <==> data@.len() == 7,
        r matches Some(p) ==> p@ == data@,
{
    match ReportPattern::unpack(data) {
        Ok(p) => Some(p),
        Err(_) => None,
    }
}

/// Install a freshly decoded pattern as the current pattern and persist it
/// immediately: the store's page afterwards holds exactly the saved image
/// of the new pattern.
pub fn install_pattern(storage: &mut DataStorage, pattern: ReportPattern) -> (r: Result<
    (),
    SettingsStoreError,
>)
    requires
        old(storage).wf(),
    ensures
        final(storage).wf(),
        r is Ok,
        final(storage).report_pattern == pattern,
        final(storage).flash@ == spec_saved_page(pattern@),
{
    storage.report_pattern = pattern;
    storage.save()
}

/// Control-write persistence: once a 7-byte host report `p` is installed
/// and saved, the very next press tick types exactly `p`, and the page the
/// save left behind passes the load check and decodes back to `p` on the
/// next boot.
pub proof fn lemma_host_write_takes_effect(s: InputSampler, p: Seq<u8>)
    requires
        p.len() == 7,
        !s.prev_btn_state,
    ensures
        spec_keyboard_out(s, true, p) == Some(p),
        spec_crc16(spec_saved_page(p).take(BLOB_LEN as int)) == 0,
        spec_saved_page(p).take(7) == p,
{
    lemma_saved_page_reloads(p);
}

} // verus!
