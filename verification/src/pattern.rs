//! The 7-byte report pattern and its wire codec.
//!
//! A pattern is one HID modifier byte followed by six key-codes. On the wire
//! (both in the vendor control reports and at the head of the persisted
//! blob) it is laid out byte-exactly: the modifier at offset 0, the
//! key-codes at offsets 1 through 6. The view of a pattern is that 7-byte
//! string, packing is the identity on the view, and unpacking accepts
//! exactly the 7-byte strings.

use vstd::prelude::*;

verus! {

/// Bytes in a packed pattern: one modifier byte and six key-codes.
pub const PATTERN_LEN: usize = 7;

/// The error of the codec: the supplied slice was not exactly 7 bytes.
#[derive(Clone, Copy, Debug, PartialEq, Eq)]
pub struct PackingError;

/// The key pattern the device types when the button is pressed: a HID
/// modifier bitfield (bit 0 LCTRL through bit 7 RWIN) and up to six HID
/// usage codes, 0 meaning "no key". Any 7-byte value is accepted; no
/// structural validity is imposed on the contents.
#[derive(Clone, Copy, Debug, PartialEq, Eq)]
pub struct ReportPattern {
    pub modifier: u8,
    pub keycodes: [u8; 6],
}

impl View for ReportPattern {
    type V = Seq<u8>;

    open spec fn view(&self) -> Seq<u8> {
        seq![
            self.modifier,
            self.keycodes[0],
            self.keycodes[1],
            self.keycodes[2],
            self.keycodes[3],
            self.keycodes[4],
            self.keycodes[5],
        ]
    }
}

impl Default for ReportPattern {
    /// The all-zero pattern: no modifiers, no keys.
    fn default() -> (r: Self)
        ensures
            r@ =~= Seq::new(7, |i: int| 0u8),
    {
        ReportPattern { modifier: 0, keycodes: [0u8; 6] }
    }
}

impl ReportPattern {
    /// Pack the pattern into its 7-byte wire form.
    pub fn pack(&self) -> (r: [u8; 7])
        ensures
            r@ == self@,
    {
        let r = [
            self.modifier,
            self.keycodes[0],
            self.keycodes[1],
            self.keycodes[2],
            self.keycodes[3],
            self.keycodes[4],
            self.keycodes[5],
        ];
        proof {
            assert(r@ =~= self@);
        }
        r
    }

    /// Decode a pattern from its wire form. Fails exactly when the slice is
    /// not 7 bytes long; the contents are never rejected.
    pub fn unpack(data: &[u8]) -> (r: Result<ReportPattern, PackingError>)
        ensures
            r is Ok <==> data@.len() == 7,
            r matches Ok(p) ==> p@ == data@,
    {
        if data.len() != PATTERN_LEN {
            return Err(PackingError);
        }
        let p = ReportPattern {
            modifier: data[0],
            keycodes: [data[1], data[2], data[3], data[4], data[5], data[6]],
        };
        proof {
            assert(p@ =~= data@);
        }
        Ok(p)
    }
}

/// The wire form determines the pattern: two patterns with the same packed
/// bytes are the same pattern. Together with the contracts of `pack`
/// (`r@ == self@`) and `unpack` (`p@ == data@`) this gives both codec round
/// trips: unpacking a packed pattern returns that very pattern, and packing
/// an unpacked 7-byte string returns that very string.
pub proof fn lemma_pattern_view_injective(p: ReportPattern, q: ReportPattern)
    requires
        p@ == q@,
    ensures
        p == q,
{
    assert(p.keycodes =~= q.keycodes);
}

} // verus!
