//! The settings store: a CRC-guarded single-slot pattern held in the last
//! flash page.
//!
//! The persisted blob is 9 bytes: the packed 7-byte pattern followed by the
//! CRC-16/AUG-CCITT of those 7 bytes, high byte first, so that the checksum
//! of the whole blob is zero exactly when it is intact. The rest of the page
//! stays erased (0xFF). `load` accepts the page exactly when that check
//! passes; otherwise (a blank first-boot page, or a corrupted blob) it
//! installs the all-zero pattern and rewrites the page at once, so the store
//! is never left invalid.

use vstd::prelude::*;

use crate::crc::{
    crc16, crc16_bytes, crc16_feed, crc16_fold, lemma_crc16_detects_bit_flip,
    lemma_crc16_frame_check_zero, spec_crc16, zero_bytes,
};
use crate::pattern::ReportPattern;

verus! {

/// Bytes in one erase page of the settings flash.
pub const PAGE_SIZE: usize = 1024;

/// Bytes in the persisted blob: the packed pattern and its checksum.
pub const BLOB_LEN: usize = 9;

/// What `save` can report. In this store the codec is infallible on a
/// 7-byte pattern and the modelled page never faults, so neither error is
/// ever produced here; the variants mirror the faults a flash peripheral
/// and a codec can raise, and callers handle them the same way: the change
/// is discarded and the previous pattern stays live.
#[derive(Clone, Copy, Debug, PartialEq, Eq)]
pub enum SettingsStoreError {
    FlashError,
    PackingError,
}

/// `n` erased bytes.
pub open spec fn ff_bytes(n: nat) -> Seq<u8> {
    Seq::new(n, |i: int| 0xFFu8)
}

/// A settings page that is erased everywhere.
pub open spec fn erased_page() -> Seq<u8> {
    ff_bytes(PAGE_SIZE as nat)
}

/// The persisted blob of a packed pattern `p`: `p` then its checksum, high
/// byte first.
pub open spec fn spec_blob(p: Seq<u8>) -> Seq<u8> {
    p + crc16_bytes(spec_crc16(p))
}

/// The whole page image `save` leaves behind: the blob, then erased bytes.
pub open spec fn spec_saved_page(p: Seq<u8>) -> Seq<u8> {
    spec_blob(p) + Seq::new((PAGE_SIZE - BLOB_LEN) as nat, |i: int| 0xFFu8)
}

/// One erase page of settings flash, byte for byte.
pub struct FlashPage {
    bytes: Vec<u8>,
}

impl View for FlashPage {
    type V = Seq<u8>;

    closed spec fn view(&self) -> Seq<u8> {
        self.bytes@
    }
}

impl FlashPage {
    /// The page holds exactly one erase page of bytes.
    pub open spec fn wf(&self) -> bool {
        self@.len() == PAGE_SIZE
    }

    /// A page fresh from erasure: all bytes 0xFF.
    pub fn erased() -> (r: Self)
        ensures
            r.wf(),
            r@ == erased_page(),
    {
        let mut r = FlashPage { bytes: Vec::new() };
        r.erase();
        r
    }

    /// Erase the page: every byte becomes 0xFF.
    pub fn erase(&mut self)
        ensures
            final(self).wf(),
            final(self)@ == erased_page(),
    {
        let mut out: Vec<u8> = Vec::new();
        while out.len() < PAGE_SIZE
            invariant
                out@.len() <= PAGE_SIZE,
                forall|i: int| 0 <= i < out@.len() ==> out@[i] == 0xFFu8,
            decreases PAGE_SIZE - out@.len(),
        {
            out.push(0xFF);
        }
        self.bytes = out;
        proof {
            assert(self@ =~= erased_page());
        }
    }

    /// Program `data` at the start of the page; the rest keeps its bytes.
    pub fn write_start(&mut self, data: &[u8])
        requires
            old(self).wf(),
            data@.len() <= PAGE_SIZE,
        ensures
            final(self).wf(),
            final(self)@ == data@ + old(self)@.skip(data@.len() as int),
    {
        let n = data.len();
        let mut out: Vec<u8> = Vec::new();
        let mut i: usize = 0;
        while i < n
            invariant
                i <= n,
                n == data@.len(),
                out@ == data@.subrange(0, i as int),
            decreases n - i,
        {
            out.push(data[i]);
            proof {
                assert(out@ =~= data@.subrange(0, i + 1));
            }
            i += 1;
        }
        let mut j: usize = n;
        while j < self.bytes.len()
            invariant
                n <= j <= self.bytes@.len(),
                self.bytes@.len() == PAGE_SIZE,
                n == data@.len(),
                out@ == data@ + self.bytes@.subrange(n as int, j as int),
            decreases self.bytes@.len() - j,
        {
            out.push(self.bytes[j]);
            proof {
                assert(out@ =~= data@ + self.bytes@.subrange(n as int, j + 1));
            }
            j += 1;
        }
        proof {
            assert(out@ =~= data@ + self.bytes@.skip(n as int));
        }
        self.bytes = out;
    }

    /// Read `n` bytes starting at `offset`.
    pub fn read(&self, offset: usize, n: usize) -> (r: Vec<u8>)
        requires
            offset + n <= self@.len(),
        ensures
            r@ == self@.subrange(offset as int, offset + n),
    {
        let mut r: Vec<u8> = Vec::new();
        let mut i: usize = 0;
        proof {
            assert(self.bytes@.len() == self.bytes.len());
        }
        while i < n
            invariant
                i <= n,
                offset + n <= self.bytes@.len(),
                self.bytes@.len() <= usize::MAX,
                r@ == self.bytes@.subrange(offset as int, offset + i),
            decreases n - i,
        {
            r.push(self.bytes[offset + i]);
            proof {
                assert(r@ =~= self.bytes@.subrange(offset as int, offset + i + 1));
            }
            i += 1;
        }
        r
    }

    /// Overwrite a single byte in place. This is how an external
    /// disturbance of the persisted blob (corruption between boots) is
    /// expressed against the model.
    pub fn write_byte(&mut self, i: usize, v: u8)
        requires
            i < old(self)@.len(),
        ensures
            final(self)@ == old(self)@.update(i as int, v),
    {
        self.bytes[i] = v;
    }
}

/// The settings store: the in-RAM mirror of the last loaded or written
/// pattern, owning the settings page it persists to.
pub struct DataStorage {
    pub report_pattern: ReportPattern,
    pub flash: FlashPage,
}

impl DataStorage {
    /// The owned page is a whole erase page.
    pub open spec fn wf(&self) -> bool {
        self.flash.wf()
    }

    /// Read the persisted blob. If its checksum is zero, adopt the pattern
    /// it holds and leave the page alone; otherwise (blank or corrupted
    /// page) install the all-zero pattern and persist it immediately.
    pub fn load(flash: FlashPage) -> (s: Self)
        requires
            flash.wf(),
        ensures
            s.wf(),
            spec_crc16(flash@.take(BLOB_LEN as int)) == 0 ==> s.report_pattern@ == flash@.take(
                7,
            ) && s.flash@ == flash@,
            spec_crc16(flash@.take(BLOB_LEN as int)) != 0 ==> s.report_pattern@ == zero_bytes(7)
                && s.flash@ == spec_saved_page(zero_bytes(7)),
    {
        let blob = flash.read(0, BLOB_LEN);
        let c = crc16(blob.as_slice());
        proof {
            assert(flash@.subrange(0, BLOB_LEN as int) =~= flash@.take(BLOB_LEN as int));
        }
        if c == 0 {
            let body = flash.read(0, 7);
            proof {
                assert(flash@.subrange(0, 7) =~= flash@.take(7));
            }
            match ReportPattern::unpack(body.as_slice()) {
                Ok(report_pattern) => {
                    return DataStorage { report_pattern, flash };
                },
                Err(_) => {
                    // Unreachable: a 7-byte slice always decodes.
                },
            }
        }
        let mut s = DataStorage { report_pattern: ReportPattern::default(), flash };
        let _saved = s.save();
        proof {
            assert(s.report_pattern@ =~= zero_bytes(7));
        }
        s
    }

    /// Pack the current pattern, frame it with its checksum, erase the page
    /// and program the 9-byte blob at its start.
    pub fn save(&mut self) -> (r: Result<(), SettingsStoreError>)
        requires
            old(self).wf(),
        ensures
            final(self).wf(),
            r is Ok,
            final(self).report_pattern == old(self).report_pattern,
            final(self)@ == old(self).report_pattern@,
            final(self).flash@ == spec_saved_page(old(self).report_pattern@),
    {
        let packed = self.report_pattern.pack();
        let c = crc16(packed.as_slice());
        let mut blob: Vec<u8> = Vec::new();
        let mut i: usize = 0;
        while i < 7
            invariant
                i <= 7,
                packed@.len() == 7,
                blob@ == packed@.subrange(0, i as int),
            decreases 7 - i,
        {
            blob.push(packed[i]);
            proof {
                assert(blob@ =~= packed@.subrange(0, i + 1));
            }
            i += 1;
        }
        proof {
            assert(blob@ =~= packed@);
        }
        blob.push((c >> 8u16) as u8);
        blob.push(c as u8);
        proof {
            assert(blob@ =~= spec_blob(self.report_pattern@));
        }
        self.flash.erase();
        self.flash.write_start(blob.as_slice());
        proof {
            assert(erased_page().skip(BLOB_LEN as int) =~= Seq::new(
                (PAGE_SIZE - BLOB_LEN) as nat,
                |i: int| 0xFFu8,
            ));
            assert(self.flash@ =~= spec_saved_page(self.report_pattern@));
        }
        Ok(())
    }
}

impl View for DataStorage {
    type V = Seq<u8>;

    /// A store is summed up by the bytes of its current pattern.
    open spec fn view(&self) -> Seq<u8> {
        self.report_pattern@
    }
}

/// Persistence round trip: the page a save of pattern `p` leaves behind
/// carries a blob whose checksum passes, and the pattern decoded from it is
/// `p` again — so a reload keeps the pattern and leaves the page untouched.
/// The page image is a function of `p` alone, so a second save of the same
/// pattern writes the identical image.
pub proof fn lemma_saved_page_reloads(p: Seq<u8>)
    requires
        p.len() == 7,
    ensures
        spec_crc16(spec_saved_page(p).take(BLOB_LEN as int)) == 0,
        spec_saved_page(p).take(7) == p,
{
    assert(spec_saved_page(p).take(BLOB_LEN as int) =~= spec_blob(p));
    lemma_crc16_frame_check_zero(p);
    assert(spec_saved_page(p).take(7) =~= p);
}

/// Folding one more erased byte peels one element off the run.
proof fn lemma_fold_ff_step(s: u16, n: nat)
    requires
        n > 0,
    ensures
        crc16_fold(s, ff_bytes(n)) == crc16_fold(crc16_feed(s, 0xFF), ff_bytes((n - 1) as nat)),
{
    assert(ff_bytes(n)[0] == 0xFFu8);
    assert(ff_bytes(n).skip(1) =~= ff_bytes((n - 1) as nat));
}

/// The divider circuit over nine erased bytes, one byte per equation: the
/// final state is nonzero.
proof fn lemma_blank_core(
    s1: u16,
    s2: u16,
    s3: u16,
    s4: u16,
    s5: u16,
    s6: u16,
    s7: u16,
    s8: u16,
    s9: u16,
)
    by (bit_vector)
    requires
        s1 == crc16_feed(0x1D0F, 0xFF),
        s2 == crc16_feed(s1, 0xFF),
        s3 == crc16_feed(s2, 0xFF),
        s4 == crc16_feed(s3, 0xFF),
        s5 == crc16_feed(s4, 0xFF),
        s6 == crc16_feed(s5, 0xFF),
        s7 == crc16_feed(s6, 0xFF),
        s8 == crc16_feed(s7, 0xFF),
        s9 == crc16_feed(s8, 0xFF),
    ensures
        s9 != 0,
{
}

/// First boot: a page that has only ever been erased fails the checksum, so
/// `load` installs the all-zero pattern and rewrites the page with its blob.
pub proof fn lemma_blank_page_invalid()
    ensures
        spec_crc16(erased_page().take(BLOB_LEN as int)) != 0,
{
    assert(erased_page().take(BLOB_LEN as int) =~= ff_bytes(9));
    let s1 = crc16_feed(0x1D0F, 0xFF);
    let s2 = crc16_feed(s1, 0xFF);
    let s3 = crc16_feed(s2, 0xFF);
    let s4 = crc16_feed(s3, 0xFF);
    let s5 = crc16_feed(s4, 0xFF);
    let s6 = crc16_feed(s5, 0xFF);
    let s7 = crc16_feed(s6, 0xFF);
    let s8 = crc16_feed(s7, 0xFF);
    let s9 = crc16_feed(s8, 0xFF);
    lemma_fold_ff_step(0x1D0F, 9);
    lemma_fold_ff_step(s1, 8);
    lemma_fold_ff_step(s2, 7);
    lemma_fold_ff_step(s3, 6);
    lemma_fold_ff_step(s4, 5);
    lemma_fold_ff_step(s5, 4);
    lemma_fold_ff_step(s6, 3);
    lemma_fold_ff_step(s7, 2);
    lemma_fold_ff_step(s8, 1);
    lemma_blank_core(s1, s2, s3, s4, s5, s6, s7, s8, s9);
}

/// Corruption recovery: flipping any single bit of the persisted blob of a
/// valid page makes the checksum fail, so the next boot returns the default
/// pattern and rewrites the page.
pub proof fn lemma_corrupted_blob_invalid(page: Seq<u8>, i: int, j: u8)
    requires
        page.len() >= BLOB_LEN,
        spec_crc16(page.take(BLOB_LEN as int)) == 0,
        0 <= i < BLOB_LEN,
        j < 8,
    ensures
        spec_crc16(page.update(i, page[i] ^ (1u8 << j)).take(BLOB_LEN as int)) != 0,
{
    lemma_crc16_detects_bit_flip(page.take(BLOB_LEN as int), i, j);
    assert(page.update(i, page[i] ^ (1u8 << j)).take(BLOB_LEN as int) =~= page.take(
        BLOB_LEN as int,
    ).update(i, page.take(BLOB_LEN as int)[i] ^ (1u8 << j)));
}

} // verus!
