//! CRC-16/AUG-CCITT over byte strings: polynomial 0x1021, initial value
//! 0x1D0F, no reflection, no final xor, each byte folded in most significant
//! bit first.
//!
//! The persisted settings blob relies on the classic framing trick: the
//! 16-bit checksum of the payload is appended (high byte first), and the
//! checksum of the framed whole is zero exactly when the frame is intact.
//! This module proves that trick ([`lemma_crc16_frame_check_zero`]) together
//! with the error-detection fact the store needs: corrupting any single byte
//! of a frame, in particular flipping any single bit, drives the checksum
//! away from zero ([`lemma_crc16_detects_byte_corruption`]).

use vstd::prelude::*;

verus! {

/// The CRC-16 state after one bit of the message has been absorbed: shift the
/// state left and, when a one bit falls off, fold the generator polynomial
/// 0x1021 back in.
pub open spec fn crc16_step(s: u16) -> u16 {
    if s & 0x8000 == 0 {
        s << 1u16
    } else {
        (s << 1u16) ^ 0x1021
    }
}

/// Eight single-bit steps: the state after one whole byte has been shifted
/// through the divider.
pub open spec fn crc16_shift8(s: u16) -> u16 {
    crc16_step(crc16_step(crc16_step(crc16_step(
        crc16_step(crc16_step(crc16_step(crc16_step(s)))),
    ))))
}

/// Absorb one message byte: xor it into the high half of the state, then run
/// the eight divider steps.
pub open spec fn crc16_feed(s: u16, b: u8) -> u16 {
    crc16_shift8(s ^ ((b as u16) << 8u16))
}

/// Absorb a whole byte string, front to back, starting from state `s`.
pub open spec fn crc16_fold(s: u16, data: Seq<u8>) -> u16
    decreases data.len(),
{
    if data.len() == 0 {
        s
    } else {
        crc16_fold(crc16_feed(s, data[0]), data.skip(1))
    }
}

/// CRC-16/AUG-CCITT of a byte string.
pub open spec fn spec_crc16(data: Seq<u8>) -> u16 {
    crc16_fold(0x1D0F, data)
}

/// One divider step, executable.
fn crc16_step_exec(s: u16) -> (r: u16)
    ensures
        r == crc16_step(s),
{
    if s & 0x8000 == 0 {
        s << 1u16
    } else {
        (s << 1u16) ^ 0x1021
    }
}

/// Absorb one byte, executable.
fn crc16_feed_exec(s: u16, b: u8) -> (r: u16)
    ensures
        r == crc16_feed(s, b),
{
    let x = s ^ ((b as u16) << 8u16);
    crc16_step_exec(crc16_step_exec(crc16_step_exec(crc16_step_exec(
        crc16_step_exec(crc16_step_exec(crc16_step_exec(crc16_step_exec(x)))),
    ))))
}

/// CRC-16/AUG-CCITT of `data`.
pub fn crc16(data: &[u8]) -> (r: u16)
    ensures
        r == spec_crc16(data@),
{
    let mut s: u16 = 0x1D0F;
    let mut i: usize = 0;
    proof {
        assert(data@.skip(0) =~= data@);
    }
    while i < data.len()
        invariant
            i <= data@.len(),
            crc16_fold(s, data@.skip(i as int)) == spec_crc16(data@),
        decreases data@.len() - i,
    {
        proof {
            assert(data@.skip(i as int)[0] == data@[i as int]);
            assert(data@.skip(i as int).skip(1) =~= data@.skip(i as int + 1));
        }
        s = crc16_feed_exec(s, data[i]);
        i += 1;
    }
    s
}

/// One divider step distributes over xor of states.
proof fn lemma_step_linear(s: u16, t: u16)
    by (bit_vector)
    ensures
        crc16_step(s ^ t) == crc16_step(s) ^ crc16_step(t),
{
}

/// One divider step maps exactly the zero state to zero.
proof fn lemma_step_zero(s: u16)
    by (bit_vector)
    ensures
        crc16_step(s) == 0 <==> s == 0,
{
}

/// A whole byte of divider steps distributes over xor of states.
proof fn lemma_shift8_linear(s: u16, t: u16)
    ensures
        crc16_shift8(s ^ t) == crc16_shift8(s) ^ crc16_shift8(t),
{
    lemma_step_linear(s, t);
    lemma_step_linear(crc16_step(s), crc16_step(t));
    lemma_step_linear(crc16_step(crc16_step(s)), crc16_step(crc16_step(t)));
    lemma_step_linear(
        crc16_step(crc16_step(crc16_step(s))),
        crc16_step(crc16_step(crc16_step(t))),
    );
    lemma_step_linear(
        crc16_step(crc16_step(crc16_step(crc16_step(s)))),
        crc16_step(crc16_step(crc16_step(crc16_step(t)))),
    );
    lemma_step_linear(
        crc16_step(crc16_step(crc16_step(crc16_step(crc16_step(s))))),
        crc16_step(crc16_step(crc16_step(crc16_step(crc16_step(t))))),
    );
    lemma_step_linear(
        crc16_step(crc16_step(crc16_step(crc16_step(crc16_step(crc16_step(s)))))),
        crc16_step(crc16_step(crc16_step(crc16_step(crc16_step(crc16_step(t)))))),
    );
    lemma_step_linear(
        crc16_step(crc16_step(crc16_step(crc16_step(crc16_step(crc16_step(crc16_step(s))))))),
        crc16_step(crc16_step(crc16_step(crc16_step(crc16_step(crc16_step(crc16_step(t))))))),
    );
}

/// A whole byte of divider steps maps exactly the zero state to zero.
proof fn lemma_shift8_zero(s: u16)
    ensures
        crc16_shift8(s) == 0 <==> s == 0,
{
    lemma_step_zero(s);
    lemma_step_zero(crc16_step(s));
    lemma_step_zero(crc16_step(crc16_step(s)));
    lemma_step_zero(crc16_step(crc16_step(crc16_step(s))));
    lemma_step_zero(crc16_step(crc16_step(crc16_step(crc16_step(s)))));
    lemma_step_zero(crc16_step(crc16_step(crc16_step(crc16_step(crc16_step(s))))));
    lemma_step_zero(crc16_step(crc16_step(crc16_step(crc16_step(crc16_step(crc16_step(s)))))));
    lemma_step_zero(
        crc16_step(crc16_step(crc16_step(crc16_step(crc16_step(crc16_step(crc16_step(s))))))),
    );
}

/// Feeding bytes commutes with xor, in both the state and the byte.
pub proof fn lemma_crc16_feed_linear(s: u16, t: u16, b: u8, c: u8)
    ensures
        crc16_feed(s ^ t, b ^ c) == crc16_feed(s, b) ^ crc16_feed(t, c),
{
    assert((s ^ t) ^ (((b ^ c) as u16) << 8u16) == (s ^ ((b as u16) << 8u16)) ^ (t ^ ((c
        as u16) << 8u16))) by (bit_vector);
    lemma_shift8_linear(s ^ ((b as u16) << 8u16), t ^ ((c as u16) << 8u16));
}

/// A zero byte leaves a zero state at zero, and cannot rescue a nonzero one.
pub proof fn lemma_crc16_feed_zero_byte(s: u16)
    ensures
        crc16_feed(s, 0) == 0 <==> s == 0,
{
    assert(s ^ ((0u8 as u16) << 8u16) == s) by (bit_vector);
    lemma_shift8_zero(s);
}

/// A nonzero byte fed into the zero state leaves it nonzero.
pub proof fn lemma_crc16_feed_nonzero_byte(b: u8)
    requires
        b != 0,
    ensures
        crc16_feed(0, b) != 0,
{
    assert(b != 0 ==> 0u16 ^ ((b as u16) << 8u16) != 0) by (bit_vector);
    lemma_shift8_zero(0 ^ ((b as u16) << 8u16));
}

/// The divider circuit for two chained bytes, one step per equation: from a
/// state whose high byte is clear, absorbing that state's own two bytes (here
/// the high one is already folded away) ends at zero.
#[verifier::spinoff_prover]
proof fn lemma_absorb_core(
    x0: u16,
    x1: u16,
    x2: u16,
    x3: u16,
    x4: u16,
    x5: u16,
    x6: u16,
    x7: u16,
    x8: u16,
    y0: u16,
    y1: u16,
    y2: u16,
    y3: u16,
    y4: u16,
    y5: u16,
    y6: u16,
    y7: u16,
    y8: u16,
)
    by (bit_vector)
    requires
        x0 & 0xFF00 == 0,
        x1 == crc16_step(x0),
        x2 == crc16_step(x1),
        x3 == crc16_step(x2),
        x4 == crc16_step(x3),
        x5 == crc16_step(x4),
        x6 == crc16_step(x5),
        x7 == crc16_step(x6),
        x8 == crc16_step(x7),
        y0 == x8 ^ (x0 << 8u16),
        y1 == crc16_step(y0),
        y2 == crc16_step(y1),
        y3 == crc16_step(y2),
        y4 == crc16_step(y3),
        y5 == crc16_step(y4),
        y6 == crc16_step(y5),
        y7 == crc16_step(y6),
        y8 == crc16_step(y7),
    ensures
        y8 == 0,
{
}

/// Feeding a state its own two bytes, high first, drives it to zero.
pub proof fn lemma_crc16_absorbs_own_state(s: u16)
    ensures
        crc16_feed(crc16_feed(s, (s >> 8u16) as u8), s as u8) == 0,
{
    let x0 = s & 0xFF;
    let x1 = crc16_step(x0);
    let x2 = crc16_step(x1);
    let x3 = crc16_step(x2);
    let x4 = crc16_step(x3);
    let x5 = crc16_step(x4);
    let x6 = crc16_step(x5);
    let x7 = crc16_step(x6);
    let x8 = crc16_step(x7);
    let y0 = x8 ^ (x0 << 8u16);
    let y1 = crc16_step(y0);
    let y2 = crc16_step(y1);
    let y3 = crc16_step(y2);
    let y4 = crc16_step(y3);
    let y5 = crc16_step(y4);
    let y6 = crc16_step(y5);
    let y7 = crc16_step(y6);
    let y8 = crc16_step(y7);
    assert(x0 & 0xFF00 == 0) by (bit_vector)
        requires
            x0 == s & 0xFF,
    ;
    lemma_absorb_core(
        x0,
        x1,
        x2,
        x3,
        x4,
        x5,
        x6,
        x7,
        x8,
        y0,
        y1,
        y2,
        y3,
        y4,
        y5,
        y6,
        y7,
        y8,
    );
    assert(s ^ ((((s >> 8u16) as u8) as u16) << 8u16) == (s & 0xFF)) by (bit_vector);
    assert(crc16_feed(s, (s >> 8u16) as u8) == x8);
    assert(x8 ^ (((s as u8) as u16) << 8u16) == x8 ^ ((s & 0xFF) << 8u16)) by (bit_vector);
    assert(crc16_feed(x8, s as u8) == y8);
}

/// Folding a concatenation folds the two halves in turn.
pub proof fn lemma_crc16_fold_append(s: u16, a: Seq<u8>, b: Seq<u8>)
    ensures
        crc16_fold(s, a + b) == crc16_fold(crc16_fold(s, a), b),
    decreases a.len(),
{
    if a.len() == 0 {
        assert(a + b =~= b);
    } else {
        assert((a + b)[0] == a[0]);
        assert((a + b).skip(1) =~= a.skip(1) + b);
        lemma_crc16_fold_append(crc16_feed(s, a[0]), a.skip(1), b);
    }
}

/// The two bytes of the checksum itself, high byte first.
pub open spec fn crc16_bytes(c: u16) -> Seq<u8> {
    seq![(c >> 8u16) as u8, c as u8]
}

/// The framing trick: for every byte string, appending its checksum, high
/// byte first, yields a string whose checksum is zero.
pub proof fn lemma_crc16_frame_check_zero(data: Seq<u8>)
    ensures
        spec_crc16(data + crc16_bytes(spec_crc16(data))) == 0,
{
    let c = spec_crc16(data);
    let tail = crc16_bytes(c);
    lemma_crc16_fold_append(0x1D0F, data, tail);
    let s1 = crc16_feed(c, (c >> 8u16) as u8);
    assert(tail[0] == (c >> 8u16) as u8);
    assert(tail.skip(1) =~= seq![c as u8]);
    assert(crc16_fold(c, tail) == crc16_fold(s1, seq![c as u8]));
    assert(seq![c as u8].skip(1) =~= Seq::<u8>::empty());
    assert(crc16_fold(s1, seq![c as u8]) == crc16_fold(crc16_feed(s1, c as u8), Seq::<u8>::empty()));
    lemma_crc16_absorbs_own_state(c);
}

/// A byte string that is zero everywhere.
pub open spec fn zero_bytes(n: nat) -> Seq<u8> {
    Seq::new(n, |i: int| 0u8)
}

/// Folding zero bytes from a nonzero state never reaches zero.
proof fn lemma_crc16_fold_zeros_nonzero(s: u16, n: nat)
    requires
        s != 0,
    ensures
        crc16_fold(s, zero_bytes(n)) != 0,
    decreases n,
{
    if n > 0 {
        assert(zero_bytes(n)[0] == 0);
        assert(zero_bytes(n).skip(1) =~= zero_bytes((n - 1) as nat));
        lemma_crc16_feed_zero_byte(s);
        lemma_crc16_fold_zeros_nonzero(crc16_feed(s, 0), (n - 1) as nat);
    }
}

/// A byte string that is zero except for `d` at position `i`.
pub open spec fn one_byte_error(n: nat, i: int, d: u8) -> Seq<u8> {
    Seq::new(n, |j: int| if j == i { d } else { 0u8 })
}

/// Folding a one-byte error pattern from the zero state ends nonzero: the
/// divider never loses the disturbance.
proof fn lemma_crc16_fold_one_byte_error(n: nat, i: int, d: u8)
    requires
        0 <= i < n,
        d != 0,
    ensures
        crc16_fold(0, one_byte_error(n, i, d)) != 0,
    decreases n,
{
    let e = one_byte_error(n, i, d);
    if i == 0 {
        assert(e[0] == d);
        lemma_crc16_feed_nonzero_byte(d);
        assert(e.skip(1) =~= zero_bytes((n - 1) as nat));
        lemma_crc16_fold_zeros_nonzero(crc16_feed(0, d), (n - 1) as nat);
    } else {
        assert(e[0] == 0);
        lemma_crc16_feed_zero_byte(0);
        assert(e.skip(1) =~= one_byte_error((n - 1) as nat, i - 1, d));
        lemma_crc16_fold_one_byte_error((n - 1) as nat, i - 1, d);
    }
}

/// Pointwise xor of two byte strings of equal length.
pub open spec fn xor_bytes(a: Seq<u8>, b: Seq<u8>) -> Seq<u8> {
    Seq::new(a.len(), |i: int| a[i] ^ b[i])
}

/// Folding commutes with pointwise xor of the inputs.
proof fn lemma_crc16_fold_linear(s: u16, t: u16, a: Seq<u8>, b: Seq<u8>)
    requires
        a.len() == b.len(),
    ensures
        crc16_fold(s ^ t, xor_bytes(a, b)) == crc16_fold(s, a) ^ crc16_fold(t, b),
    decreases a.len(),
{
    if a.len() == 0 {
        assert(xor_bytes(a, b) =~= Seq::<u8>::empty());
    } else {
        let x = xor_bytes(a, b);
        assert(x[0] == a[0] ^ b[0]);
        assert(x.skip(1) =~= xor_bytes(a.skip(1), b.skip(1)));
        lemma_crc16_feed_linear(s, t, a[0], b[0]);
        lemma_crc16_fold_linear(crc16_feed(s, a[0]), crc16_feed(t, b[0]), a.skip(1), b.skip(1));
    }
}

/// Error detection: xor a nonzero value into any one byte of a string whose
/// checksum is zero, and the checksum of the result is nonzero. Flipping a
/// single bit is the special case `d == 1 << j`.
pub proof fn lemma_crc16_detects_byte_corruption(data: Seq<u8>, i: int, d: u8)
    requires
        spec_crc16(data) == 0,
        0 <= i < data.len(),
        d != 0,
    ensures
        spec_crc16(data.update(i, data[i] ^ d)) != 0,
{
    let n = data.len();
    let e = one_byte_error(n, i, d);
    assert(forall|x: u8| #[trigger] (x ^ 0) == x) by (bit_vector);
    assert(data.update(i, data[i] ^ d) =~= xor_bytes(data, e));
    assert((0x1D0F ^ 0) == 0x1D0F) by (bit_vector);
    lemma_crc16_fold_linear(0x1D0F, 0, data, e);
    lemma_crc16_fold_one_byte_error(n, i, d);
    assert(spec_crc16(xor_bytes(data, e)) == spec_crc16(data) ^ crc16_fold(0, e));
    assert(forall|y: u16| #[trigger] (0u16 ^ y) == y) by (bit_vector);
}

/// A single flipped bit is a nonzero one-byte disturbance.
pub proof fn lemma_crc16_detects_bit_flip(data: Seq<u8>, i: int, j: u8)
    requires
        spec_crc16(data) == 0,
        0 <= i < data.len(),
        j < 8,
    ensures
        spec_crc16(data.update(i, data[i] ^ (1u8 << j))) != 0,
{
    assert(j < 8 ==> (1u8 << j) != 0) by (bit_vector);
    lemma_crc16_detects_byte_corruption(data, i, 1u8 << j);
}

} // verus!
