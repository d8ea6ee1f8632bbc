//! The two HID report descriptors of the composite device.
//!
//! Each descriptor is a string of HID short items: a prefix byte (tag in
//! bits 7..4, type in bits 3..2, payload size in bits 1..0) followed by the
//! payload bytes, little endian. The keyboard interface declares a 7-byte
//! input report: eight 1-bit variable fields over the keyboard usages 0xE0
//! through 0xE7 (the modifier bits), then a 6-byte array of keyboard usages
//! 0x00 through 0xDD. The vendor control interface declares, inside one
//! logical collection on the first vendor usage page, a 7-byte array output
//! report (the host writes a new pattern) and a 7-byte array input report
//! (the host reads the current pattern). Report ids are not used: the two
//! interfaces are told apart by endpoint.

use vstd::prelude::*;

verus! {

/// The report descriptor of the keyboard interface.
pub open spec fn spec_keyboard_descriptor() -> Seq<u8> {
    seq![
        0x05u8, 0x01u8,  // usage page: generic desktop
        0x09u8, 0x06u8,  // usage: keyboard
        0xA1u8, 0x01u8,  // collection: application
        0x05u8, 0x07u8,  // usage page: keyboard
        0x19u8, 0xE0u8,  // usage minimum: left control
        0x29u8, 0xE7u8,  // usage maximum: right gui
        0x15u8, 0x00u8,  // logical minimum: 0
        0x25u8, 0x01u8,  // logical maximum: 1
        0x75u8, 0x01u8,  // report size: 1 bit
        0x95u8, 0x08u8,  // report count: 8
        0x81u8, 0x02u8,  // input: data, variable, absolute
        0x05u8, 0x07u8,  // usage page: keyboard
        0x19u8, 0x00u8,  // usage minimum: 0
        0x29u8, 0xDDu8,  // usage maximum: 0xDD
        0x26u8, 0xFFu8, 0x00u8,  // logical maximum: 255
        0x75u8, 0x08u8,  // report size: 8 bits
        0x95u8, 0x06u8,  // report count: 6
        0x81u8, 0x00u8,  // input: data, array, absolute
        0xC0u8,  // end collection
    ]
}

/// The report descriptor of the vendor control interface.
pub open spec fn spec_control_descriptor() -> Seq<u8> {
    seq![
        0x06u8, 0x00u8, 0xFFu8,  // usage page: first vendor page
        0x09u8, 0x00u8,  // usage: 0
        0xA1u8, 0x02u8,  // collection: logical
        0x19u8, 0x00u8,  // usage minimum: 0
        0x29u8, 0xFFu8,  // usage maximum: 255
        0x15u8, 0x00u8,  // logical minimum: 0
        0x26u8, 0xFFu8, 0x00u8,  // logical maximum: 255
        0x75u8, 0x08u8,  // report size: 8 bits
        0x95u8, 0x07u8,  // report count: 7
        0x91u8, 0x00u8,  // output: data, array, absolute
        0x19u8, 0x00u8,  // usage minimum: 0
        0x29u8, 0xFFu8,  // usage maximum: 255
        0x81u8, 0x00u8,  // input: data, array, absolute
        0xC0u8,  // end collection
    ]
}

/// The keyboard interface's report descriptor, byte for byte.
pub fn keyboard_descriptor() -> (r: Vec<u8>)
    ensures
        r@ == spec_keyboard_descriptor(),
{
    let mut r: Vec<u8> = Vec::new();
    r.push(0x05);
    r.push(0x01);
    r.push(0x09);
    r.push(0x06);
    r.push(0xA1);
    r.push(0x01);
    r.push(0x05);
    r.push(0x07);
    r.push(0x19);
    r.push(0xE0);
    r.push(0x29);
    r.push(0xE7);
    r.push(0x15);
    r.push(0x00);
    r.push(0x25);
    r.push(0x01);
    r.push(0x75);
    r.push(0x01);
    r.push(0x95);
    r.push(0x08);
    r.push(0x81);
    r.push(0x02);
    r.push(0x05);
    r.push(0x07);
    r.push(0x19);
    r.push(0x00);
    r.push(0x29);
    r.push(0xDD);
    r.push(0x26);
    r.push(0xFF);
    r.push(0x00);
    r.push(0x75);
    r.push(0x08);
    r.push(0x95);
    r.push(0x06);
    r.push(0x81);
    r.push(0x00);
    r.push(0xC0);
    proof {
        assert(r@ =~= spec_keyboard_descriptor());
    }
    r
}

/// The vendor control interface's report descriptor, byte for byte.
pub fn control_descriptor() -> (r: Vec<u8>)
    ensures
        r@ == spec_control_descriptor(),
{
    let mut r: Vec<u8> = Vec::new();
    r.push(0x06);
    r.push(0x00);
    r.push(0xFF);
    r.push(0x09);
    r.push(0x00);
    r.push(0xA1);
    r.push(0x02);
    r.push(0x19);
    r.push(0x00);
    r.push(0x29);
    r.push(0xFF);
    r.push(0x15);
    r.push(0x00);
    r.push(0x26);
    r.push(0xFF);
    r.push(0x00);
    r.push(0x75);
    r.push(0x08);
    r.push(0x95);
    r.push(0x07);
    r.push(0x91);
    r.push(0x00);
    r.push(0x19);
    r.push(0x00);
    r.push(0x29);
    r.push(0xFF);
    r.push(0x81);
    r.push(0x00);
    r.push(0xC0);
    proof {
        assert(r@ =~= spec_control_descriptor());
    }
    r
}

} // verus!
