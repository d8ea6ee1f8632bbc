//! End-to-end scenarios of the settings store: first boot, reload,
//! corruption recovery, repeated host writes.

use one_button_keyboard::control::install_pattern;
use one_button_keyboard::crc::crc16;
use one_button_keyboard::pattern::ReportPattern;
use one_button_keyboard::store::{DataStorage, FlashPage, BLOB_LEN, PAGE_SIZE};

fn page_bytes(s: &DataStorage) -> Vec<u8> {
    s.flash.read(0, PAGE_SIZE)
}

#[test]
fn first_boot_installs_zero_pattern_and_writes_blob() {
    let s = DataStorage::load(FlashPage::erased());
    assert_eq!(s.report_pattern, ReportPattern::default());
    let page = page_bytes(&s);
    assert_eq!(&page[..BLOB_LEN], &[0, 0, 0, 0, 0, 0, 0, 0x18, 0x72]);
    assert_eq!(crc16(&page[..BLOB_LEN]), 0);
    assert!(page[BLOB_LEN..].iter().all(|b| *b == 0xFF));

    // The checksum bytes are exactly what the reference CRC of seven zero
    // bytes says they must be.
    let c = crc16::State::<crc16::AUG_CCITT>::calculate(&[0u8; 7]);
    assert_eq!(&page[7..9], &c.to_be_bytes());
}

#[test]
fn saved_pattern_survives_reload() {
    let mut s = DataStorage::load(FlashPage::erased());
    s.report_pattern = ReportPattern { modifier: 0x02, keycodes: [0x2B, 0, 0, 0, 0, 0] };
    s.save().expect("save");
    let first_image = page_bytes(&s);

    let reloaded = DataStorage::load(s.flash);
    assert_eq!(
        reloaded.report_pattern,
        ReportPattern { modifier: 0x02, keycodes: [0x2B, 0, 0, 0, 0, 0] }
    );
    // Reload of a valid page does not rewrite it.
    assert_eq!(page_bytes(&reloaded), first_image);
}

#[test]
fn saving_twice_leaves_the_same_image() {
    let mut s = DataStorage::load(FlashPage::erased());
    s.report_pattern = ReportPattern { modifier: 0x00, keycodes: [0x04, 0, 0, 0, 0, 0] };
    s.save().expect("first save");
    let first = page_bytes(&s);
    s.save().expect("second save");
    assert_eq!(page_bytes(&s), first);
}

#[test]
fn corrupted_crc_byte_recovers_to_default() {
    let mut s = DataStorage::load(FlashPage::erased());
    s.report_pattern = ReportPattern { modifier: 0x00, keycodes: [0x04, 0, 0, 0, 0, 0] };
    s.save().expect("save");

    // Externally clear byte 7 of the persisted blob (a CRC byte).
    let mut flash = s.flash;
    flash.write_byte(7, 0x00);

    let rebooted = DataStorage::load(flash);
    assert_eq!(rebooted.report_pattern, ReportPattern::default());
    let page = page_bytes(&rebooted);
    assert_eq!(&page[..BLOB_LEN], &[0, 0, 0, 0, 0, 0, 0, 0x18, 0x72]);
}

#[test]
fn every_single_bit_flip_in_the_blob_is_caught() {
    let mut s = DataStorage::load(FlashPage::erased());
    s.report_pattern = ReportPattern { modifier: 0x5A, keycodes: [1, 2, 3, 4, 5, 6] };
    s.save().expect("save");
    let good = page_bytes(&s);
    assert_eq!(crc16(&good[..BLOB_LEN]), 0);

    for i in 0..BLOB_LEN {
        for j in 0..8u8 {
            let mut flash = FlashPage::erased();
            flash.write_start(&good);
            flash.write_byte(i, good[i] ^ (1 << j));
            let rebooted = DataStorage::load(flash);
            assert_eq!(
                rebooted.report_pattern,
                ReportPattern::default(),
                "flip of bit {} in byte {} went unnoticed",
                j,
                i
            );
        }
    }
}

#[test]
fn rapid_host_writes_commit_in_order() {
    let mut s = DataStorage::load(FlashPage::erased());
    let first = ReportPattern { modifier: 0x00, keycodes: [0x04, 0, 0, 0, 0, 0] };
    let second = ReportPattern { modifier: 0x02, keycodes: [0x2B, 0, 0, 0, 0, 0] };

    install_pattern(&mut s, first).expect("first install");
    assert_eq!(s.report_pattern, first);
    let after_first = page_bytes(&s);
    assert_eq!(&after_first[..7], &first.pack());

    install_pattern(&mut s, second).expect("second install");
    assert_eq!(s.report_pattern, second);
    let after_second = page_bytes(&s);
    assert_eq!(&after_second[..7], &second.pack());

    let rebooted = DataStorage::load(s.flash);
    assert_eq!(rebooted.report_pattern, second);
}
