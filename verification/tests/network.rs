use m5a_core::network::{local_unix, mac_text, JST_OFFSET_SECONDS};

#[test]
fn clock_readings_become_japan_time() {
    assert_eq!(JST_OFFSET_SECONDS, 32_400);
    assert_eq!(local_unix(1_700_000_000), 1_700_032_400);
    assert_eq!(local_unix(1), 32_401);
}

#[test]
fn an_unset_clock_is_left_as_it_reads() {
    assert_eq!(local_unix(0), 0);
    assert_eq!(local_unix(-5), -5);
}

#[test]
fn hardware_address_is_written_in_hex_pairs() {
    let mac = [0x24_u8, 0x0a, 0xc4, 0x00, 0xff, 0x1b];
    assert_eq!(mac_text(Some(&mac)), "24:0a:c4:00:ff:1b");
    assert_eq!(mac_text(Some(&[0x7f])), "7f");
    assert_eq!(mac_text(Some(&[])), "");
}

#[test]
fn unreadable_address_is_unknown() {
    assert_eq!(mac_text(None), "不明");
}
