//! The HID report-descriptor scan for the burst report's payload
//! length.

use tapview::descriptor::parse_report_descriptor_for_burst_len;

#[test]
fn finds_count_under_burst_report_id() {
    // Report ID 0x41, Report Count 0x20, Feature.
    let desc = vec![0x85, 0x41, 0x95, 0x20, 0xB1, 0x02];
    assert_eq!(parse_report_descriptor_for_burst_len(&desc), Some(0x20));
}

#[test]
fn ignores_features_of_other_report_ids() {
    let desc = vec![
        0x85, 0x40, 0x95, 0x10, 0xB1, 0x02, // Feature of report 0x40
        0x85, 0x41, 0x95, 0x30, 0xB1, 0x02, // Feature of report 0x41
    ];
    assert_eq!(parse_report_descriptor_for_burst_len(&desc), Some(0x30));
}

#[test]
fn skips_long_items() {
    // A long item (prefix 0xFE, 2 data bytes, tag byte) precedes the
    // burst feature declaration.
    let desc = vec![
        0xFE, 0x02, 0x00, 0xAA, 0xBB, 0x85, 0x41, 0x95, 0x07, 0xB1, 0x02,
    ];
    assert_eq!(parse_report_descriptor_for_burst_len(&desc), Some(7));
}

#[test]
fn reads_two_byte_counts_little_endian() {
    let desc = vec![0x85, 0x41, 0x96, 0x34, 0x12, 0xB1, 0x02];
    assert_eq!(parse_report_descriptor_for_burst_len(&desc), Some(0x1234));
}

#[test]
fn reads_four_byte_counts_little_endian() {
    let desc = vec![0x85, 0x41, 0x97, 0x78, 0x56, 0x34, 0x00, 0xB1, 0x02];
    assert_eq!(parse_report_descriptor_for_burst_len(&desc), Some(0x345678));
}

#[test]
fn feature_without_pending_count_keeps_scanning() {
    // The first Feature under report 0x41 has no Report Count context
    // yet; the second commits the later count.
    let desc = vec![0x85, 0x41, 0xB1, 0x02, 0x95, 0x05, 0xB1, 0x02];
    assert_eq!(parse_report_descriptor_for_burst_len(&desc), Some(5));
}

#[test]
fn empty_and_unrelated_descriptors_yield_none() {
    assert_eq!(parse_report_descriptor_for_burst_len(&Vec::new()), None);
    let desc = vec![0x85, 0x40, 0x95, 0x10, 0xB1, 0x02];
    assert_eq!(parse_report_descriptor_for_burst_len(&desc), None);
}

#[test]
fn truncated_items_yield_none() {
    // A size-1 item with no data byte left.
    assert_eq!(parse_report_descriptor_for_burst_len(&vec![0x85]), None);
    // A truncated long item.
    assert_eq!(parse_report_descriptor_for_burst_len(&vec![0xFE, 0x05]), None);
}

#[test]
fn long_item_running_past_the_end_yields_none() {
    // The long item claims more data than the descriptor holds.
    let desc = vec![0xFE, 0x40, 0x00, 0x01, 0x02];
    assert_eq!(parse_report_descriptor_for_burst_len(&desc), None);
}

#[test]
fn report_id_with_no_data_is_ignored() {
    // A size-0 Report ID item leaves the current ID unchanged.
    let desc = vec![0x85, 0x41, 0x84, 0x95, 0x09, 0xB1, 0x02];
    assert_eq!(parse_report_descriptor_for_burst_len(&desc), Some(9));
}
