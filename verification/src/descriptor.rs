//! HID report-descriptor scanning for the burst report's payload length.
//!
//! A descriptor is a stream of items. A short item is a one-byte prefix
//! whose low two bits encode the data size (0, 1, 2 or 4 bytes) and whose
//! high six bits are the tag; a long item (prefix 0xFE) carries a one-byte
//! data size followed by a one-byte tag and is skipped whole. The scan
//! tracks the current Report ID (global tag 0x84) and the pending Report
//! Count (global tag 0x94); a Feature main item (tag 0xB0) commits the
//! pending count when the current Report ID is the burst report's.

use vstd::prelude::*;

use crate::protocol::REPORT_BURST;

verus! {

/// The data size, in bytes, a short-item prefix announces.
pub open spec fn short_item_size(prefix: u8) -> int {
    let bits = prefix & 0x03;
    if bits == 0 {
        0
    } else if bits == 1 {
        1
    } else if bits == 2 {
        2
    } else {
        4
    }
}

/// The little-endian value of a Report Count item's data bytes at
/// offset `i`, for the given size; absent data counts as zero.
pub open spec fn count_value(desc: Seq<u8>, i: int, size: int) -> int {
    if size == 1 {
        desc[i] as int
    } else if size == 2 {
        desc[i] + 256 * desc[i + 1]
    } else if size == 4 {
        desc[i] + 256 * desc[i + 1] + 65536 * desc[i + 2] + 16777216 * desc[i + 3]
    } else {
        0
    }
}

/// The scan from position `i` with the given Report ID and Report Count
/// context: `Some(count)` once a Feature item commits a pending count
/// under the burst report ID, `None` when the descriptor ends (or is
/// truncated) first.
pub open spec fn scan_from(desc: Seq<u8>, i: int, cur_id: Option<u8>, cur_count: Option<usize>)
    -> Option<usize>
    decreases desc.len() - i,
{
    if !(0 <= i < desc.len()) {
        Option::None
    } else {
        let prefix = desc[i];
        if prefix == 0xFE {
            if i + 2 >= desc.len() {
                Option::None
            } else {
                let ni = i + 3 + desc[i + 1];
                if ni < desc.len() {
                    scan_from(desc, ni, cur_id, cur_count)
                } else {
                    Option::None
                }
            }
        } else {
            let size = short_item_size(prefix);
            if i + 1 + size > desc.len() {
                Option::None
            } else {
                let tag = prefix & 0xFC;
                let next_id = if tag == 0x84 && size >= 1 {
                    Option::Some(desc[i + 1])
                } else {
                    cur_id
                };
                let next_count = if tag == 0x94 {
                    Option::Some(count_value(desc, i + 1, size) as usize)
                } else {
                    cur_count
                };
                if tag == 0xB0 && cur_id == Option::Some(REPORT_BURST) && cur_count is Some {
                    cur_count
                } else {
                    let ni = i + 1 + size;
                    if ni < desc.len() {
                        scan_from(desc, ni, next_id, next_count)
                    } else {
                        Option::None
                    }
                }
            }
        }
    }
}

/// What parsing a whole descriptor yields.
pub open spec fn burst_len_of(desc: Seq<u8>) -> Option<usize> {
    scan_from(desc, 0, Option::None, Option::None)
}

/// Scan a binary HID report descriptor for the Report Count of the
/// Feature item under the burst report ID: the burst payload length in
/// bytes. Returns exactly `burst_len_of` of the bytes: `None` when no
/// such Feature item exists before the descriptor ends or truncates.
pub fn parse_report_descriptor_for_burst_len(desc: &Vec<u8>) -> (r: Option<usize>)
    ensures
        r == burst_len_of(desc@),
{
    let len = desc.len();
    let mut i: usize = 0;
    let mut cur_id: Option<u8> = None;
    let mut cur_count: Option<usize> = None;
    while i < len
        invariant
            desc@.len() == len,
            scan_from(desc@, i as int, cur_id, cur_count) == burst_len_of(desc@),
        decreases len - i,
    {
        let prefix = desc[i];

        if prefix == 0xFE {
            // Long item: skip its one-byte size, one-byte tag and data.
            if len - i < 3 {
                return None;
            }
            let data_size = desc[i + 1] as usize;
            if data_size > len - i - 3 {
                i = len;
            } else {
                i = i + 3 + data_size;
            }
            continue;
        }

        let size_bits = prefix & 0x03;
        let size: usize = if size_bits == 0 {
            0
        } else if size_bits == 1 {
            1
        } else if size_bits == 2 {
            2
        } else {
            4
        };

        if size > len - i - 1 {
            return None;
        }

        let tag = prefix & 0xFC;

        if tag == 0x84 {
            // Report ID (global).
            if size >= 1 {
                cur_id = Some(desc[i + 1]);
            }
        } else if tag == 0x94 {
            // Report Count (global).
            let count: usize = if size == 1 {
                desc[i + 1] as usize
            } else if size == 2 {
                desc[i + 1] as usize + 256 * (desc[i + 2] as usize)
            } else if size == 4 {
                desc[i + 1] as usize + 256 * (desc[i + 2] as usize) + 65536 * (desc[i + 3] as usize)
                    + 16777216 * (desc[i + 4] as usize)
            } else {
                0
            };
            cur_count = Some(count);
        } else if tag == 0xB0 {
            // Feature (main): commit the pending count under the burst ID.
            let id_matches = match cur_id {
                Some(id) => id == REPORT_BURST,
                None => false,
            };
            if id_matches {
                match cur_count {
                    Some(count) => {
                        return Some(count);
                    },
                    None => (),
                }
            }
        }

        i = i + 1 + size;
    }
    None
}

} // verus!
