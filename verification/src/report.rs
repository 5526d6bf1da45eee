//! The alternate touch-report decoder: a stateless per-report extractor
//! that produces the same canonical contact table as the incremental
//! state machine, from a different wire format.
//!
//! The platform layer walks one complete HID report with its parsed
//! capability descriptor and hands this module plain values: one
//! `ContactReading` per candidate contact collection (in collection
//! order) and the list of asserted button usages. Everything decided
//! from those values is verified here.

use vstd::prelude::*;

use crate::input::{touch_state_wf, TouchState};
use crate::multitouch::{touch_data_default, ButtonState, TouchData, MAX_TOUCH_POINTS};

verus! {

/// Tool-type marker for a palm (not a finger), as the kernel encodes it.
pub const MT_TOOL_PALM: i32 = 0x02;

/// What the platform layer extracted for one candidate contact: the two
/// per-contact flags and the usage values that were present in the
/// report (absent usages read as `None` and leave the field cleared).
#[derive(Clone, Copy, Debug, PartialEq, Eq, Structural)]
pub struct ContactReading {
    /// Tip switch: the finger is touching.
    pub tip_switch: bool,
    /// Confidence: the contact is not a palm.
    pub confidence: bool,
    pub x: Option<u32>,
    pub y: Option<u32>,
    pub contact_id: Option<u32>,
    pub pressure: Option<u32>,
    pub width: Option<u32>,
    pub height: Option<u32>,
}

/// The contact record one reading decodes to: occupancy and the pressed
/// flag follow the tip switch, inverted confidence marks a palm, width
/// and height land in the touch ellipse, and every absent value stays
/// cleared.
pub open spec fn contact_to_touch(c: ContactReading) -> TouchData {
    TouchData {
        used: c.tip_switch,
        pressed: c.tip_switch,
        position_x: match c.x {
            Option::Some(v) => v as i32,
            Option::None => 0,
        },
        position_y: match c.y {
            Option::Some(v) => v as i32,
            Option::None => 0,
        },
        tracking_id: match c.contact_id {
            Option::Some(v) => v as i32,
            Option::None => 0,
        },
        pressure: match c.pressure {
            Option::Some(v) => v as i32,
            Option::None => 0,
        },
        touch_major: match c.width {
            Option::Some(v) => v as i32,
            Option::None => 0,
        },
        touch_minor: match c.height {
            Option::Some(v) => v as i32,
            Option::None => 0,
        },
        tool_type: if !c.confidence {
            MT_TOOL_PALM
        } else {
            0
        },
        ..touch_data_default()
    }
}

/// Decode one reading into a contact record, exactly as
/// `contact_to_touch` states.
fn decode_contact(c: &ContactReading) -> (t: TouchData)
    ensures
        t == contact_to_touch(*c),
{
    let mut t = TouchData::default();
    t.used = c.tip_switch;
    t.pressed = c.tip_switch;
    t.position_x = match c.x {
        Some(v) => v as i32,
        None => 0,
    };
    t.position_y = match c.y {
        Some(v) => v as i32,
        None => 0,
    };
    t.tracking_id = match c.contact_id {
        Some(v) => v as i32,
        None => 0,
    };
    t.pressure = match c.pressure {
        Some(v) => v as i32,
        None => 0,
    };
    t.touch_major = match c.width {
        Some(v) => v as i32,
        None => 0,
    };
    t.touch_minor = match c.height {
        Some(v) => v as i32,
        None => 0,
    };
    if !c.confidence {
        t.tool_type = MT_TOOL_PALM;
    }
    t
}

/// Assemble the canonical touch state from one report's extracted
/// contacts and a previously decided button state.
///
/// The first `contact_count` readings (in collection order, capped by
/// the table capacity and by how many collections the report had) fill
/// slots 0 upward; every remaining slot is empty.
pub fn parse_touchpad_report(
    contact_count: u32,
    readings: &Vec<ContactReading>,
    buttons: ButtonState,
) -> (t: TouchState)
    ensures
        touch_state_wf(t),
        t.buttons == buttons,
        forall|i: int|
            0 <= i < MAX_TOUCH_POINTS ==> t.touches@[i] == (if i < contact_count
                && i < readings@.len() {
                contact_to_touch(readings@[i])
            } else {
                touch_data_default()
            }),
{
    let mut t = TouchState::default();
    t.buttons = buttons;
    let mut slot: usize = 0;
    while slot < MAX_TOUCH_POINTS && (slot as u32) < contact_count && slot < readings.len()
        invariant
            slot <= MAX_TOUCH_POINTS,
            slot <= contact_count,
            slot <= readings@.len(),
            t.touches@.len() == MAX_TOUCH_POINTS,
            t.buttons == buttons,
            forall|k: int|
                0 <= k < slot ==> t.touches@[k] == contact_to_touch(readings@[k]),
            forall|k: int| slot <= k < MAX_TOUCH_POINTS ==> t.touches@[k] == touch_data_default(),
        decreases MAX_TOUCH_POINTS - slot,
    {
        let d = decode_contact(&readings[slot]);
        t.touches.set(slot, d);
        slot = slot + 1;
    }
    t
}

/// Whether the extracted usage list asserts the given (page, usage)
/// pair.
pub open spec fn usages_contain(usages: Seq<(u16, u16)>, page: u16, usage: u16) -> bool {
    exists|i: int| 0 <= i < usages.len() && usages[i] == (page, usage)
}

/// Decide the button state from one report's asserted button-page
/// usages: usages 1, 2 and 3 on page 9 are left, right and middle.
///
/// `fallback_left_value` is the raw usage value of (page 9, usage 1)
/// when the device exposes the primary click as a value rather than a
/// discrete button usage: any non-zero value also presses left.
pub fn check_buttons(usages: &Vec<(u16, u16)>, fallback_left_value: Option<u32>) -> (b:
    ButtonState)
    ensures
        b.left == (usages_contain(usages@, 9, 1) || (fallback_left_value matches Option::Some(v)
            && v != 0)),
        b.right == usages_contain(usages@, 9, 2),
        b.middle == usages_contain(usages@, 9, 3),
{
    let mut b = ButtonState::default();
    let n = usages.len();
    let mut i: usize = 0;
    while i < n
        invariant
            i <= n,
            usages@.len() == n,
            b.left == usages_contain(usages@.subrange(0, i as int), 9, 1),
            b.right == usages_contain(usages@.subrange(0, i as int), 9, 2),
            b.middle == usages_contain(usages@.subrange(0, i as int), 9, 3),
        decreases n - i,
    {
        let u = usages[i];
        if u.0 == 9 {
            if u.1 == 1 {
                b.left = true;
            } else if u.1 == 2 {
                b.right = true;
            } else if u.1 == 3 {
                b.middle = true;
            }
        }
        proof {
            let pre = usages@.subrange(0, i as int);
            let post = usages@.subrange(0, i + 1 as int);
            assert(post.drop_last() =~= pre);
            assert(post.last() == usages@[i as int]);
            lemma_usages_extend(usages@, i as int, 9, 1);
            lemma_usages_extend(usages@, i as int, 9, 2);
            lemma_usages_extend(usages@, i as int, 9, 3);
        }
        i = i + 1;
    }
    proof {
        assert(usages@.subrange(0, n as int) =~= usages@);
    }
    if !b.left {
        match fallback_left_value {
            Some(v) => {
                if v != 0 {
                    b.left = true;
                }
            },
            None => (),
        }
    }
    b
}

/// What one extracted input value-capability declares: its usage page,
/// usage and logical maximum.
#[derive(Clone, Copy, Debug, PartialEq, Eq, Structural)]
pub struct ValueCapInfo {
    pub usage_page: u16,
    pub usage: u16,
    pub logical_max: i32,
}

/// The maximum simultaneous contact count a capability list declares:
/// the logical maximum of the first Contact Count Maximum value
/// capability (digitizer page 0x0D, usage 0x55), or 5 when none is
/// declared.
pub open spec fn max_contacts_of(caps: Seq<ValueCapInfo>) -> u32
    decreases caps.len(),
{
    if caps.len() == 0 {
        5
    } else if caps[0].usage_page == 0x0D && caps[0].usage == 0x55 {
        caps[0].logical_max as u32
    } else {
        max_contacts_of(caps.drop_first())
    }
}

/// Derive the maximum contact count from the extracted value
/// capabilities, exactly as `max_contacts_of` states.
pub fn max_contact_count(caps: &Vec<ValueCapInfo>) -> (n: u32)
    ensures
        n == max_contacts_of(caps@),
{
    let len = caps.len();
    let mut i: usize = 0;
    proof {
        assert(caps@.skip(0) =~= caps@);
    }
    while i < len
        invariant
            i <= len,
            caps@.len() == len,
            max_contacts_of(caps@.skip(i as int)) == max_contacts_of(caps@),
        decreases len - i,
    {
        proof {
            assert(caps@.skip(i as int)[0] == caps@[i as int]);
            assert(caps@.skip(i as int).drop_first() =~= caps@.skip(i + 1));
        }
        let c = caps[i];
        if c.usage_page == 0x0D && c.usage == 0x55 {
            return c.logical_max as u32;
        }
        i = i + 1;
    }
    proof {
        assert(caps@.skip(len as int) =~= Seq::<ValueCapInfo>::empty());
    }
    5
}

/// The link collections declared by button capabilities on the button
/// page (0x09), in declaration order.
pub open spec fn button_page_collections(caps: Seq<(u16, u16)>) -> Seq<u16>
    decreases caps.len(),
{
    if caps.len() == 0 {
        Seq::empty()
    } else {
        let rest = button_page_collections(caps.drop_last());
        if caps.last().0 == 9 {
            rest.push(caps.last().1)
        } else {
            rest
        }
    }
}

/// A sequence with consecutive duplicates collapsed: an element is kept
/// exactly when it differs from its predecessor.
pub open spec fn dedup_adjacent(s: Seq<u16>) -> Seq<u16>
    decreases s.len(),
{
    if s.len() == 0 {
        Seq::empty()
    } else {
        let rest = dedup_adjacent(s.drop_last());
        if s.len() >= 2 && s[s.len() - 2] == s.last() {
            rest
        } else {
            rest.push(s.last())
        }
    }
}

/// Which link collections a report's button scan must query: those
/// declaring button capabilities on page 9 (consecutive duplicates
/// collapsed), with the top-level collection 0 prepended when it is not
/// already among them.
pub open spec fn scan_collections_of(caps: Seq<(u16, u16)>) -> Seq<u16> {
    let d = dedup_adjacent(button_page_collections(caps));
    if d.contains(0u16) {
        d
    } else {
        seq![0u16] + d
    }
}

/// Decide the link collections to scan for button usages from the
/// extracted button capabilities `(usage page, link collection)`,
/// exactly as `scan_collections_of` states.
pub fn button_scan_collections(caps: &Vec<(u16, u16)>) -> (out: Vec<u16>)
    ensures
        out@ == scan_collections_of(caps@),
{
    let n = caps.len();
    let mut filtered: Vec<u16> = Vec::new();
    let mut i: usize = 0;
    while i < n
        invariant
            i <= n,
            caps@.len() == n,
            filtered@ == button_page_collections(caps@.subrange(0, i as int)),
        decreases n - i,
    {
        proof {
            assert(caps@.subrange(0, i + 1 as int).drop_last() =~= caps@.subrange(0, i as int));
            assert(caps@.subrange(0, i + 1 as int).last() == caps@[i as int]);
        }
        let c = caps[i];
        if c.0 == 9 {
            filtered.push(c.1);
        }
        i = i + 1;
    }
    proof {
        assert(caps@.subrange(0, n as int) =~= caps@);
    }

    let m = filtered.len();
    let mut deduped: Vec<u16> = Vec::new();
    let mut j: usize = 0;
    while j < m
        invariant
            j <= m,
            filtered@.len() == m,
            deduped@ == dedup_adjacent(filtered@.subrange(0, j as int)),
        decreases m - j,
    {
        proof {
            assert(filtered@.subrange(0, j + 1 as int).drop_last() =~= filtered@.subrange(
                0,
                j as int,
            ));
            assert(filtered@.subrange(0, j + 1 as int).last() == filtered@[j as int]);
        }
        if j == 0 || filtered[j] != filtered[j - 1] {
            deduped.push(filtered[j]);
        }
        j = j + 1;
    }
    proof {
        assert(filtered@.subrange(0, m as int) =~= filtered@);
    }

    let k_max = deduped.len();
    let mut has_zero = false;
    let mut k: usize = 0;
    while k < k_max
        invariant
            k <= k_max,
            deduped@.len() == k_max,
            has_zero == deduped@.subrange(0, k as int).contains(0u16),
        decreases k_max - k,
    {
        proof {
            lemma_prefix_contains_extend(deduped@, k as int, 0u16);
        }
        if deduped[k] == 0 {
            has_zero = true;
        }
        k = k + 1;
    }
    proof {
        assert(deduped@.subrange(0, k_max as int) =~= deduped@);
    }
    if !has_zero {
        deduped.insert(0, 0);
        proof {
            assert(deduped@ =~= seq![0u16] + dedup_adjacent(button_page_collections(caps@)));
        }
    }
    deduped
}

/// Extending a scanned prefix by one element makes it contain a value
/// exactly when the prefix already did or the new element is it.
proof fn lemma_prefix_contains_extend(s: Seq<u16>, i: int, v: u16)
    requires
        0 <= i < s.len(),
    ensures
        s.subrange(0, i + 1).contains(v) == (s.subrange(0, i).contains(v) || s[i] == v),
{
    let pre = s.subrange(0, i);
    let post = s.subrange(0, i + 1);
    if post.contains(v) {
        let k = choose|k: int| 0 <= k < post.len() && post[k] == v;
        if k < i {
            assert(pre[k] == v);
        }
    }
    if pre.contains(v) {
        let k = choose|k: int| 0 <= k < pre.len() && pre[k] == v;
        assert(post[k] == v);
    }
    if s[i] == v {
        assert(post[i] == v);
    }
}

/// Extending the scanned prefix by one usage asserts a pair exactly
/// when the prefix already did or the new usage is that pair.
proof fn lemma_usages_extend(usages: Seq<(u16, u16)>, i: int, page: u16, usage: u16)
    requires
        0 <= i < usages.len(),
    ensures
        usages_contain(usages.subrange(0, i + 1), page, usage) == (usages_contain(
            usages.subrange(0, i),
            page,
            usage,
        ) || usages[i] == (page, usage)),
{
    let pre = usages.subrange(0, i);
    let post = usages.subrange(0, i + 1);
    if usages_contain(post, page, usage) {
        let k = choose|k: int| 0 <= k < post.len() && post[k] == (page, usage);
        if k < i {
            assert(pre[k] == (page, usage));
        } else {
            assert(post[i] == usages[i]);
        }
    }
    if usages_contain(pre, page, usage) {
        let k = choose|k: int| 0 <= k < pre.len() && pre[k] == (page, usage);
        assert(post[k] == (page, usage));
    }
    if usages[i] == (page, usage) {
        assert(post[i] == (page, usage));
    }
}

} // verus!
