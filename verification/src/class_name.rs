//! The class name of a window, as the window system hands it out.

use vstd::prelude::*;
use vstd::slice::slice_subrange;

verus! {

/// The code unit is the first of a surrogate pair.
pub open spec fn leads_pair(unit: u16) -> bool {
    0xd800 <= unit <= 0xdbff
}

/// The code unit is the second of a surrogate pair.
pub open spec fn ends_pair(unit: u16) -> bool {
    0xdc00 <= unit <= 0xdfff
}

/// The text that a sequence of UTF-16 code units encodes, with every unpaired
/// surrogate replaced by U+FFFD.
pub open spec fn utf16_lossy(units: Seq<u16>) -> Seq<char>
    decreases units.len(),
{
    if units.len() == 0 {
        Seq::empty()
    } else if units.len() > 1 && leads_pair(units[0]) && ends_pair(units[1]) {
        let scalar = 0x10000 + 0x400 * (units[0] - 0xd800) + (units[1] - 0xdc00);
        seq![scalar as char] + utf16_lossy(units.skip(2))
    } else if leads_pair(units[0]) || ends_pair(units[0]) {
        seq!['\u{fffd}'] + utf16_lossy(units.skip(1))
    } else {
        seq![units[0] as char] + utf16_lossy(units.skip(1))
    }
}

/// `String::from_utf16_lossy`.
///
/// Claimed: it decodes UTF-16, replacing what is not valid with U+FFFD.
#[verifier::external_body]
fn decode_utf16(units: &[u16]) -> (text: String)
    ensures
        text@ == utf16_lossy(units@),
{
    String::from_utf16_lossy(units)
}

/// The class name of a window, from the buffer that it was read into and the
/// number of code units that were written. Empty if nothing was.
pub fn window_class_name(buffer: &[u16], written: i32) -> (name: String)
    requires
        written <= buffer@.len(),
    ensures
        name@ == if written > 0 {
            utf16_lossy(buffer@.take(written as int))
        } else {
            Seq::empty()
        },
{
    if written > 0 {
        decode_utf16(slice_subrange(buffer, 0, written as usize))
    } else {
        String::new()
    }
}

/// A name in which no code unit is a surrogate has one character for each.
pub proof fn law_plain_names_are_their_units(units: Seq<u16>)
    requires
        forall|i: int|
            0 <= i < units.len() ==> (#[trigger] units[i] < 0xd800 || units[i] > 0xdfff),
    ensures
        utf16_lossy(units).len() == units.len(),
        forall|i: int| 0 <= i < units.len() ==> #[trigger] utf16_lossy(units)[i] as u32 == units[i],
    decreases units.len(),
{
    if units.len() > 0 {
        let rest = units.skip(1);
        assert forall|i: int| 0 <= i < rest.len() implies (#[trigger] rest[i] < 0xd800 || rest[i]
            > 0xdfff) by {
            assert(rest[i] == units[i + 1]);
        }
        law_plain_names_are_their_units(rest);
        assert forall|i: int| 0 <= i < units.len() implies #[trigger] utf16_lossy(units)[i] as u32
            == units[i] by {
            if i > 0 {
                assert(utf16_lossy(units)[i] == utf16_lossy(rest)[i - 1]);
                assert(rest[i - 1] == units[i]);
            }
        }
    }
}

} // verus!
