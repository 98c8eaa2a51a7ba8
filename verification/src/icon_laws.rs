//! What a workspace's icon looks like, pixel by pixel.

use vstd::prelude::*;

use crate::icon::blend;
use crate::icon::disk_samples;
use crate::icon::dot_set;
use crate::icon::glyph_covers;
use crate::icon::glyph_rows;
use crate::icon::icon_bytes;
use crate::icon::icon_pixel;
use crate::icon::icon_refusal;
use crate::icon::lemma_disk_is_not_white;
use crate::icon::lemma_icon_byte;
use crate::icon::lemma_sample_counts;
use crate::icon::ring_samples;
use crate::icon::sample_distance;
use crate::icon::shade;
use crate::icon::within;
use crate::icon::WORKSPACE_ICON_SIZE;
use crate::text::decimal;

verus! {

/// A pixel of an image 32 pixels wide, row by row with four bytes each, is
/// opaque white.
pub open spec fn white_at(rgba: Seq<u8>, x: int, y: int) -> bool {
    let at = 4 * (32 * y + x);
    rgba[at] == 255 && rgba[at + 1] == 255 && rgba[at + 2] == 255 && rgba[at + 3] == 255
}

/// The white pixels of an image are exactly the dots of a bitmap of seven rows
/// and five columns, whose leftmost column is the highest of five bits. A dot
/// is three pixels wide and high, and the first begins eight pixels from the
/// left and five from the top.
#[verifier::opaque]
pub open spec fn shows_bitmap(rgba: Seq<u8>, rows: Seq<u8>) -> bool {
    &&& rgba.len() == 4096
    &&& forall|row: int, column: int, dx: int, dy: int|
        0 <= row < 7 && 0 <= column < 5 && 0 <= dx < 3 && 0 <= dy < 3 ==> (#[trigger] white_at(
            rgba,
            8 + 3 * column + dx,
            5 + 3 * row + dy,
        ) <==> (rows[row] >> ((4 - column) as u8)) & 1 == 1)
    &&& forall|x: int, y: int|
        0 <= x < 32 && 0 <= y < 32 && !(8 <= x < 23 && 5 <= y < 26) ==> !#[trigger] white_at(
            rgba,
            x,
            y,
        )
}

/// A bit of a row, by shifting and by dividing.
proof fn lemma_dot_is_bit(bits: u8, column: int)
    requires
        0 <= column < 5,
    ensures
        dot_set(bits, column) <==> (bits >> ((4 - column) as u8)) & 1 == 1,
{
    assert((bits >> 4u8) & 1 == (bits / 16) % 2) by (bit_vector);
    assert((bits >> 3u8) & 1 == (bits / 8) % 2) by (bit_vector);
    assert((bits >> 2u8) & 1 == (bits / 4) % 2) by (bit_vector);
    assert((bits >> 1u8) & 1 == (bits / 2) % 2) by (bit_vector);
    assert((bits >> 0u8) & 1 == bits % 2) by (bit_vector);
    if column == 0 {
        assert((4 - column) as u8 == 4u8);
    } else if column == 1 {
        assert((4 - column) as u8 == 3u8);
    } else if column == 2 {
        assert((4 - column) as u8 == 2u8);
    } else if column == 3 {
        assert((4 - column) as u8 == 1u8);
    } else {
        assert((4 - column) as u8 == 0u8);
    }
}

/// A pixel of an icon is white exactly where the number covers it.
proof fn lemma_white_is_glyph(workspace: u8, x: int, y: int)
    requires
        0 <= x < 32,
        0 <= y < 32,
    ensures
        white_at(icon_bytes(workspace), x, y) <==> glyph_covers(workspace, x, y),
{
    lemma_icon_byte(workspace, x, y, 0);
    lemma_icon_byte(workspace, x, y, 1);
    lemma_icon_byte(workspace, x, y, 2);
    lemma_icon_byte(workspace, x, y, 3);
    lemma_disk_is_not_white(x, y);
}

/// An icon shows the rows of its number.
proof fn lemma_icon_shows_rows(workspace: u8)
    ensures
        shows_bitmap(icon_bytes(workspace), glyph_rows(workspace)),
{
    reveal(shows_bitmap);
    let rgba = icon_bytes(workspace);
    let rows = glyph_rows(workspace);
    assert forall|row: int, column: int, dx: int, dy: int|
        0 <= row < 7 && 0 <= column < 5 && 0 <= dx < 3 && 0 <= dy < 3 implies (
    #[trigger] white_at(rgba, 8 + 3 * column + dx, 5 + 3 * row + dy) <==> (rows[row] >> ((4
        - column) as u8)) & 1 == 1) by {
        let x = 8 + 3 * column + dx;
        let y = 5 + 3 * row + dy;
        assert((x - 8) / 3 == column && (y - 5) / 3 == row);
        lemma_white_is_glyph(workspace, x, y);
        lemma_dot_is_bit(rows[row], column);
    }
    assert forall|x: int, y: int|
        0 <= x < 32 && 0 <= y < 32 && !(8 <= x < 23 && 5 <= y < 26) implies !#[trigger] white_at(
        rgba,
        x,
        y,
    ) by {
        lemma_white_is_glyph(workspace, x, y);
    }
}

/// The icon of each workspace shows its number, in these dots.
pub proof fn law_icons_show_their_number()
    ensures
        shows_bitmap(
            icon_bytes(1),
            seq![0b00100u8, 0b01100, 0b00100, 0b00100, 0b00100, 0b00100, 0b01110],
        ),
        shows_bitmap(
            icon_bytes(2),
            seq![0b01110u8, 0b10001, 0b00001, 0b00010, 0b00100, 0b01000, 0b11111],
        ),
        shows_bitmap(
            icon_bytes(3),
            seq![0b11110u8, 0b00001, 0b00001, 0b01110, 0b00001, 0b00001, 0b11110],
        ),
        shows_bitmap(
            icon_bytes(4),
            seq![0b00010u8, 0b00110, 0b01010, 0b10010, 0b11111, 0b00010, 0b00010],
        ),
        shows_bitmap(
            icon_bytes(5),
            seq![0b11111u8, 0b10000, 0b10000, 0b11110, 0b00001, 0b00001, 0b11110],
        ),
        shows_bitmap(
            icon_bytes(6),
            seq![0b01110u8, 0b10000, 0b10000, 0b11110, 0b10001, 0b10001, 0b01110],
        ),
        shows_bitmap(
            icon_bytes(7),
            seq![0b11111u8, 0b00001, 0b00010, 0b00100, 0b01000, 0b01000, 0b01000],
        ),
        shows_bitmap(
            icon_bytes(8),
            seq![0b01110u8, 0b10001, 0b10001, 0b01110, 0b10001, 0b10001, 0b01110],
        ),
        shows_bitmap(
            icon_bytes(9),
            seq![0b01110u8, 0b10001, 0b10001, 0b01111, 0b00001, 0b00001, 0b01110],
        ),
{
    lemma_icon_shows_rows(1);
    lemma_icon_shows_rows(2);
    lemma_icon_shows_rows(3);
    lemma_icon_shows_rows(4);
    lemma_icon_shows_rows(5);
    lemma_icon_shows_rows(6);
    lemma_icon_shows_rows(7);
    lemma_icon_shows_rows(8);
    lemma_icon_shows_rows(9);
}

/// Where a sample of a pixel lies, in eighths of a pixel from the center of the
/// icon: sixteen of them stand on a grid of four by four within the pixel.
pub open spec fn sample_place(x: int, y: int, sample: int) -> (int, int) {
    (8 * x + 2 * (sample % 4) - 127, 8 * y + 2 * (sample / 4) - 127)
}

/// The samples of a pixel that are at most a radius from the center, given in
/// tenths of a pixel.
pub open spec fn samples_within(x: int, y: int, radius: int, upto: int) -> Set<int> {
    Set::new(
        |s: int|
            {
                let (dx, dy) = sample_place(x, y, s);
                0 <= s < upto && 25 * (dx * dx + dy * dy) <= 16 * radius * radius
            },
    )
}

/// The samples on the disk and those beyond its inner edge are counted.
proof fn lemma_samples_are_counted(x: int, y: int, k: int)
    requires
        0 <= k <= 16,
    ensures
        samples_within(x, y, 145, k).finite(),
        samples_within(x, y, 123, k).finite(),
        disk_samples(x, y, k) == samples_within(x, y, 145, k).len(),
        disk_samples(x, y, k) - ring_samples(x, y, k) == samples_within(x, y, 123, k).len(),
    decreases k,
{
    let disk = samples_within(x, y, 145, k);
    let inner = samples_within(x, y, 123, k);
    if k == 0 {
        assert(disk =~= Set::empty());
        assert(inner =~= Set::empty());
    } else {
        let s = k - 1;
        lemma_samples_are_counted(x, y, s);
        let (dx, dy) = sample_place(x, y, s);
        assert(sample_distance(x, y, s) == dx * dx + dy * dy);
        let d = dx * dx + dy * dy;
        assert(within(d, 145) <==> 25 * d <= 16 * 145 * 145);
        assert(within(d, 123) <==> 25 * d <= 16 * 123 * 123);
        let earlier = samples_within(x, y, 145, s);
        let earlier_inner = samples_within(x, y, 123, s);
        if within(d, 145) {
            assert(disk =~= earlier.insert(s));
        } else {
            assert(disk =~= earlier);
        }
        if within(d, 123) {
            assert(inner =~= earlier_inner.insert(s));
        } else {
            assert(inner =~= earlier_inner);
        }
    }
}

/// The bytes of an icon are its pixels row by row, four bytes each.
pub proof fn law_icons_are_laid_out_in_rows(workspace: u8, x: int, y: int)
    requires
        0 <= x < 32,
        0 <= y < 32,
    ensures
        ({
            let at = 4 * (32 * y + x);
            let pixel = icon_pixel(workspace, x, y);
            &&& WORKSPACE_ICON_SIZE == 32
            &&& icon_bytes(workspace).len() == 4 * WORKSPACE_ICON_SIZE * WORKSPACE_ICON_SIZE
            &&& icon_bytes(workspace)[at] == pixel.0
            &&& icon_bytes(workspace)[at + 1] == pixel.1
            &&& icon_bytes(workspace)[at + 2] == pixel.2
            &&& icon_bytes(workspace)[at + 3] == pixel.3
        }),
{
    lemma_icon_byte(workspace, x, y, 0);
    lemma_icon_byte(workspace, x, y, 1);
    lemma_icon_byte(workspace, x, y, 2);
    lemma_icon_byte(workspace, x, y, 3);
}

/// Below its number an icon is a disk of radius 14.5 pixels around its center
/// with a ring beyond 12.3 pixels. A pixel is as opaque as samples of it lie on
/// the disk, to the nearest of 255 steps, and colored between the blue of the
/// disk and the near-white of the ring as its samples on the disk lie inside
/// the ring or on it.
pub proof fn law_icons_are_ringed_disks(workspace: u8, x: int, y: int)
    requires
        0 <= x < 32,
        0 <= y < 32,
        !white_at(icon_bytes(workspace), x, y),
    ensures
        ({
            let (red, green, blue, alpha) = icon_pixel(workspace, x, y);
            let disk = samples_within(x, y, 145, 16).len() as int;
            let inner = samples_within(x, y, 123, 16).len() as int;
            let ring = disk - inner;
            &&& 0 <= inner <= disk <= 16
            &&& disk == 0 ==> red == 0 && green == 0 && blue == 0 && alpha == 0
            &&& -8 <= 16 * alpha - 255 * disk <= 8
            &&& disk > 0 ==> {
                &&& red * disk <= 225 * ring < (red + 1) * disk
                &&& green * disk <= 120 * inner + 245 * ring < (green + 1) * disk
                &&& blue * disk <= 212 * inner + 255 * ring < (blue + 1) * disk
            }
        }),
{
    lemma_white_is_glyph(workspace, x, y);
    lemma_samples_are_counted(x, y, 16);
    lemma_sample_counts(x, y, 16);
    let disk = disk_samples(x, y, 16);
    let ring = ring_samples(x, y, 16);
    assert(icon_pixel(workspace, x, y) == shade(disk, ring));
    if disk > 0 {
        lemma_blend(0, 225, disk, ring);
        lemma_blend(120, 245, disk, ring);
        lemma_blend(212, 255, disk, ring);
    }
}

/// A blended channel is the weighted mean of the two, rounded down.
proof fn lemma_blend(inner: int, outer: int, disk: int, ring: int)
    requires
        0 <= inner <= 255,
        0 <= outer <= 255,
        0 < disk,
        0 <= ring <= disk,
    ensures
        ({
            let value = blend(inner, outer, disk, ring);
            value * disk <= inner * (disk - ring) + outer * ring < (value + 1) * disk
        }),
{
    let total = inner * (disk - ring) + outer * ring;
    assert(0 <= total <= 255 * disk) by (nonlinear_arith)
        requires
            0 <= inner <= 255,
            0 <= outer <= 255,
            0 <= ring <= disk,
            total == inner * (disk - ring) + outer * ring,
    ;
    let q = total / disk;
    assert(0 <= q <= 255 && q * disk <= total < (q + 1) * disk) by (nonlinear_arith)
        requires
            0 <= total <= 255 * disk,
            0 < disk,
            q == total / disk,
    ;
}

/// A number without an icon is named in the refusal.
pub proof fn law_refusals_name_the_workspace(workspace: u8)
    ensures
        icon_refusal(workspace) == "workspace icon index must be 1-9, got "@ + decimal(
            workspace as nat,
        ),
{
}

} // verus!
