//! The tray icon of a workspace: an antialiased disk with a bright ring, and
//! the number of the workspace on top.
//!
//! Each pixel is sampled on a four-by-four grid. Lengths are counted in eighths
//! of a pixel, so that every sample and the center lie on whole numbers, and
//! the radii in tenths of a pixel.

use vstd::prelude::*;

use crate::text::decimal;
use crate::text::decimal_text;
use crate::tray_error::TrayError;

verus! {

/// Width and height of an icon.
pub const WORKSPACE_ICON_SIZE: usize = 32;

/// The radius of the disk, in tenths of a pixel.
pub const OUTER_RADIUS: i32 = 145;

/// The radius where the ring begins, in tenths of a pixel.
pub const INNER_RADIUS: i32 = 123;

/// Left and top of the number within the icon.
pub const GLYPH_LEFT: usize = 8;

pub const GLYPH_TOP: usize = 5;

/// How many pixels wide and high a dot of the number is.
pub const GLYPH_SCALE: usize = 3;

/// An image, row by row, four bytes per pixel: red, green, blue, alpha.
#[derive(Debug)]
pub struct IconImage {
    pub rgba: Vec<u8>,
    pub width: u32,
    pub height: u32,
}

/// One pixel: red, green, blue, alpha.
pub type Pixel = (u8, u8, u8, u8);

/// The coordinate of a sample relative to the center, in eighths of a pixel.
pub open spec fn sample_at(pixel: int, sample: int) -> int {
    8 * pixel + 2 * sample + 1 - 4 * WORKSPACE_ICON_SIZE
}

/// The square of a sample's distance from the center, in eighths of a pixel.
pub open spec fn sample_distance(x: int, y: int, k: int) -> int {
    sample_at(x, k % 4) * sample_at(x, k % 4) + sample_at(y, k / 4) * sample_at(y, k / 4)
}

/// The distance, given squared in eighths of a pixel, is at most the radius,
/// given in tenths.
pub open spec fn within(distance: int, radius: int) -> bool {
    100 * distance <= 64 * radius * radius
}

/// How many of the first `k` samples of a pixel lie on the disk.
pub open spec fn disk_samples(x: int, y: int, k: int) -> int
    decreases k,
{
    if k <= 0 {
        0
    } else {
        disk_samples(x, y, k - 1) + if within(
            sample_distance(x, y, k - 1),
            OUTER_RADIUS as int,
        ) {
            1int
        } else {
            0
        }
    }
}

/// How many of the first `k` samples of a pixel lie on the ring.
pub open spec fn ring_samples(x: int, y: int, k: int) -> int
    decreases k,
{
    if k <= 0 {
        0
    } else {
        ring_samples(x, y, k - 1) + if within(sample_distance(x, y, k - 1), OUTER_RADIUS as int)
            && !within(sample_distance(x, y, k - 1), INNER_RADIUS as int) {
            1int
        } else {
            0
        }
    }
}

/// Two color channels in proportion, `ring` parts of one to the rest of
/// `disk` parts of the other.
pub open spec fn blend(inner: int, outer: int, disk: int, ring: int) -> u8 {
    ((inner * (disk - ring) + outer * ring) / disk) as u8
}

/// The color of a pixel with so many samples on the disk, and of these so many
/// on the ring: the blue of the disk and the near-white of the ring in
/// proportion, as opaque as the disk covers the pixel, rounded to the nearest.
pub open spec fn shade(disk: int, ring: int) -> Pixel {
    if disk == 0 {
        (0u8, 0u8, 0u8, 0u8)
    } else {
        (
            blend(0, 225, disk, ring),
            blend(120, 245, disk, ring),
            blend(212, 255, disk, ring),
            ((255 * disk + 8) / 16) as u8,
        )
    }
}

/// The rows of a number, each with its five dots as the bits of a byte, the
/// leftmost dot highest.
pub open spec fn glyph_rows(workspace: u8) -> Seq<u8> {
    if workspace == 1 {
        seq![0b00100u8, 0b01100, 0b00100, 0b00100, 0b00100, 0b00100, 0b01110]
    } else if workspace == 2 {
        seq![0b01110u8, 0b10001, 0b00001, 0b00010, 0b00100, 0b01000, 0b11111]
    } else if workspace == 3 {
        seq![0b11110u8, 0b00001, 0b00001, 0b01110, 0b00001, 0b00001, 0b11110]
    } else if workspace == 4 {
        seq![0b00010u8, 0b00110, 0b01010, 0b10010, 0b11111, 0b00010, 0b00010]
    } else if workspace == 5 {
        seq![0b11111u8, 0b10000, 0b10000, 0b11110, 0b00001, 0b00001, 0b11110]
    } else if workspace == 6 {
        seq![0b01110u8, 0b10000, 0b10000, 0b11110, 0b10001, 0b10001, 0b01110]
    } else if workspace == 7 {
        seq![0b11111u8, 0b00001, 0b00010, 0b00100, 0b01000, 0b01000, 0b01000]
    } else if workspace == 8 {
        seq![0b01110u8, 0b10001, 0b10001, 0b01110, 0b10001, 0b10001, 0b01110]
    } else {
        seq![0b01110u8, 0b10001, 0b10001, 0b01111, 0b00001, 0b00001, 0b01110]
    }
}

/// The weight of a dot's bit.
pub open spec fn dot_weight(column: int) -> int {
    if column == 0 {
        16
    } else if column == 1 {
        8
    } else if column == 2 {
        4
    } else if column == 3 {
        2
    } else {
        1
    }
}

/// The dot in a column of a row is set.
pub open spec fn dot_set(bits: u8, column: int) -> bool {
    (bits as int / dot_weight(column)) % 2 == 1
}

/// The number of the workspace covers the pixel.
pub open spec fn glyph_covers(workspace: u8, x: int, y: int) -> bool {
    &&& GLYPH_LEFT <= x < GLYPH_LEFT + 5 * GLYPH_SCALE
    &&& GLYPH_TOP <= y < GLYPH_TOP + 7 * GLYPH_SCALE
    &&& dot_set(
        glyph_rows(workspace)[(y - GLYPH_TOP) / (GLYPH_SCALE as int)],
        (x - GLYPH_LEFT) / (GLYPH_SCALE as int),
    )
}

/// The color of a pixel of a workspace's icon.
pub open spec fn icon_pixel(workspace: u8, x: int, y: int) -> Pixel {
    if glyph_covers(workspace, x, y) {
        (255u8, 255u8, 255u8, 255u8)
    } else {
        shade(disk_samples(x, y, 16), ring_samples(x, y, 16))
    }
}

/// A channel of a pixel.
pub open spec fn channel(pixel: Pixel, index: int) -> u8 {
    if index == 0 {
        pixel.0
    } else if index == 1 {
        pixel.1
    } else if index == 2 {
        pixel.2
    } else {
        pixel.3
    }
}

/// The bytes of a workspace's icon.
pub open spec fn icon_bytes(workspace: u8) -> Seq<u8> {
    Seq::new(
        4096,
        |i: int| channel(icon_pixel(workspace, (i / 4) % 32, (i / 4) / 32), i % 4),
    )
}

/// What is said of a workspace that has no icon.
pub open spec fn icon_refusal(workspace: u8) -> Seq<char> {
    "workspace icon index must be 1-9, got "@ + decimal(workspace as nat)
}

fn is_within(distance: i32, radius: i32) -> (r: bool)
    requires
        0 <= distance <= 40000,
        0 <= radius <= 200,
    ensures
        r == within(distance as int, radius as int),
{
    assert(0 <= 64 * radius * radius <= 12800 * 200) by (nonlinear_arith)
        requires
            0 <= radius <= 200,
    ;
    100 * distance <= 64 * radius * radius
}

/// The coordinate of a sample relative to the center, squared.
fn sample_square(pixel: usize, sample: usize) -> (square: i32)
    requires
        pixel < WORKSPACE_ICON_SIZE,
        sample < 4,
    ensures
        square == sample_at(pixel as int, sample as int) * sample_at(pixel as int, sample as int),
        0 <= square <= 127 * 127,
{
    let offset: i32 = 8 * (pixel as i32) + 2 * (sample as i32) + 1 - 128;
    assert(0 <= offset * offset <= 127 * 127) by (nonlinear_arith)
        requires
            -127 <= offset <= 127,
    ;
    offset * offset
}

/// How many samples of a pixel lie on the disk, and how many on the ring.
fn count_samples(x: usize, y: usize) -> (counts: (u32, u32))
    requires
        x < WORKSPACE_ICON_SIZE,
        y < WORKSPACE_ICON_SIZE,
    ensures
        counts.0 == disk_samples(x as int, y as int, 16),
        counts.1 == ring_samples(x as int, y as int, 16),
        counts.1 <= counts.0 <= 16,
{
    let mut disk: u32 = 0;
    let mut ring: u32 = 0;
    for k in 0..16usize
        invariant
            x < WORKSPACE_ICON_SIZE,
            y < WORKSPACE_ICON_SIZE,
            disk == disk_samples(x as int, y as int, k as int),
            ring == ring_samples(x as int, y as int, k as int),
            ring <= disk <= k,
    {
        let distance: i32 = sample_square(x, k % 4) + sample_square(y, k / 4);
        if is_within(distance, OUTER_RADIUS) {
            disk = disk + 1;
            if !is_within(distance, INNER_RADIUS) {
                ring = ring + 1;
            }
        }
    }
    (disk, ring)
}

/// Two color channels in proportion.
fn blend_channels(inner: u32, outer: u32, disk: u32, ring: u32) -> (value: u8)
    requires
        0 < disk <= 16,
        ring <= disk,
        inner <= 255,
        outer <= 255,
    ensures
        value == blend(inner as int, outer as int, disk as int, ring as int),
{
    assert(0 <= inner * (disk - ring) <= 255 * 16) by (nonlinear_arith)
        requires
            inner <= 255,
            ring <= disk <= 16,
    ;
    assert(0 <= outer * ring <= 255 * 16) by (nonlinear_arith)
        requires
            outer <= 255,
            ring <= 16,
    ;
    ((inner * (disk - ring) + outer * ring) / disk) as u8
}

/// The color of a pixel below the number.
fn disk_pixel(x: usize, y: usize) -> (pixel: Pixel)
    requires
        x < WORKSPACE_ICON_SIZE,
        y < WORKSPACE_ICON_SIZE,
    ensures
        pixel == shade(
            disk_samples(x as int, y as int, 16),
            ring_samples(x as int, y as int, 16),
        ),
{
    let (disk, ring) = count_samples(x, y);
    if disk == 0 {
        return (0, 0, 0, 0);
    }
    (
        blend_channels(0, 225, disk, ring),
        blend_channels(120, 245, disk, ring),
        blend_channels(212, 255, disk, ring),
        ((255 * disk + 8) / 16) as u8,
    )
}

/// A row of the number of a workspace.
fn glyph_row(workspace: u8, row: usize) -> (bits: u8)
    requires
        1 <= workspace <= 9,
        row < 7,
    ensures
        bits == glyph_rows(workspace)[row as int],
{
    let rows: [u8; 7] = if workspace == 1 {
        [0b00100, 0b01100, 0b00100, 0b00100, 0b00100, 0b00100, 0b01110]
    } else if workspace == 2 {
        [0b01110, 0b10001, 0b00001, 0b00010, 0b00100, 0b01000, 0b11111]
    } else if workspace == 3 {
        [0b11110, 0b00001, 0b00001, 0b01110, 0b00001, 0b00001, 0b11110]
    } else if workspace == 4 {
        [0b00010, 0b00110, 0b01010, 0b10010, 0b11111, 0b00010, 0b00010]
    } else if workspace == 5 {
        [0b11111, 0b10000, 0b10000, 0b11110, 0b00001, 0b00001, 0b11110]
    } else if workspace == 6 {
        [0b01110, 0b10000, 0b10000, 0b11110, 0b10001, 0b10001, 0b01110]
    } else if workspace == 7 {
        [0b11111, 0b00001, 0b00010, 0b00100, 0b01000, 0b01000, 0b01000]
    } else if workspace == 8 {
        [0b01110, 0b10001, 0b10001, 0b01110, 0b10001, 0b10001, 0b01110]
    } else {
        [0b01110, 0b10001, 0b10001, 0b01111, 0b00001, 0b00001, 0b01110]
    };
    rows[row]
}

/// Whether the number of the workspace covers the pixel.
fn is_glyph_covering(workspace: u8, x: usize, y: usize) -> (r: bool)
    requires
        1 <= workspace <= 9,
    ensures
        r == glyph_covers(workspace, x as int, y as int),
{
    if x < GLYPH_LEFT || x >= GLYPH_LEFT + 5 * GLYPH_SCALE || y < GLYPH_TOP || y >= GLYPH_TOP + 7
        * GLYPH_SCALE {
        return false;
    }
    let column: usize = (x - GLYPH_LEFT) / GLYPH_SCALE;
    let bits: u8 = glyph_row(workspace, (y - GLYPH_TOP) / GLYPH_SCALE);
    let weight: u8 = if column == 0 {
        16
    } else if column == 1 {
        8
    } else if column == 2 {
        4
    } else if column == 3 {
        2
    } else {
        1
    };
    (bits / weight) % 2 == 1
}

/// The pixels of a workspace's icon, for the workspaces that have one.
pub fn workspace_icon_rgba(workspace: u8) -> (r: Result<Vec<u8>, TrayError>)
    ensures
        r is Ok <==> 1 <= workspace <= 9,
        r matches Ok(rgba) ==> rgba@ == icon_bytes(workspace),
        r matches Err(error) ==> (error matches TrayError::Icon(cause) && cause@ == icon_refusal(
            workspace,
        )),
{
    if workspace < 1 || workspace > 9 {
        let mut cause = "workspace icon index must be 1-9, got ".to_owned();
        cause.append(decimal_text(workspace as u64).as_str());
        return Err(TrayError::Icon(cause));
    }
    let mut rgba: Vec<u8> = Vec::new();
    for p in 0..1024usize
        invariant
            1 <= workspace <= 9,
            rgba@ =~= icon_bytes(workspace).take(4 * p),
    {
        let x: usize = p % WORKSPACE_ICON_SIZE;
        let y: usize = p / WORKSPACE_ICON_SIZE;
        let pixel = if is_glyph_covering(workspace, x, y) {
            (255, 255, 255, 255)
        } else {
            disk_pixel(x, y)
        };
        rgba.push(pixel.0);
        rgba.push(pixel.1);
        rgba.push(pixel.2);
        rgba.push(pixel.3);
    }
    Ok(rgba)
}

/// The icon of a workspace.
pub fn create_workspace_icon(workspace: u8) -> (r: Result<IconImage, TrayError>)
    ensures
        r is Ok <==> 1 <= workspace <= 9,
        r matches Ok(icon) ==> icon.rgba@ == icon_bytes(workspace) && icon.width
            == WORKSPACE_ICON_SIZE && icon.height == WORKSPACE_ICON_SIZE,
        r matches Err(error) ==> (error matches TrayError::Icon(cause) && cause@ == icon_refusal(
            workspace,
        )),
{
    match workspace_icon_rgba(workspace) {
        Ok(rgba) => Ok(
            IconImage {
                rgba,
                width: WORKSPACE_ICON_SIZE as u32,
                height: WORKSPACE_ICON_SIZE as u32,
            },
        ),
        Err(error) => Err(error),
    }
}

/// Ring samples are disk samples, of which there are at most as many as were
/// taken.
pub proof fn lemma_sample_counts(x: int, y: int, k: int)
    requires
        0 <= k <= 16,
    ensures
        0 <= ring_samples(x, y, k) <= disk_samples(x, y, k) <= k,
    decreases k,
{
    if k > 0 {
        lemma_sample_counts(x, y, k - 1);
    }
}

/// The red of the disk never reaches the white of the number.
pub proof fn lemma_disk_is_not_white(x: int, y: int)
    ensures
        shade(disk_samples(x, y, 16), ring_samples(x, y, 16)).0 < 255,
{
    lemma_sample_counts(x, y, 16);
    let disk = disk_samples(x, y, 16);
    let ring = ring_samples(x, y, 16);
    if disk > 0 {
        assert((0 * (disk - ring) + 225 * ring) / disk <= 225) by (nonlinear_arith)
            requires
                0 <= ring <= disk,
                0 < disk,
        ;
        assert(0 <= (0 * (disk - ring) + 225 * ring) / disk) by (nonlinear_arith)
            requires
                0 <= ring <= disk,
                0 < disk,
        ;
    }
}

/// The byte of an icon that holds a channel of a pixel.
pub proof fn lemma_icon_byte(workspace: u8, x: int, y: int, c: int)
    requires
        0 <= x < 32,
        0 <= y < 32,
        0 <= c < 4,
    ensures
        icon_bytes(workspace)[4 * (32 * y + x) + c] == channel(icon_pixel(workspace, x, y), c),
{
    let i = 4 * (32 * y + x) + c;
    assert(i / 4 == 32 * y + x && i % 4 == c);
    assert((32 * y + x) % 32 == x && (32 * y + x) / 32 == y);
}

/// A dot that only one of two numbers has tells their icons apart.
proof fn lemma_dot_separates(a: u8, b: u8, row: int, column: int)
    requires
        0 <= row < 7,
        0 <= column < 5,
        dot_set(glyph_rows(a)[row], column) != dot_set(glyph_rows(b)[row], column),
    ensures
        icon_bytes(a) != icon_bytes(b),
{
    let x = 8 + 3 * column;
    let y = 5 + 3 * row;
    assert((x - 8) / 3 == column && (y - 5) / 3 == row);
    lemma_disk_is_not_white(x, y);
    lemma_icon_byte(a, x, y, 0);
    lemma_icon_byte(b, x, y, 0);
}

/// No two workspaces share an icon.
pub proof fn law_icons_are_distinct(a: u8, b: u8)
    requires
        1 <= a <= 9,
        1 <= b <= 9,
        a != b,
    ensures
        icon_bytes(a) != icon_bytes(b),
{
    // These four dots together tell the nine numbers apart.
    if dot_set(glyph_rows(a)[0], 0) != dot_set(glyph_rows(b)[0], 0) {
        lemma_dot_separates(a, b, 0, 0);
    } else if dot_set(glyph_rows(a)[1], 4) != dot_set(glyph_rows(b)[1], 4) {
        lemma_dot_separates(a, b, 1, 4);
    } else if dot_set(glyph_rows(a)[3], 1) != dot_set(glyph_rows(b)[3], 1) {
        lemma_dot_separates(a, b, 3, 1);
    } else {
        assert(dot_set(glyph_rows(a)[4], 0) != dot_set(glyph_rows(b)[4], 0));
        lemma_dot_separates(a, b, 4, 0);
    }
}

/// An icon is as opaque as the disk covers a pixel: not at all where no
/// sample lies on the disk, fully where every sample does or where the number
/// is.
pub proof fn law_icon_opacity_follows_coverage(workspace: u8, x: int, y: int)
    ensures
        ({
            let alpha = icon_pixel(workspace, x, y).3;
            let disk = disk_samples(x, y, 16);
            if glyph_covers(workspace, x, y) {
                alpha == 255
            } else {
                &&& alpha == (255 * disk + 8) / 16
                &&& alpha == 0 <==> disk == 0
                &&& alpha == 255 <==> disk == 16
            }
        }),
{
    lemma_sample_counts(x, y, 16);
}

/// No sample of a corner pixel lies on the disk.
proof fn lemma_corner_is_off_disk(x: int, y: int, k: int)
    requires
        x == 0 || x == 31,
        y == 0 || y == 31,
        0 <= k <= 16,
    ensures
        disk_samples(x, y, k) == 0,
    decreases k,
{
    if k > 0 {
        lemma_corner_is_off_disk(x, y, k - 1);
        let dx = sample_at(x, (k - 1) % 4);
        let dy = sample_at(y, (k - 1) / 4);
        assert(dx * dx >= 121 * 121) by (nonlinear_arith)
            requires
                dx <= -121 || dx >= 121,
        ;
        assert(dy * dy >= 121 * 121) by (nonlinear_arith)
            requires
                dy <= -121 || dy >= 121,
        ;
    }
}

/// Every sample of a pixel at the center lies on the disk.
proof fn lemma_center_is_on_disk(x: int, y: int, k: int)
    requires
        15 <= x <= 16,
        15 <= y <= 16,
        0 <= k <= 16,
    ensures
        disk_samples(x, y, k) == k,
    decreases k,
{
    if k > 0 {
        lemma_center_is_on_disk(x, y, k - 1);
        let dx = sample_at(x, (k - 1) % 4);
        let dy = sample_at(y, (k - 1) / 4);
        assert(dx * dx <= 49) by (nonlinear_arith)
            requires
                -7 <= dx <= 7,
        ;
        assert(dy * dy <= 49) by (nonlinear_arith)
            requires
                -7 <= dy <= 7,
        ;
    }
}

/// Every icon is transparent in its corners and opaque at its center.
pub proof fn law_icons_are_round(workspace: u8, x: int, y: int)
    ensures
        (x == 0 || x == 31) && (y == 0 || y == 31) ==> icon_pixel(workspace, x, y) == (
            0u8,
            0u8,
            0u8,
            0u8,
        ),
        15 <= x <= 16 && 15 <= y <= 16 ==> icon_pixel(workspace, x, y).3 == 255,
{
    if (x == 0 || x == 31) && (y == 0 || y == 31) {
        lemma_corner_is_off_disk(x, y, 16);
    }
    if 15 <= x <= 16 && 15 <= y <= 16 {
        lemma_center_is_on_disk(x, y, 16);
    }
}

} // verus!
