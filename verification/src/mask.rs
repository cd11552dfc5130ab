//! The per-monitor paint mask — one boolean per logical pixel, on where some
//! window region covers the pixel — and its rendering into ARGB bytes.

use vstd::prelude::*;
use crate::geometry::{region_hit, region_hit_exec, ClientRegion};

verus! {

/// A pixel of a monitor's overlay is highlighted when some region of that
/// monitor contains it, with the same strict containment the hit test uses.
pub open spec fn pixel_on(regions: Seq<ClientRegion>, mid: i64, x: int, y: int) -> bool {
    exists|j: int| 0 <= j < regions.len() && region_hit(regions[j], x, y, mid as int)
}

fn hit_any(regions: &Vec<ClientRegion>, mid: i64, x: i32, y: i32) -> (b: bool)
    ensures
        b == pixel_on(regions@, mid, x as int, y as int),
{
    let mut j: usize = 0;
    while j < regions.len()
        invariant
            0 <= j <= regions@.len(),
            forall|k: int| 0 <= k < j ==> !region_hit(regions@[k], x as int, y as int, mid as int),
        decreases regions@.len() - j,
    {
        if region_hit_exec(&regions[j], x, y, mid) {
            return true;
        }
        j += 1;
    }
    false
}

/// The flat paint mask of a monitor of the given size: index `i` stands for
/// the pixel at column `i % width`, row `i / width`.
pub open spec fn mask_spec(regions: Seq<ClientRegion>, mid: i64, width: u16, height: u16) -> Seq<
    bool,
> {
    Seq::new((width * height) as nat, |i: int| pixel_on(regions, mid, i % (width as int), i / (width as int)))
}

/// Builds the flat paint mask of one monitor from its region list.
pub fn build_mask(regions: &Vec<ClientRegion>, mid: i64, width: u16, height: u16) -> (m: Vec<bool>)
    requires
        crate::geometry::monitor_size_ok(width, height),
        width > 0,
    ensures
        m@ == mask_spec(regions@, mid, width, height),
{
    let total: usize = (width as usize) * (height as usize);
    let mut m: Vec<bool> = Vec::new();
    let mut i: usize = 0;
    while i < total
        invariant
            width > 0,
            total == width * height,
            crate::geometry::monitor_size_ok(width, height),
            0 <= i <= total,
            m@.len() == i,
            forall|k: int|
                0 <= k < i ==> m@[k] == pixel_on(
                    regions@,
                    mid,
                    k % (width as int),
                    k / (width as int),
                ),
        decreases total - i,
    {
        let x: usize = i % (width as usize);
        let y: usize = i / (width as usize);
        let on = hit_any(regions, mid, x as i32, y as i32);
        m.push(on);
        i += 1;
    }
    proof {
        assert(m@ =~= mask_spec(regions@, mid, width, height));
    }
    m
}

/// How a mask is rendered: four bytes per pixel; a highlighted pixel gets
/// the translucent grey `40 40 40 2f`, any other pixel is fully transparent.
pub open spec fn render_post(mask: Seq<bool>, pixels: Seq<u8>) -> bool {
    &&& pixels.len() == 4 * mask.len()
    &&& forall|i: int|
        #![trigger pixels[4 * i]]
        #![trigger pixels[4 * i + 1]]
        #![trigger pixels[4 * i + 2]]
        #![trigger pixels[4 * i + 3]]
        0 <= i < mask.len() ==> {
            &&& pixels[4 * i] == (if mask[i] { 0x40u8 } else { 0u8 })
            &&& pixels[4 * i + 1] == (if mask[i] { 0x40u8 } else { 0u8 })
            &&& pixels[4 * i + 2] == (if mask[i] { 0x40u8 } else { 0u8 })
            &&& pixels[4 * i + 3] == (if mask[i] { 0x2fu8 } else { 0u8 })
        }
}

/// Renders a paint mask into the byte content of a pixel buffer.
pub fn render_pixels(mask: &Vec<bool>) -> (pixels: Vec<u8>)
    requires
        4 * mask@.len() <= 0x7fff_ffff,
    ensures
        render_post(mask@, pixels@),
{
    let mut pixels: Vec<u8> = Vec::new();
    let mut i: usize = 0;
    while i < mask.len()
        invariant
            0 <= i <= mask@.len(),
            4 * mask@.len() <= 0x7fff_ffff,
            pixels@.len() == 4 * i,
            forall|k: int|
                #![trigger pixels@[4 * k]]
                #![trigger pixels@[4 * k + 1]]
                #![trigger pixels@[4 * k + 2]]
                #![trigger pixels@[4 * k + 3]]
                0 <= k < i ==> {
                    &&& pixels@[4 * k] == (if mask@[k] { 0x40u8 } else { 0u8 })
                    &&& pixels@[4 * k + 1] == (if mask@[k] { 0x40u8 } else { 0u8 })
                    &&& pixels@[4 * k + 2] == (if mask@[k] { 0x40u8 } else { 0u8 })
                    &&& pixels@[4 * k + 3] == (if mask@[k] { 0x2fu8 } else { 0u8 })
                },
        decreases mask@.len() - i,
    {
        if mask[i] {
            pixels.push(0x40);
            pixels.push(0x40);
            pixels.push(0x40);
            pixels.push(0x2f);
        } else {
            pixels.push(0);
            pixels.push(0);
            pixels.push(0);
            pixels.push(0);
        }
        i += 1;
    }
    pixels
}

/// Rendering is a function of the mask alone: two renderings of equal masks
/// are byte-for-byte identical, so redrawing a live surface whose mask has
/// not changed reproduces the very same buffer content.
pub proof fn lemma_render_deterministic(mask: Seq<bool>, p1: Seq<u8>, p2: Seq<u8>)
    requires
        render_post(mask, p1),
        render_post(mask, p2),
    ensures
        p1 == p2,
{
    assert forall|idx: int| 0 <= idx < p1.len() implies p1[idx] == p2[idx] by {
        let i = idx / 4;
        let j = idx % 4;
        vstd::arithmetic::div_mod::lemma_fundamental_div_mod(idx, 4);
        assert(idx == 4 * i + j);
        assert(0 <= i < mask.len());
        assert(p1[4 * i] == p2[4 * i]);
        if j == 0 {
            assert(p1[4 * i] == p2[4 * i]);
        } else if j == 1 {
            assert(p1[4 * i + 1] == p2[4 * i + 1]);
        } else if j == 2 {
            assert(p1[4 * i + 2] == p2[4 * i + 2]);
        } else {
            assert(p1[4 * i + 3] == p2[4 * i + 3]);
        }
    }
    assert(p1 =~= p2);
}

/// The all-transparent placeholder content of an `n`-pixel buffer.
pub fn empty_pixels(n: usize) -> (pixels: Vec<u8>)
    requires
        4 * n <= 0x7fff_ffff,
    ensures
        pixels@.len() == 4 * n,
        forall|k: int| 0 <= k < pixels@.len() ==> pixels@[k] == 0u8,
{
    let mut pixels: Vec<u8> = Vec::new();
    let mut i: usize = 0;
    while i < n
        invariant
            0 <= i <= n,
            4 * n <= 0x7fff_ffff,
            pixels@.len() == 4 * i,
            forall|k: int| 0 <= k < pixels@.len() ==> pixels@[k] == 0u8,
        decreases n - i,
    {
        pixels.push(0);
        pixels.push(0);
        pixels.push(0);
        pixels.push(0);
        i += 1;
    }
    pixels
}

} // verus!
