//! Plain data model of the compositor snapshot: monitors, windows, and
//! monitor-relative window regions.

use vstd::prelude::*;

verus! {

/// One monitor of the snapshot taken at session start: identity, origin in
/// global display space, pixel size, and the workspace it currently shows.
#[derive(Clone, Copy, Debug)]
pub struct Monitor {
    pub id: i64,
    pub x: i32,
    pub y: i32,
    pub width: u16,
    pub height: u16,
    pub active_workspace: i32,
}

/// One window of the snapshot: identity (its address, an opaque string),
/// absolute position and size, visibility, workspace, the monitor it was
/// reported on (if any), and the descriptive text the rule writer uses.
#[derive(Debug)]
pub struct WindowRecord {
    pub address: String,
    pub at: (i16, i16),
    pub size: (i16, i16),
    pub workspace: i32,
    pub mapped: bool,
    pub monitor: Option<i64>,
    pub title: String,
    pub class: String,
    pub initial_title: String,
    pub initial_class: String,
}

/// A window rectangle translated into the coordinate space of the monitor
/// that shows it.  `monitor` is `None` when the owning monitor could not be
/// resolved; such a region never matches a hit test.
#[derive(Debug)]
pub struct ClientRegion {
    pub at: (i64, i64),
    pub size: (i16, i16),
    pub monitor: Option<i64>,
    pub client_id: String,
}

impl Clone for WindowRecord {
    fn clone(&self) -> (r: Self)
        ensures
            r == *self,
    {
        WindowRecord {
            address: self.address.clone(),
            at: self.at,
            size: self.size,
            workspace: self.workspace,
            mapped: self.mapped,
            monitor: self.monitor,
            title: self.title.clone(),
            class: self.class.clone(),
            initial_title: self.initial_title.clone(),
            initial_class: self.initial_class.clone(),
        }
    }
}

impl Clone for ClientRegion {
    fn clone(&self) -> (r: Self)
        ensures
            r == *self,
    {
        ClientRegion {
            at: self.at,
            size: self.size,
            monitor: self.monitor,
            client_id: self.client_id.clone(),
        }
    }
}

/// The pointer at local coordinates `(x, y)` on the surface of monitor
/// `monitor_id` hovers region `r`: strictly inside both edges of the
/// rectangle, and the region must belong to that very monitor.
pub open spec fn region_hit(r: ClientRegion, x: int, y: int, monitor_id: int) -> bool {
    &&& r.monitor is Some
    &&& r.monitor->0 == monitor_id
    &&& r.at.0 < x < r.at.0 + r.size.0
    &&& r.at.1 < y < r.at.1 + r.size.1
}

/// Exec mirror of `region_hit`, proved exact.
pub fn region_hit_exec(r: &ClientRegion, x: i32, y: i32, monitor_id: i64) -> (b: bool)
    ensures
        b == region_hit(*r, x as int, y as int, monitor_id as int),
{
    match r.monitor {
        Some(m) => {
            // `x < at + size` is tested as `x - size < at` so that the sum of
            // an unconstrained `at` and a size cannot overflow.
            m == monitor_id && r.at.0 < x as i64 && (x as i64) - (r.size.0 as i64) < r.at.0
                && r.at.1 < y as i64 && (y as i64) - (r.size.1 as i64) < r.at.1
        },
        None => false,
    }
}

/// A monitor small enough that its four-bytes-per-pixel buffer length fits
/// a signed 32-bit count, as the buffer factory requires.
pub open spec fn monitor_size_ok(width: u16, height: u16) -> bool {
    width * height * 4 <= 0x7fff_ffff
}

/// Exec mirror of `monitor_size_ok`, for callers that must test a monitor
/// before starting a session.
pub fn monitor_size_ok_exec(width: u16, height: u16) -> (b: bool)
    ensures
        b == monitor_size_ok(width, height),
{
    let w = width as u64;
    let h = height as u64;
    proof {
        assert(w * h <= 0xffff * 0xffff) by (nonlinear_arith)
            requires
                w <= 0xffff,
                h <= 0xffff,
        ;
    }
    let pixels = w * h;
    pixels * 4 <= 0x7fff_ffff
}

} // verus!
