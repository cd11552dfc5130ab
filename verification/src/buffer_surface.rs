//! The per-monitor overlay surface, a strictly ordered state machine.
//!
//! Every monitor starts `Pre` (no protocol object yet), becomes `InProcess`
//! once the buffer factory and the compositor have produced a placeholder
//! buffer and a base surface, `HasOutput` once a physical output has been
//! bound and the surface is anchored into the overlay layer, and finally
//! `ReadyToDraw` once the compositor's configure event has been
//! acknowledged and the real highlight buffer has been drawn.
//!
//! Protocol objects are carried as opaque ownership tokens (`u64` handles)
//! that the unverified driver maps to the real objects.

use vstd::prelude::*;
use crate::mask::{render_pixels, render_post};
use crate::protocols::Action;

verus! {

/// A surface not yet backed by any protocol object: only the monitor's
/// identity, its logical pixel size, and its flat paint mask.
pub struct Pre {
    pub monitor_id: i64,
    pub monitor_size: (u16, u16),
    pub window_buffer: Vec<bool>,
}

/// A surface owning a placeholder pixel buffer and a base drawing surface,
/// not yet bound to a physical output.
pub struct InProcess {
    pub monitor_id: i64,
    pub size: (u16, u16),
    pub window_buffer: Vec<bool>,
    pub buffer: u64,
    pub base_surface: u64,
}

/// A surface additionally bound to a physical output and anchored into the
/// compositor's overlay layer, awaiting the configure acknowledgment.
pub struct HasOutput {
    pub monitor_id: i64,
    pub size: (u16, u16),
    pub window_buffer: Vec<bool>,
    pub buffer: u64,
    pub base_surface: u64,
    pub wayland_output: u64,
    pub wlr_surface: u64,
}

/// A live surface: configured, acknowledged, and able to redraw on demand.
pub struct ReadyToDraw {
    pub monitor_id: i64,
    pub size: (u16, u16),
    pub window_buffer: Vec<bool>,
    pub buffer: u64,
    pub base_surface: u64,
    pub wayland_output: u64,
    pub wlr_surface: u64,
}

/// The state of one monitor's overlay surface.
pub enum BufferSurface {
    Pre(Pre),
    InProcess(InProcess),
    HasOutput(HasOutput),
    ReadyToDraw(ReadyToDraw),
}

/// The position of a state in the strictly forward order
/// `Pre < InProcess < HasOutput < ReadyToDraw`.
pub open spec fn rank(s: BufferSurface) -> int {
    match s {
        BufferSurface::Pre(_) => 0,
        BufferSurface::InProcess(_) => 1,
        BufferSurface::HasOutput(_) => 2,
        BufferSurface::ReadyToDraw(_) => 3,
    }
}

/// The monitor a surface belongs to, in any state.
pub open spec fn monitor_id_of(s: BufferSurface) -> i64 {
    match s {
        BufferSurface::Pre(p) => p.monitor_id,
        BufferSurface::InProcess(p) => p.monitor_id,
        BufferSurface::HasOutput(p) => p.monitor_id,
        BufferSurface::ReadyToDraw(p) => p.monitor_id,
    }
}

/// The logical pixel size a surface was created for, in any state.
pub open spec fn size_of(s: BufferSurface) -> (u16, u16) {
    match s {
        BufferSurface::Pre(p) => p.monitor_size,
        BufferSurface::InProcess(p) => p.size,
        BufferSurface::HasOutput(p) => p.size,
        BufferSurface::ReadyToDraw(p) => p.size,
    }
}

/// The paint mask a surface renders, in any state.
pub open spec fn mask_of(s: BufferSurface) -> Seq<bool> {
    match s {
        BufferSurface::Pre(p) => p.window_buffer@,
        BufferSurface::InProcess(p) => p.window_buffer@,
        BufferSurface::HasOutput(p) => p.window_buffer@,
        BufferSurface::ReadyToDraw(p) => p.window_buffer@,
    }
}

/// Monitor identity, size and paint mask survive every transition.
pub open spec fn core_preserved(a: BufferSurface, b: BufferSurface) -> bool {
    &&& monitor_id_of(b) == monitor_id_of(a)
    &&& size_of(b) == size_of(a)
    &&& mask_of(b) == mask_of(a)
}

impl InProcess {
    /// Advances a `Pre` surface once the buffer factory is available: the
    /// fresh placeholder buffer and base surface handles are attached.
    pub fn from_pre(pre: Pre, buffer: u64, base_surface: u64) -> (s: Self)
        ensures
            s.monitor_id == pre.monitor_id,
            s.size == pre.monitor_size,
            s.window_buffer@ == pre.window_buffer@,
            s.buffer == buffer,
            s.base_surface == base_surface,
    {
        InProcess {
            monitor_id: pre.monitor_id,
            size: pre.monitor_size,
            window_buffer: pre.window_buffer,
            buffer,
            base_surface,
        }
    }
}

impl HasOutput {
    /// Advances an `InProcess` surface once a physical output has been
    /// bound and the overlay-layer surface has been created for it.
    pub fn from_in_process(ip: InProcess, wayland_output: u64, wlr_surface: u64) -> (s: Self)
        ensures
            s.monitor_id == ip.monitor_id,
            s.size == ip.size,
            s.window_buffer@ == ip.window_buffer@,
            s.buffer == ip.buffer,
            s.base_surface == ip.base_surface,
            s.wayland_output == wayland_output,
            s.wlr_surface == wlr_surface,
    {
        HasOutput {
            monitor_id: ip.monitor_id,
            size: ip.size,
            window_buffer: ip.window_buffer,
            buffer: ip.buffer,
            base_surface: ip.base_surface,
            wayland_output,
            wlr_surface,
        }
    }
}

impl ReadyToDraw {
    /// Advances a `HasOutput` surface on its first configure: commits the
    /// concrete pixel size before the acknowledgment.  Returned beside the
    /// state are the size-setting and commit requests for the driver.
    pub fn from_has_output(ho: HasOutput) -> (r: (Self, Vec<Action>))
        ensures
            r.0.monitor_id == ho.monitor_id,
            r.0.size == ho.size,
            r.0.window_buffer@ == ho.window_buffer@,
            r.0.buffer == ho.buffer,
            r.0.base_surface == ho.base_surface,
            r.0.wayland_output == ho.wayland_output,
            r.0.wlr_surface == ho.wlr_surface,
            r.1@.len() == 2,
            r.1@[0] == (Action::SetSurfaceSize {
                layer_surface: ho.wlr_surface,
                width: ho.size.0,
                height: ho.size.1,
            }),
            r.1@[1] == (Action::CommitSurface { base_surface: ho.base_surface }),
    {
        let mut acts: Vec<Action> = Vec::new();
        acts.push(Action::SetSurfaceSize {
            layer_surface: ho.wlr_surface,
            width: ho.size.0,
            height: ho.size.1,
        });
        acts.push(Action::CommitSurface { base_surface: ho.base_surface });
        let rtd = ReadyToDraw {
            monitor_id: ho.monitor_id,
            size: ho.size,
            window_buffer: ho.window_buffer,
            buffer: ho.buffer,
            base_surface: ho.base_surface,
            wayland_output: ho.wayland_output,
            wlr_surface: ho.wlr_surface,
        };
        (rtd, acts)
    }

    /// The acknowledgment of a configure event, with its serial.
    pub fn acknowledge_configure(&self, serial: u32) -> (a: Action)
        ensures
            a == (Action::AckConfigure { layer_surface: self.wlr_surface, serial }),
    {
        Action::AckConfigure { layer_surface: self.wlr_surface, serial }
    }

    /// Redraws the surface: a fresh buffer, sized to the monitor, is filled
    /// from the current paint mask, attached and committed.  The buffer
    /// content is a function of the mask alone, so redrawing with an
    /// unchanged mask reproduces identical bytes.
    pub fn actually_draw_buffer_surface(&mut self, buffer: u64) -> (acts: Vec<Action>)
        requires
            old(self).window_buffer@.len() == old(self).size.0 * old(self).size.1,
            crate::geometry::monitor_size_ok(old(self).size.0, old(self).size.1),
        ensures
            final(self).buffer == buffer,
            final(self).monitor_id == old(self).monitor_id,
            final(self).size == old(self).size,
            final(self).window_buffer@ == old(self).window_buffer@,
            final(self).base_surface == old(self).base_surface,
            final(self).wayland_output == old(self).wayland_output,
            final(self).wlr_surface == old(self).wlr_surface,
            acts@.len() == 3,
            acts@[0] matches Action::CreateBuffer { buffer: b, width, height, pixels } && b
                == buffer && width == old(self).size.0 && height == old(self).size.1
                && render_post(old(self).window_buffer@, pixels@),
            acts@[1] == (Action::AttachBuffer {
                base_surface: old(self).base_surface,
                buffer,
            }),
            acts@[2] == (Action::CommitSurface { base_surface: old(self).base_surface }),
    {
        let pixels = render_pixels(&self.window_buffer);
        let mut acts: Vec<Action> = Vec::new();
        acts.push(Action::CreateBuffer {
            buffer,
            width: self.size.0,
            height: self.size.1,
            pixels,
        });
        acts.push(Action::AttachBuffer { base_surface: self.base_surface, buffer });
        acts.push(Action::CommitSurface { base_surface: self.base_surface });
        self.buffer = buffer;
        acts
    }
}

} // verus!
