//! The selection session: a snapshot goes in once, batches of protocol
//! events go in every round, hovered-window messages and driver requests
//! come out, and teardown requests come out at the end, in dependency
//! order.

use vstd::prelude::*;
use crate::buffer_surface::BufferSurface;
use crate::buffer_surface::Pre;
use crate::geometry::{ClientRegion, Monitor, WindowRecord};
use crate::hit_test::{find_hovered_region, first_hit, lemma_first_hit_characterizes};
use crate::indexer::{
    build_regions, find_window, first_window_with, index_client_id, index_wf,
    monitor_regions_spec, regions_for_monitor, regions_spec,
};
use crate::mask::{build_mask, mask_spec};
use crate::protocols::{
    events_rel, lemma_events_rel_snoc, state_wf, surface_wf, Action, Event, State,
};

verus! {

/// What one round of the session reports to its caller.
#[derive(Debug, PartialEq, Eq)]
pub enum Message {
    Done,
    HoveredClient(Option<String>),
}

/// A live session: the protocol state, the monitor-relative region table,
/// and the address-keyed window table.
pub struct Running {
    pub state: State,
    pub client_regions: Vec<ClientRegion>,
    pub mapped_client_id_and_client: Vec<WindowRecord>,
}

/// A session is either still running or torn down.
pub enum Desu {
    Running(Running),
    Done,
}

/// The window selector handed to the driver loop.
pub struct WindowSelect {
    pub stuff: Desu,
}

/// A selector whose live state, if any, carries well-formed surfaces.
pub open spec fn ws_wf(ws: WindowSelect) -> bool {
    ws.stuff matches Desu::Running(r) ==> state_wf(r.state)
}

/// The hovered-window message the session reports: when the pointer is
/// inside some surface and has a known coordinate, the first region of
/// that monitor containing the coordinate is resolved through the window
/// table; in every other case, no window is hovered.
pub open spec fn hovered_message(
    st: State,
    regions: Seq<ClientRegion>,
    index: Seq<WindowRecord>,
) -> Message {
    if st.pointer_position is Some && st.pointer_surface is Some {
        let pos = st.pointer_position->0;
        let mid = st.pointer_surface->0;
        match first_hit(regions, pos.0 as int, pos.1 as int, mid as int) {
            Some(j) => match first_window_with(index, regions[j].client_id@) {
                Some(w) => Message::HoveredClient(Some(w.address)),
                None => Message::HoveredClient(None),
            },
            None => Message::HoveredClient(None),
        }
    } else {
        Message::HoveredClient(None)
    }
}

/// The teardown requests of one surface, outer protocol object first:
/// layer surface, then base surface, then pixel buffer, then the output
/// handle; earlier states hold fewer live objects.
pub open spec fn surface_teardown(s: BufferSurface) -> Seq<Action> {
    match s {
        BufferSurface::Pre(_) => Seq::empty(),
        BufferSurface::InProcess(ip) => seq![
            Action::DestroySurface { surface: ip.base_surface },
            Action::DestroyBuffer { buffer: ip.buffer },
        ],
        BufferSurface::HasOutput(ho) => seq![
            Action::DestroyLayerSurface { layer_surface: ho.wlr_surface },
            Action::DestroySurface { surface: ho.base_surface },
            Action::DestroyBuffer { buffer: ho.buffer },
            Action::ReleaseOutput { output: ho.wayland_output },
        ],
        BufferSurface::ReadyToDraw(rtd) => seq![
            Action::DestroyLayerSurface { layer_surface: rtd.wlr_surface },
            Action::DestroySurface { surface: rtd.base_surface },
            Action::DestroyBuffer { buffer: rtd.buffer },
            Action::ReleaseOutput { output: rtd.wayland_output },
        ],
    }
}

/// The teardown requests of the first `n` surfaces, in monitor order.
pub open spec fn teardown_prefix(ss: Seq<BufferSurface>, n: int) -> Seq<Action>
    decreases n,
{
    if n <= 0 {
        Seq::empty()
    } else {
        teardown_prefix(ss, n - 1) + surface_teardown(ss[n - 1])
    }
}

/// The release requests for the global handles, in the fixed order buffer
/// factory, cursor-shape manager, overlay-layer manager.
pub open spec fn globals_teardown(st: State) -> Seq<Action> {
    (match st.shm {
        Some(h) => seq![Action::ReleaseShm { handle: h }],
        None => Seq::empty(),
    }) + (match st.cursor_shape_manager {
        Some(h) => seq![Action::DestroyCursorShapeManager { handle: h }],
        None => Seq::empty(),
    }) + (match st.layer_shell {
        Some(h) => seq![Action::DestroyLayerShell { handle: h }],
        None => Seq::empty(),
    })
}

/// Everything the session's teardown asks of the driver, surfaces first.
pub open spec fn teardown_spec(st: State) -> Seq<Action> {
    teardown_prefix(st.buffer_surfaces@, st.buffer_surfaces@.len() as int) + globals_teardown(st)
}

/// Law: a region table without a given address never yields that address
/// as the hovered result, whatever the pointer state.
pub proof fn lemma_absent_address_never_hovered(
    st: State,
    regions: Seq<ClientRegion>,
    index: Seq<WindowRecord>,
    a: Seq<char>,
)
    requires
        forall|j: int| 0 <= j < regions.len() ==> (#[trigger] regions[j].client_id@) != a,
    ensures
        hovered_message(st, regions, index) matches Message::HoveredClient(Some(addr)) ==> addr@
            != a,
{
    if st.pointer_position is Some && st.pointer_surface is Some {
        let pos = st.pointer_position->0;
        let mid = st.pointer_surface->0;
        lemma_first_hit_characterizes(regions, pos.0 as int, pos.1 as int, mid as int);
        match first_hit(regions, pos.0 as int, pos.1 as int, mid as int) {
            Some(j) => {
                crate::indexer::lemma_first_window_characterizes(index, regions[j].client_id@, 0);
            },
            None => {},
        }
    }
}

/// Law: a window that the snapshot filter drops — unmapped, or on a
/// workspace no monitor shows — never appears in the region table built
/// from the snapshot, and is never reported as the hovered window.
pub proof fn lemma_filtered_window_never_selected(
    clients: Seq<WindowRecord>,
    monitors: Seq<Monitor>,
    st: State,
    index: Seq<WindowRecord>,
    a: Seq<char>,
)
    requires
        forall|i: int|
            0 <= i < clients.len() && (#[trigger] clients[i].address@) == a
                ==> !crate::indexer::eligible(clients[i], monitors),
    ensures
        hovered_message(st, regions_spec(clients, monitors), index) matches Message::HoveredClient(
            Some(addr),
        ) ==> addr@ != a,
{
    crate::indexer::lemma_filtered_window_has_no_region(clients, monitors, a);
    lemma_absent_address_never_hovered(st, regions_spec(clients, monitors), index, a);
}

fn resolve_message(run: &Running) -> (msg: Message)
    ensures
        msg == hovered_message(run.state, run.client_regions@, run.mapped_client_id_and_client@),
{
    match (run.state.pointer_position, run.state.pointer_surface) {
        (Some(pos), Some(mid)) => {
            let found = find_hovered_region(&run.client_regions, pos.0 as i32, pos.1 as i32, mid);
            proof {
                lemma_first_hit_characterizes(
                    run.client_regions@,
                    pos.0 as int,
                    pos.1 as int,
                    mid as int,
                );
            }
            match found {
                Some(j) => {
                    proof {
                        assert(first_hit(run.client_regions@, pos.0 as int, pos.1 as int, mid as int)
                            == Some(j as int));
                    }
                    match find_window(
                        &run.mapped_client_id_and_client,
                        &run.client_regions[j].client_id,
                    ) {
                        Some(w) => Message::HoveredClient(Some(w.address)),
                        None => Message::HoveredClient(None),
                    }
                },
                None => Message::HoveredClient(None),
            }
        },
        _ => Message::HoveredClient(None),
    }
}

impl WindowSelect {
    /// Builds the session from the snapshot: the region table, the window
    /// table, and one `Pre` surface per monitor seeded with its paint
    /// mask.
    pub fn new(clients: Vec<WindowRecord>, monitors: Vec<Monitor>) -> (ws: Self)
        requires
            forall|i: int|
                0 <= i < monitors@.len() ==> (#[trigger] monitors@[i].width) > 0
                    && crate::geometry::monitor_size_ok(monitors@[i].width, monitors@[i].height),
        ensures
            ws_wf(ws),
            ws.stuff matches Desu::Running(r) && {
                &&& r.state.running
                &&& r.state.compositor is None
                &&& r.state.shm is None
                &&& r.state.layer_shell is None
                &&& r.state.cursor_shape_manager is None
                &&& r.state.output_index == 0
                &&& r.state.pointer_position is None
                &&& r.state.pointer_surface is None
                &&& r.client_regions@ == regions_spec(clients@, monitors@)
                &&& index_wf(r.mapped_client_id_and_client@, clients@)
                &&& r.state.buffer_surfaces@.len() == monitors@.len()
                &&& forall|i: int|
                    0 <= i < monitors@.len() ==> (#[trigger] r.state.buffer_surfaces@[i] matches BufferSurface::Pre(p) && {
                        &&& p.monitor_id == monitors@[i].id
                        &&& p.monitor_size == (monitors@[i].width, monitors@[i].height)
                        &&& p.window_buffer@ == mask_spec(
                            monitor_regions_spec(
                                regions_spec(clients@, monitors@),
                                monitors@[i].id,
                            ),
                            monitors@[i].id,
                            monitors@[i].width,
                            monitors@[i].height,
                        )
                    })
            },
    {
        let client_regions = build_regions(&clients, &monitors);
        let index = index_client_id(&clients);
        let mut surfaces: Vec<BufferSurface> = Vec::new();
        let mut i: usize = 0;
        while i < monitors.len()
            invariant
                0 <= i <= monitors@.len(),
                forall|k: int|
                    0 <= k < monitors@.len() ==> (#[trigger] monitors@[k].width) > 0
                        && crate::geometry::monitor_size_ok(
                        monitors@[k].width,
                        monitors@[k].height,
                    ),
                client_regions@ == regions_spec(clients@, monitors@),
                surfaces@.len() == i,
                forall|k: int|
                    0 <= k < i ==> (#[trigger] surfaces@[k] matches BufferSurface::Pre(p) && {
                        &&& p.monitor_id == monitors@[k].id
                        &&& p.monitor_size == (monitors@[k].width, monitors@[k].height)
                        &&& p.window_buffer@ == mask_spec(
                            monitor_regions_spec(
                                regions_spec(clients@, monitors@),
                                monitors@[k].id,
                            ),
                            monitors@[k].id,
                            monitors@[k].width,
                            monitors@[k].height,
                        )
                    }),
                forall|k: int| 0 <= k < i ==> surface_wf(#[trigger] surfaces@[k]),
            decreases monitors@.len() - i,
        {
            let m = &monitors[i];
            let monitor_regions = regions_for_monitor(&client_regions, m.id);
            let mask = build_mask(&monitor_regions, m.id, m.width, m.height);
            surfaces.push(
                BufferSurface::Pre(
                    Pre {
                        monitor_id: m.id,
                        monitor_size: (m.width, m.height),
                        window_buffer: mask,
                    },
                ),
            );
            i += 1;
        }
        let state = State {
            running: true,
            buffer_surfaces: surfaces,
            cursor_shape_manager: None,
            layer_shell: None,
            shm: None,
            compositor: None,
            output_index: 0,
            pointer_position: None,
            pointer_surface: None,
            next_handle: 1,
        };
        WindowSelect {
            stuff: Desu::Running(
                Running { state, client_regions, mapped_client_id_and_client: index },
            ),
        }
    }

    /// One round of the session: when still running, applies the batch of
    /// events the driver delivered, in order, and reports the hovered
    /// window afterwards; a stopped or torn-down session reports `Done`.
    /// The returned requests are exactly the per-event request sequences,
    /// concatenated in delivery order, and the region and window tables
    /// are never touched.
    pub fn update(&mut self, events: &Vec<Event>) -> (r: (Message, Vec<Action>))
        requires
            ws_wf(*old(self)),
        ensures
            ws_wf(*final(self)),
            old(self).stuff is Done ==> *final(self) == *old(self) && r.0 == Message::Done
                && r.1@.len() == 0,
            old(self).stuff matches Desu::Running(run) && !run.state.running ==> *final(self)
                == *old(self) && r.0 == Message::Done && r.1@.len() == 0,
            old(self).stuff matches Desu::Running(run) ==> run.state.running
                ==> (final(self).stuff matches Desu::Running(run2) && {
                &&& run2.client_regions@ == run.client_regions@
                &&& run2.mapped_client_id_and_client@ == run.mapped_client_id_and_client@
                &&& events_rel(run.state, run2.state, events@, r.1@)
                &&& r.0 == hovered_message(
                    run2.state,
                    run2.client_regions@,
                    run2.mapped_client_id_and_client@,
                )
            }),
    {
        let mut stuff = Desu::Done;
        core::mem::swap(&mut self.stuff, &mut stuff);
        match stuff {
            Desu::Done => (Message::Done, Vec::new()),
            Desu::Running(mut run) => {
                if !run.state.running {
                    self.stuff = Desu::Running(run);
                    return (Message::Done, Vec::new());
                }
                let ghost pre_state = run.state;
                let ghost pre_regions = run.client_regions@;
                let ghost pre_index = run.mapped_client_id_and_client@;
                let mut acts: Vec<Action> = Vec::new();
                let mut i: usize = 0;
                while i < events.len()
                    invariant
                        0 <= i <= events@.len(),
                        state_wf(run.state),
                        run.client_regions@ == pre_regions,
                        run.mapped_client_id_and_client@ == pre_index,
                        events_rel(pre_state, run.state, events@.take(i as int), acts@),
                    decreases events@.len() - i,
                {
                    let ghost mid_state = run.state;
                    let ghost pre_acts = acts@;
                    let mut a = run.state.event(events[i]);
                    let ghost step_acts = a@;
                    acts.append(&mut a);
                    proof {
                        assert(events@.take(i as int).push(events@[i as int]) =~= events@.take(
                            i as int + 1,
                        ));
                        lemma_events_rel_snoc(
                            pre_state,
                            mid_state,
                            run.state,
                            events@.take(i as int),
                            pre_acts,
                            events@[i as int],
                            step_acts,
                        );
                    }
                    i += 1;
                }
                proof {
                    assert(events@.take(events@.len() as int) =~= events@);
                }
                let msg = resolve_message(&run);
                self.stuff = Desu::Running(run);
                (msg, acts)
            },
        }
    }

    /// Tears the session down: every surface's protocol objects are
    /// released outer-to-inner, down to whatever state it had reached,
    /// then the global handles; the session ends in its terminal state.
    pub fn clean_up(&mut self) -> (acts: Vec<Action>)
        ensures
            final(self).stuff is Done,
            old(self).stuff is Done ==> acts@.len() == 0,
            old(self).stuff matches Desu::Running(run) ==> acts@ == teardown_spec(run.state),
    {
        let mut stuff = Desu::Done;
        core::mem::swap(&mut self.stuff, &mut stuff);
        match stuff {
            Desu::Done => Vec::new(),
            Desu::Running(run) => {
                let mut acts: Vec<Action> = Vec::new();
                let n = run.state.buffer_surfaces.len();
                let mut i: usize = 0;
                while i < n
                    invariant
                        0 <= i <= n,
                        n == run.state.buffer_surfaces@.len(),
                        acts@ == teardown_prefix(run.state.buffer_surfaces@, i as int),
                    decreases n - i,
                {
                    match &run.state.buffer_surfaces[i] {
                        BufferSurface::Pre(_) => {},
                        BufferSurface::InProcess(ip) => {
                            acts.push(Action::DestroySurface { surface: ip.base_surface });
                            acts.push(Action::DestroyBuffer { buffer: ip.buffer });
                        },
                        BufferSurface::HasOutput(ho) => {
                            acts.push(Action::DestroyLayerSurface { layer_surface: ho.wlr_surface });
                            acts.push(Action::DestroySurface { surface: ho.base_surface });
                            acts.push(Action::DestroyBuffer { buffer: ho.buffer });
                            acts.push(Action::ReleaseOutput { output: ho.wayland_output });
                        },
                        BufferSurface::ReadyToDraw(rtd) => {
                            acts.push(
                                Action::DestroyLayerSurface { layer_surface: rtd.wlr_surface },
                            );
                            acts.push(Action::DestroySurface { surface: rtd.base_surface });
                            acts.push(Action::DestroyBuffer { buffer: rtd.buffer });
                            acts.push(Action::ReleaseOutput { output: rtd.wayland_output });
                        },
                    }
                    proof {
                        assert(acts@ =~= teardown_prefix(
                            run.state.buffer_surfaces@,
                            i as int + 1,
                        ));
                    }
                    i += 1;
                }
                if let Some(h) = run.state.shm {
                    acts.push(Action::ReleaseShm { handle: h });
                }
                if let Some(h) = run.state.cursor_shape_manager {
                    acts.push(Action::DestroyCursorShapeManager { handle: h });
                }
                if let Some(h) = run.state.layer_shell {
                    acts.push(Action::DestroyLayerShell { handle: h });
                }
                proof {
                    assert(acts@ =~= teardown_spec(run.state));
                }
                acts
            },
        }
    }
}

} // verus!
