//! The display-protocol side of a selection session: the closed set of
//! events the driver feeds in, the requests the session hands back, and the
//! session's protocol state with its single-step event handler.
//!
//! Globals arrive in any order and some may never arrive; every transition
//! that needs several of them is deferred until all are present, never
//! retried and never failed.

use vstd::prelude::*;
use vstd::pervasive::VecAdditionalExecFns;
use crate::buffer_surface::{
    core_preserved, mask_of, monitor_id_of, rank, size_of, BufferSurface, HasOutput, InProcess,
    Pre, ReadyToDraw,
};
use crate::mask::{empty_pixels, render_post};

verus! {

/// One event delivered by the display server or the host, already reduced
/// to plain values by the driver.
#[derive(Clone, Copy, Debug, PartialEq, Eq, Structural)]
pub enum Event {
    CompositorArrived,
    ShmArrived,
    OutputArrived,
    LayerShellArrived,
    CursorShapeManagerArrived,
    SeatCapabilities { keyboard: bool, pointer: bool },
    Configure { monitor_id: i64, serial: u32 },
    PointerEnter { monitor_id: i64, serial: u32 },
    PointerLeave,
    PointerMotion { x: i16, y: i16 },
    PointerButton,
    Key { key: u32 },
    ToplevelClose,
}

/// One request the session asks the driver to perform against the display
/// server.  Handles are the session's ownership tokens; the driver keeps
/// the mapping from handle to protocol object.
#[derive(Debug, PartialEq, Eq)]
pub enum Action {
    BindCompositor { handle: u64 },
    BindShm { handle: u64 },
    BindOutput { handle: u64 },
    BindLayerShell { handle: u64 },
    BindCursorShapeManager { handle: u64 },
    GetKeyboard,
    GetPointer,
    SetCursorShape { serial: u32 },
    CreateBaseSurface { surface: u64 },
    CreateBuffer { buffer: u64, width: u16, height: u16, pixels: Vec<u8> },
    AnchorOverlay {
        layer_surface: u64,
        base_surface: u64,
        output: u64,
        monitor_id: i64,
        width: u16,
        height: u16,
    },
    SetSurfaceSize { layer_surface: u64, width: u16, height: u16 },
    AckConfigure { layer_surface: u64, serial: u32 },
    AttachBuffer { base_surface: u64, buffer: u64 },
    CommitSurface { base_surface: u64 },
    DestroyLayerSurface { layer_surface: u64 },
    DestroySurface { surface: u64 },
    DestroyBuffer { buffer: u64 },
    ReleaseOutput { output: u64 },
    ReleaseShm { handle: u64 },
    DestroyCursorShapeManager { handle: u64 },
    DestroyLayerShell { handle: u64 },
}

/// The protocol state of one session: the per-monitor surfaces in monitor
/// list order, the optional global handles, the positional output cursor,
/// and the pointer-tracking state.
pub struct State {
    pub running: bool,
    pub buffer_surfaces: Vec<BufferSurface>,
    pub cursor_shape_manager: Option<u64>,
    pub layer_shell: Option<u64>,
    pub shm: Option<u64>,
    pub compositor: Option<u64>,
    pub output_index: usize,
    pub pointer_position: Option<(i16, i16)>,
    pub pointer_surface: Option<i64>,
    pub next_handle: u64,
}

/// A surface whose mask covers exactly its pixel grid, of a size whose
/// buffer byte count the factory can take.
pub open spec fn surface_wf(s: BufferSurface) -> bool {
    &&& mask_of(s).len() == size_of(s).0 * size_of(s).1
    &&& crate::geometry::monitor_size_ok(size_of(s).0, size_of(s).1)
}

/// Every surface of the state is well formed.
pub open spec fn state_wf(st: State) -> bool {
    forall|i: int| 0 <= i < st.buffer_surfaces@.len() ==> surface_wf(#[trigger] st.buffer_surfaces@[i])
}

/// The events that end the session: any pointer button, the escape key,
/// and the toplevel's close request.
pub open spec fn stops_running(ev: Event) -> bool {
    ||| ev is PointerButton
    ||| ev is ToplevelClose
    ||| (ev matches Event::Key { key } && key == 1)
}

/// Surfaces only ever move forward through the state order, and monitor
/// identity, size and paint mask survive.
pub open spec fn surfaces_monotone(pre: Seq<BufferSurface>, post: Seq<BufferSurface>) -> bool {
    &&& post.len() == pre.len()
    &&& forall|i: int|
        0 <= i < pre.len() ==> rank(#[trigger] post[i]) >= rank(pre[i]) && core_preserved(
            pre[i],
            post[i],
        )
}

/// How one event changes the optional global handles: the matching arrival
/// fills its global, everything else leaves all four untouched.
pub open spec fn globals_post(pre: State, post: State, ev: Event) -> bool {
    &&& (if ev is CompositorArrived {
        post.compositor is Some
    } else {
        post.compositor == pre.compositor
    })
    &&& (if ev is ShmArrived {
        post.shm is Some
    } else {
        post.shm == pre.shm
    })
    &&& (if ev is LayerShellArrived {
        post.layer_shell is Some
    } else {
        post.layer_shell == pre.layer_shell
    })
    &&& (if ev is CursorShapeManagerArrived {
        post.cursor_shape_manager is Some
    } else {
        post.cursor_shape_manager == pre.cursor_shape_manager
    })
}

/// How one event changes the pointer-tracking state: enter and leave move
/// the surface containment, motion moves the last known coordinate.
pub open spec fn pointer_post(pre: State, post: State, ev: Event) -> bool {
    &&& post.pointer_surface == (match ev {
        Event::PointerEnter { monitor_id, .. } => Some(monitor_id),
        Event::PointerLeave => None,
        _ => pre.pointer_surface,
    })
    &&& post.pointer_position == (match ev {
        Event::PointerMotion { x, y } => Some((x, y)),
        _ => pre.pointer_position,
    })
}

/// The first surface of the list belonging to the given monitor, from `i`.
pub open spec fn first_surface_from(ss: Seq<BufferSurface>, mid: i64, i: int) -> Option<int>
    decreases ss.len() - i,
{
    if i < 0 || i >= ss.len() {
        None
    } else if monitor_id_of(ss[i]) == mid {
        Some(i)
    } else {
        first_surface_from(ss, mid, i + 1)
    }
}

/// The first surface of the list belonging to the given monitor.
pub open spec fn first_surface(ss: Seq<BufferSurface>, mid: i64) -> Option<int> {
    first_surface_from(ss, mid, 0)
}

/// An action the buffer-factory arrival may emit beside its bind: a base
/// surface, or the one-pixel fully transparent placeholder buffer.
pub open spec fn placeholder_act(a: Action) -> bool {
    ||| a is CreateBaseSurface
    ||| (a matches Action::CreateBuffer { width, height, pixels, .. } && width == 1 && height == 1
        && pixels@.len() == 4 && (forall|z: int| 0 <= z < 4 ==> pixels@[z] == 0u8))
}

/// What the buffer-factory arrival does: when the compositor is already
/// known, every `Pre` surface becomes `InProcess`; otherwise the surfaces
/// wait.  The factory handle is bound either way.
pub open spec fn shm_post(pre: State, post: State, acts: Seq<Action>) -> bool {
    let ss = pre.buffer_surfaces@;
    &&& (if pre.compositor is Some {
        &&& post.buffer_surfaces@.len() == ss.len()
        &&& forall|i: int|
            0 <= i < ss.len() ==> {
                &&& (ss[i] is Pre ==> #[trigger] post.buffer_surfaces@[i] is InProcess)
                &&& (!(ss[i] is Pre) ==> post.buffer_surfaces@[i] == ss[i])
            }
    } else {
        post.buffer_surfaces@ == ss
    })
    &&& acts.len() >= 1
    &&& acts[0] is BindShm
    &&& forall|k: int| 1 <= k < acts.len() ==> placeholder_act(#[trigger] acts[k])
}

/// What an output arrival does: outputs are bound to monitors strictly in
/// arrival order; the surface at the output cursor advances only when the
/// overlay-layer manager is known and the surface has its buffer, and the
/// cursor moves only then.
pub open spec fn output_post(pre: State, post: State, acts: Seq<Action>) -> bool {
    let ss = pre.buffer_surfaces@;
    let oi = pre.output_index as int;
    if pre.layer_shell is Some && oi < ss.len() && ss[oi] is InProcess {
        let ip = ss[oi]->InProcess_0;
        &&& post.output_index == pre.output_index + 1
        &&& post.buffer_surfaces@.len() == ss.len()
        &&& forall|i: int|
            0 <= i < ss.len() && i != oi ==> #[trigger] post.buffer_surfaces@[i] == ss[i]
        &&& post.buffer_surfaces@[oi] matches BufferSurface::HasOutput(ho) && {
            &&& ho.monitor_id == ip.monitor_id
            &&& ho.size == ip.size
            &&& ho.window_buffer@ == ip.window_buffer@
            &&& ho.buffer == ip.buffer
            &&& ho.base_surface == ip.base_surface
            &&& acts.len() == 2
            &&& acts[0] == (Action::BindOutput { handle: ho.wayland_output })
            &&& acts[1] == (Action::AnchorOverlay {
                layer_surface: ho.wlr_surface,
                base_surface: ip.base_surface,
                output: ho.wayland_output,
                monitor_id: ip.monitor_id,
                width: ip.size.0,
                height: ip.size.1,
            })
        }
    } else {
        &&& post.buffer_surfaces@ == ss
        &&& post.output_index == pre.output_index
        &&& acts.len() == 1
        &&& acts[0] is BindOutput
    }
}

/// What a configure event does: the addressed surface, if it is waiting
/// for its first configure, commits its concrete size, acknowledges the
/// serial and draws its real buffer from the paint mask; a live surface
/// acknowledges and redraws.  Any other surface ignores the event.
pub open spec fn configure_post(
    pre: State,
    post: State,
    acts: Seq<Action>,
    mid: i64,
    serial: u32,
) -> bool {
    let ss = pre.buffer_surfaces@;
    match first_surface(ss, mid) {
        Some(s) => match ss[s] {
            BufferSurface::HasOutput(ho) => {
                &&& post.buffer_surfaces@.len() == ss.len()
                &&& forall|i: int|
                    0 <= i < ss.len() && i != s ==> #[trigger] post.buffer_surfaces@[i] == ss[i]
                &&& post.buffer_surfaces@[s] matches BufferSurface::ReadyToDraw(rtd) && {
                    &&& rtd.monitor_id == ho.monitor_id
                    &&& rtd.size == ho.size
                    &&& rtd.window_buffer@ == ho.window_buffer@
                    &&& rtd.base_surface == ho.base_surface
                    &&& rtd.wayland_output == ho.wayland_output
                    &&& rtd.wlr_surface == ho.wlr_surface
                    &&& acts.len() == 6
                    &&& acts[0] == (Action::SetSurfaceSize {
                        layer_surface: ho.wlr_surface,
                        width: ho.size.0,
                        height: ho.size.1,
                    })
                    &&& acts[1] == (Action::CommitSurface { base_surface: ho.base_surface })
                    &&& acts[2] == (Action::AckConfigure { layer_surface: ho.wlr_surface, serial })
                    &&& acts[3] matches Action::CreateBuffer { buffer, width, height, pixels } && {
                        &&& buffer == rtd.buffer
                        &&& width == ho.size.0
                        &&& height == ho.size.1
                        &&& render_post(ho.window_buffer@, pixels@)
                    }
                    &&& acts[4] == (Action::AttachBuffer {
                        base_surface: ho.base_surface,
                        buffer: rtd.buffer,
                    })
                    &&& acts[5] == (Action::CommitSurface { base_surface: ho.base_surface })
                }
            },
            BufferSurface::ReadyToDraw(live) => {
                &&& post.buffer_surfaces@.len() == ss.len()
                &&& forall|i: int|
                    0 <= i < ss.len() && i != s ==> #[trigger] post.buffer_surfaces@[i] == ss[i]
                &&& post.buffer_surfaces@[s] matches BufferSurface::ReadyToDraw(rtd) && {
                    &&& rtd.monitor_id == live.monitor_id
                    &&& rtd.size == live.size
                    &&& rtd.window_buffer@ == live.window_buffer@
                    &&& rtd.base_surface == live.base_surface
                    &&& rtd.wayland_output == live.wayland_output
                    &&& rtd.wlr_surface == live.wlr_surface
                    &&& acts.len() == 4
                    &&& acts[0] == (Action::AckConfigure {
                        layer_surface: live.wlr_surface,
                        serial,
                    })
                    &&& acts[1] matches Action::CreateBuffer { buffer, width, height, pixels } && {
                        &&& buffer == rtd.buffer
                        &&& width == live.size.0
                        &&& height == live.size.1
                        &&& render_post(live.window_buffer@, pixels@)
                    }
                    &&& acts[2] == (Action::AttachBuffer {
                        base_surface: live.base_surface,
                        buffer: rtd.buffer,
                    })
                    &&& acts[3] == (Action::CommitSurface { base_surface: live.base_surface })
                }
            },
            _ => post.buffer_surfaces@ == ss && acts.len() == 0,
        },
        None => post.buffer_surfaces@ == ss && acts.len() == 0,
    }
}

/// The requests emitted for a seat's capability report: an input device is
/// requested for each reported capability, keyboard first.
pub open spec fn seat_acts(acts: Seq<Action>, keyboard: bool, pointer: bool) -> bool {
    if keyboard && pointer {
        acts =~= seq![Action::GetKeyboard, Action::GetPointer]
    } else if keyboard {
        acts =~= seq![Action::GetKeyboard]
    } else if pointer {
        acts =~= seq![Action::GetPointer]
    } else {
        acts.len() == 0
    }
}

/// How one event may change the state, actions aside: the conjunction of
/// the per-event guarantees of `State::event`, state and actions alike.
pub open spec fn event_post(pre: State, post: State, ev: Event, acts: Seq<Action>) -> bool {
    &&& surfaces_monotone(pre.buffer_surfaces@, post.buffer_surfaces@)
    &&& post.running == (pre.running && !stops_running(ev))
    &&& globals_post(pre, post, ev)
    &&& pointer_post(pre, post, ev)
    &&& (!(ev is OutputArrived) ==> post.output_index == pre.output_index)
    &&& (!(ev is ShmArrived) && !(ev is OutputArrived) && !(ev is Configure)
        ==> post.buffer_surfaces@ == pre.buffer_surfaces@)
    &&& (state_wf(pre) ==> state_wf(post))
    &&& (ev is ShmArrived ==> shm_post(pre, post, acts))
    &&& (ev is OutputArrived ==> output_post(pre, post, acts))
    &&& (ev matches Event::Configure { monitor_id, serial } ==> configure_post(
        pre,
        post,
        acts,
        monitor_id,
        serial,
    ))
    &&& (ev matches Event::PointerEnter { serial, .. } ==> (if pre.cursor_shape_manager is Some {
        acts.len() == 1 && acts[0] == (Action::SetCursorShape { serial })
    } else {
        acts.len() == 0
    }))
    &&& (ev matches Event::SeatCapabilities { keyboard, pointer } ==> seat_acts(
        acts,
        keyboard,
        pointer,
    ))
    &&& (ev is CompositorArrived ==> acts.len() == 1 && acts[0] is BindCompositor)
    &&& (ev is LayerShellArrived ==> acts.len() == 1 && acts[0] is BindLayerShell)
    &&& (ev is CursorShapeManagerArrived ==> acts.len() == 1 && acts[0] is BindCursorShapeManager)
    &&& ((ev is PointerLeave || ev is PointerMotion || ev is PointerButton || ev is Key
        || ev is ToplevelClose) ==> acts.len() == 0)
}

/// The state and emitted requests of a whole batch of events: the state is
/// reached by stepping through the events in delivery order, and the
/// requests are exactly the per-event request sequences, concatenated in
/// that same order.
pub open spec fn events_rel(pre: State, post: State, evs: Seq<Event>, acts: Seq<Action>) -> bool
    decreases evs.len(),
{
    if evs.len() == 0 {
        post == pre && acts == Seq::<Action>::empty()
    } else {
        exists|step: (State, Seq<Action>, Seq<Action>)|
            event_post(pre, step.0, evs[0], step.1) && acts == step.1 + step.2 && events_rel(
                step.0,
                post,
                evs.drop_first(),
                step.2,
            )
    }
}

/// Law: redrawing a surface with an unchanged paint mask is idempotent on
/// the buffer content — any two buffer-creation requests rendered from the
/// same mask carry exactly the same bytes.
pub proof fn lemma_redraw_idempotent(mask: Seq<bool>, a1: Action, a2: Action)
    requires
        a1 is CreateBuffer,
        a2 is CreateBuffer,
        render_post(mask, a1->pixels@),
        render_post(mask, a2->pixels@),
    ensures
        a1->pixels@ == a2->pixels@,
{
    crate::mask::lemma_render_deterministic(mask, a1->pixels@, a2->pixels@);
}

/// Forward movement of surfaces composes.
pub proof fn lemma_monotone_trans(
    a: Seq<BufferSurface>,
    b: Seq<BufferSurface>,
    c: Seq<BufferSurface>,
)
    requires
        surfaces_monotone(a, b),
        surfaces_monotone(b, c),
    ensures
        surfaces_monotone(a, c),
{
}

/// Extending a batch by one more event extends the chain, appending the
/// event's requests.
pub proof fn lemma_events_rel_snoc(
    pre: State,
    mid: State,
    post: State,
    evs: Seq<Event>,
    acts: Seq<Action>,
    ev: Event,
    step_acts: Seq<Action>,
)
    requires
        events_rel(pre, mid, evs, acts),
        event_post(mid, post, ev, step_acts),
    ensures
        events_rel(pre, post, evs.push(ev), acts + step_acts),
    decreases evs.len(),
{
    if evs.len() == 0 {
        assert(evs.push(ev)[0] == ev);
        assert(evs.push(ev).drop_first() =~= Seq::<Event>::empty());
        assert(acts + step_acts =~= step_acts + Seq::<Action>::empty());
        let witness = (post, step_acts, Seq::<Action>::empty());
        assert(event_post(pre, witness.0, evs.push(ev)[0], witness.1) && (acts + step_acts)
            == witness.1 + witness.2 && events_rel(
            witness.0,
            post,
            evs.push(ev).drop_first(),
            witness.2,
        ));
    } else {
        let step = choose|step: (State, Seq<Action>, Seq<Action>)|
            event_post(pre, step.0, evs[0], step.1) && acts == step.1 + step.2 && events_rel(
                step.0,
                mid,
                evs.drop_first(),
                step.2,
            );
        let m1 = step.0;
        let first = step.1;
        let rest = step.2;
        lemma_events_rel_snoc(m1, mid, post, evs.drop_first(), rest, ev, step_acts);
        assert(evs.drop_first().push(ev) =~= evs.push(ev).drop_first());
        assert(evs.push(ev)[0] == evs[0]);
        assert(acts + step_acts =~= first + (rest + step_acts));
        let witness = (m1, first, rest + step_acts);
        assert(event_post(pre, witness.0, evs.push(ev)[0], witness.1) && (acts + step_acts)
            == witness.1 + witness.2 && events_rel(
            witness.0,
            post,
            evs.push(ev).drop_first(),
            witness.2,
        ));
    }
}

/// Once a monitor's surface has reached a state, no later event of the
/// session observes it in an earlier one: over any batch of events the
/// surfaces only move forward, the paint masks and sizes are untouched,
/// and a stopped session never resumes.
pub proof fn lemma_session_monotone(pre: State, post: State, evs: Seq<Event>, acts: Seq<Action>)
    requires
        events_rel(pre, post, evs, acts),
    ensures
        surfaces_monotone(pre.buffer_surfaces@, post.buffer_surfaces@),
        !pre.running ==> !post.running,
        state_wf(pre) ==> state_wf(post),
    decreases evs.len(),
{
    if evs.len() == 0 {
    } else {
        let step = choose|step: (State, Seq<Action>, Seq<Action>)|
            event_post(pre, step.0, evs[0], step.1) && acts == step.1 + step.2 && events_rel(
                step.0,
                post,
                evs.drop_first(),
                step.2,
            );
        lemma_session_monotone(step.0, post, evs.drop_first(), step.2);
        lemma_monotone_trans(pre.buffer_surfaces@, step.0.buffer_surfaces@, post.buffer_surfaces@);
    }
}

/// The monitor each overlay-anchoring request of a request sequence
/// targets, in emission order: the session's output-to-monitor assignment.
pub open spec fn anchored_monitors(acts: Seq<Action>) -> Seq<i64>
    decreases acts.len(),
{
    if acts.len() == 0 {
        Seq::empty()
    } else {
        anchored_monitors(acts.drop_last()) + (match acts.last() {
            Action::AnchorOverlay { monitor_id, .. } => seq![monitor_id],
            _ => Seq::<i64>::empty(),
        })
    }
}

/// What output binding can observe of a session: which of the globals it
/// waits for are present, the output cursor, and each surface's progress
/// and monitor.  Handle values, masks and pointer state are invisible to
/// the binding decision.
pub open spec fn binding_eq(a: State, b: State) -> bool {
    &&& (a.compositor is Some) == (b.compositor is Some)
    &&& (a.shm is Some) == (b.shm is Some)
    &&& (a.layer_shell is Some) == (b.layer_shell is Some)
    &&& a.output_index == b.output_index
    &&& a.buffer_surfaces@.len() == b.buffer_surfaces@.len()
    &&& forall|i: int|
        0 <= i < a.buffer_surfaces@.len() ==> rank(#[trigger] a.buffer_surfaces@[i]) == rank(
            b.buffer_surfaces@[i],
        ) && monitor_id_of(a.buffer_surfaces@[i]) == monitor_id_of(b.buffer_surfaces@[i])
}

proof fn lemma_anchored_empty_of_none(acts: Seq<Action>)
    requires
        forall|k: int| 0 <= k < acts.len() ==> !((#[trigger] acts[k]) is AnchorOverlay),
    ensures
        anchored_monitors(acts) == Seq::<i64>::empty(),
    decreases acts.len(),
{
    if acts.len() > 0 {
        lemma_anchored_empty_of_none(acts.drop_last());
        assert(!(acts[acts.len() - 1] is AnchorOverlay));
        assert(anchored_monitors(acts) =~= Seq::<i64>::empty());
    }
}

proof fn lemma_anchored_concat(a: Seq<Action>, b: Seq<Action>)
    ensures
        anchored_monitors(a + b) == anchored_monitors(a) + anchored_monitors(b),
    decreases b.len(),
{
    if b.len() == 0 {
        assert(a + b =~= a);
        assert(anchored_monitors(a) + anchored_monitors(b) =~= anchored_monitors(a + b));
    } else {
        lemma_anchored_concat(a, b.drop_last());
        assert((a + b).drop_last() =~= a + b.drop_last());
        assert((a + b).last() == b.last());
        assert(anchored_monitors(a + b) =~= anchored_monitors(a) + anchored_monitors(b));
    }
}

proof fn lemma_first_surface_eq(ss1: Seq<BufferSurface>, ss2: Seq<BufferSurface>, mid: i64, i: int)
    requires
        ss1.len() == ss2.len(),
        forall|k: int|
            0 <= k < ss1.len() ==> monitor_id_of(#[trigger] ss1[k]) == monitor_id_of(ss2[k]),
        0 <= i <= ss1.len(),
    ensures
        first_surface_from(ss1, mid, i) == first_surface_from(ss2, mid, i),
    decreases ss1.len() - i,
{
    if i < ss1.len() {
        lemma_first_surface_eq(ss1, ss2, mid, i + 1);
    }
}

proof fn lemma_first_surface_bounds(ss: Seq<BufferSurface>, mid: i64, i: int)
    requires
        0 <= i <= ss.len(),
    ensures
        first_surface_from(ss, mid, i) matches Some(s) ==> i <= s < ss.len() && monitor_id_of(
            ss[s],
        ) == mid,
    decreases ss.len() - i,
{
    if i < ss.len() {
        lemma_first_surface_bounds(ss, mid, i + 1);
    }
}

proof fn lemma_binding_step(
    pre1: State,
    post1: State,
    a1: Seq<Action>,
    pre2: State,
    post2: State,
    a2: Seq<Action>,
    ev: Event,
)
    requires
        binding_eq(pre1, pre2),
        event_post(pre1, post1, ev, a1),
        event_post(pre2, post2, ev, a2),
    ensures
        binding_eq(post1, post2),
        anchored_monitors(a1) == anchored_monitors(a2),
{
    let ss1 = pre1.buffer_surfaces@;
    let ss2 = pre2.buffer_surfaces@;
    let ps1 = post1.buffer_surfaces@;
    let ps2 = post2.buffer_surfaces@;
    match ev {
        Event::ShmArrived => {
            assert forall|k: int| 0 <= k < a1.len() implies !((#[trigger] a1[k]) is AnchorOverlay) by {
                if k >= 1 {
                    assert(placeholder_act(a1[k]));
                }
            }
            assert forall|k: int| 0 <= k < a2.len() implies !((#[trigger] a2[k]) is AnchorOverlay) by {
                if k >= 1 {
                    assert(placeholder_act(a2[k]));
                }
            }
            lemma_anchored_empty_of_none(a1);
            lemma_anchored_empty_of_none(a2);
            assert forall|i: int|
                0 <= i < ps1.len() implies rank(#[trigger] ps1[i]) == rank(ps2[i])
                    && monitor_id_of(ps1[i]) == monitor_id_of(ps2[i]) by {
                assert(core_preserved(ss1[i], ps1[i]));
                assert(core_preserved(ss2[i], ps2[i]));
                if pre1.compositor is Some {
                    if ss1[i] is Pre {
                        assert(ss2[i] is Pre);
                        assert(ps1[i] is InProcess && ps2[i] is InProcess);
                    } else {
                        assert(!(ss2[i] is Pre));
                        assert(ps1[i] == ss1[i] && ps2[i] == ss2[i]);
                    }
                } else {
                    assert(ps1[i] == ss1[i] && ps2[i] == ss2[i]);
                }
            }
        },
        Event::OutputArrived => {
            let oi = pre1.output_index as int;
            if pre1.layer_shell is Some && oi < ss1.len() && ss1[oi] is InProcess {
                assert(ss2[oi] is InProcess);
                let ip1 = ss1[oi]->InProcess_0;
                let ip2 = ss2[oi]->InProcess_0;
                assert(ip1.monitor_id == ip2.monitor_id);
                assert(a1.drop_last().len() == 1 && a1.drop_last()[0] == a1[0]);
                lemma_anchored_empty_of_none(a1.drop_last());
                assert(a1.last() == a1[1]);
                assert(anchored_monitors(a1) =~= seq![ip1.monitor_id]);
                assert(a2.drop_last().len() == 1 && a2.drop_last()[0] == a2[0]);
                lemma_anchored_empty_of_none(a2.drop_last());
                assert(a2.last() == a2[1]);
                assert(anchored_monitors(a2) =~= seq![ip2.monitor_id]);
                assert forall|i: int|
                    0 <= i < ps1.len() implies rank(#[trigger] ps1[i]) == rank(ps2[i])
                        && monitor_id_of(ps1[i]) == monitor_id_of(ps2[i]) by {
                    if i == oi {
                        assert(ps1[i] is HasOutput && ps2[i] is HasOutput);
                        assert(monitor_id_of(ps1[i]) == ip1.monitor_id);
                        assert(monitor_id_of(ps2[i]) == ip2.monitor_id);
                    } else {
                        assert(ps1[i] == ss1[i] && ps2[i] == ss2[i]);
                    }
                }
            } else {
                assert(!(pre2.layer_shell is Some && oi < ss2.len() && ss2[oi] is InProcess));
                assert(!(a1[0] is AnchorOverlay));
                lemma_anchored_empty_of_none(a1);
                assert(!(a2[0] is AnchorOverlay));
                lemma_anchored_empty_of_none(a2);
            }
        },
        Event::Configure { monitor_id, serial } => {
            lemma_first_surface_eq(ss1, ss2, monitor_id, 0);
            lemma_first_surface_bounds(ss1, monitor_id, 0);
            match first_surface(ss1, monitor_id) {
                Some(s) => {
                    if ss1[s] is HasOutput {
                        assert(ss2[s] is HasOutput);
                        assert forall|k: int|
                            0 <= k < a1.len() implies !((#[trigger] a1[k]) is AnchorOverlay) by {}
                        assert forall|k: int|
                            0 <= k < a2.len() implies !((#[trigger] a2[k]) is AnchorOverlay) by {}
                        lemma_anchored_empty_of_none(a1);
                        lemma_anchored_empty_of_none(a2);
                        assert forall|i: int|
                            0 <= i < ps1.len() implies rank(#[trigger] ps1[i]) == rank(ps2[i])
                                && monitor_id_of(ps1[i]) == monitor_id_of(ps2[i]) by {
                            if i == s {
                                assert(ps1[i] is ReadyToDraw && ps2[i] is ReadyToDraw);
                                assert(monitor_id_of(ps1[i]) == monitor_id_of(ss1[i]));
                                assert(monitor_id_of(ps2[i]) == monitor_id_of(ss2[i]));
                            } else {
                                assert(ps1[i] == ss1[i] && ps2[i] == ss2[i]);
                            }
                        }
                    } else if ss1[s] is ReadyToDraw {
                        assert(ss2[s] is ReadyToDraw);
                        assert forall|k: int|
                            0 <= k < a1.len() implies !((#[trigger] a1[k]) is AnchorOverlay) by {}
                        assert forall|k: int|
                            0 <= k < a2.len() implies !((#[trigger] a2[k]) is AnchorOverlay) by {}
                        lemma_anchored_empty_of_none(a1);
                        lemma_anchored_empty_of_none(a2);
                        assert forall|i: int|
                            0 <= i < ps1.len() implies rank(#[trigger] ps1[i]) == rank(ps2[i])
                                && monitor_id_of(ps1[i]) == monitor_id_of(ps2[i]) by {
                            if i == s {
                                assert(ps1[i] is ReadyToDraw && ps2[i] is ReadyToDraw);
                                assert(monitor_id_of(ps1[i]) == monitor_id_of(ss1[i]));
                                assert(monitor_id_of(ps2[i]) == monitor_id_of(ss2[i]));
                            } else {
                                assert(ps1[i] == ss1[i] && ps2[i] == ss2[i]);
                            }
                        }
                    } else {
                        assert(!(ss2[s] is HasOutput) && !(ss2[s] is ReadyToDraw));
                        assert(ps1 == ss1 && ps2 == ss2);
                        assert(a1.len() == 0 && a2.len() == 0);
                    }
                },
                None => {
                    assert(ps1 == ss1 && ps2 == ss2);
                    assert(a1.len() == 0 && a2.len() == 0);
                },
            }
        },
        Event::SeatCapabilities { keyboard, pointer } => {
            assert forall|k: int| 0 <= k < a1.len() implies !((#[trigger] a1[k]) is AnchorOverlay) by {
                assert(seat_acts(a1, keyboard, pointer));
            }
            assert forall|k: int| 0 <= k < a2.len() implies !((#[trigger] a2[k]) is AnchorOverlay) by {
                assert(seat_acts(a2, keyboard, pointer));
            }
            lemma_anchored_empty_of_none(a1);
            lemma_anchored_empty_of_none(a2);
        },
        Event::PointerEnter { serial, .. } => {
            assert forall|k: int| 0 <= k < a1.len() implies !((#[trigger] a1[k]) is AnchorOverlay) by {
                assert(a1[k] == (Action::SetCursorShape { serial }));
            }
            assert forall|k: int| 0 <= k < a2.len() implies !((#[trigger] a2[k]) is AnchorOverlay) by {
                assert(a2[k] == (Action::SetCursorShape { serial }));
            }
            lemma_anchored_empty_of_none(a1);
            lemma_anchored_empty_of_none(a2);
        },
        _ => {
            assert forall|k: int| 0 <= k < a1.len() implies !((#[trigger] a1[k]) is AnchorOverlay) by {}
            assert forall|k: int| 0 <= k < a2.len() implies !((#[trigger] a2[k]) is AnchorOverlay) by {}
            lemma_anchored_empty_of_none(a1);
            lemma_anchored_empty_of_none(a2);
        },
    }
}

/// Law: the output-to-monitor assignment is a deterministic function of
/// arrival order alone.  Two sessions whose binding observations agree —
/// same globals present, same output cursor, surfaces at the same stages
/// for the same monitors — and which receive the same events in the same
/// order anchor the same monitors in the same order, however "wrong" the
/// positional placement may be; nothing corrects it by guessing.
pub proof fn lemma_output_binding_deterministic(
    pre1: State,
    post1: State,
    a1: Seq<Action>,
    pre2: State,
    post2: State,
    a2: Seq<Action>,
    evs: Seq<Event>,
)
    requires
        binding_eq(pre1, pre2),
        events_rel(pre1, post1, evs, a1),
        events_rel(pre2, post2, evs, a2),
    ensures
        binding_eq(post1, post2),
        anchored_monitors(a1) == anchored_monitors(a2),
    decreases evs.len(),
{
    if evs.len() == 0 {
    } else {
        let s1 = choose|step: (State, Seq<Action>, Seq<Action>)|
            event_post(pre1, step.0, evs[0], step.1) && a1 == step.1 + step.2 && events_rel(
                step.0,
                post1,
                evs.drop_first(),
                step.2,
            );
        let s2 = choose|step: (State, Seq<Action>, Seq<Action>)|
            event_post(pre2, step.0, evs[0], step.1) && a2 == step.1 + step.2 && events_rel(
                step.0,
                post2,
                evs.drop_first(),
                step.2,
            );
        lemma_binding_step(pre1, s1.0, s1.1, pre2, s2.0, s2.1, evs[0]);
        lemma_output_binding_deterministic(
            s1.0,
            post1,
            s1.2,
            s2.0,
            post2,
            s2.2,
            evs.drop_first(),
        );
        lemma_anchored_concat(s1.1, s1.2);
        lemma_anchored_concat(s2.1, s2.2);
    }
}

/// Two sessions built over the same monitor list observe alike for output
/// binding, whatever their windows: every surface starts at the first
/// stage for its monitor, with no global yet offered.
pub proof fn lemma_fresh_sessions_binding_eq(s1: State, s2: State)
    requires
        s1.compositor is None,
        s1.shm is None,
        s1.layer_shell is None,
        s1.output_index == 0,
        s2.compositor is None,
        s2.shm is None,
        s2.layer_shell is None,
        s2.output_index == 0,
        s1.buffer_surfaces@.len() == s2.buffer_surfaces@.len(),
        forall|i: int|
            0 <= i < s1.buffer_surfaces@.len() ==> (#[trigger] s1.buffer_surfaces@[i]) is Pre
                && s2.buffer_surfaces@[i] is Pre && monitor_id_of(s1.buffer_surfaces@[i])
                == monitor_id_of(s2.buffer_surfaces@[i]),
    ensures
        binding_eq(s1, s2),
{
}

fn find_surface(ss: &Vec<BufferSurface>, mid: i64) -> (r: Option<usize>)
    ensures
        r matches Some(s) ==> 0 <= s < ss@.len() && first_surface(ss@, mid) == Some(s as int),
        r is None ==> first_surface(ss@, mid) is None,
{
    let mut i: usize = 0;
    while i < ss.len()
        invariant
            0 <= i <= ss@.len(),
            first_surface(ss@, mid) == first_surface_from(ss@, mid, i as int),
        decreases ss@.len() - i,
    {
        let found = match &ss[i] {
            BufferSurface::Pre(p) => p.monitor_id == mid,
            BufferSurface::InProcess(p) => p.monitor_id == mid,
            BufferSurface::HasOutput(p) => p.monitor_id == mid,
            BufferSurface::ReadyToDraw(p) => p.monitor_id == mid,
        };
        if found {
            return Some(i);
        }
        i += 1;
    }
    None
}

impl State {
    /// Handles one event: advances the per-monitor surfaces as far as the
    /// globals at hand allow, tracks the pointer, and returns the requests
    /// the driver must perform.  Surfaces only ever move forward.
    pub fn event(&mut self, ev: Event) -> (acts: Vec<Action>)
        requires
            state_wf(*old(self)),
        ensures
            state_wf(*final(self)),
            event_post(*old(self), *final(self), ev, acts@),
            surfaces_monotone(old(self).buffer_surfaces@, final(self).buffer_surfaces@),
            final(self).running == (old(self).running && !stops_running(ev)),
            globals_post(*old(self), *final(self), ev),
            pointer_post(*old(self), *final(self), ev),
            !(ev is OutputArrived) ==> final(self).output_index == old(self).output_index,
            !(ev is ShmArrived) && !(ev is OutputArrived) && !(ev is Configure)
                ==> final(self).buffer_surfaces@ == old(self).buffer_surfaces@,
            ev is ShmArrived ==> shm_post(*old(self), *final(self), acts@),
            ev is OutputArrived ==> output_post(*old(self), *final(self), acts@),
            ev matches Event::Configure { monitor_id, serial } ==> configure_post(
                *old(self),
                *final(self),
                acts@,
                monitor_id,
                serial,
            ),
            ev matches Event::PointerEnter { serial, .. } ==> (if old(self).cursor_shape_manager is Some {
                acts@.len() == 1 && acts@[0] == (Action::SetCursorShape { serial })
            } else {
                acts@.len() == 0
            }),
            ev matches Event::SeatCapabilities { keyboard, pointer } ==> seat_acts(
                acts@,
                keyboard,
                pointer,
            ),
            ev is CompositorArrived ==> acts@.len() == 1 && acts@[0] is BindCompositor,
            ev is LayerShellArrived ==> acts@.len() == 1 && acts@[0] is BindLayerShell,
            ev is CursorShapeManagerArrived ==> acts@.len() == 1
                && acts@[0] is BindCursorShapeManager,
            (ev is PointerLeave || ev is PointerMotion || ev is PointerButton || ev is Key
                || ev is ToplevelClose) ==> acts@.len() == 0,
    {
        let mut acts: Vec<Action> = Vec::new();
        match ev {
            Event::CompositorArrived => {
                let h = self.next_handle;
                if self.next_handle < u64::MAX {
                    self.next_handle = self.next_handle + 1;
                }
                self.compositor = Some(h);
                acts.push(Action::BindCompositor { handle: h });
            },
            Event::ShmArrived => {
                let h = self.next_handle;
                if self.next_handle < u64::MAX {
                    self.next_handle = self.next_handle + 1;
                }
                self.shm = Some(h);
                acts.push(Action::BindShm { handle: h });
                if self.compositor.is_some() {
                    let ghost pre_self = *self;
                    let ghost pre_acts = acts@;
                    let n = self.buffer_surfaces.len();
                    let mut i: usize = 0;
                    while i < n
                        invariant
                            0 <= i <= n,
                            n == pre_self.buffer_surfaces@.len(),
                            self.buffer_surfaces@.len() == n,
                            self.running == pre_self.running,
                            self.compositor == pre_self.compositor,
                            self.shm == pre_self.shm,
                            self.layer_shell == pre_self.layer_shell,
                            self.cursor_shape_manager == pre_self.cursor_shape_manager,
                            self.output_index == pre_self.output_index,
                            self.pointer_position == pre_self.pointer_position,
                            self.pointer_surface == pre_self.pointer_surface,
                            forall|k: int|
                                i <= k < n ==> #[trigger] self.buffer_surfaces@[k]
                                    == pre_self.buffer_surfaces@[k],
                            forall|k: int|
                                0 <= k < i ==> {
                                    &&& (pre_self.buffer_surfaces@[k] is Pre
                                        ==> #[trigger] self.buffer_surfaces@[k] is InProcess
                                        && core_preserved(
                                        pre_self.buffer_surfaces@[k],
                                        self.buffer_surfaces@[k],
                                    ))
                                    &&& (!(pre_self.buffer_surfaces@[k] is Pre)
                                        ==> self.buffer_surfaces@[k]
                                        == pre_self.buffer_surfaces@[k])
                                },
                            acts@.len() >= pre_acts.len(),
                            pre_acts.len() == 1,
                            acts@[0] == pre_acts[0],
                            forall|k: int|
                                1 <= k < acts@.len() ==> placeholder_act(#[trigger] acts@[k]),
                            state_wf(pre_self),
                        decreases n - i,
                    {
                        let is_pre = match &self.buffer_surfaces[i] {
                            BufferSurface::Pre(_) => true,
                            _ => false,
                        };
                        if is_pre {
                            let hs = self.next_handle;
                            if self.next_handle < u64::MAX {
                                self.next_handle = self.next_handle + 1;
                            }
                            let hb = self.next_handle;
                            if self.next_handle < u64::MAX {
                                self.next_handle = self.next_handle + 1;
                            }
                            let mut tmp = BufferSurface::Pre(
                                Pre { monitor_id: 0, monitor_size: (0, 0), window_buffer: Vec::new() },
                            );
                            self.buffer_surfaces.set_and_swap(i, &mut tmp);
                            match tmp {
                                BufferSurface::Pre(pre) => {
                                    acts.push(Action::CreateBaseSurface { surface: hs });
                                    acts.push(
                                        Action::CreateBuffer {
                                            buffer: hb,
                                            width: 1,
                                            height: 1,
                                            pixels: empty_pixels(1),
                                        },
                                    );
                                    let ip = InProcess::from_pre(pre, hb, hs);
                                    self.buffer_surfaces.set(i, BufferSurface::InProcess(ip));
                                },
                                other => {
                                    self.buffer_surfaces.set(i, other);
                                },
                            }
                        }
                        i += 1;
                    }
                }
            },
            Event::OutputArrived => {
                let h_out = self.next_handle;
                if self.next_handle < u64::MAX {
                    self.next_handle = self.next_handle + 1;
                }
                acts.push(Action::BindOutput { handle: h_out });
                if self.layer_shell.is_some() && self.output_index < self.buffer_surfaces.len() {
                    let oi = self.output_index;
                    let is_ip = match &self.buffer_surfaces[oi] {
                        BufferSurface::InProcess(_) => true,
                        _ => false,
                    };
                    if is_ip {
                        let h_ls = self.next_handle;
                        if self.next_handle < u64::MAX {
                            self.next_handle = self.next_handle + 1;
                        }
                        let mut tmp = BufferSurface::Pre(
                            Pre { monitor_id: 0, monitor_size: (0, 0), window_buffer: Vec::new() },
                        );
                        self.buffer_surfaces.set_and_swap(oi, &mut tmp);
                        match tmp {
                            BufferSurface::InProcess(ip) => {
                                let mid = ip.monitor_id;
                                let size = ip.size;
                                let base = ip.base_surface;
                                let ho = HasOutput::from_in_process(ip, h_out, h_ls);
                                acts.push(
                                    Action::AnchorOverlay {
                                        layer_surface: h_ls,
                                        base_surface: base,
                                        output: h_out,
                                        monitor_id: mid,
                                        width: size.0,
                                        height: size.1,
                                    },
                                );
                                self.buffer_surfaces.set(oi, BufferSurface::HasOutput(ho));
                                self.output_index = oi + 1;
                            },
                            other => {
                                self.buffer_surfaces.set(oi, other);
                            },
                        }
                    }
                }
            },
            Event::LayerShellArrived => {
                let h = self.next_handle;
                if self.next_handle < u64::MAX {
                    self.next_handle = self.next_handle + 1;
                }
                self.layer_shell = Some(h);
                acts.push(Action::BindLayerShell { handle: h });
            },
            Event::CursorShapeManagerArrived => {
                let h = self.next_handle;
                if self.next_handle < u64::MAX {
                    self.next_handle = self.next_handle + 1;
                }
                self.cursor_shape_manager = Some(h);
                acts.push(Action::BindCursorShapeManager { handle: h });
            },
            Event::SeatCapabilities { keyboard, pointer } => {
                if keyboard {
                    acts.push(Action::GetKeyboard);
                }
                if pointer {
                    acts.push(Action::GetPointer);
                }
            },
            Event::Configure { monitor_id, serial } => {
                match find_surface(&self.buffer_surfaces, monitor_id) {
                    Some(s) => {
                        let kind: u8 = match &self.buffer_surfaces[s] {
                            BufferSurface::HasOutput(_) => 2,
                            BufferSurface::ReadyToDraw(_) => 3,
                            _ => 0,
                        };
                        if kind == 2 {
                            let mut tmp = BufferSurface::Pre(
                                Pre { monitor_id: 0, monitor_size: (0, 0), window_buffer: Vec::new() },
                            );
                            self.buffer_surfaces.set_and_swap(s, &mut tmp);
                            match tmp {
                                BufferSurface::HasOutput(ho) => {
                                    let (rtd, mut sized) = ReadyToDraw::from_has_output(ho);
                                    acts.append(&mut sized);
                                    acts.push(rtd.acknowledge_configure(serial));
                                    let hb = self.next_handle;
                                    if self.next_handle < u64::MAX {
                                        self.next_handle = self.next_handle + 1;
                                    }
                                    let mut rtd = rtd;
                                    let mut drawn = rtd.actually_draw_buffer_surface(hb);
                                    acts.append(&mut drawn);
                                    self.buffer_surfaces.set(s, BufferSurface::ReadyToDraw(rtd));
                                },
                                other => {
                                    self.buffer_surfaces.set(s, other);
                                },
                            }
                        } else if kind == 3 {
                            let mut tmp = BufferSurface::Pre(
                                Pre { monitor_id: 0, monitor_size: (0, 0), window_buffer: Vec::new() },
                            );
                            self.buffer_surfaces.set_and_swap(s, &mut tmp);
                            match tmp {
                                BufferSurface::ReadyToDraw(live) => {
                                    let mut live = live;
                                    acts.push(live.acknowledge_configure(serial));
                                    let hb = self.next_handle;
                                    if self.next_handle < u64::MAX {
                                        self.next_handle = self.next_handle + 1;
                                    }
                                    let mut drawn = live.actually_draw_buffer_surface(hb);
                                    acts.append(&mut drawn);
                                    self.buffer_surfaces.set(s, BufferSurface::ReadyToDraw(live));
                                },
                                other => {
                                    self.buffer_surfaces.set(s, other);
                                },
                            }
                        }
                    },
                    None => {},
                }
            },
            Event::PointerEnter { monitor_id, serial } => {
                self.pointer_surface = Some(monitor_id);
                if self.cursor_shape_manager.is_some() {
                    acts.push(Action::SetCursorShape { serial });
                }
            },
            Event::PointerLeave => {
                self.pointer_surface = None;
            },
            Event::PointerMotion { x, y } => {
                self.pointer_position = Some((x, y));
            },
            Event::PointerButton => {
                self.running = false;
            },
            Event::Key { key } => {
                if key == 1 {
                    self.running = false;
                }
            },
            Event::ToplevelClose => {
                self.running = false;
            },
        }
        acts
    }
}

} // verus!
