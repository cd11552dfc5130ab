//! Snapshot indexer: filters the window list down to the windows that are
//! visible on an active workspace, translates each retained window into a
//! monitor-relative region, and builds an address-keyed lookup table.

use vstd::prelude::*;
use crate::geometry::{ClientRegion, Monitor, WindowRecord};

verus! {

/// A workspace is active when some monitor of the snapshot currently shows it.
pub open spec fn workspace_active(workspace: i32, monitors: Seq<Monitor>) -> bool {
    exists|i: int| 0 <= i < monitors.len() && monitors[i].active_workspace == workspace
}

/// A window takes part in the selection when it is mapped and its workspace
/// is active on some monitor.
pub open spec fn eligible(c: WindowRecord, monitors: Seq<Monitor>) -> bool {
    c.mapped && workspace_active(c.workspace, monitors)
}

/// The first monitor of the list carrying the given id, scanning from `i`.
pub open spec fn first_monitor_from(monitors: Seq<Monitor>, id: i64, i: int) -> Option<Monitor>
    decreases monitors.len() - i,
{
    if i < 0 || i >= monitors.len() {
        None
    } else if monitors[i].id == id {
        Some(monitors[i])
    } else {
        first_monitor_from(monitors, id, i + 1)
    }
}

/// The first monitor of the list carrying the given id.
pub open spec fn first_monitor_with(monitors: Seq<Monitor>, id: i64) -> Option<Monitor> {
    first_monitor_from(monitors, id, 0)
}

/// The region of a window whose owning monitor could not be resolved: the
/// absolute coordinates are kept and the monitor is left unset, so the
/// region can never match a hit test.
pub open spec fn absolute_region(c: WindowRecord) -> ClientRegion {
    ClientRegion {
        at: (c.at.0 as i64, c.at.1 as i64),
        size: c.size,
        monitor: None,
        client_id: c.address,
    }
}

/// The region of a window on monitor `m`: the position translated into
/// monitor-local coordinates, the size unchanged.
pub open spec fn relative_region(c: WindowRecord, m: Monitor, mid: i64) -> ClientRegion {
    ClientRegion {
        at: ((c.at.0 - m.x) as i64, (c.at.1 - m.y) as i64),
        size: c.size,
        monitor: Some(mid),
        client_id: c.address,
    }
}

/// The region computed for one window: monitor-relative when the window
/// names a monitor that the snapshot knows, absolute otherwise.
pub open spec fn region_of(c: WindowRecord, monitors: Seq<Monitor>) -> ClientRegion {
    match c.monitor {
        Some(mid) => match first_monitor_with(monitors, mid) {
            Some(m) => relative_region(c, m, mid),
            None => absolute_region(c),
        },
        None => absolute_region(c),
    }
}

/// The regions of the first `n` windows, in list order, eligible ones only.
pub open spec fn regions_prefix(clients: Seq<WindowRecord>, monitors: Seq<Monitor>, n: int) -> Seq<
    ClientRegion,
>
    decreases n,
{
    if n <= 0 {
        Seq::empty()
    } else {
        let rest = regions_prefix(clients, monitors, n - 1);
        if eligible(clients[n - 1], monitors) {
            rest.push(region_of(clients[n - 1], monitors))
        } else {
            rest
        }
    }
}

/// All regions of the snapshot: one per eligible window, in list order.
pub open spec fn regions_spec(clients: Seq<WindowRecord>, monitors: Seq<Monitor>) -> Seq<
    ClientRegion,
> {
    regions_prefix(clients, monitors, clients.len() as int)
}

fn workspace_active_exec(workspace: i32, monitors: &Vec<Monitor>) -> (b: bool)
    ensures
        b == workspace_active(workspace, monitors@),
{
    let mut i: usize = 0;
    while i < monitors.len()
        invariant
            0 <= i <= monitors@.len(),
            forall|k: int| 0 <= k < i ==> monitors@[k].active_workspace != workspace,
        decreases monitors@.len() - i,
    {
        if monitors[i].active_workspace == workspace {
            return true;
        }
        i += 1;
    }
    false
}

fn find_monitor(monitors: &Vec<Monitor>, id: i64) -> (r: Option<Monitor>)
    ensures
        r == first_monitor_with(monitors@, id),
{
    let mut i: usize = 0;
    while i < monitors.len()
        invariant
            0 <= i <= monitors@.len(),
            first_monitor_with(monitors@, id) == first_monitor_from(monitors@, id, i as int),
        decreases monitors@.len() - i,
    {
        if monitors[i].id == id {
            return Some(monitors[i]);
        }
        i += 1;
    }
    None
}

/// Builds the monitor-relative region list for the snapshot: one region per
/// eligible window, in window-list order.
pub fn build_regions(clients: &Vec<WindowRecord>, monitors: &Vec<Monitor>) -> (r: Vec<ClientRegion>)
    ensures
        r@ == regions_spec(clients@, monitors@),
{
    let mut out: Vec<ClientRegion> = Vec::new();
    let mut i: usize = 0;
    while i < clients.len()
        invariant
            0 <= i <= clients@.len(),
            out@ == regions_prefix(clients@, monitors@, i as int),
        decreases clients@.len() - i,
    {
        let c = &clients[i];
        if c.mapped && workspace_active_exec(c.workspace, monitors) {
            let region = match c.monitor {
                Some(mid) => match find_monitor(monitors, mid) {
                    Some(m) => {
                        let rx: i64 = c.at.0 as i64 - m.x as i64;
                        let ry: i64 = c.at.1 as i64 - m.y as i64;
                        ClientRegion {
                            at: (rx, ry),
                            size: c.size,
                            monitor: Some(mid),
                            client_id: c.address.clone(),
                        }
                    },
                    None => ClientRegion {
                        at: (c.at.0 as i64, c.at.1 as i64),
                        size: c.size,
                        monitor: None,
                        client_id: c.address.clone(),
                    },
                },
                None => ClientRegion {
                    at: (c.at.0 as i64, c.at.1 as i64),
                    size: c.size,
                    monitor: None,
                    client_id: c.address.clone(),
                },
            };
            out.push(region);
        }
        i += 1;
    }
    out
}

/// Law: the region of a window resolved to a monitor sits at the window's
/// absolute position translated by that monitor's origin, has the
/// window's own size, and keeps the window's monitor and identity.
pub proof fn lemma_region_position(c: WindowRecord, monitors: Seq<Monitor>)
    requires
        c.monitor is Some,
        first_monitor_with(monitors, c.monitor->0) is Some,
    ensures
        ({
            let m = first_monitor_with(monitors, c.monitor->0)->0;
            let r = region_of(c, monitors);
            &&& r.at.0 == c.at.0 - m.x
            &&& r.at.1 == c.at.1 - m.y
            &&& r.size == c.size
            &&& r.monitor == c.monitor
            &&& r.client_id == c.address
        }),
{
}

/// Every region of the table comes from an eligible window of the prefix.
pub proof fn lemma_regions_prefix_source(
    clients: Seq<WindowRecord>,
    monitors: Seq<Monitor>,
    n: int,
    j: int,
)
    requires
        0 <= n <= clients.len(),
        0 <= j < regions_prefix(clients, monitors, n).len(),
    ensures
        exists|i: int|
            0 <= i < n && eligible(#[trigger] clients[i], monitors) && regions_prefix(
                clients,
                monitors,
                n,
            )[j] == region_of(clients[i], monitors),
    decreases n,
{
    let rp = regions_prefix(clients, monitors, n);
    let rp0 = regions_prefix(clients, monitors, n - 1);
    if eligible(clients[n - 1], monitors) && j == rp0.len() {
        assert(0 <= n - 1 < n && eligible(clients[n - 1], monitors) && rp[j] == region_of(
            clients[n - 1],
            monitors,
        ));
    } else {
        lemma_regions_prefix_source(clients, monitors, n - 1, j);
        let i = choose|i: int|
            0 <= i < n - 1 && eligible(#[trigger] clients[i], monitors) && rp0[j] == region_of(
                clients[i],
                monitors,
            );
        assert(rp[j] == rp0[j]);
        assert(0 <= i < n && eligible(clients[i], monitors) && rp[j] == region_of(
            clients[i],
            monitors,
        ));
    }
}

/// Every eligible window of the prefix has its region in the table.
pub proof fn lemma_regions_prefix_contains(
    clients: Seq<WindowRecord>,
    monitors: Seq<Monitor>,
    n: int,
    i: int,
)
    requires
        0 <= n <= clients.len(),
        0 <= i < n,
        eligible(clients[i], monitors),
    ensures
        exists|j: int|
            0 <= j < regions_prefix(clients, monitors, n).len() && #[trigger] regions_prefix(
                clients,
                monitors,
                n,
            )[j] == region_of(clients[i], monitors),
    decreases n,
{
    let rp = regions_prefix(clients, monitors, n);
    let rp0 = regions_prefix(clients, monitors, n - 1);
    if i == n - 1 {
        assert(rp[rp.len() - 1] == region_of(clients[i], monitors));
    } else {
        lemma_regions_prefix_contains(clients, monitors, n - 1, i);
        let j = choose|j: int|
            0 <= j < rp0.len() && #[trigger] rp0[j] == region_of(clients[i], monitors);
        assert(rp[j] == rp0[j]);
        assert(0 <= j < rp.len() && rp[j] == region_of(clients[i], monitors));
    }
}

/// Law: every eligible window of the snapshot has its region in the
/// region table.
pub proof fn lemma_eligible_window_has_region(
    clients: Seq<WindowRecord>,
    monitors: Seq<Monitor>,
    i: int,
)
    requires
        0 <= i < clients.len(),
        eligible(clients[i], monitors),
    ensures
        exists|j: int|
            0 <= j < regions_spec(clients, monitors).len() && #[trigger] regions_spec(
                clients,
                monitors,
            )[j] == region_of(clients[i], monitors),
{
    let n = clients.len() as int;
    lemma_regions_prefix_contains(clients, monitors, n, i);
    let j = choose|j: int|
        0 <= j < regions_prefix(clients, monitors, n).len() && #[trigger] regions_prefix(
            clients,
            monitors,
            n,
        )[j] == region_of(clients[i], monitors);
    assert(0 <= j < regions_spec(clients, monitors).len() && regions_spec(clients, monitors)[j]
        == region_of(clients[i], monitors));
}

/// Law: a window filtered out of the selection — unmapped, or on a
/// workspace no monitor currently shows — contributes no region at all.
pub proof fn lemma_filtered_window_has_no_region(
    clients: Seq<WindowRecord>,
    monitors: Seq<Monitor>,
    a: Seq<char>,
)
    requires
        forall|i: int|
            0 <= i < clients.len() && (#[trigger] clients[i].address@) == a ==> !eligible(
                clients[i],
                monitors,
            ),
    ensures
        forall|j: int|
            0 <= j < regions_spec(clients, monitors).len() ==> (#[trigger] regions_spec(
                clients,
                monitors,
            )[j].client_id@) != a,
{
    let rs = regions_spec(clients, monitors);
    let n = clients.len() as int;
    assert forall|j: int| 0 <= j < rs.len() implies (#[trigger] rs[j].client_id@) != a by {
        lemma_regions_prefix_source(clients, monitors, n, j);
        let i = choose|i: int|
            0 <= i < n && eligible(#[trigger] clients[i], monitors) && regions_prefix(
                clients,
                monitors,
                n,
            )[j] == region_of(clients[i], monitors);
        assert(region_of(clients[i], monitors).client_id == clients[i].address);
    }
}

/// The regions of one monitor, in region-list order: those whose resolved
/// monitor id equals `mid`, taken from the first `n` regions.
pub open spec fn monitor_regions_prefix(regions: Seq<ClientRegion>, mid: i64, n: int) -> Seq<
    ClientRegion,
>
    decreases n,
{
    if n <= 0 {
        Seq::empty()
    } else {
        let rest = monitor_regions_prefix(regions, mid, n - 1);
        if regions[n - 1].monitor is Some && regions[n - 1].monitor->0 == mid {
            rest.push(regions[n - 1])
        } else {
            rest
        }
    }
}

/// The regions of one monitor, in region-list order.
pub open spec fn monitor_regions_spec(regions: Seq<ClientRegion>, mid: i64) -> Seq<ClientRegion> {
    monitor_regions_prefix(regions, mid, regions.len() as int)
}

/// Selects the regions belonging to the monitor with id `mid`.
pub fn regions_for_monitor(regions: &Vec<ClientRegion>, mid: i64) -> (r: Vec<ClientRegion>)
    ensures
        r@ == monitor_regions_spec(regions@, mid),
{
    let mut out: Vec<ClientRegion> = Vec::new();
    let mut i: usize = 0;
    while i < regions.len()
        invariant
            0 <= i <= regions@.len(),
            out@ == monitor_regions_prefix(regions@, mid, i as int),
        decreases regions@.len() - i,
    {
        let keep = match regions[i].monitor {
            Some(m) => m == mid,
            None => false,
        };
        if keep {
            out.push(regions[i].clone());
        }
        i += 1;
    }
    out
}

/// The position of the last record among the first `n` that carries
/// address `a`, or `-1` when none does.
pub open spec fn last_index_with(clients: Seq<WindowRecord>, n: int, a: Seq<char>) -> int
    decreases n,
{
    if n <= 0 {
        -1
    } else if clients[n - 1].address@ == a {
        n - 1
    } else {
        last_index_with(clients, n - 1, a)
    }
}

/// The address-keyed window table for the first `n` windows of the list:
/// pairwise-distinct addresses, every entry is the last record of the prefix
/// carrying its address, and every address of the prefix is covered.
pub open spec fn index_wf_upto(
    index: Seq<WindowRecord>,
    clients: Seq<WindowRecord>,
    n: int,
) -> bool {
    &&& forall|p: int, q: int|
        0 <= p < q < index.len() ==> #[trigger] index[p].address@ != #[trigger] index[q].address@
    &&& forall|j: int|
        0 <= j < index.len() ==> {
            let li = last_index_with(clients, n, (#[trigger] index[j]).address@);
            &&& 0 <= li < n
            &&& clients[li] == index[j]
        }
    &&& forall|i: int|
        0 <= i < n ==> exists|j: int|
            0 <= j < index.len() && index[j].address@ == (#[trigger] clients[i]).address@
}

/// The address-keyed window table of the whole list.
pub open spec fn index_wf(index: Seq<WindowRecord>, clients: Seq<WindowRecord>) -> bool {
    index_wf_upto(index, clients, clients.len() as int)
}

fn find_index_slot(index: &Vec<WindowRecord>, addr: &String) -> (r: Option<usize>)
    ensures
        match r {
            Some(j) => j < index@.len() && index@[j as int].address@ == addr@,
            None => forall|k: int| 0 <= k < index@.len() ==> index@[k].address@ != addr@,
        },
{
    let mut j: usize = 0;
    while j < index.len()
        invariant
            0 <= j <= index@.len(),
            forall|k: int| 0 <= k < j ==> index@[k].address@ != addr@,
        decreases index@.len() - j,
    {
        if index[j].address == *addr {
            return Some(j);
        }
        j += 1;
    }
    None
}

proof fn lemma_index_replace_step(
    pre: Seq<WindowRecord>,
    post: Seq<WindowRecord>,
    clients: Seq<WindowRecord>,
    ii: int,
    jj: int,
)
    requires
        index_wf_upto(pre, clients, ii),
        0 <= ii < clients.len(),
        0 <= jj < pre.len(),
        pre[jj].address@ == clients[ii].address@,
        post == pre.update(jj, clients[ii]),
    ensures
        index_wf_upto(post, clients, ii + 1),
{
    assert forall|x: int| 0 <= x < post.len() implies #[trigger] post[x].address@
        == pre[x].address@ by {
        if x == jj {
            assert(post[x].address@ == clients[ii].address@);
        }
    }
    assert forall|j2: int| 0 <= j2 < post.len() implies {
        let li = last_index_with(clients, ii + 1, (#[trigger] post[j2]).address@);
        &&& 0 <= li < ii + 1
        &&& clients[li] == post[j2]
    } by {
        if j2 == jj {
            assert(last_index_with(clients, ii + 1, post[j2].address@) == ii);
        } else {
            assert(pre[jj].address@ != pre[j2].address@);
            assert(clients[ii].address@ != post[j2].address@);
            assert(last_index_with(clients, ii + 1, post[j2].address@) == last_index_with(
                clients,
                ii,
                pre[j2].address@,
            ));
        }
    }
    assert forall|i2: int| 0 <= i2 < ii + 1 implies exists|j2: int|
        0 <= j2 < post.len() && post[j2].address@ == (#[trigger] clients[i2]).address@ by {
        if i2 == ii {
            assert(post[jj].address@ == clients[ii].address@);
        } else {
            let j2 = choose|j2: int|
                0 <= j2 < pre.len() && pre[j2].address@ == (clients[i2]).address@;
            assert(post[j2].address@ == pre[j2].address@);
        }
    }
}

proof fn lemma_index_push_step(
    pre: Seq<WindowRecord>,
    post: Seq<WindowRecord>,
    clients: Seq<WindowRecord>,
    ii: int,
)
    requires
        index_wf_upto(pre, clients, ii),
        0 <= ii < clients.len(),
        forall|k: int| 0 <= k < pre.len() ==> #[trigger] pre[k].address@ != clients[ii].address@,
        post == pre.push(clients[ii]),
    ensures
        index_wf_upto(post, clients, ii + 1),
{
    let newlen = post.len() as int;
    assert(post[newlen - 1] == clients[ii]);
    assert forall|j2: int| 0 <= j2 < post.len() implies {
        let li = last_index_with(clients, ii + 1, (#[trigger] post[j2]).address@);
        &&& 0 <= li < ii + 1
        &&& clients[li] == post[j2]
    } by {
        if j2 == newlen - 1 {
            assert(last_index_with(clients, ii + 1, post[j2].address@) == ii);
        } else {
            assert(post[j2] == pre[j2]);
            assert(clients[ii].address@ != pre[j2].address@);
            assert(last_index_with(clients, ii + 1, post[j2].address@) == last_index_with(
                clients,
                ii,
                pre[j2].address@,
            ));
        }
    }
    assert forall|i2: int| 0 <= i2 < ii + 1 implies exists|j2: int|
        0 <= j2 < post.len() && post[j2].address@ == (#[trigger] clients[i2]).address@ by {
        if i2 == ii {
            assert(post[newlen - 1].address@ == clients[ii].address@);
        } else {
            let j2 = choose|j2: int|
                0 <= j2 < pre.len() && pre[j2].address@ == (clients[i2]).address@;
            assert(post[j2].address@ == pre[j2].address@);
        }
    }
}

/// Builds the address-keyed lookup table from the full window list.  When
/// two records carry the same address, the later one wins.
pub fn index_client_id(clients: &Vec<WindowRecord>) -> (index: Vec<WindowRecord>)
    ensures
        index_wf(index@, clients@),
{
    let mut index: Vec<WindowRecord> = Vec::new();
    let mut i: usize = 0;
    while i < clients.len()
        invariant
            0 <= i <= clients@.len(),
            index_wf_upto(index@, clients@, i as int),
        decreases clients@.len() - i,
    {
        let ghost pre = index@;
        let ghost ii = i as int;
        let c = &clients[i];
        match find_index_slot(&index, &c.address) {
            Some(j) => {
                index.set(j, c.clone());
                proof {
                    lemma_index_replace_step(pre, index@, clients@, ii, j as int);
                }
            },
            None => {
                index.push(c.clone());
                proof {
                    lemma_index_push_step(pre, index@, clients@, ii);
                }
            },
        }
        i += 1;
    }
    index
}

/// The first record of the table carrying address `a`, scanning from `j`.
pub open spec fn first_window_from(index: Seq<WindowRecord>, a: Seq<char>, j: int) -> Option<
    WindowRecord,
>
    decreases index.len() - j,
{
    if j < 0 || j >= index.len() {
        None
    } else if index[j].address@ == a {
        Some(index[j])
    } else {
        first_window_from(index, a, j + 1)
    }
}

/// The first record of the table carrying address `a`.
pub open spec fn first_window_with(index: Seq<WindowRecord>, a: Seq<char>) -> Option<WindowRecord> {
    first_window_from(index, a, 0)
}

/// What the lookup yields: the found record carries the address looked
/// for, and a miss means no record carries it.
pub proof fn lemma_first_window_characterizes(index: Seq<WindowRecord>, a: Seq<char>, j: int)
    requires
        0 <= j <= index.len(),
    ensures
        match first_window_from(index, a, j) {
            Some(w) => exists|k: int| j <= k < index.len() && index[k] == w && w.address@ == a,
            None => forall|k: int| j <= k < index.len() ==> index[k].address@ != a,
        },
    decreases index.len() - j,
{
    if j < index.len() {
        if index[j].address@ != a {
            lemma_first_window_characterizes(index, a, j + 1);
        }
    }
}

/// Looks a window up by its address; the table's addresses are unique, so
/// the first match is the only one.
pub fn find_window(index: &Vec<WindowRecord>, id: &String) -> (r: Option<WindowRecord>)
    ensures
        r == first_window_with(index@, id@),
{
    let mut j: usize = 0;
    while j < index.len()
        invariant
            0 <= j <= index@.len(),
            first_window_with(index@, id@) == first_window_from(index@, id@, j as int),
        decreases index@.len() - j,
    {
        if index[j].address == *id {
            return Some(index[j].clone());
        }
        j += 1;
    }
    None
}

} // verus!
