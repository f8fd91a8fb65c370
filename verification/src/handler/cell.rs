//! Cell endpoints: create, delete, and the ancestry materializer behind
//! `show_cell` and `list_cells`.
//!
//! The `family_tree` relation is a directed graph with no acyclicity
//! guarantee, so the materializer carries a list of visited identifiers:
//! every cell enters a tree at most once and the traversal terminates on
//! any graph, cycles and self-loops included.

use vstd::prelude::*;

use crate::model::CellExtracted;
use crate::model::CellFilter;
use crate::model::CellReq;
use crate::model::CellRow;
use crate::model::Cells;
use crate::model::Edge;
use crate::model::IdRes;
use crate::model::StoreError;
use crate::model::row_eq;
use crate::store::Store;
use crate::store::cells_of_user_in;
use crate::store::child_ids_in;
use crate::store::edges_without;
use crate::store::find_cell;
use crate::store::find_user;
use crate::store::id_list_contains;
use crate::store::parent_ids_in;

verus! {

/// The stored row behind `id`, or `NotFound`.
pub fn get_cell(s: &Store, cell_id: u128) -> (res: Result<CellRow, StoreError>)
    requires
        s.wf(),
    ensures
        match res {
            Ok(r) => s.has_cell(cell_id) && row_eq(r, s.cell_at(cell_id)),
            Err(e) => !s.has_cell(cell_id) && e == StoreError::NotFound,
        },
{
    match find_cell(s, cell_id) {
        Some(i) => Ok(s.cells[i].clone()),
        None => Err(StoreError::NotFound),
    }
}

/// The identifiers that declare `cell_id` as their parent, in relation
/// order.
pub fn get_child_ids(s: &Store, cell_id: u128) -> (res: Vec<u128>)
    ensures
        res@ == s.child_ids(cell_id),
{
    let mut res: Vec<u128> = Vec::new();
    let mut i: usize = 0;
    while i < s.family_tree.len()
        invariant
            i <= s.family_tree@.len(),
            res@ == child_ids_in(s.family_tree@.take(i as int), cell_id),
        decreases s.family_tree@.len() - i,
    {
        if s.family_tree[i].parent_id == cell_id {
            res.push(s.family_tree[i].child_id);
        }
        proof {
            assert(s.family_tree@.take(i + 1).drop_last() =~= s.family_tree@.take(i as int));
            assert(s.family_tree@.take(i + 1).last() == s.family_tree@[i as int]);
        }
        i = i + 1;
    }
    proof {
        assert(s.family_tree@.take(s.family_tree@.len() as int) =~= s.family_tree@);
    }
    res
}

/// The identifiers that `cell_id` declares as its parents, in relation
/// order.
pub fn get_parent_ids(s: &Store, cell_id: u128) -> (res: Vec<u128>)
    ensures
        res@ == s.parent_ids(cell_id),
{
    let mut res: Vec<u128> = Vec::new();
    let mut i: usize = 0;
    while i < s.family_tree.len()
        invariant
            i <= s.family_tree@.len(),
            res@ == parent_ids_in(s.family_tree@.take(i as int), cell_id),
        decreases s.family_tree@.len() - i,
    {
        if s.family_tree[i].child_id == cell_id {
            res.push(s.family_tree[i].parent_id);
        }
        proof {
            assert(s.family_tree@.take(i + 1).drop_last() =~= s.family_tree@.take(i as int));
            assert(s.family_tree@.take(i + 1).last() == s.family_tree@[i as int]);
        }
        i = i + 1;
    }
    proof {
        assert(s.family_tree@.take(s.family_tree@.len() as int) =~= s.family_tree@);
    }
    res
}

/// The stored cell row a successful `create_cell` adds for `req`.
pub open spec fn row_for(req: CellReq) -> CellRow {
    CellRow {
        cell_id: req.cell_id,
        user_id: req.user_id,
        fileprops: req.fileprops,
        text: req.text,
        device_id: req.device_id,
        is_open: req.is_open,
    }
}

/// The `family_tree` rows a successful `create_cell` adds for `req`: the
/// new cell as child of each declared parent, then each declared child as
/// child of the new cell.
pub open spec fn family_rows_for(req: CellReq) -> Seq<Edge> {
    Seq::new(
        req.parent_ids@.len(),
        |i: int| Edge { child_id: req.cell_id, parent_id: req.parent_ids@[i] },
    ) + Seq::new(
        req.child_ids@.len(),
        |i: int| Edge { child_id: req.child_ids@[i], parent_id: req.cell_id },
    )
}

/// Every identifier `req` links to is either a stored cell or the new cell
/// itself (a self-loop, which the relation permits).
pub open spec fn links_ok(s: Store, req: CellReq) -> bool {
    &&& forall|i: int|
        0 <= i < req.parent_ids@.len() ==> ((#[trigger] req.parent_ids@[i]) == req.cell_id
            || s.has_cell(req.parent_ids@[i]))
    &&& forall|i: int|
        0 <= i < req.child_ids@.len() ==> ((#[trigger] req.child_ids@[i]) == req.cell_id
            || s.has_cell(req.child_ids@[i]))
}

/// Inserts a cell row and the `family_tree` rows it declares.
///
/// The insert is atomic: a duplicate identifier, an unknown owner, or a
/// link to an unknown cell is refused and the store is left unchanged.
pub fn create_cell(s: &mut Store, payload: CellReq) -> (res: Result<IdRes, StoreError>)
    requires
        old(s).wf(),
    ensures
        final(s).wf(),
        final(s).users@ == old(s).users@,
        old(s).has_cell(payload.cell_id) ==> {
            &&& res == Err::<IdRes, StoreError>(StoreError::Duplicate)
            &&& final(s).cells@ == old(s).cells@
            &&& final(s).family_tree@ == old(s).family_tree@
        },
        !old(s).has_cell(payload.cell_id) && !old(s).has_user(payload.user_id) ==> {
            &&& res == Err::<IdRes, StoreError>(StoreError::MissingReference)
            &&& final(s).cells@ == old(s).cells@
            &&& final(s).family_tree@ == old(s).family_tree@
        },
        !old(s).has_cell(payload.cell_id) && old(s).has_user(payload.user_id) && !links_ok(
            *old(s),
            payload,
        ) ==> {
            &&& res == Err::<IdRes, StoreError>(StoreError::MissingReference)
            &&& final(s).cells@ == old(s).cells@
            &&& final(s).family_tree@ == old(s).family_tree@
        },
        !old(s).has_cell(payload.cell_id) && old(s).has_user(payload.user_id) && links_ok(
            *old(s),
            payload,
        ) ==> {
            &&& res matches Ok(r) && r.id == payload.cell_id
            &&& final(s).cells@ == old(s).cells@.push(row_for(payload))
            &&& final(s).family_tree@ == old(s).family_tree@ + family_rows_for(payload)
        },
{
    if find_cell(s, payload.cell_id).is_some() {
        return Err(StoreError::Duplicate);
    }
    if find_user(s, payload.user_id).is_none() {
        return Err(StoreError::MissingReference);
    }
    let mut k: usize = 0;
    while k < payload.parent_ids.len()
        invariant
            s.wf(),
            s.users@ == old(s).users@,
            s.cells@ == old(s).cells@,
            s.family_tree@ == old(s).family_tree@,
            !old(s).has_cell(payload.cell_id),
            old(s).has_user(payload.user_id),
            k <= payload.parent_ids@.len(),
            forall|j: int|
                0 <= j < k ==> ((#[trigger] payload.parent_ids@[j]) == payload.cell_id
                    || s.has_cell(payload.parent_ids@[j])),
        decreases payload.parent_ids@.len() - k,
    {
        let linked_id = payload.parent_ids[k];
        if linked_id != payload.cell_id && find_cell(s, linked_id).is_none() {
            return Err(StoreError::MissingReference);
        }
        k = k + 1;
    }
    let mut k: usize = 0;
    while k < payload.child_ids.len()
        invariant
            s.wf(),
            s.users@ == old(s).users@,
            s.cells@ == old(s).cells@,
            s.family_tree@ == old(s).family_tree@,
            !old(s).has_cell(payload.cell_id),
            old(s).has_user(payload.user_id),
            k <= payload.child_ids@.len(),
            forall|j: int|
                0 <= j < k ==> ((#[trigger] payload.child_ids@[j]) == payload.cell_id
                    || s.has_cell(payload.child_ids@[j])),
        decreases payload.child_ids@.len() - k,
    {
        let linked_id = payload.child_ids[k];
        if linked_id != payload.cell_id && find_cell(s, linked_id).is_none() {
            return Err(StoreError::MissingReference);
        }
        k = k + 1;
    }
    let cell_id = payload.cell_id;
    let parent_ids = payload.parent_ids;
    let child_ids = payload.child_ids;
    let row = CellRow {
        cell_id,
        user_id: payload.user_id,
        fileprops: payload.fileprops,
        text: payload.text,
        device_id: payload.device_id,
        is_open: payload.is_open,
    };
    let ghost old_ids = s.cell_ids();
    s.cells.push(row);
    proof {
        assert(s.cell_ids() =~= old_ids.push(cell_id));
        assert forall|i: int, j: int|
            0 <= i < s.cell_ids().len() && 0 <= j < s.cell_ids().len() && i != j
                implies s.cell_ids()[i] != s.cell_ids()[j] by {
            if i == old_ids.len() || j == old_ids.len() {
                assert(!old_ids.contains(cell_id));
            }
        }
    }
    let ghost mid_ft = s.family_tree@;
    let ghost parent_rows = Seq::new(
        parent_ids@.len(),
        |i: int| Edge { child_id: cell_id, parent_id: parent_ids@[i] },
    );
    let ghost child_rows = Seq::new(
        child_ids@.len(),
        |i: int| Edge { child_id: child_ids@[i], parent_id: cell_id },
    );
    let mut k: usize = 0;
    while k < parent_ids.len()
        invariant
            k <= parent_ids@.len(),
            s.users@ == old(s).users@,
            s.cells@ == old(s).cells@.push(row_for(payload)),
            s.wf(),
            parent_rows == Seq::new(
                parent_ids@.len(),
                |i: int| Edge { child_id: cell_id, parent_id: parent_ids@[i] },
            ),
            s.family_tree@ == mid_ft + parent_rows.take(k as int),
        decreases parent_ids@.len() - k,
    {
        s.family_tree.push(Edge { child_id: cell_id, parent_id: parent_ids[k] });
        proof {
            assert(s.family_tree@ =~= mid_ft + parent_rows.take(k + 1));
        }
        k = k + 1;
    }
    proof {
        assert(parent_rows.take(parent_rows.len() as int) =~= parent_rows);
    }
    let mut k: usize = 0;
    while k < child_ids.len()
        invariant
            k <= child_ids@.len(),
            s.users@ == old(s).users@,
            s.cells@ == old(s).cells@.push(row_for(payload)),
            s.wf(),
            child_rows == Seq::new(
                child_ids@.len(),
                |i: int| Edge { child_id: child_ids@[i], parent_id: cell_id },
            ),
            s.family_tree@ == mid_ft + parent_rows + child_rows.take(k as int),
        decreases child_ids@.len() - k,
    {
        s.family_tree.push(Edge { child_id: child_ids[k], parent_id: cell_id });
        proof {
            assert(s.family_tree@ =~= mid_ft + parent_rows + child_rows.take(k + 1));
        }
        k = k + 1;
    }
    proof {
        assert(child_rows.take(child_rows.len() as int) =~= child_rows);
        assert(s.family_tree@ =~= old(s).family_tree@ + family_rows_for(payload));
    }
    Ok(IdRes { id: cell_id })
}

/// Removes the cell row carrying `cell_id`.
///
/// Deletion cascades over the adjacency relation: every `family_tree` row
/// that mentions the cell, as child or as parent, is removed with it, so
/// no dangling link can survive a delete.  Removing an absent cell is,
/// as in any `DELETE`, not an error.
pub fn delete_cell(s: &mut Store, cell_id: u128) -> (res: Result<IdRes, StoreError>)
    requires
        old(s).wf(),
    ensures
        final(s).wf(),
        final(s).users@ == old(s).users@,
        res matches Ok(r) && r.id == cell_id,
        old(s).has_cell(cell_id) ==> final(s).cells@ == old(s).cells@.remove(
            old(s).cell_index(cell_id),
        ),
        !old(s).has_cell(cell_id) ==> final(s).cells@ == old(s).cells@,
        !final(s).has_cell(cell_id),
        final(s).family_tree@ == edges_without(old(s).family_tree@, cell_id),
{
    match find_cell(s, cell_id) {
        Some(i) => {
            let ghost old_ids = s.cell_ids();
            s.cells.remove(i);
            proof {
                assert(s.cell_ids() =~= old_ids.remove(i as int));
                assert forall|j: int, k: int|
                    0 <= j < s.cell_ids().len() && 0 <= k < s.cell_ids().len() && j != k
                        implies s.cell_ids()[j] != s.cell_ids()[k] by {
                    let j0: int = if j < i { j } else { j + 1 };
                    let k0: int = if k < i { k } else { k + 1 };
                    assert(s.cell_ids()[j] == old_ids[j0]);
                    assert(s.cell_ids()[k] == old_ids[k0]);
                }
                assert(old_ids[i as int] == cell_id);
                assert forall|j: int| 0 <= j < s.cell_ids().len()
                    implies s.cell_ids()[j] != cell_id by {
                    let j0: int = if j < i { j } else { j + 1 };
                    assert(s.cell_ids()[j] == old_ids[j0]);
                    assert(old_ids[j0] != old_ids[i as int]);
                }
            }
            prune_edges(s, cell_id);
            Ok(IdRes { id: cell_id })
        },
        None => {
            prune_edges(s, cell_id);
            Ok(IdRes { id: cell_id })
        },
    }
}

/// The identifiers adjacent to `id` in the traversal direction: declared
/// children when walking downward, declared parents when walking upward.
pub open spec fn link_ids(s: Store, id: u128, toward_children: bool) -> Seq<u128> {
    if toward_children {
        s.child_ids(id)
    } else {
        s.parent_ids(id)
    }
}

/// Whether a relation row links `id` to `other` in the traversal
/// direction.
pub open spec fn linked(s: Store, id: u128, other: u128, toward_children: bool) -> bool {
    if toward_children {
        s.child_edge(id, other)
    } else {
        s.child_edge(other, id)
    }
}

/// `link_ids` lists exactly the identifiers a relation row links to `id`.
pub proof fn lemma_link_ids_iff(s: Store, id: u128, other: u128, toward_children: bool)
    ensures
        link_ids(s, id, toward_children).contains(other) <==> linked(
            s,
            id,
            other,
            toward_children,
        ),
{
    if toward_children {
        crate::store::lemma_child_ids_in_iff(s.family_tree@, id, other);
    } else {
        crate::store::lemma_parent_ids_in_iff(s.family_tree@, id, other);
    }
}

/// The branch list of a node in the traversal direction.
pub open spec fn tree_sub(t: CellExtracted, toward_children: bool) -> Seq<CellExtracted> {
    if toward_children {
        t.children@
    } else {
        t.parents@
    }
}

/// The branch list of a node on the opposite side.
pub open spec fn tree_other(t: CellExtracted, toward_children: bool) -> Seq<CellExtracted> {
    if toward_children {
        t.parents@
    } else {
        t.children@
    }
}

/// The fields of a tree node agree with the stored row of its identifier.
pub open spec fn node_matches(s: Store, t: CellExtracted) -> bool {
    &&& s.has_cell(t.cell_id)
    &&& t.user_id == s.cell_at(t.cell_id).user_id
    &&& t.device_id == s.cell_at(t.cell_id).device_id
    &&& t.text == s.cell_at(t.cell_id).text
    &&& t.is_open == s.cell_at(t.cell_id).is_open
    &&& t.fileprops@ == s.cell_at(t.cell_id).fileprops@
}

/// Every node of the forest matches its stored row, keeps its opposite
/// branch list empty, and holds only branches that a relation row links
/// to it.
pub open spec fn forest_ok(s: Store, ts: Seq<CellExtracted>, toward_children: bool) -> bool
    decreases ts,
{
    ts.len() == 0 || {
        let t = ts.last();
        let sub = if toward_children {
            t.children@
        } else {
            t.parents@
        };
        let other = if toward_children {
            t.parents@
        } else {
            t.children@
        };
        &&& forest_ok(s, ts.drop_last(), toward_children)
        &&& node_matches(s, t)
        &&& other.len() == 0
        &&& forall|i: int|
            0 <= i < sub.len() ==> linked(s, t.cell_id, (#[trigger] sub[i]).cell_id, toward_children)
        &&& forest_ok(s, sub, toward_children)
    }
}

/// The identifiers of a forest in discovery order: for each tree, its
/// root first, then its branches, depth first.
pub open spec fn forest_ids(ts: Seq<CellExtracted>, toward_children: bool) -> Seq<u128>
    decreases ts,
{
    if ts.len() == 0 {
        Seq::empty()
    } else {
        let t = ts.last();
        let sub = if toward_children {
            t.children@
        } else {
            t.parents@
        };
        forest_ids(ts.drop_last(), toward_children) + seq![t.cell_id] + forest_ids(
            sub,
            toward_children,
        )
    }
}

/// Every node of the forest has each stored cell linked to it listed in
/// `vis`.
pub open spec fn forest_covered(
    s: Store,
    ts: Seq<CellExtracted>,
    vis: Seq<u128>,
    toward_children: bool,
) -> bool
    decreases ts,
{
    ts.len() == 0 || {
        let t = ts.last();
        let sub = if toward_children {
            t.children@
        } else {
            t.parents@
        };
        &&& forest_covered(s, ts.drop_last(), vis, toward_children)
        &&& forall|c: u128|
            linked(s, t.cell_id, c, toward_children) && s.has_cell(c) ==> vis.contains(c)
        &&& forest_covered(s, sub, vis, toward_children)
    }
}

/// The identifiers discovered from a single node: itself, then its
/// branches.
pub open spec fn node_ids(t: CellExtracted, toward_children: bool) -> Seq<u128> {
    seq![t.cell_id] + forest_ids(tree_sub(t, toward_children), toward_children)
}

/// Appending a tree to a forest appends its discovered identifiers.
pub proof fn lemma_forest_ids_push(ts: Seq<CellExtracted>, t: CellExtracted, toward_children: bool)
    ensures
        forest_ids(ts.push(t), toward_children) == forest_ids(ts, toward_children) + node_ids(
            t,
            toward_children,
        ),
{
    assert(ts.push(t).drop_last() =~= ts);
    assert(ts.push(t).last() == t);
    assert(forest_ids(ts.push(t), toward_children) =~= forest_ids(ts, toward_children) + node_ids(
        t,
        toward_children,
    ));
}

/// Appending a tree to a well-formed forest keeps it well formed when the
/// tree itself is.
pub proof fn lemma_forest_ok_push(
    s: Store,
    ts: Seq<CellExtracted>,
    t: CellExtracted,
    toward_children: bool,
)
    requires
        forest_ok(s, ts, toward_children),
        node_matches(s, t),
        tree_other(t, toward_children).len() == 0,
        forall|i: int|
            0 <= i < tree_sub(t, toward_children).len() ==> linked(
                s,
                t.cell_id,
                (#[trigger] tree_sub(t, toward_children)[i]).cell_id,
                toward_children,
            ),
        forest_ok(s, tree_sub(t, toward_children), toward_children),
    ensures
        forest_ok(s, ts.push(t), toward_children),
{
    assert(ts.push(t).drop_last() =~= ts);
    assert(ts.push(t).last() == t);
}

/// Appending a covered tree to a covered forest keeps it covered.
pub proof fn lemma_forest_covered_push(
    s: Store,
    ts: Seq<CellExtracted>,
    t: CellExtracted,
    vis: Seq<u128>,
    toward_children: bool,
)
    requires
        forest_covered(s, ts, vis, toward_children),
        forall|c: u128|
            linked(s, t.cell_id, c, toward_children) && s.has_cell(c) ==> vis.contains(c),
        forest_covered(s, tree_sub(t, toward_children), vis, toward_children),
    ensures
        forest_covered(s, ts.push(t), vis, toward_children),
{
    assert(ts.push(t).drop_last() =~= ts);
    assert(ts.push(t).last() == t);
}

/// Coverage survives extending the visited list.
pub proof fn lemma_forest_covered_mono(
    s: Store,
    ts: Seq<CellExtracted>,
    vis1: Seq<u128>,
    vis2: Seq<u128>,
    toward_children: bool,
)
    requires
        forest_covered(s, ts, vis1, toward_children),
        forall|c: u128| vis1.contains(c) ==> vis2.contains(c),
    ensures
        forest_covered(s, ts, vis2, toward_children),
    decreases ts,
{
    if ts.len() > 0 {
        let t = ts.last();
        let sub = if toward_children {
            t.children@
        } else {
            t.parents@
        };
        lemma_forest_covered_mono(s, ts.drop_last(), vis1, vis2, toward_children);
        lemma_forest_covered_mono(s, sub, vis1, vis2, toward_children);
    }
}

/// Drops every `family_tree` row that mentions `cell_id`.
fn prune_edges(s: &mut Store, cell_id: u128)
    ensures
        final(s).users@ == old(s).users@,
        final(s).cells@ == old(s).cells@,
        final(s).family_tree@ == edges_without(old(s).family_tree@, cell_id),
{
    let ghost old_ft = s.family_tree@;
    let mut kept: Vec<Edge> = Vec::new();
    let mut i: usize = 0;
    while i < s.family_tree.len()
        invariant
            i <= old_ft.len(),
            s.family_tree@ == old_ft,
            s.users@ == old(s).users@,
            s.cells@ == old(s).cells@,
            kept@ == edges_without(old_ft.take(i as int), cell_id),
        decreases old_ft.len() - i,
    {
        if s.family_tree[i].child_id != cell_id && s.family_tree[i].parent_id != cell_id {
            let e = Edge {
                child_id: s.family_tree[i].child_id,
                parent_id: s.family_tree[i].parent_id,
            };
            kept.push(e);
        }
        proof {
            assert(old_ft.take(i + 1).drop_last() =~= old_ft.take(i as int));
            assert(old_ft.take(i + 1).last() == old_ft[i as int]);
            assert(kept@ =~= edges_without(old_ft.take(i + 1), cell_id));
        }
        i = i + 1;
    }
    proof {
        assert(old_ft.take(old_ft.len() as int) =~= old_ft);
    }
    s.family_tree = kept;
}

/// A visited list as the traversal maintains it: free of duplicates, every
/// entry a stored cell.
pub open spec fn visited_ok(s: Store, vis: Seq<u128>) -> bool {
    &&& vis.no_duplicates()
    &&& forall|i: int| 0 <= i < vis.len() ==> s.has_cell(#[trigger] vis[i])
}

/// A visited list cannot outgrow the cell table: this bounds the depth of
/// the traversal and is what makes it terminate on cyclic relations.
pub proof fn lemma_visited_bound(s: Store, vis: Seq<u128>)
    requires
        s.wf(),
        visited_ok(s, vis),
    ensures
        vis.len() <= s.cells@.len(),
{
    broadcast use vstd::seq_lib::seq_to_set_is_finite;
    broadcast use vstd::set::group_set_axioms;

    vis.unique_seq_to_set();
    assert forall|x: u128| vis.to_set().contains(x) implies s.cell_ids().to_set().contains(
        x,
    ) by {
        let i = choose|i: int| 0 <= i < vis.len() && vis[i] == x;
        assert(s.has_cell(vis[i]));
    }
    vstd::set_lib::lemma_len_subset(vis.to_set(), s.cell_ids().to_set());
    s.cell_ids().lemma_cardinality_of_set();
}

/// An element of a list is an element of any extension of it.
proof fn lemma_prefix_contains(a: Seq<u128>, b: Seq<u128>, x: u128)
    requires
        a.contains(x),
    ensures
        (a + b).contains(x),
{
    let i = choose|i: int| 0 <= i < a.len() && a[i] == x;
    assert((a + b)[i] == x);
}

/// Builds the tree hanging off one stored cell in the chosen direction,
/// pushing every identifier it takes into `visited` and skipping
/// identifiers already there.
fn build_tree(s: &Store, i: usize, visited: &mut Vec<u128>, toward_children: bool) -> (res:
    CellExtracted)
    requires
        s.wf(),
        i < s.cells@.len(),
        visited_ok(*s, old(visited)@),
        !old(visited)@.contains(s.cells@[i as int].cell_id),
    ensures
        visited_ok(*s, final(visited)@),
        final(visited)@ == old(visited)@ + node_ids(res, toward_children),
        res.cell_id == s.cells@[i as int].cell_id,
        node_matches(*s, res),
        tree_other(res, toward_children).len() == 0,
        forall|j: int|
            0 <= j < tree_sub(res, toward_children).len() ==> linked(
                *s,
                res.cell_id,
                (#[trigger] tree_sub(res, toward_children)[j]).cell_id,
                toward_children,
            ),
        forest_ok(*s, tree_sub(res, toward_children), toward_children),
        forall|c: u128|
            linked(*s, res.cell_id, c, toward_children) && s.has_cell(c)
                ==> final(visited)@.contains(c),
        forest_covered(*s, tree_sub(res, toward_children), final(visited)@, toward_children),
    decreases s.cells@.len() - old(visited)@.len(),
{
    let ghost vis0 = visited@;
    let cell_id = s.cells[i].cell_id;
    proof {
        s.lemma_cell_index_unique(i as int);
    }
    visited.push(cell_id);
    proof {
        assert(visited@ =~= vis0.push(cell_id));
        assert forall|a: int, b: int|
            0 <= a < visited@.len() && 0 <= b < visited@.len() && a != b
                implies visited@[a] != visited@[b] by {
            if a == vis0.len() || b == vis0.len() {
                assert(!vis0.contains(cell_id));
            }
        }
    }
    let row = s.cells[i].clone();
    let neighbor_ids: Vec<u128> = if toward_children {
        get_child_ids(s, cell_id)
    } else {
        get_parent_ids(s, cell_id)
    };
    let mut node = CellExtracted::from_cell_row(row, Vec::new(), Vec::new());
    proof {
        assert(tree_sub(node, toward_children) =~= Seq::<CellExtracted>::empty());
        assert(visited@ =~= vis0 + seq![cell_id] + forest_ids(
            tree_sub(node, toward_children),
            toward_children,
        ));
    }
    let mut k: usize = 0;
    while k < neighbor_ids.len()
        invariant
            s.wf(),
            i < s.cells@.len(),
            cell_id == s.cells@[i as int].cell_id,
            s.has_cell(cell_id),
            s.cell_at(cell_id) == s.cells@[i as int],
            neighbor_ids@ == link_ids(*s, cell_id, toward_children),
            k <= neighbor_ids@.len(),
            vis0 == old(visited)@,
            visited_ok(*s, visited@),
            visited@ == vis0 + seq![cell_id] + forest_ids(
                tree_sub(node, toward_children),
                toward_children,
            ),
            node.cell_id == cell_id,
            node_matches(*s, node),
            tree_other(node, toward_children).len() == 0,
            forall|j: int|
                0 <= j < tree_sub(node, toward_children).len() ==> linked(
                    *s,
                    cell_id,
                    (#[trigger] tree_sub(node, toward_children)[j]).cell_id,
                    toward_children,
                ),
            forest_ok(*s, tree_sub(node, toward_children), toward_children),
            forest_covered(*s, tree_sub(node, toward_children), visited@, toward_children),
            forall|j: int|
                0 <= j < k ==> (s.has_cell(#[trigger] neighbor_ids@[j]) ==> visited@.contains(
                    neighbor_ids@[j],
                )),
        decreases neighbor_ids@.len() - k,
    {
        let nid = neighbor_ids[k];
        if !id_list_contains(visited, nid) {
            match find_cell(s, nid) {
                Some(j) => {
                    let ghost vis_before = visited@;
                    let ghost sub_before = tree_sub(node, toward_children);
                    proof {
                        lemma_visited_bound(*s, visited@);
                    }
                    let branch = build_tree(s, j, visited, toward_children);
                    if toward_children {
                        node.children.push(branch);
                    } else {
                        node.parents.push(branch);
                    }
                    proof {
                        assert(tree_sub(node, toward_children) =~= sub_before.push(branch));
                        lemma_forest_ids_push(sub_before, branch, toward_children);
                        assert(visited@ =~= vis0 + seq![cell_id] + forest_ids(
                            tree_sub(node, toward_children),
                            toward_children,
                        ));
                        lemma_link_ids_iff(*s, cell_id, nid, toward_children);
                        assert(neighbor_ids@[k as int] == nid);
                        assert(link_ids(*s, cell_id, toward_children).contains(nid));
                        lemma_forest_ok_push(*s, sub_before, branch, toward_children);
                        assert forall|c: u128| vis_before.contains(c)
                            implies visited@.contains(c) by {
                            lemma_prefix_contains(
                                vis_before,
                                node_ids(branch, toward_children),
                                c,
                            );
                        }
                        lemma_forest_covered_mono(
                            *s,
                            sub_before,
                            vis_before,
                            visited@,
                            toward_children,
                        );
                        lemma_forest_covered_push(
                            *s,
                            sub_before,
                            branch,
                            visited@,
                            toward_children,
                        );
                        assert(node_ids(branch, toward_children)[0] == nid);
                        assert(visited@[vis_before.len() as int] == nid);
                        assert(visited@.contains(nid));
                    }
                },
                None => {},
            }
        }
        k = k + 1;
    }
    proof {
        assert forall|c: u128|
            linked(*s, cell_id, c, toward_children) && s.has_cell(c)
                implies visited@.contains(c) by {
            lemma_link_ids_iff(*s, cell_id, c, toward_children);
            let j = choose|j: int| 0 <= j < neighbor_ids@.len() && neighbor_ids@[j] == c;
            assert(s.has_cell(neighbor_ids@[j]));
        }
        assert(visited@ =~= vis0 + node_ids(node, toward_children));
    }
    node
}

/// What a traversal guarantees of one side of a materialized tree: every
/// branch is well formed and linked to its holder, no identifier repeats,
/// and every stored cell the relation links to a node of this side is
/// itself somewhere in this side.
pub open spec fn half_ok(
    s: Store,
    root: u128,
    subs: Seq<CellExtracted>,
    toward_children: bool,
) -> bool {
    let ids = seq![root] + forest_ids(subs, toward_children);
    &&& forall|i: int|
        0 <= i < subs.len() ==> linked(s, root, (#[trigger] subs[i]).cell_id, toward_children)
    &&& forest_ok(s, subs, toward_children)
    &&& ids.no_duplicates()
    &&& forall|c: u128| linked(s, root, c, toward_children) && s.has_cell(c) ==> ids.contains(c)
    &&& forest_covered(s, subs, ids, toward_children)
}

/// Materializes the tree of descendants of `cell_id`: the cells that
/// declare it a parent, transitively, each visited at most once.
pub fn make_child_tree(s: &Store, cell_id: u128) -> (res: Option<CellExtracted>)
    requires
        s.wf(),
    ensures
        match res {
            Some(t) => {
                &&& s.has_cell(cell_id)
                &&& t.cell_id == cell_id
                &&& node_matches(*s, t)
                &&& t.parents@.len() == 0
                &&& half_ok(*s, cell_id, t.children@, true)
            },
            None => !s.has_cell(cell_id),
        },
{
    match find_cell(s, cell_id) {
        Some(i) => {
            let mut visited: Vec<u128> = Vec::new();
            let t = build_tree(s, i, &mut visited, true);
            proof {
                assert(visited@ =~= node_ids(t, true));
            }
            Some(t)
        },
        None => None,
    }
}

/// Materializes the tree of ancestors of `cell_id`: the cells it declares
/// as parents, transitively, each visited at most once.
pub fn make_parent_tree(s: &Store, cell_id: u128) -> (res: Option<CellExtracted>)
    requires
        s.wf(),
    ensures
        match res {
            Some(t) => {
                &&& s.has_cell(cell_id)
                &&& t.cell_id == cell_id
                &&& node_matches(*s, t)
                &&& t.children@.len() == 0
                &&& half_ok(*s, cell_id, t.parents@, false)
            },
            None => !s.has_cell(cell_id),
        },
{
    match find_cell(s, cell_id) {
        Some(i) => {
            let mut visited: Vec<u128> = Vec::new();
            let t = build_tree(s, i, &mut visited, false);
            proof {
                assert(visited@ =~= node_ids(t, false));
            }
            Some(t)
        },
        None => None,
    }
}

/// What `show_cell` and `list_cells` guarantee of each returned cell:
/// its fields match the stored row, and both materialized sides carry
/// the traversal guarantees.
pub open spec fn merged_tree_ok(s: Store, t: CellExtracted) -> bool {
    &&& node_matches(s, t)
    &&& half_ok(s, t.cell_id, t.children@, true)
    &&& half_ok(s, t.cell_id, t.parents@, false)
}

/// Returns `cell_id` with both its materialized trees: descendants under
/// `children`, ancestors under `parents`.
pub fn show_cell(s: &Store, cell_id: u128) -> (res: Result<CellExtracted, StoreError>)
    requires
        s.wf(),
    ensures
        match res {
            Ok(t) => s.has_cell(cell_id) && t.cell_id == cell_id && merged_tree_ok(*s, t),
            Err(e) => !s.has_cell(cell_id) && e == StoreError::NotFound,
        },
{
    let child_tree = make_child_tree(s, cell_id);
    let parent_tree = make_parent_tree(s, cell_id);
    match (child_tree, parent_tree) {
        (Some(mut cell_with_children), Some(cell_with_parents)) => {
            cell_with_children.parents = cell_with_parents.parents;
            Ok(cell_with_children)
        },
        _ => Err(StoreError::NotFound),
    }
}

/// Returns every cell of one user, each with both its materialized trees,
/// in storage order.
pub fn list_cells(s: &Store, payload: CellFilter) -> (res: Result<Cells, StoreError>)
    requires
        s.wf(),
    ensures
        match res {
            Ok(cs) => {
                &&& cs.cells@.len() == s.cells_of_user(payload.user_id).len()
                &&& forall|i: int|
                    0 <= i < cs.cells@.len() ==> {
                        &&& (#[trigger] cs.cells@[i]).cell_id == s.cells_of_user(
                            payload.user_id,
                        )[i]
                        &&& merged_tree_ok(*s, cs.cells@[i])
                    }
            },
            Err(_) => false,
        },
{
    let mut id_cells: Vec<u128> = Vec::new();
    let mut i: usize = 0;
    while i < s.cells.len()
        invariant
            i <= s.cells@.len(),
            id_cells@ == cells_of_user_in(s.cells@.take(i as int), payload.user_id),
        decreases s.cells@.len() - i,
    {
        if s.cells[i].user_id == payload.user_id {
            id_cells.push(s.cells[i].cell_id);
        }
        proof {
            assert(s.cells@.take(i + 1).drop_last() =~= s.cells@.take(i as int));
            assert(s.cells@.take(i + 1).last() == s.cells@[i as int]);
        }
        i = i + 1;
    }
    proof {
        assert(s.cells@.take(s.cells@.len() as int) =~= s.cells@);
    }
    let mut cells: Vec<CellExtracted> = Vec::new();
    let mut j: usize = 0;
    while j < id_cells.len()
        invariant
            s.wf(),
            id_cells@ == s.cells_of_user(payload.user_id),
            j <= id_cells@.len(),
            cells@.len() == j,
            forall|t: int|
                0 <= t < j ==> {
                    &&& (#[trigger] cells@[t]).cell_id == id_cells@[t]
                    &&& merged_tree_ok(*s, cells@[t])
                },
        decreases id_cells@.len() - j,
    {
        proof {
            crate::store::lemma_cells_of_user_in_stored(s.cells@, payload.user_id, j as int);
            let idx = choose|idx: int|
                0 <= idx < s.cells@.len() && s.cells@[idx].user_id == payload.user_id
                    && s.cells@[idx].cell_id == id_cells@[j as int];
            assert(s.cell_ids()[idx] == id_cells@[j as int]);
        }
        let cell_id = id_cells[j];
        match (make_child_tree(s, cell_id), make_parent_tree(s, cell_id)) {
            (Some(mut cell_with_children), Some(cell_with_parents)) => {
                cell_with_children.parents = cell_with_parents.parents;
                cells.push(cell_with_children);
            },
            _ => {
                return Err(StoreError::NotFound);
            },
        }
        j = j + 1;
    }
    Ok(Cells { cells })
}

/// Law: a created cell is linked in the relation to every parent and
/// child it declared, in the direction each declaration names.
pub proof fn lemma_created_cell_linked(s_old: Store, s_new: Store, req: CellReq, link_id: u128)
    requires
        s_new.family_tree@ == s_old.family_tree@ + family_rows_for(req),
    ensures
        req.parent_ids@.contains(link_id) ==> s_new.child_edge(link_id, req.cell_id),
        req.child_ids@.contains(link_id) ==> s_new.child_edge(req.cell_id, link_id),
{
    let base = s_old.family_tree@.len() as int;
    if req.parent_ids@.contains(link_id) {
        let k = choose|k: int| 0 <= k < req.parent_ids@.len() && req.parent_ids@[k] == link_id;
        assert(s_new.family_tree@[base + k].parent_id == link_id);
        assert(s_new.family_tree@[base + k].child_id == req.cell_id);
    }
    if req.child_ids@.contains(link_id) {
        let k = choose|k: int| 0 <= k < req.child_ids@.len() && req.child_ids@[k] == link_id;
        let pos = base + req.parent_ids@.len() as int + k;
        assert(s_new.family_tree@[pos].parent_id == req.cell_id);
        assert(s_new.family_tree@[pos].child_id == link_id);
    }
}

/// Law: a stored cell the relation links to a materialized root is
/// discovered by the traversal: it appears on the matching side of the
/// returned tree.
pub proof fn lemma_linked_cell_discovered(s: Store, t: CellExtracted, c: u128)
    requires
        merged_tree_ok(s, t),
        s.has_cell(c),
    ensures
        s.child_edge(t.cell_id, c) ==> (seq![t.cell_id] + forest_ids(t.children@, true)).contains(
            c,
        ),
        s.child_edge(c, t.cell_id) ==> (seq![t.cell_id] + forest_ids(t.parents@, false)).contains(
            c,
        ),
{
}

/// Law: the materializer invents nothing: every identifier in a
/// well-formed forest names a stored cell.
pub proof fn lemma_forest_ids_stored(
    s: Store,
    ts: Seq<CellExtracted>,
    toward_children: bool,
    j: int,
)
    requires
        forest_ok(s, ts, toward_children),
        0 <= j < forest_ids(ts, toward_children).len(),
    ensures
        s.has_cell(forest_ids(ts, toward_children)[j]),
    decreases ts,
{
    if ts.len() > 0 {
        let t = ts.last();
        let sub = if toward_children {
            t.children@
        } else {
            t.parents@
        };
        let front = forest_ids(ts.drop_last(), toward_children);
        let back = forest_ids(sub, toward_children);
        if j < front.len() {
            lemma_forest_ids_stored(s, ts.drop_last(), toward_children, j);
            assert(forest_ids(ts, toward_children)[j] == front[j]);
        } else if j == front.len() {
            assert(forest_ids(ts, toward_children)[j] == t.cell_id);
        } else {
            lemma_forest_ids_stored(s, sub, toward_children, j - front.len() - 1);
            assert(forest_ids(ts, toward_children)[j] == back[j - front.len() - 1]);
        }
    }
}

/// Law: after a delete, no `family_tree` row mentions the removed cell in
/// either position: the cascade leaves no dangling link.
pub proof fn lemma_delete_unlinks(s_old: Store, s_new: Store, cell_id: u128, other: u128)
    requires
        s_new.family_tree@ == edges_without(s_old.family_tree@, cell_id),
    ensures
        !s_new.child_edge(cell_id, other),
        !s_new.child_edge(other, cell_id),
{
    if s_new.child_edge(cell_id, other) {
        let i = choose|i: int|
            0 <= i < s_new.family_tree@.len() && s_new.family_tree@[i].parent_id == cell_id
                && s_new.family_tree@[i].child_id == other;
        crate::store::lemma_edges_without_clean(s_old.family_tree@, cell_id, i);
    }
    if s_new.child_edge(other, cell_id) {
        let i = choose|i: int|
            0 <= i < s_new.family_tree@.len() && s_new.family_tree@[i].parent_id == other
                && s_new.family_tree@[i].child_id == cell_id;
        crate::store::lemma_edges_without_clean(s_old.family_tree@, cell_id, i);
    }
}

} // verus!
