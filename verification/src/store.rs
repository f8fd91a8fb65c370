//! The in-memory image of the service's three tables: `users`, `cells`,
//! and the `family_tree` adjacency relation.
//!
//! Well-formedness asks only that primary keys are unique.  The adjacency
//! relation is deliberately unconstrained: rows may form cycles or
//! self-loops, and the traversal code is proved to terminate regardless.

use vstd::prelude::*;

use crate::model::CellRow;
use crate::model::Edge;
use crate::model::User;

verus! {

/// The three tables of the service.
pub struct Store {
    pub users: Vec<User>,
    pub cells: Vec<CellRow>,
    pub family_tree: Vec<Edge>,
}

impl Store {
    /// The user primary keys, in storage order.
    pub open spec fn user_ids(self) -> Seq<u128> {
        self.users@.map_values(|u: User| u.user_id)
    }

    /// The cell primary keys, in storage order.
    pub open spec fn cell_ids(self) -> Seq<u128> {
        self.cells@.map_values(|c: CellRow| c.cell_id)
    }

    /// Whether a user row carries the identifier.
    pub open spec fn has_user(self, id: u128) -> bool {
        self.user_ids().contains(id)
    }

    /// Whether a cell row carries the identifier.
    pub open spec fn has_cell(self, id: u128) -> bool {
        self.cell_ids().contains(id)
    }

    /// Primary keys are unique in each table.
    pub open spec fn wf(self) -> bool {
        self.user_ids().no_duplicates() && self.cell_ids().no_duplicates()
    }

    /// The position of the cell row carrying `id`.
    pub open spec fn cell_index(self, id: u128) -> int
        recommends
            self.has_cell(id),
    {
        choose|i: int| 0 <= i < self.cells@.len() && self.cells@[i].cell_id == id
    }

    /// The cell row carrying `id`.
    pub open spec fn cell_at(self, id: u128) -> CellRow
        recommends
            self.has_cell(id),
    {
        self.cells@[self.cell_index(id)]
    }

    /// The position of the user row carrying `id`.
    pub open spec fn user_index(self, id: u128) -> int
        recommends
            self.has_user(id),
    {
        choose|i: int| 0 <= i < self.users@.len() && self.users@[i].user_id == id
    }

    /// The user row carrying `id`.
    pub open spec fn user_at(self, id: u128) -> User
        recommends
            self.has_user(id),
    {
        self.users@[self.user_index(id)]
    }

    /// A `family_tree` row declares `child` a child of `parent`.
    pub open spec fn child_edge(self, parent: u128, child: u128) -> bool {
        exists|i: int|
            0 <= i < self.family_tree@.len() && self.family_tree@[i].parent_id == parent
                && self.family_tree@[i].child_id == child
    }

    /// The declared children of `id`, in relation order.
    pub open spec fn child_ids(self, id: u128) -> Seq<u128> {
        child_ids_in(self.family_tree@, id)
    }

    /// The declared parents of `id`, in relation order.
    pub open spec fn parent_ids(self, id: u128) -> Seq<u128> {
        parent_ids_in(self.family_tree@, id)
    }

    /// The cells owned by `user_id`, in storage order.
    pub open spec fn cells_of_user(self, user_id: u128) -> Seq<u128> {
        cells_of_user_in(self.cells@, user_id)
    }

    /// A cell row found at position `i` is the row `cell_at` denotes.
    pub proof fn lemma_cell_index_unique(self, i: int)
        requires
            self.wf(),
            0 <= i < self.cells@.len(),
        ensures
            self.cell_index(self.cells@[i].cell_id) == i,
            self.has_cell(self.cells@[i].cell_id),
    {
        let id = self.cells@[i].cell_id;
        assert(self.cell_ids()[i] == id);
        let j = self.cell_index(id);
        assert(0 <= j < self.cells@.len() && self.cells@[j].cell_id == id);
        assert(self.cell_ids()[j] == id);
    }

    /// A user row found at position `i` is the row `user_at` denotes.
    pub proof fn lemma_user_index_unique(self, i: int)
        requires
            self.wf(),
            0 <= i < self.users@.len(),
        ensures
            self.user_index(self.users@[i].user_id) == i,
            self.has_user(self.users@[i].user_id),
    {
        let id = self.users@[i].user_id;
        assert(self.user_ids()[i] == id);
        let j = self.user_index(id);
        assert(0 <= j < self.users@.len() && self.users@[j].user_id == id);
        assert(self.user_ids()[j] == id);
    }
}

/// The child ends of the rows of `ft` whose parent end is `id`, in
/// relation order.
pub open spec fn child_ids_in(ft: Seq<Edge>, id: u128) -> Seq<u128>
    decreases ft.len(),
{
    if ft.len() == 0 {
        Seq::empty()
    } else {
        let rest = child_ids_in(ft.drop_last(), id);
        if ft.last().parent_id == id {
            rest.push(ft.last().child_id)
        } else {
            rest
        }
    }
}

/// The parent ends of the rows of `ft` whose child end is `id`, in
/// relation order.
pub open spec fn parent_ids_in(ft: Seq<Edge>, id: u128) -> Seq<u128>
    decreases ft.len(),
{
    if ft.len() == 0 {
        Seq::empty()
    } else {
        let rest = parent_ids_in(ft.drop_last(), id);
        if ft.last().child_id == id {
            rest.push(ft.last().parent_id)
        } else {
            rest
        }
    }
}

/// The identifiers of the rows of `cells` owned by `user_id`, in storage
/// order.
pub open spec fn cells_of_user_in(cells: Seq<CellRow>, user_id: u128) -> Seq<u128>
    decreases cells.len(),
{
    if cells.len() == 0 {
        Seq::empty()
    } else {
        let rest = cells_of_user_in(cells.drop_last(), user_id);
        if cells.last().user_id == user_id {
            rest.push(cells.last().cell_id)
        } else {
            rest
        }
    }
}

/// The rows of `ft` that mention `id` on neither end, in relation order.
pub open spec fn edges_without(ft: Seq<Edge>, id: u128) -> Seq<Edge>
    decreases ft.len(),
{
    if ft.len() == 0 {
        Seq::empty()
    } else {
        let rest = edges_without(ft.drop_last(), id);
        if ft.last().child_id != id && ft.last().parent_id != id {
            rest.push(ft.last())
        } else {
            rest
        }
    }
}

/// An identifier is among the children of `id` exactly when a row links
/// the two.
pub proof fn lemma_child_ids_in_iff(ft: Seq<Edge>, id: u128, c: u128)
    ensures
        child_ids_in(ft, id).contains(c) <==> exists|i: int|
            0 <= i < ft.len() && ft[i].parent_id == id && ft[i].child_id == c,
    decreases ft.len(),
{
    if ft.len() > 0 {
        lemma_child_ids_in_iff(ft.drop_last(), id, c);
        let rest = child_ids_in(ft.drop_last(), id);
        if child_ids_in(ft, id).contains(c) {
            if ft.last().parent_id == id && ft.last().child_id == c {
                assert(ft[ft.len() - 1].parent_id == id && ft[ft.len() - 1].child_id == c);
            } else {
                let j = choose|j: int| 0 <= j < child_ids_in(ft, id).len() && child_ids_in(
                    ft,
                    id,
                )[j] == c;
                if ft.last().parent_id == id {
                    if j < rest.len() {
                        assert(rest.contains(c));
                    }
                } else {
                    assert(rest.contains(c));
                }
                assert(exists|i: int|
                    0 <= i < ft.drop_last().len() && ft.drop_last()[i].parent_id == id
                        && ft.drop_last()[i].child_id == c);
                let i = choose|i: int|
                    0 <= i < ft.drop_last().len() && ft.drop_last()[i].parent_id == id
                        && ft.drop_last()[i].child_id == c;
                assert(ft[i].parent_id == id && ft[i].child_id == c);
            }
        }
        if exists|i: int| 0 <= i < ft.len() && ft[i].parent_id == id && ft[i].child_id == c {
            let i = choose|i: int|
                0 <= i < ft.len() && ft[i].parent_id == id && ft[i].child_id == c;
            if i < ft.len() - 1 {
                assert(ft.drop_last()[i].parent_id == id && ft.drop_last()[i].child_id == c);
                assert(rest.contains(c));
                let j = choose|j: int| 0 <= j < rest.len() && rest[j] == c;
                if ft.last().parent_id == id {
                    assert(child_ids_in(ft, id)[j] == c);
                } else {
                    assert(child_ids_in(ft, id)[j] == c);
                }
            } else {
                assert(child_ids_in(ft, id).last() == c);
            }
        }
    }
}

/// An identifier is among the parents of `id` exactly when a row links
/// the two.
pub proof fn lemma_parent_ids_in_iff(ft: Seq<Edge>, id: u128, p: u128)
    ensures
        parent_ids_in(ft, id).contains(p) <==> exists|i: int|
            0 <= i < ft.len() && ft[i].child_id == id && ft[i].parent_id == p,
    decreases ft.len(),
{
    if ft.len() > 0 {
        lemma_parent_ids_in_iff(ft.drop_last(), id, p);
        let rest = parent_ids_in(ft.drop_last(), id);
        if parent_ids_in(ft, id).contains(p) {
            if ft.last().child_id == id && ft.last().parent_id == p {
                assert(ft[ft.len() - 1].child_id == id && ft[ft.len() - 1].parent_id == p);
            } else {
                let j = choose|j: int| 0 <= j < parent_ids_in(ft, id).len() && parent_ids_in(
                    ft,
                    id,
                )[j] == p;
                if ft.last().child_id == id {
                    if j < rest.len() {
                        assert(rest.contains(p));
                    }
                } else {
                    assert(rest.contains(p));
                }
                assert(exists|i: int|
                    0 <= i < ft.drop_last().len() && ft.drop_last()[i].child_id == id
                        && ft.drop_last()[i].parent_id == p);
                let i = choose|i: int|
                    0 <= i < ft.drop_last().len() && ft.drop_last()[i].child_id == id
                        && ft.drop_last()[i].parent_id == p;
                assert(ft[i].child_id == id && ft[i].parent_id == p);
            }
        }
        if exists|i: int| 0 <= i < ft.len() && ft[i].child_id == id && ft[i].parent_id == p {
            let i = choose|i: int|
                0 <= i < ft.len() && ft[i].child_id == id && ft[i].parent_id == p;
            if i < ft.len() - 1 {
                assert(ft.drop_last()[i].child_id == id && ft.drop_last()[i].parent_id == p);
                assert(rest.contains(p));
                let j = choose|j: int| 0 <= j < rest.len() && rest[j] == p;
                if ft.last().child_id == id {
                    assert(parent_ids_in(ft, id)[j] == p);
                } else {
                    assert(parent_ids_in(ft, id)[j] == p);
                }
            } else {
                assert(parent_ids_in(ft, id).last() == p);
            }
        }
    }
}

/// Every identifier listed by `cells_of_user_in` names a stored cell.
pub proof fn lemma_cells_of_user_in_stored(cells: Seq<CellRow>, user_id: u128, j: int)
    requires
        0 <= j < cells_of_user_in(cells, user_id).len(),
    ensures
        exists|i: int|
            0 <= i < cells.len() && cells[i].user_id == user_id && cells[i].cell_id
                == cells_of_user_in(cells, user_id)[j],
    decreases cells.len(),
{
    if cells.len() > 0 {
        let rest = cells_of_user_in(cells.drop_last(), user_id);
        if j < rest.len() {
            lemma_cells_of_user_in_stored(cells.drop_last(), user_id, j);
            let i = choose|i: int|
                0 <= i < cells.drop_last().len() && cells.drop_last()[i].user_id == user_id
                    && cells.drop_last()[i].cell_id == rest[j];
            assert(cells[i].user_id == user_id && cells[i].cell_id == rest[j]);
        } else {
            assert(cells[cells.len() - 1].user_id == user_id);
        }
    }
}

/// No row kept by `edges_without` mentions the pruned identifier.
pub proof fn lemma_edges_without_clean(ft: Seq<Edge>, id: u128, j: int)
    requires
        0 <= j < edges_without(ft, id).len(),
    ensures
        edges_without(ft, id)[j].child_id != id,
        edges_without(ft, id)[j].parent_id != id,
    decreases ft.len(),
{
    if ft.len() > 0 {
        let rest = edges_without(ft.drop_last(), id);
        if j < rest.len() {
            lemma_edges_without_clean(ft.drop_last(), id, j);
        }
    }
}

/// Sets up the store as the schema scripts set up the database: three
/// empty tables.
pub fn init_db() -> (s: Store)
    ensures
        s.wf(),
        s.users@.len() == 0,
        s.cells@.len() == 0,
        s.family_tree@.len() == 0,
{
    Store { users: Vec::new(), cells: Vec::new(), family_tree: Vec::new() }
}

/// Position of the cell row carrying `cell_id`, if any.
pub(crate) fn find_cell(s: &Store, cell_id: u128) -> (res: Option<usize>)
    requires
        s.wf(),
    ensures
        match res {
            Some(i) => i < s.cells@.len() && s.cells@[i as int].cell_id == cell_id
                && s.has_cell(cell_id) && s.cell_index(cell_id) == i,
            None => !s.has_cell(cell_id),
        },
{
    let mut i: usize = 0;
    while i < s.cells.len()
        invariant
            s.wf(),
            i <= s.cells@.len(),
            forall|j: int| 0 <= j < i ==> s.cells@[j].cell_id != cell_id,
        decreases s.cells@.len() - i,
    {
        if s.cells[i].cell_id == cell_id {
            proof {
                s.lemma_cell_index_unique(i as int);
            }
            return Some(i);
        }
        i = i + 1;
    }
    proof {
        assert(forall|j: int|
            0 <= j < s.cell_ids().len() ==> s.cell_ids()[j] != cell_id);
    }
    None
}

/// Position of the user row carrying `user_id`, if any.
pub(crate) fn find_user(s: &Store, user_id: u128) -> (res: Option<usize>)
    requires
        s.wf(),
    ensures
        match res {
            Some(i) => i < s.users@.len() && s.users@[i as int].user_id == user_id
                && s.has_user(user_id) && s.user_index(user_id) == i,
            None => !s.has_user(user_id),
        },
{
    let mut i: usize = 0;
    while i < s.users.len()
        invariant
            s.wf(),
            i <= s.users@.len(),
            forall|j: int| 0 <= j < i ==> s.users@[j].user_id != user_id,
        decreases s.users@.len() - i,
    {
        if s.users[i].user_id == user_id {
            proof {
                s.lemma_user_index_unique(i as int);
            }
            return Some(i);
        }
        i = i + 1;
    }
    proof {
        assert(forall|j: int|
            0 <= j < s.user_ids().len() ==> s.user_ids()[j] != user_id);
    }
    None
}

/// Whether a plain identifier list contains `id`.
pub(crate) fn id_list_contains(ids: &Vec<u128>, id: u128) -> (res: bool)
    ensures
        res == ids@.contains(id),
{
    let mut i: usize = 0;
    while i < ids.len()
        invariant
            i <= ids@.len(),
            forall|j: int| 0 <= j < i ==> ids@[j] != id,
        decreases ids@.len() - i,
    {
        if ids[i] == id {
            return true;
        }
        i = i + 1;
    }
    false
}

} // verus!
