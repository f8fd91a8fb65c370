//! The entities of the service: users, cells, file attachments, and the
//! rows of the `family_tree` adjacency relation.
//!
//! Identifiers are 128-bit integers (the numeric value of a UUID).  Types
//! whose fields are only integers, booleans and strings get a hand-written
//! `Clone` that is proved to preserve the value; types with `Vec` fields
//! state preservation of the corresponding views.

use vstd::prelude::*;

verus! {

/// Response carrying just the identifier of a created or deleted row.
#[derive(Debug)]
pub struct IdRes {
    pub id: u128,
}

/// A stored user account.
#[derive(Debug)]
pub struct User {
    pub user_id: u128,
    pub user_name: String,
    pub passhash: String,
}

/// The public projection of a user: everything but the password hash.
#[derive(Debug)]
pub struct UserRes {
    pub user_id: u128,
    pub user_name: String,
}

/// Response wrapper for a user listing.
#[derive(Debug)]
pub struct Users {
    pub users: Vec<UserRes>,
}

/// Metadata of one file attached to a cell.
#[derive(Debug)]
pub struct FileProp {
    pub name: String,
    pub url: String,
    pub completed: bool,
}

/// A request to create a cell, with the parent and child links it declares.
#[derive(Debug)]
pub struct CellReq {
    pub cell_id: u128,
    pub user_id: u128,
    pub device_id: String,
    pub text: String,
    pub fileprops: Vec<FileProp>,
    pub parent_ids: Vec<u128>,
    pub child_ids: Vec<u128>,
    pub is_open: bool,
}

/// A cell as stored: one row of the `cells` table.
#[derive(Debug)]
pub struct CellRow {
    pub cell_id: u128,
    pub user_id: u128,
    pub fileprops: Vec<FileProp>,
    pub text: String,
    pub device_id: String,
    pub is_open: bool,
}

/// One row of the `family_tree` relation: `child_id` declares `parent_id`
/// as a parent.
#[derive(Debug)]
pub struct Edge {
    pub child_id: u128,
    pub parent_id: u128,
}

/// A cell together with the materialized trees of its parents and children.
#[derive(Debug)]
pub struct CellExtracted {
    pub cell_id: u128,
    pub user_id: u128,
    pub device_id: String,
    pub fileprops: Vec<FileProp>,
    pub parents: Vec<CellExtracted>,
    pub children: Vec<CellExtracted>,
    pub text: String,
    pub is_open: bool,
}

/// Response wrapper for a cell listing.
#[derive(Debug)]
pub struct Cells {
    pub cells: Vec<CellExtracted>,
}

/// Filter selecting the cells of one user.
#[derive(Debug)]
pub struct CellFilter {
    pub user_id: u128,
}

/// Request to create a user account.
#[derive(Debug)]
pub struct CreateUserReq {
    pub name: String,
    pub passhash: String,
    pub device_ids: Vec<[u8; 6]>,
}

/// Request to update fields of a user account.
#[derive(Debug)]
pub struct UpdateUserReq {
    pub name: Option<String>,
    pub passhash: Option<String>,
    pub device_ids: Option<Vec<[u8; 6]>>,
}

/// Request to register a device.
#[derive(Debug)]
pub struct CreateDeviceReq {
    pub name: String,
}

/// The errors a store operation can report.
#[derive(Clone, Copy, PartialEq, Eq, Structural, Debug)]
pub enum StoreError {
    /// No row carries the requested identifier.
    NotFound,
    /// A row with the given identifier already exists.
    Duplicate,
    /// A declared link points at an identifier with no row.
    MissingReference,
}

impl Clone for User {
    fn clone(&self) -> (res: Self)
        ensures
            res == *self,
    {
        User {
            user_id: self.user_id,
            user_name: self.user_name.clone(),
            passhash: self.passhash.clone(),
        }
    }
}

impl Clone for UserRes {
    fn clone(&self) -> (res: Self)
        ensures
            res == *self,
    {
        UserRes { user_id: self.user_id, user_name: self.user_name.clone() }
    }
}

impl Clone for FileProp {
    fn clone(&self) -> (res: Self)
        ensures
            res == *self,
    {
        FileProp {
            name: self.name.clone(),
            url: self.url.clone(),
            completed: self.completed,
        }
    }
}

/// Value equality on cell rows, with the attachment list compared by view.
pub open spec fn row_eq(a: CellRow, b: CellRow) -> bool {
    &&& a.cell_id == b.cell_id
    &&& a.user_id == b.user_id
    &&& a.fileprops@ == b.fileprops@
    &&& a.text == b.text
    &&& a.device_id == b.device_id
    &&& a.is_open == b.is_open
}

impl Clone for CellRow {
    fn clone(&self) -> (res: Self)
        ensures
            row_eq(res, *self),
    {
        CellRow {
            cell_id: self.cell_id,
            user_id: self.user_id,
            fileprops: clone_fileprops(&self.fileprops),
            text: self.text.clone(),
            device_id: self.device_id.clone(),
            is_open: self.is_open,
        }
    }
}

/// Copies a list of attachments element by element.
fn clone_fileprops(fileprops: &Vec<FileProp>) -> (res: Vec<FileProp>)
    ensures
        res@ == fileprops@,
{
    let mut res: Vec<FileProp> = Vec::new();
    let mut i: usize = 0;
    while i < fileprops.len()
        invariant
            i <= fileprops.len(),
            res@ == fileprops@.take(i as int),
        decreases fileprops.len() - i,
    {
        res.push(fileprops[i].clone());
        proof {
            assert(fileprops@.take(i + 1 as int) == fileprops@.take(i as int).push(
                fileprops@[i as int],
            ));
        }
        i = i + 1;
    }
    proof {
        assert(fileprops@.take(fileprops@.len() as int) == fileprops@);
    }
    res
}

/// A directory of attachments, with nested sub-directories.
#[derive(Debug)]
pub struct Dir {
    pub name: String,
    pub dirs: Vec<Dir>,
    pub fileprops: Vec<FileProp>,
}

impl Dir {
    /// An empty root directory.
    pub fn new() -> (res: Self)
        ensures
            res.name@ == "/"@,
            res.dirs@.len() == 0,
            res.fileprops@.len() == 0,
    {
        Dir { name: "/".to_owned(), dirs: Vec::new(), fileprops: Vec::new() }
    }
}

/// Value equality on cell requests, with the list fields compared by view.
pub open spec fn req_eq(a: CellReq, b: CellReq) -> bool {
    &&& a.cell_id == b.cell_id
    &&& a.user_id == b.user_id
    &&& a.device_id == b.device_id
    &&& a.text == b.text
    &&& a.fileprops@ == b.fileprops@
    &&& a.parent_ids@ == b.parent_ids@
    &&& a.child_ids@ == b.child_ids@
    &&& a.is_open == b.is_open
}

/// Copies a list of identifiers element by element.
fn clone_ids(ids: &Vec<u128>) -> (res: Vec<u128>)
    ensures
        res@ == ids@,
{
    let mut res: Vec<u128> = Vec::new();
    let mut i: usize = 0;
    while i < ids.len()
        invariant
            i <= ids.len(),
            res@ == ids@.take(i as int),
        decreases ids.len() - i,
    {
        res.push(ids[i]);
        proof {
            assert(ids@.take(i + 1 as int) == ids@.take(i as int).push(ids@[i as int]));
        }
        i = i + 1;
    }
    proof {
        assert(ids@.take(ids@.len() as int) == ids@);
    }
    res
}

impl Clone for CellReq {
    fn clone(&self) -> (res: Self)
        ensures
            req_eq(res, *self),
    {
        CellReq {
            cell_id: self.cell_id,
            user_id: self.user_id,
            device_id: self.device_id.clone(),
            text: self.text.clone(),
            fileprops: clone_fileprops(&self.fileprops),
            parent_ids: clone_ids(&self.parent_ids),
            child_ids: clone_ids(&self.child_ids),
            is_open: self.is_open,
        }
    }
}

impl CellReq {
    /// A fresh copy of a prepared request.
    pub fn set(cellreq: &CellReq) -> (res: CellReq)
        ensures
            req_eq(res, *cellreq),
    {
        cellreq.clone()
    }
}

impl CellExtracted {
    /// Lifts a stored row into a tree node with the given parent and child
    /// forests.
    pub fn from_cell_row(
        cell_row: CellRow,
        parent_cells: Vec<CellExtracted>,
        child_cells: Vec<CellExtracted>,
    ) -> (res: CellExtracted)
        ensures
            res.cell_id == cell_row.cell_id,
            res.user_id == cell_row.user_id,
            res.device_id == cell_row.device_id,
            res.text == cell_row.text,
            res.is_open == cell_row.is_open,
            res.fileprops@ == cell_row.fileprops@,
            res.parents@ == parent_cells@,
            res.children@ == child_cells@,
    {
        CellExtracted {
            cell_id: cell_row.cell_id,
            user_id: cell_row.user_id,
            device_id: cell_row.device_id,
            text: cell_row.text,
            is_open: cell_row.is_open,
            fileprops: cell_row.fileprops,
            parents: parent_cells,
            children: child_cells,
        }
    }
}

impl Cells {
    /// An empty cell listing.
    pub fn new() -> (res: Self)
        ensures
            res.cells@.len() == 0,
    {
        Cells { cells: Vec::new() }
    }
}

} // verus!
