use flowfs::handler::cell::{create_cell, delete_cell, get_cell, get_child_ids, get_parent_ids, show_cell};
use flowfs::handler::user::{create_user, delete_user, list_users, show_user};
use flowfs::model::{CellReq, Cells, Dir, FileProp, StoreError, User};
use flowfs::store::{init_db, Store};

fn user(id: u128, name: &str) -> User {
    User {
        user_id: id,
        user_name: name.to_string(),
        passhash: "SECRET-REDACTED".to_string(),
    }
}

fn plain_cell(cell_id: u128, user_id: u128, text: &str) -> CellReq {
    CellReq {
        cell_id,
        user_id,
        device_id: "Dev0".to_string(),
        text: text.to_string(),
        fileprops: Vec::new(),
        parent_ids: Vec::new(),
        child_ids: Vec::new(),
        is_open: false,
    }
}

#[test]
fn init_db_starts_empty() {
    let s: Store = init_db();
    assert_eq!(s.users.len(), 0);
    assert_eq!(s.cells.len(), 0);
    assert_eq!(s.family_tree.len(), 0);
}

#[test]
fn create_and_list_users() {
    let mut s = init_db();
    create_user(&mut s, user(1, "alice")).unwrap();
    create_user(&mut s, user(2, "bob")).unwrap();
    let listing = list_users(&s).unwrap();
    assert_eq!(listing.users.len(), 2);
    assert_eq!(listing.users[0].user_id, 1);
    assert_eq!(listing.users[0].user_name, "alice");
    assert_eq!(listing.users[1].user_id, 2);
    assert_eq!(listing.users[1].user_name, "bob");
}

#[test]
fn duplicate_user_is_rejected() {
    let mut s = init_db();
    create_user(&mut s, user(7, "carol")).unwrap();
    let res = create_user(&mut s, user(7, "carol again"));
    assert_eq!(res.unwrap_err(), StoreError::Duplicate);
    assert_eq!(list_users(&s).unwrap().users.len(), 1);
}

#[test]
fn show_user_projects_without_passhash() {
    let mut s = init_db();
    create_user(&mut s, user(5, "dora")).unwrap();
    let shown = show_user(&s, 5).unwrap();
    assert_eq!(shown.user_id, 5);
    assert_eq!(shown.user_name, "dora");
}

#[test]
fn show_user_missing_is_not_found() {
    let s = init_db();
    assert_eq!(show_user(&s, 99).unwrap_err(), StoreError::NotFound);
}

#[test]
fn delete_user_removes_the_row() {
    let mut s = init_db();
    create_user(&mut s, user(3, "erin")).unwrap();
    let res = delete_user(&mut s, 3).unwrap();
    assert_eq!(res.id, 3);
    assert_eq!(show_user(&s, 3).unwrap_err(), StoreError::NotFound);
    // deleting an absent user is still a successful DELETE
    let res2 = delete_user(&mut s, 3).unwrap();
    assert_eq!(res2.id, 3);
}

#[test]
fn create_cell_stores_fields() {
    let mut s = init_db();
    create_user(&mut s, user(1, "alice")).unwrap();
    let mut req = plain_cell(10, 1, "a note");
    req.is_open = true;
    req.fileprops.push(FileProp {
        name: "photo.png".to_string(),
        url: "https://example.com/photo.png".to_string(),
        completed: true,
    });
    let res = create_cell(&mut s, req).unwrap();
    assert_eq!(res.id, 10);
    let row = get_cell(&s, 10).unwrap();
    assert_eq!(row.cell_id, 10);
    assert_eq!(row.user_id, 1);
    assert_eq!(row.device_id, "Dev0");
    assert_eq!(row.text, "a note");
    assert!(row.is_open);
    assert_eq!(row.fileprops.len(), 1);
    assert_eq!(row.fileprops[0].name, "photo.png");
    assert_eq!(row.fileprops[0].url, "https://example.com/photo.png");
    assert!(row.fileprops[0].completed);
}

#[test]
fn duplicate_cell_is_rejected() {
    let mut s = init_db();
    create_user(&mut s, user(1, "alice")).unwrap();
    create_cell(&mut s, plain_cell(10, 1, "first")).unwrap();
    let res = create_cell(&mut s, plain_cell(10, 1, "second"));
    assert_eq!(res.unwrap_err(), StoreError::Duplicate);
    assert_eq!(get_cell(&s, 10).unwrap().text, "first");
}

#[test]
fn cell_of_unknown_user_is_rejected() {
    let mut s = init_db();
    let res = create_cell(&mut s, plain_cell(10, 42, "orphan"));
    assert_eq!(res.unwrap_err(), StoreError::MissingReference);
    assert_eq!(s.cells.len(), 0);
}

#[test]
fn cell_with_unknown_link_is_rejected_atomically() {
    let mut s = init_db();
    create_user(&mut s, user(1, "alice")).unwrap();
    let mut req = plain_cell(10, 1, "dangling");
    req.parent_ids.push(777);
    let res = create_cell(&mut s, req);
    assert_eq!(res.unwrap_err(), StoreError::MissingReference);
    // nothing was inserted: neither the row nor any relation rows
    assert_eq!(s.cells.len(), 0);
    assert_eq!(s.family_tree.len(), 0);
}

#[test]
fn get_cell_missing_is_not_found() {
    let s = init_db();
    assert_eq!(get_cell(&s, 1).unwrap_err(), StoreError::NotFound);
    assert_eq!(show_cell(&s, 1).unwrap_err(), StoreError::NotFound);
}

#[test]
fn delete_absent_cell_is_ok() {
    let mut s = init_db();
    let res = delete_cell(&mut s, 123).unwrap();
    assert_eq!(res.id, 123);
}

#[test]
fn child_and_parent_ids_follow_the_relation() {
    let mut s = init_db();
    create_user(&mut s, user(1, "alice")).unwrap();
    create_cell(&mut s, plain_cell(10, 1, "root")).unwrap();
    let mut req = plain_cell(11, 1, "below");
    req.parent_ids.push(10);
    create_cell(&mut s, req).unwrap();
    assert_eq!(get_child_ids(&s, 10), vec![11]);
    assert_eq!(get_parent_ids(&s, 11), vec![10]);
    assert_eq!(get_child_ids(&s, 11), Vec::<u128>::new());
    assert_eq!(get_parent_ids(&s, 10), Vec::<u128>::new());
}

#[test]
fn cells_new_is_empty() {
    let listing = Cells::new();
    assert_eq!(listing.cells.len(), 0);
}

#[test]
fn cellreq_set_copies_the_request() {
    let mut req = plain_cell(10, 1, "copy me");
    req.child_ids.push(4);
    let copy = CellReq::set(&req);
    assert_eq!(copy.cell_id, 10);
    assert_eq!(copy.user_id, 1);
    assert_eq!(copy.text, "copy me");
    assert_eq!(copy.device_id, "Dev0");
    assert_eq!(copy.child_ids, vec![4]);
    assert!(!copy.is_open);
}

#[test]
fn dir_new_is_an_empty_root() {
    let d = Dir::new();
    assert_eq!(d.name, "/");
    assert_eq!(d.dirs.len(), 0);
    assert_eq!(d.fileprops.len(), 0);
}
