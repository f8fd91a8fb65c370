use flowfs::handler::cell::{create_cell, delete_cell, list_cells, make_child_tree, make_parent_tree, show_cell};
use flowfs::handler::user::create_user;
use flowfs::model::{CellExtracted, CellFilter, CellReq, User};
use flowfs::store::{init_db, Store};

fn seeded_store(user_id: u128) -> Store {
    let mut s = init_db();
    create_user(&mut s, User {
        user_id,
        user_name: "alice".to_string(),
        passhash: "SECRET-REDACTED".to_string(),
    })
    .unwrap();
    s
}

fn linked_cell(cell_id: u128, user_id: u128, parent_ids: Vec<u128>, child_ids: Vec<u128>) -> CellReq {
    CellReq {
        cell_id,
        user_id,
        device_id: "Dev0".to_string(),
        text: format!("cell {}", cell_id),
        fileprops: Vec::new(),
        parent_ids,
        child_ids,
        is_open: false,
    }
}

fn child_side_ids(t: &CellExtracted) -> Vec<u128> {
    let mut ids = vec![t.cell_id];
    for c in t.children.iter() {
        ids.extend(child_side_ids(c));
    }
    ids
}

fn parent_side_ids(t: &CellExtracted) -> Vec<u128> {
    let mut ids = vec![t.cell_id];
    for p in t.parents.iter() {
        ids.extend(parent_side_ids(p));
    }
    ids
}

#[test]
fn inserted_cell_is_discoverable_both_ways() {
    let mut s = seeded_store(1);
    create_cell(&mut s, linked_cell(10, 1, vec![], vec![])).unwrap();
    create_cell(&mut s, linked_cell(11, 1, vec![10], vec![])).unwrap();
    // forward: the parent's child tree reaches the new cell
    let from_parent = show_cell(&s, 10).unwrap();
    assert!(child_side_ids(&from_parent).contains(&11));
    // reverse: the new cell's parent tree reaches the parent
    let from_child = show_cell(&s, 11).unwrap();
    assert!(parent_side_ids(&from_child).contains(&10));
}

#[test]
fn declared_children_are_discoverable_too() {
    let mut s = seeded_store(1);
    create_cell(&mut s, linked_cell(20, 1, vec![], vec![])).unwrap();
    create_cell(&mut s, linked_cell(21, 1, vec![], vec![20])).unwrap();
    // 21 declared 20 a child: walking down from 21 finds 20
    let down = show_cell(&s, 21).unwrap();
    assert!(child_side_ids(&down).contains(&20));
    // and walking up from 20 finds 21
    let up = show_cell(&s, 20).unwrap();
    assert!(parent_side_ids(&up).contains(&21));
}

#[test]
fn traversal_terminates_on_a_cycle() {
    let mut s = seeded_store(1);
    create_cell(&mut s, linked_cell(30, 1, vec![], vec![])).unwrap();
    // 31 is both parent and child of 30: a two-cell cycle
    create_cell(&mut s, linked_cell(31, 1, vec![30], vec![30])).unwrap();
    let t = show_cell(&s, 30).unwrap();
    // each cell appears exactly once per side
    let mut down = child_side_ids(&t);
    down.sort();
    assert_eq!(down, vec![30, 31]);
    let mut up = parent_side_ids(&t);
    up.sort();
    assert_eq!(up, vec![30, 31]);
}

#[test]
fn traversal_terminates_on_a_self_loop() {
    let mut s = seeded_store(1);
    create_cell(&mut s, linked_cell(40, 1, vec![40], vec![])).unwrap();
    let t = show_cell(&s, 40).unwrap();
    // the loop edge leads back to the visited root, so both sides stop
    assert_eq!(t.cell_id, 40);
    assert_eq!(child_side_ids(&t), vec![40]);
    assert_eq!(parent_side_ids(&t), vec![40]);
}

#[test]
fn chain_is_materialized_in_depth() {
    let mut s = seeded_store(1);
    create_cell(&mut s, linked_cell(50, 1, vec![], vec![])).unwrap();
    create_cell(&mut s, linked_cell(51, 1, vec![50], vec![])).unwrap();
    create_cell(&mut s, linked_cell(52, 1, vec![51], vec![])).unwrap();
    let t = show_cell(&s, 50).unwrap();
    assert_eq!(t.cell_id, 50);
    assert_eq!(t.children.len(), 1);
    assert_eq!(t.children[0].cell_id, 51);
    assert_eq!(t.children[0].children.len(), 1);
    assert_eq!(t.children[0].children[0].cell_id, 52);
    assert_eq!(t.children[0].children[0].children.len(), 0);
    // the reverse traversal from the bottom of the chain
    let b = show_cell(&s, 52).unwrap();
    assert_eq!(b.parents.len(), 1);
    assert_eq!(b.parents[0].cell_id, 51);
    assert_eq!(b.parents[0].parents.len(), 1);
    assert_eq!(b.parents[0].parents[0].cell_id, 50);
}

#[test]
fn diamond_is_entered_once() {
    let mut s = seeded_store(1);
    create_cell(&mut s, linked_cell(60, 1, vec![], vec![])).unwrap();
    create_cell(&mut s, linked_cell(61, 1, vec![60], vec![])).unwrap();
    create_cell(&mut s, linked_cell(62, 1, vec![60], vec![])).unwrap();
    create_cell(&mut s, linked_cell(63, 1, vec![61, 62], vec![])).unwrap();
    let t = show_cell(&s, 60).unwrap();
    // 61 comes first in the relation, so 63 is discovered under it and
    // only there
    assert_eq!(t.children.len(), 2);
    assert_eq!(t.children[0].cell_id, 61);
    assert_eq!(t.children[1].cell_id, 62);
    assert_eq!(t.children[0].children.len(), 1);
    assert_eq!(t.children[0].children[0].cell_id, 63);
    assert_eq!(t.children[1].children.len(), 0);
}

#[test]
fn make_trees_keep_their_sides_separate() {
    let mut s = seeded_store(1);
    create_cell(&mut s, linked_cell(70, 1, vec![], vec![])).unwrap();
    create_cell(&mut s, linked_cell(71, 1, vec![70], vec![])).unwrap();
    let down = make_child_tree(&s, 70).unwrap();
    assert_eq!(down.parents.len(), 0);
    assert_eq!(down.children.len(), 1);
    let up = make_parent_tree(&s, 71).unwrap();
    assert_eq!(up.children.len(), 0);
    assert_eq!(up.parents.len(), 1);
    assert!(make_child_tree(&s, 999).is_none());
    assert!(make_parent_tree(&s, 999).is_none());
}

#[test]
fn delete_cascades_over_the_relation() {
    let mut s = seeded_store(1);
    create_cell(&mut s, linked_cell(80, 1, vec![], vec![])).unwrap();
    create_cell(&mut s, linked_cell(81, 1, vec![80], vec![])).unwrap();
    assert_eq!(s.family_tree.len(), 1);
    delete_cell(&mut s, 80).unwrap();
    // no relation row mentions the removed cell any more
    assert_eq!(s.family_tree.len(), 0);
    let survivor = show_cell(&s, 81).unwrap();
    assert_eq!(survivor.parents.len(), 0);
    assert_eq!(survivor.children.len(), 0);
}

#[test]
fn list_cells_returns_each_cell_of_the_user() {
    let mut s = seeded_store(1);
    create_user(&mut s, User {
        user_id: 2,
        user_name: "bob".to_string(),
        passhash: "SECRET-REDACTED".to_string(),
    })
    .unwrap();
    create_cell(&mut s, linked_cell(90, 1, vec![], vec![])).unwrap();
    create_cell(&mut s, linked_cell(91, 2, vec![], vec![])).unwrap();
    create_cell(&mut s, linked_cell(92, 1, vec![90], vec![])).unwrap();
    let mine = list_cells(&s, CellFilter { user_id: 1 }).unwrap();
    assert_eq!(mine.cells.len(), 2);
    assert_eq!(mine.cells[0].cell_id, 90);
    assert_eq!(mine.cells[1].cell_id, 92);
    assert!(child_side_ids(&mine.cells[0]).contains(&92));
    let theirs = list_cells(&s, CellFilter { user_id: 2 }).unwrap();
    assert_eq!(theirs.cells.len(), 1);
    assert_eq!(theirs.cells[0].cell_id, 91);
    let nobody = list_cells(&s, CellFilter { user_id: 3 }).unwrap();
    assert_eq!(nobody.cells.len(), 0);
}
