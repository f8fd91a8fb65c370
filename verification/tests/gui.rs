use flowfs::model::{Dir, FileProp};
use flowfs::svg_icon::{directory, document, dotsmenu, download, general_file, image_file, reply, trash};
use flowfs::tree::{tree, FileTree, IconKind, TreeEntry};
use flowfs::utils::{get_db_path, get_url, Config};

fn file(name: &str) -> FileProp {
    FileProp {
        name: name.to_string(),
        url: format!("https://example.com/{}", name),
        completed: true,
    }
}

#[test]
fn outline_icons_share_their_frame() {
    for icon in [general_file(), image_file(), document(), directory()] {
        assert_eq!(icon.xmlns, "http://www.w3.org/2000/svg");
        assert_eq!(icon.view_box, "0 0 24 24");
        assert_eq!(icon.class.as_deref(), Some("w-4 h-4"));
        assert_eq!(icon.fill.as_deref(), Some("none"));
        assert_eq!(icon.stroke.as_deref(), Some("currentColor"));
        assert_eq!(icon.stroke_width.as_deref(), Some("1.5"));
        assert_eq!(icon.paths.len(), 1);
        assert_eq!(icon.paths[0].stroke_linecap.as_deref(), Some("round"));
        assert_eq!(icon.paths[0].stroke_linejoin.as_deref(), Some("round"));
    }
}

#[test]
fn outline_icons_have_distinct_outlines() {
    let ds = [
        general_file().paths[0].d.clone(),
        image_file().paths[0].d.clone(),
        document().paths[0].d.clone(),
        directory().paths[0].d.clone(),
    ];
    for i in 0..ds.len() {
        assert!(ds[i].starts_with('M'));
        for j in 0..i {
            assert_ne!(ds[i], ds[j]);
        }
    }
}

#[test]
fn dotsmenu_is_a_wide_flat_icon() {
    let icon = dotsmenu();
    assert_eq!(icon.view_box, "0 0 16 3");
    assert_eq!(icon.class.as_deref(), Some("w-5 h-5"));
    assert_eq!(icon.fill.as_deref(), Some("currentColor"));
    assert!(icon.aria_hidden);
    assert_eq!(icon.paths.len(), 1);
}

#[test]
fn toolbar_icons_share_their_frame() {
    let bin = trash();
    assert_eq!(bin.view_box, "0 0 24 24");
    assert_eq!(bin.paths.len(), 2);
    assert_eq!(bin.paths[0].d, "M0 0h24v24H0V0z");
    assert_eq!(bin.paths[0].fill.as_deref(), Some("none"));
    for icon in [trash(), reply(), download()] {
        assert_eq!(icon.fill.as_deref(), Some("#5f6368"));
        assert_eq!(icon.width.as_deref(), Some("24px"));
        assert_eq!(icon.height.as_deref(), Some("24px"));
    }
    assert_eq!(reply().view_box, "0 -960 960 960");
    assert_eq!(download().view_box, "0 -960 960 960");
}

#[test]
fn demo_tree_has_the_expected_listing() {
    let entries = tree();
    assert_eq!(entries.len(), 13);
    assert!(matches!(
        &entries[0],
        TreeEntry::File { name, icon: IconKind::Document } if name == "resume.pdf"
    ));
    assert!(matches!(&entries[1], TreeEntry::OpenDir { name } if name == "My Files"));
    assert!(matches!(
        &entries[2],
        TreeEntry::File { name, icon: IconKind::GeneralFile } if name == "Project-final.psd"
    ));
    assert!(matches!(&entries[4], TreeEntry::OpenDir { name } if name == "Images"));
    assert!(matches!(
        &entries[5],
        TreeEntry::File { name, icon: IconKind::ImageFile } if name == "Screenshot1.png"
    ));
    assert!(matches!(&entries[7], TreeEntry::OpenDir { name } if name == "Others"));
    assert!(matches!(
        &entries[8],
        TreeEntry::File { name, icon: IconKind::ImageFile } if name == "Screenshot3.png"
    ));
    assert!(matches!(&entries[9], TreeEntry::CloseDir));
    assert!(matches!(&entries[10], TreeEntry::CloseDir));
    assert!(matches!(&entries[11], TreeEntry::CloseDir));
    assert!(matches!(
        &entries[12],
        TreeEntry::File { name, icon: IconKind::Document } if name == "reports-final-2.pdf"
    ));
}

#[test]
fn file_tree_lists_a_root_bare() {
    let root = Dir {
        name: "/".to_string(),
        dirs: vec![Dir {
            name: "test".to_string(),
            dirs: Vec::new(),
            fileprops: vec![file("photo3.docx")],
        }],
        fileprops: vec![file("photo2.png"), file("marine.txt")],
    };
    let entries = FileTree(&root);
    assert_eq!(entries.len(), 5);
    assert!(matches!(
        &entries[0],
        TreeEntry::File { name, icon: IconKind::GeneralFile } if name == "photo2.png"
    ));
    assert!(matches!(&entries[1], TreeEntry::File { name, .. } if name == "marine.txt"));
    assert!(matches!(&entries[2], TreeEntry::OpenDir { name } if name == "test"));
    assert!(matches!(&entries[3], TreeEntry::File { name, .. } if name == "photo3.docx"));
    assert!(matches!(&entries[4], TreeEntry::CloseDir));
}

#[test]
fn file_tree_wraps_a_named_root() {
    let d = Dir {
        name: "docs".to_string(),
        dirs: Vec::new(),
        fileprops: vec![file("a.txt")],
    };
    let entries = FileTree(&d);
    assert_eq!(entries.len(), 3);
    assert!(matches!(&entries[0], TreeEntry::OpenDir { name } if name == "docs"));
    assert!(matches!(&entries[1], TreeEntry::File { name, .. } if name == "a.txt"));
    assert!(matches!(&entries[2], TreeEntry::CloseDir));
}

#[test]
fn nested_dir_named_slash_lists_bare() {
    // a sub-directory that carries the root's name is spliced in without
    // a group of its own, just as a root is
    let root = Dir {
        name: "/".to_string(),
        dirs: vec![Dir {
            name: "/".to_string(),
            dirs: Vec::new(),
            fileprops: vec![file("inner.txt")],
        }],
        fileprops: Vec::new(),
    };
    let entries = FileTree(&root);
    assert_eq!(entries.len(), 1);
    assert!(matches!(&entries[0], TreeEntry::File { name, .. } if name == "inner.txt"));
}

#[test]
fn file_tree_of_empty_root_is_empty() {
    let entries = FileTree(&Dir::new());
    assert_eq!(entries.len(), 0);
}

#[test]
fn config_defaults_apply_only_when_unset() {
    let set = Config {
        web_url: Some("0.0.0.0:9000".to_string()),
        db_path: Some("notes.db".to_string()),
    };
    assert_eq!(get_url(&set), "0.0.0.0:9000");
    assert_eq!(get_db_path(&set), "notes.db");
    let unset = Config { web_url: None, db_path: None };
    assert_eq!(get_url(&unset), "127.0.0.1:8080");
    assert_eq!(get_db_path(&unset), "flowfs");
}
