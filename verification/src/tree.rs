//! Rendering plans for the attachment tree of a cell: the GUI walks a
//! [`Dir`] and draws a nested list of directories and files.  Here that
//! walk is a verified flattening into open/file/close events, which a
//! front end can indent or nest as it pleases.

use vstd::prelude::*;

use crate::model::Dir;
use crate::model::FileProp;

verus! {

/// Which icon a rendered entry carries.
#[derive(Clone, Copy, PartialEq, Eq, Structural, Debug)]
pub enum IconKind {
    GeneralFile,
    ImageFile,
    Document,
    Directory,
}

/// One event of a rendered file tree, in document order: a directory
/// opens, a file is listed, or the innermost open directory closes.
#[derive(Debug)]
pub enum TreeEntry {
    OpenDir { name: String },
    File { name: String, icon: IconKind },
    CloseDir,
}

/// The file rows rendered for a list of attachments, in order, each with
/// the plain file icon.
pub open spec fn file_entries(fps: Seq<FileProp>) -> Seq<TreeEntry> {
    Seq::new(
        fps.len(),
        |i: int| TreeEntry::File { name: fps[i].name, icon: IconKind::GeneralFile },
    )
}

/// The events rendered for a list of sub-directories, in order.  A
/// sub-directory named "/" lists its contents bare, as the root does;
/// any other opens a named group around them.
pub open spec fn subdirs_entries(ds: Seq<Dir>) -> Seq<TreeEntry>
    decreases ds,
{
    if ds.len() == 0 {
        Seq::empty()
    } else {
        let d = ds.last();
        let inner = file_entries(d.fileprops@) + subdirs_entries(d.dirs@);
        subdirs_entries(ds.drop_last()) + (if d.name@ == "/"@ {
            inner
        } else {
            seq![TreeEntry::OpenDir { name: d.name }] + inner + seq![TreeEntry::CloseDir]
        })
    }
}

/// The events rendered for a whole directory: its files first, then its
/// sub-directories; a root named "/" stands bare, any other directory is
/// opened and closed around its contents.
pub open spec fn file_tree_entries(d: Dir) -> Seq<TreeEntry> {
    let inner = file_entries(d.fileprops@) + subdirs_entries(d.dirs@);
    if d.name@ == "/"@ {
        inner
    } else {
        seq![TreeEntry::OpenDir { name: d.name }] + inner + seq![TreeEntry::CloseDir]
    }
}

/// Renders the attachment tree of a cell as a flat list of events.
#[allow(non_snake_case)]
pub fn FileTree(rootdir: &Dir) -> (res: Vec<TreeEntry>)
    ensures
        res@ == file_tree_entries(*rootdir),
    decreases *rootdir,
{
    let mut res: Vec<TreeEntry> = Vec::new();
    let root_name = "/".to_owned();
    let is_root = rootdir.name == root_name;
    proof {
        reveal_strlit("/");
    }
    if !is_root {
        res.push(TreeEntry::OpenDir { name: rootdir.name.clone() });
    }
    let ghost header = res@;
    let mut i: usize = 0;
    while i < rootdir.fileprops.len()
        invariant
            i <= rootdir.fileprops@.len(),
            res@ == header + file_entries(rootdir.fileprops@.take(i as int)),
        decreases rootdir.fileprops@.len() - i,
    {
        res.push(TreeEntry::File {
            name: rootdir.fileprops[i].name.clone(),
            icon: IconKind::GeneralFile,
        });
        proof {
            assert(res@ =~= header + file_entries(rootdir.fileprops@.take(i + 1)));
        }
        i = i + 1;
    }
    proof {
        assert(rootdir.fileprops@.take(rootdir.fileprops@.len() as int) =~= rootdir.fileprops@);
    }
    let ghost with_files = res@;
    let mut j: usize = 0;
    while j < rootdir.dirs.len()
        invariant
            j <= rootdir.dirs@.len(),
            with_files == header + file_entries(rootdir.fileprops@),
            res@ == with_files + subdirs_entries(rootdir.dirs@.take(j as int)),
        decreases rootdir.dirs@.len() - j,
    {
        let mut sub = FileTree(&rootdir.dirs[j]);
        res.append(&mut sub);
        proof {
            let taken = rootdir.dirs@.take(j + 1);
            assert(taken.drop_last() =~= rootdir.dirs@.take(j as int));
            assert(taken.last() == rootdir.dirs@[j as int]);
            assert(res@ =~= with_files + subdirs_entries(taken));
        }
        j = j + 1;
    }
    proof {
        assert(rootdir.dirs@.take(rootdir.dirs@.len() as int) =~= rootdir.dirs@);
    }
    if !is_root {
        res.push(TreeEntry::CloseDir);
    }
    proof {
        assert(res@ =~= file_tree_entries(*rootdir));
    }
    res
}

/// The fixed demonstration listing the GUI shows before any data is
/// loaded: two documents around a "My Files" group holding project files
/// and nested screenshot folders.
pub fn tree() -> (res: Vec<TreeEntry>)
    ensures
        res@.len() == 13,
        res@[0] matches TreeEntry::File { name, icon } && name@ == "resume.pdf"@ && icon
            == IconKind::Document,
        res@[1] matches TreeEntry::OpenDir { name } && name@ == "My Files"@,
        res@[2] matches TreeEntry::File { name, icon } && name@ == "Project-final.psd"@ && icon
            == IconKind::GeneralFile,
        res@[3] matches TreeEntry::File { name, icon } && name@ == "Project-final-2.psd"@ && icon
            == IconKind::GeneralFile,
        res@[4] matches TreeEntry::OpenDir { name } && name@ == "Images"@,
        res@[5] matches TreeEntry::File { name, icon } && name@ == "Screenshot1.png"@ && icon
            == IconKind::ImageFile,
        res@[6] matches TreeEntry::File { name, icon } && name@ == "Screenshot2.png"@ && icon
            == IconKind::ImageFile,
        res@[7] matches TreeEntry::OpenDir { name } && name@ == "Others"@,
        res@[8] matches TreeEntry::File { name, icon } && name@ == "Screenshot3.png"@ && icon
            == IconKind::ImageFile,
        res@[9] is CloseDir,
        res@[10] is CloseDir,
        res@[11] is CloseDir,
        res@[12] matches TreeEntry::File { name, icon } && name@ == "reports-final-2.pdf"@ && icon
            == IconKind::Document,
{
    let mut res: Vec<TreeEntry> = Vec::new();
    res.push(TreeEntry::File { name: "resume.pdf".to_owned(), icon: IconKind::Document });
    res.push(TreeEntry::OpenDir { name: "My Files".to_owned() });
    res.push(TreeEntry::File {
        name: "Project-final.psd".to_owned(),
        icon: IconKind::GeneralFile,
    });
    res.push(TreeEntry::File {
        name: "Project-final-2.psd".to_owned(),
        icon: IconKind::GeneralFile,
    });
    res.push(TreeEntry::OpenDir { name: "Images".to_owned() });
    res.push(TreeEntry::File { name: "Screenshot1.png".to_owned(), icon: IconKind::ImageFile });
    res.push(TreeEntry::File { name: "Screenshot2.png".to_owned(), icon: IconKind::ImageFile });
    res.push(TreeEntry::OpenDir { name: "Others".to_owned() });
    res.push(TreeEntry::File { name: "Screenshot3.png".to_owned(), icon: IconKind::ImageFile });
    res.push(TreeEntry::CloseDir);
    res.push(TreeEntry::CloseDir);
    res.push(TreeEntry::CloseDir);
    res.push(TreeEntry::File { name: "reports-final-2.pdf".to_owned(), icon: IconKind::Document });
    res
}

} // verus!
