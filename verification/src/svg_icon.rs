//! The icon set of the GUI, as data: each function returns the attributes
//! and path outlines of one SVG icon, pinned exactly by its contract.
//! Rendering the markup from these values is the front end's business.

use vstd::prelude::*;

verus! {

/// One path element of an icon.
pub struct SvgPath {
    pub d: String,
    pub fill: Option<String>,
    pub stroke_linecap: Option<String>,
    pub stroke_linejoin: Option<String>,
}

/// One icon: the attributes of its `svg` element and its paths.
pub struct SvgIcon {
    pub xmlns: String,
    pub view_box: String,
    pub class: Option<String>,
    pub fill: Option<String>,
    pub stroke: Option<String>,
    pub stroke_width: Option<String>,
    pub width: Option<String>,
    pub height: Option<String>,
    pub aria_hidden: bool,
    pub paths: Vec<SvgPath>,
}

/// A path with an outline only: no fill or stroke attributes of its own.
fn bare_path(d: String) -> (res: SvgPath)
    ensures
        res.d == d,
        res.fill is None,
        res.stroke_linecap is None,
        res.stroke_linejoin is None,
{
    SvgPath { d, fill: None, stroke_linecap: None, stroke_linejoin: None }
}

/// A path with round line caps and joins, as the outline icons use.
fn round_path(d: String) -> (res: SvgPath)
    ensures
        res.d == d,
        res.fill is None,
        res.stroke_linecap matches Some(v) && v@ == "round"@,
        res.stroke_linejoin matches Some(v) && v@ == "round"@,
{
    SvgPath {
        d,
        fill: None,
        stroke_linecap: Some("round".to_owned()),
        stroke_linejoin: Some("round".to_owned()),
    }
}

/// The stroked outline frame shared by the small file and folder icons.
fn outline_icon(paths: Vec<SvgPath>) -> (res: SvgIcon)
    ensures
        res.xmlns@ == "http://www.w3.org/2000/svg"@,
        res.view_box@ == "0 0 24 24"@,
        res.class matches Some(v) && v@ == "w-4 h-4"@,
        res.fill matches Some(v) && v@ == "none"@,
        res.stroke matches Some(v) && v@ == "currentColor"@,
        res.stroke_width matches Some(v) && v@ == "1.5"@,
        res.width is None,
        res.height is None,
        !res.aria_hidden,
        res.paths@ == paths@,
{
    SvgIcon {
        xmlns: "http://www.w3.org/2000/svg".to_owned(),
        view_box: "0 0 24 24".to_owned(),
        class: Some("w-4 h-4".to_owned()),
        fill: Some("none".to_owned()),
        stroke: Some("currentColor".to_owned()),
        stroke_width: Some("1.5".to_owned()),
        width: None,
        height: None,
        aria_hidden: false,
        paths,
    }
}

/// The filled 24px button frame shared by the toolbar icons.
fn button_icon(view_box: String, paths: Vec<SvgPath>) -> (res: SvgIcon)
    ensures
        res.xmlns@ == "http://www.w3.org/2000/svg"@,
        res.view_box == view_box,
        res.class is None,
        res.fill matches Some(v) && v@ == "#5f6368"@,
        res.stroke is None,
        res.stroke_width is None,
        res.width matches Some(v) && v@ == "24px"@,
        res.height matches Some(v) && v@ == "24px"@,
        !res.aria_hidden,
        res.paths@ == paths@,
{
    SvgIcon {
        xmlns: "http://www.w3.org/2000/svg".to_owned(),
        view_box,
        class: None,
        fill: Some("#5f6368".to_owned()),
        stroke: None,
        stroke_width: None,
        width: Some("24px".to_owned()),
        height: Some("24px".to_owned()),
        aria_hidden: false,
        paths,
    }
}

/// A plain file: a sheet with a folded corner.
pub fn general_file() -> (res: SvgIcon)
    ensures
        res.xmlns@ == "http://www.w3.org/2000/svg"@,
        res.view_box@ == "0 0 24 24"@,
        res.class matches Some(v) && v@ == "w-4 h-4"@,
        res.fill matches Some(v) && v@ == "none"@,
        res.stroke matches Some(v) && v@ == "currentColor"@,
        res.stroke_width matches Some(v) && v@ == "1.5"@,
        res.paths@.len() == 1,
        res.paths@[0].d@
            == "M19.5 14.25v-2.625a3.375 3.375 0 00-3.375-3.375h-1.5A1.125 1.125 0 0113.5 7.125v-1.5a3.375 3.375 0 00-3.375-3.375H8.25m2.25 0H5.625c-.621 0-1.125.504-1.125 1.125v17.25c0 .621.504 1.125 1.125 1.125h12.75c.621 0 1.125-.504 1.125-1.125V11.25a9 9 0 00-9-9z"@,
        res.paths@[0].stroke_linecap matches Some(v) && v@ == "round"@,
        res.paths@[0].stroke_linejoin matches Some(v) && v@ == "round"@,
{
    let mut paths: Vec<SvgPath> = Vec::new();
    paths.push(
        round_path(
            "M19.5 14.25v-2.625a3.375 3.375 0 00-3.375-3.375h-1.5A1.125 1.125 0 0113.5 7.125v-1.5a3.375 3.375 0 00-3.375-3.375H8.25m2.25 0H5.625c-.621 0-1.125.504-1.125 1.125v17.25c0 .621.504 1.125 1.125 1.125h12.75c.621 0 1.125-.504 1.125-1.125V11.25a9 9 0 00-9-9z".to_owned(),
        ),
    );
    outline_icon(paths)
}

/// A picture file: a frame with mountains and a sun.
pub fn image_file() -> (res: SvgIcon)
    ensures
        res.xmlns@ == "http://www.w3.org/2000/svg"@,
        res.view_box@ == "0 0 24 24"@,
        res.class matches Some(v) && v@ == "w-4 h-4"@,
        res.fill matches Some(v) && v@ == "none"@,
        res.stroke matches Some(v) && v@ == "currentColor"@,
        res.stroke_width matches Some(v) && v@ == "1.5"@,
        res.paths@.len() == 1,
        res.paths@[0].d@
            == "M2.25 15.75l5.159-5.159a2.25 2.25 0 013.182 0l5.159 5.159m-1.5-1.5l1.409-1.409a2.25 2.25 0 013.182 0l2.909 2.909m-18 3.75h16.5a1.5 1.5 0 001.5-1.5V6a1.5 1.5 0 00-1.5-1.5H3.75A1.5 1.5 0 002.25 6v12a1.5 1.5 0 001.5 1.5zm10.5-11.25h.008v.008h-.008V8.25zm.375 0a.375.375 0 11-.75 0 .375.375 0 01.75 0z"@,
        res.paths@[0].stroke_linecap matches Some(v) && v@ == "round"@,
        res.paths@[0].stroke_linejoin matches Some(v) && v@ == "round"@,
{
    let mut paths: Vec<SvgPath> = Vec::new();
    paths.push(
        round_path(
            "M2.25 15.75l5.159-5.159a2.25 2.25 0 013.182 0l5.159 5.159m-1.5-1.5l1.409-1.409a2.25 2.25 0 013.182 0l2.909 2.909m-18 3.75h16.5a1.5 1.5 0 001.5-1.5V6a1.5 1.5 0 00-1.5-1.5H3.75A1.5 1.5 0 002.25 6v12a1.5 1.5 0 001.5 1.5zm10.5-11.25h.008v.008h-.008V8.25zm.375 0a.375.375 0 11-.75 0 .375.375 0 01.75 0z".to_owned(),
        ),
    );
    outline_icon(paths)
}

/// A text document: a sheet with ruled lines.
pub fn document() -> (res: SvgIcon)
    ensures
        res.xmlns@ == "http://www.w3.org/2000/svg"@,
        res.view_box@ == "0 0 24 24"@,
        res.class matches Some(v) && v@ == "w-4 h-4"@,
        res.fill matches Some(v) && v@ == "none"@,
        res.stroke matches Some(v) && v@ == "currentColor"@,
        res.stroke_width matches Some(v) && v@ == "1.5"@,
        res.paths@.len() == 1,
        res.paths@[0].d@
            == "M19.5 14.25v-2.625a3.375 3.375 0 00-3.375-3.375h-1.5A1.125 1.125 0 0113.5 7.125v-1.5a3.375 3.375 0 00-3.375-3.375H8.25m0 12.75h7.5m-7.5 3H12M10.5 2.25H5.625c-.621 0-1.125.504-1.125 1.125v17.25c0 .621.504 1.125 1.125 1.125h12.75c.621 0 1.125-.504 1.125-1.125V11.25a9 9 0 00-9-9z"@,
        res.paths@[0].stroke_linecap matches Some(v) && v@ == "round"@,
        res.paths@[0].stroke_linejoin matches Some(v) && v@ == "round"@,
{
    let mut paths: Vec<SvgPath> = Vec::new();
    paths.push(
        round_path(
            "M19.5 14.25v-2.625a3.375 3.375 0 00-3.375-3.375h-1.5A1.125 1.125 0 0113.5 7.125v-1.5a3.375 3.375 0 00-3.375-3.375H8.25m0 12.75h7.5m-7.5 3H12M10.5 2.25H5.625c-.621 0-1.125.504-1.125 1.125v17.25c0 .621.504 1.125 1.125 1.125h12.75c.621 0 1.125-.504 1.125-1.125V11.25a9 9 0 00-9-9z".to_owned(),
        ),
    );
    outline_icon(paths)
}

/// A folder.
pub fn directory() -> (res: SvgIcon)
    ensures
        res.xmlns@ == "http://www.w3.org/2000/svg"@,
        res.view_box@ == "0 0 24 24"@,
        res.class matches Some(v) && v@ == "w-4 h-4"@,
        res.fill matches Some(v) && v@ == "none"@,
        res.stroke matches Some(v) && v@ == "currentColor"@,
        res.stroke_width matches Some(v) && v@ == "1.5"@,
        res.paths@.len() == 1,
        res.paths@[0].d@
            == "M2.25 12.75V12A2.25 2.25 0 014.5 9.75h15A2.25 2.25 0 0121.75 12v.75m-8.69-6.44l-2.12-2.12a1.5 1.5 0 00-1.061-.44H4.5A2.25 2.25 0 002.25 6v12a2.25 2.25 0 002.25 2.25h15A2.25 2.25 0 0021.75 18V9a2.25 2.25 0 00-2.25-2.25h-5.379a1.5 1.5 0 01-1.06-.44z"@,
        res.paths@[0].stroke_linecap matches Some(v) && v@ == "round"@,
        res.paths@[0].stroke_linejoin matches Some(v) && v@ == "round"@,
{
    let mut paths: Vec<SvgPath> = Vec::new();
    paths.push(
        round_path(
            "M2.25 12.75V12A2.25 2.25 0 014.5 9.75h15A2.25 2.25 0 0121.75 12v.75m-8.69-6.44l-2.12-2.12a1.5 1.5 0 00-1.061-.44H4.5A2.25 2.25 0 002.25 6v12a2.25 2.25 0 002.25 2.25h15A2.25 2.25 0 0021.75 18V9a2.25 2.25 0 00-2.25-2.25h-5.379a1.5 1.5 0 01-1.06-.44z".to_owned(),
        ),
    );
    outline_icon(paths)
}

/// Three dots: the overflow menu.
pub fn dotsmenu() -> (res: SvgIcon)
    ensures
        res.xmlns@ == "http://www.w3.org/2000/svg"@,
        res.view_box@ == "0 0 16 3"@,
        res.class matches Some(v) && v@ == "w-5 h-5"@,
        res.fill matches Some(v) && v@ == "currentColor"@,
        res.aria_hidden,
        res.paths@.len() == 1,
        res.paths@[0].d@
            == "M2 0a1.5 1.5 0 1 1 0 3 1.5 1.5 0 0 1 0-3Zm6.041 0a1.5 1.5 0 1 1 0 3 1.5 1.5 0 0 1 0-3ZM14 0a1.5 1.5 0 1 1 0 3 1.5 1.5 0 0 1 0-3Z"@,
{
    let mut paths: Vec<SvgPath> = Vec::new();
    paths.push(
        bare_path(
            "M2 0a1.5 1.5 0 1 1 0 3 1.5 1.5 0 0 1 0-3Zm6.041 0a1.5 1.5 0 1 1 0 3 1.5 1.5 0 0 1 0-3ZM14 0a1.5 1.5 0 1 1 0 3 1.5 1.5 0 0 1 0-3Z".to_owned(),
        ),
    );
    SvgIcon {
        xmlns: "http://www.w3.org/2000/svg".to_owned(),
        view_box: "0 0 16 3".to_owned(),
        class: Some("w-5 h-5".to_owned()),
        fill: Some("currentColor".to_owned()),
        stroke: None,
        stroke_width: None,
        width: None,
        height: None,
        aria_hidden: true,
        paths,
    }
}

/// A waste bin, for deleting a cell.
pub fn trash() -> (res: SvgIcon)
    ensures
        res.xmlns@ == "http://www.w3.org/2000/svg"@,
        res.view_box@ == "0 0 24 24"@,
        res.fill matches Some(v) && v@ == "#5f6368"@,
        res.width matches Some(v) && v@ == "24px"@,
        res.height matches Some(v) && v@ == "24px"@,
        res.paths@.len() == 2,
        res.paths@[0].d@ == "M0 0h24v24H0V0z"@,
        res.paths@[0].fill matches Some(v) && v@ == "none"@,
        res.paths@[1].d@
            == "M16 9v10H8V9h8m-1.5-6h-5l-1 1H5v2h14V4h-3.5l-1-1zM18 7H6v12c0 1.1.9 2 2 2h8c1.1 0 2-.9 2-2V7z"@,
        res.paths@[1].fill is None,
{
    let mut paths: Vec<SvgPath> = Vec::new();
    paths.push(SvgPath {
        d: "M0 0h24v24H0V0z".to_owned(),
        fill: Some("none".to_owned()),
        stroke_linecap: None,
        stroke_linejoin: None,
    });
    paths.push(
        bare_path(
            "M16 9v10H8V9h8m-1.5-6h-5l-1 1H5v2h14V4h-3.5l-1-1zM18 7H6v12c0 1.1.9 2 2 2h8c1.1 0 2-.9 2-2V7z".to_owned(),
        ),
    );
    button_icon("0 0 24 24".to_owned(), paths)
}

/// An arrow curling back, for replying to a cell.
pub fn reply() -> (res: SvgIcon)
    ensures
        res.xmlns@ == "http://www.w3.org/2000/svg"@,
        res.view_box@ == "0 -960 960 960"@,
        res.fill matches Some(v) && v@ == "#5f6368"@,
        res.width matches Some(v) && v@ == "24px"@,
        res.height matches Some(v) && v@ == "24px"@,
        res.paths@.len() == 1,
        res.paths@[0].d@
            == "M760-200v-160q0-50-35-85t-85-35H273l144 144-57 56-240-240 240-240 57 56-144 144h367q83 0 141.5 58.5T840-360v160h-80Z"@,
{
    let mut paths: Vec<SvgPath> = Vec::new();
    paths.push(
        bare_path(
            "M760-200v-160q0-50-35-85t-85-35H273l144 144-57 56-240-240 240-240 57 56-144 144h367q83 0 141.5 58.5T840-360v160h-80Z".to_owned(),
        ),
    );
    button_icon("0 -960 960 960".to_owned(), paths)
}

/// An arrow into a tray, for downloading the attachments of a cell.
pub fn download() -> (res: SvgIcon)
    ensures
        res.xmlns@ == "http://www.w3.org/2000/svg"@,
        res.view_box@ == "0 -960 960 960"@,
        res.fill matches Some(v) && v@ == "#5f6368"@,
        res.width matches Some(v) && v@ == "24px"@,
        res.height matches Some(v) && v@ == "24px"@,
        res.paths@.len() == 1,
        res.paths@[0].d@
            == "M480-320 280-520l56-58 104 104v-326h80v326l104-104 56 58-200 200ZM240-160q-33 0-56.5-23.5T160-240v-120h80v120h480v-120h80v120q0 33-23.5 56.5T720-160H240Z"@,
{
    let mut paths: Vec<SvgPath> = Vec::new();
    paths.push(
        bare_path(
            "M480-320 280-520l56-58 104 104v-326h80v326l104-104 56 58-200 200ZM240-160q-33 0-56.5-23.5T160-240v-120h80v120h480v-120h80v120q0 33-23.5 56.5T720-160H240Z".to_owned(),
        ),
    );
    button_icon("0 -960 960 960".to_owned(), paths)
}

} // verus!
