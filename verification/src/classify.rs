//! Classification of resource files by filename suffix.
//!
//! A file belongs to one of five categories: a zh-CN translation catalog,
//! an en-US or en-GB catalog, a `.grd` resource definition, or a `.grdp`
//! resource part; anything else is ignored. `FileCategories` collects the
//! paths of a resource tree, one list per category.

use vstd::prelude::*;
use crate::strfind::{ends_with, ends_with_sub};

verus! {

/// The category a filename falls in.
#[derive(Clone, Copy, Debug, PartialEq, Eq, Structural)]
pub enum FileKind {
    ZhCn,
    EnUs,
    EnGb,
    Grd,
    Grdp,
    Other,
}

/// The category of a filename, decided by its suffix; the first matching
/// suffix in this order wins.
pub open spec fn classify_spec(name: Seq<char>) -> FileKind {
    if ends_with(name, "zh-CN.xtb"@) {
        FileKind::ZhCn
    } else if ends_with(name, "en-US.xtb"@) {
        FileKind::EnUs
    } else if ends_with(name, "en-GB.xtb"@) {
        FileKind::EnGb
    } else if ends_with(name, ".grd"@) {
        FileKind::Grd
    } else if ends_with(name, ".grdp"@) {
        FileKind::Grdp
    } else {
        FileKind::Other
    }
}

/// The category of a filename.
pub fn classify_file_name(name: &str) -> (k: FileKind)
    ensures
        k == classify_spec(name@),
{
    if ends_with_sub(name, "zh-CN.xtb") {
        FileKind::ZhCn
    } else if ends_with_sub(name, "en-US.xtb") {
        FileKind::EnUs
    } else if ends_with_sub(name, "en-GB.xtb") {
        FileKind::EnGb
    } else if ends_with_sub(name, ".grd") {
        FileKind::Grd
    } else if ends_with_sub(name, ".grdp") {
        FileKind::Grdp
    } else {
        FileKind::Other
    }
}

/// The paths of a resource tree, partitioned by filename category.
pub struct FileCategories {
    pub zh_cn_files: Vec<String>,
    pub en_us_files: Vec<String>,
    pub en_gb_files: Vec<String>,
    pub grd_files: Vec<String>,
    pub grdp_files: Vec<String>,
}

impl FileCategories {
    /// An empty partition.
    pub fn new() -> (r: FileCategories)
        ensures
            r.zh_cn_files@.len() == 0,
            r.en_us_files@.len() == 0,
            r.en_gb_files@.len() == 0,
            r.grd_files@.len() == 0,
            r.grdp_files@.len() == 0,
    {
        FileCategories {
            zh_cn_files: Vec::new(),
            en_us_files: Vec::new(),
            en_gb_files: Vec::new(),
            grd_files: Vec::new(),
            grdp_files: Vec::new(),
        }
    }

    /// Files `path` under the category that `name` falls in; a file of no
    /// category is dropped.
    pub fn add_path(&mut self, name: &str, path: String)
        ensures
            final(self).zh_cn_files@ == if classify_spec(name@) == FileKind::ZhCn {
                old(self).zh_cn_files@.push(path)
            } else {
                old(self).zh_cn_files@
            },
            final(self).en_us_files@ == if classify_spec(name@) == FileKind::EnUs {
                old(self).en_us_files@.push(path)
            } else {
                old(self).en_us_files@
            },
            final(self).en_gb_files@ == if classify_spec(name@) == FileKind::EnGb {
                old(self).en_gb_files@.push(path)
            } else {
                old(self).en_gb_files@
            },
            final(self).grd_files@ == if classify_spec(name@) == FileKind::Grd {
                old(self).grd_files@.push(path)
            } else {
                old(self).grd_files@
            },
            final(self).grdp_files@ == if classify_spec(name@) == FileKind::Grdp {
                old(self).grdp_files@.push(path)
            } else {
                old(self).grdp_files@
            },
    {
        match classify_file_name(name) {
            FileKind::ZhCn => self.zh_cn_files.push(path),
            FileKind::EnUs => self.en_us_files.push(path),
            FileKind::EnGb => self.en_gb_files.push(path),
            FileKind::Grd => self.grd_files.push(path),
            FileKind::Grdp => self.grdp_files.push(path),
            FileKind::Other => {},
        }
    }
}

} // verus!
