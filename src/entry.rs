//! Which archive entries may be written, and where. The archive comes from
//! the public internet, so an entry may name a path outside the font
//! directory, or be a symbolic link; neither is honoured.
use vstd::prelude::*;

use crate::layout::{join, join_path};

verus! {

/// What an archive entry holds.
#[derive(Clone, Copy, Debug, PartialEq, Eq, Structural)]
pub enum EntryKind {
    File,
    Directory,
    Symlink,
}

/// What to do with one archive entry.
#[derive(Debug)]
pub enum EntryPlan {
    /// Write the entry's contents to this file.
    WriteFile(String),
    /// Create this directory.
    CreateDir(String),
    /// Leave the entry out.
    Skip,
    /// The entry's name would leave the destination: the archive is refused.
    Reject,
}

/// The mathematical content of an [`EntryPlan`].
pub ghost enum EntryPlanView {
    WriteFile(Seq<char>),
    CreateDir(Seq<char>),
    Skip,
    Reject,
}

impl View for EntryPlan {
    type V = EntryPlanView;

    open spec fn view(&self) -> EntryPlanView {
        match self {
            EntryPlan::WriteFile(p) => EntryPlanView::WriteFile(p@),
            EntryPlan::CreateDir(p) => EntryPlanView::CreateDir(p@),
            EntryPlan::Skip => EntryPlanView::Skip,
            EntryPlan::Reject => EntryPlanView::Reject,
        }
    }
}

/// Archives written on either family of systems separate components with
/// one of these.
pub open spec fn is_separator(c: char) -> bool {
    c == '/' || c == '\\'
}

/// A `..` component starts at `i` in `name`.
pub open spec fn parent_component_at(name: Seq<char>, i: int) -> bool {
    &&& 0 <= i
    &&& i + 1 < name.len()
    &&& name[i] == '.'
    &&& name[i + 1] == '.'
    &&& (i == 0 || is_separator(name[i - 1]))
    &&& (i + 2 == name.len() || is_separator(name[i + 2]))
}

/// `name` holds no `..` component.
pub open spec fn no_parent_component(name: Seq<char>) -> bool {
    forall|i: int| !#[trigger] parent_component_at(name, i)
}

/// An entry name that stays below the directory it is unpacked into: not
/// empty, not rooted, with no drive prefix (no `:` anywhere) and no `..`
/// component.
pub open spec fn safe_entry_name(name: Seq<char>) -> bool {
    &&& name.len() > 0
    &&& !is_separator(name[0])
    &&& forall|i: int| 0 <= i < name.len() ==> #[trigger] name[i] != ':'
    &&& no_parent_component(name)
}

/// What becomes of the entry `name` of kind `kind` when the archive is
/// unpacked into `dest`.
pub open spec fn entry_plan_of(dest: Seq<char>, name: Seq<char>, kind: EntryKind) -> EntryPlanView {
    if kind == EntryKind::Symlink {
        EntryPlanView::Skip
    } else if !safe_entry_name(name) {
        EntryPlanView::Reject
    } else if kind == EntryKind::Directory {
        EntryPlanView::CreateDir(join(dest, name))
    } else {
        EntryPlanView::WriteFile(join(dest, name))
    }
}

/// Whether `name` is a safe entry name.
pub fn is_safe_entry_name(name: &str) -> (r: bool)
    ensures
        r == safe_entry_name(name@),
{
    let n = name.unicode_len();
    if n == 0 {
        return false;
    }
    let first = name.get_char(0);
    if first == '/' || first == '\\' {
        return false;
    }
    let mut i: usize = 0;
    while i < n
        invariant
            n == name@.len(),
            i <= n,
            forall|j: int| 0 <= j < i ==> #[trigger] name@[j] != ':',
            forall|j: int| 0 <= j < i ==> !#[trigger] parent_component_at(name@, j),
        decreases n - i,
    {
        let c = name.get_char(i);
        if c == ':' {
            return false;
        }
        if c == '.' && i + 1 < n && name.get_char(i + 1) == '.' {
            let starts = i == 0 || {
                let p = name.get_char(i - 1);
                p == '/' || p == '\\'
            };
            let ends = i + 2 == n || {
                let q = name.get_char(i + 2);
                q == '/' || q == '\\'
            };
            if starts && ends {
                assert(parent_component_at(name@, i as int));
                return false;
            }
        }
        assert(!parent_component_at(name@, i as int));
        i = i + 1;
    }
    assert forall|j: int| !#[trigger] parent_component_at(name@, j) by {
        if 0 <= j < n {
        }
    }
    true
}

/// What to do with the entry `name` of kind `kind` when unpacking into
/// `dest`: symbolic links are left out, an unsafe name refuses the archive,
/// and anything else lands at `dest` joined with its name.
pub fn plan_entry(dest: &str, name: &str, kind: EntryKind) -> (r: EntryPlan)
    ensures
        r@ == entry_plan_of(dest@, name@, kind),
{
    if kind == EntryKind::Symlink {
        EntryPlan::Skip
    } else if !is_safe_entry_name(name) {
        EntryPlan::Reject
    } else if kind == EntryKind::Directory {
        EntryPlan::CreateDir(join_path(dest, name))
    } else {
        EntryPlan::WriteFile(join_path(dest, name))
    }
}

} // verus!
