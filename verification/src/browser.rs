//! The directory browser's navigation state. Listing a directory is the
//! caller's business; moving through the listing, entering a directory
//! and walking up the path are decided and verified here.

use vstd::prelude::*;
use vstd::string::{StrSliceExecFns, StringExecFns};
use crate::text::{
    spec_after_last_sep, base_name, substring_copy, str_eq,
};
use crate::project::{spec_str_le, str_le, lemma_str_le_total, lemma_str_le_trans};

verus! {

/// One entry of a directory listing.
pub struct DirEntry {
    pub name: String,
    pub path: String,
    pub is_dir: bool,
    pub has_package_json: bool,
}

/// The parent directory of a path without trailing separator: everything
/// before the last separator, the root itself for a first-level entry,
/// nothing for a separator-free or root path.
pub open spec fn spec_parent_dir(s: Seq<char>) -> Option<Seq<char>> {
    let cut = spec_after_last_sep(s);
    if cut == 0 {
        None
    } else if cut == 1 {
        if s.len() > 1 {
            Some(s.subrange(0, 1))
        } else {
            None
        }
    } else {
        Some(s.subrange(0, cut - 1))
    }
}

/// The parent directory of `s`, when it has one.
pub fn parent_dir(s: &str) -> (r: Option<String>)
    ensures
        (r matches Some(p) ==> spec_parent_dir(s@) == Some(p@)),
        r is None ==> spec_parent_dir(s@) is None,
{
    let n: usize = s.unicode_len();
    let base = base_name(s);
    let base_len: usize = base.as_str().unicode_len();
    proof {
        lemma_after_last_sep_fits(s@);
        assert(base_len == n - spec_after_last_sep(s@));
    }
    let cut: usize = n - base_len;
    if cut == 0 {
        None
    } else if cut == 1 {
        if n > 1 {
            Some(substring_copy(s, 0, 1))
        } else {
            None
        }
    } else {
        Some(substring_copy(s, 0, cut - 1))
    }
}

pub(crate) proof fn lemma_after_last_sep_fits(s: Seq<char>)
    ensures
        0 <= spec_after_last_sep(s) <= s.len(),
    decreases s.len(),
{
    if s.len() != 0 && !(s[s.len() - 1] == '/' || s[s.len() - 1] == '\\') {
        lemma_after_last_sep_fits(s.subrange(0, s.len() - 1));
    }
}

/// Whether the path is a Windows drive root such as a two- or
/// three-character path with a colon in second place.
pub fn is_drive_root(path: &str) -> (r: bool)
    ensures
        r == (path@.len() >= 2 && path@.len() <= 3 && path@[1] == ':'),
{
    let n: usize = path.unicode_len();
    if n < 2 || n > 3 {
        return false;
    }
    path.get_char(1) == ':'
}

/// Entries sorted by name in character-code order.
pub open spec fn spec_entries_sorted(s: Seq<DirEntry>) -> bool {
    forall|i: int, j: int|
        0 <= i < j < s.len() ==> spec_str_le((#[trigger] s[i]).name@, (#[trigger] s[j]).name@)
}

/// The directory browser: the directory being browsed, its listing, and
/// the selection.
pub struct DirectoryBrowser {
    /// The directory whose listing is shown.
    pub current_dir: String,
    /// The listing: a parent entry first when one was given, then the
    /// subdirectories.
    pub entries: Vec<DirEntry>,
    /// The selected row.
    pub selected_idx: usize,
    /// Whether hidden directories are listed.
    pub show_hidden: bool,
    /// Whether the browser is choosing among drives instead of
    /// directories.
    pub in_drive_selection: bool,
}

impl DirectoryBrowser {
    /// A browser opened on the given directory; the listing starts empty
    /// until the caller supplies it.
    pub fn with_dir(dir: String) -> (r: Self)
        ensures
            r.current_dir == dir,
            r.entries@.len() == 0,
            r.selected_idx == 0,
            r.show_hidden == false,
            r.in_drive_selection == false,
    {
        DirectoryBrowser {
            current_dir: dir,
            entries: Vec::new(),
            selected_idx: 0,
            show_hidden: false,
            in_drive_selection: false,
        }
    }

    /// Installs a fresh listing: the parent entry first when one is
    /// given, then the subdirectories sorted by name; the selection
    /// returns to the top.
    pub fn set_listing(&mut self, dirs: Vec<DirEntry>, parent: Option<DirEntry>)
        ensures
            final(self).current_dir == old(self).current_dir,
            final(self).show_hidden == old(self).show_hidden,
            final(self).in_drive_selection == old(self).in_drive_selection,
            final(self).selected_idx == 0,
            (parent matches Some(p) ==> final(self).entries@.len() == dirs@.len() + 1 && final(self).entries@[0] == p && spec_entries_sorted(final(self).entries@.drop_first())),
            parent is None ==> final(self).entries@.len() == dirs@.len() && spec_entries_sorted(
                final(self).entries@,
            ),
    {
        let mut listing: Vec<DirEntry> = Vec::new();
        let ghost total = dirs@.len();
        let mut dirs = dirs;
        while dirs.len() > 0
            invariant
                spec_entries_sorted(listing@),
                listing@.len() + dirs@.len() == total,
            decreases dirs@.len(),
        {
            let next = dirs.pop();
            if let Some(e) = next {
                insert_entry_sorted(&mut listing, e);
            }
        }
        match parent {
            Some(p) => {
                let ghost before = listing@;
                listing.insert(0, p);
                proof {
                    assert(listing@[0] == p);
                    assert(listing@.drop_first() =~= before);
                }
            },
            None => {},
        }
        self.entries = listing;
        self.selected_idx = 0;
    }

    /// Enters the selected entry when it is a directory: the parent row
    /// walks up, any other directory becomes the current one. True means
    /// the caller must list the (new) current directory and hand the
    /// listing back.
    pub fn enter_selected(&mut self) -> (r: bool)
        ensures
            final(self).show_hidden == old(self).show_hidden,
            !r ==> *final(self) == *old(self),
    {
        if self.selected_idx >= self.entries.len() {
            return false;
        }
        let is_dir: bool = self.entries[self.selected_idx].is_dir;
        if !is_dir {
            return false;
        }
        let is_parent_row: bool = str_eq(self.entries[self.selected_idx].name.as_str(), "..");
        if is_parent_row {
            self.go_up()
        } else {
            let path = String::from_str(self.entries[self.selected_idx].path.as_str());
            self.current_dir = path;
            self.in_drive_selection = false;
            self.entries = Vec::new();
            self.selected_idx = 0;
            true
        }
    }

    /// Walks up one directory: at a drive root it switches to drive
    /// selection, otherwise it moves to the parent when there is one.
    /// True means the caller must supply a fresh listing.
    pub fn go_up(&mut self) -> (r: bool)
        ensures
            final(self).show_hidden == old(self).show_hidden,
            old(self).in_drive_selection ==> (*final(self) == *old(self) && r == false),
            !r ==> *final(self) == *old(self),
    {
        if self.in_drive_selection {
            return false;
        }
        if is_drive_root(self.current_dir.as_str()) {
            self.in_drive_selection = true;
            self.entries = Vec::new();
            self.selected_idx = 0;
            return true;
        }
        match parent_dir(self.current_dir.as_str()) {
            Some(p) => {
                self.current_dir = p;
                self.entries = Vec::new();
                self.selected_idx = 0;
                true
            },
            None => false,
        }
    }

    /// Moves the selection down, wrapping around.
    pub fn select_next(&mut self)
        ensures
            final(self).entries == old(self).entries,
            final(self).current_dir == old(self).current_dir,
            old(self).entries@.len() == 0 ==> final(self).selected_idx == old(self).selected_idx,
            old(self).entries@.len() > 0 ==> final(self).selected_idx == ((old(self).selected_idx
                + 1) as int % old(self).entries@.len() as int),
    {
        if self.entries.len() > 0 {
            let len: usize = self.entries.len();
            let cur: usize = self.selected_idx % len;
            let next: usize = if cur + 1 == len {
                0
            } else {
                cur + 1
            };
            proof {
                vstd::arithmetic::div_mod::lemma_add_mod_noop(
                    self.selected_idx as int,
                    1int,
                    len as int,
                );
                vstd::arithmetic::div_mod::lemma_mod_self_0(len as int);
                if len > 1 {
                    vstd::arithmetic::div_mod::lemma_small_mod(1nat, len as nat);
                }
                if cur + 1 < len {
                    vstd::arithmetic::div_mod::lemma_small_mod((cur + 1) as nat, len as nat);
                }
                assert(next == (self.selected_idx + 1) as int % len as int);
            }
            self.selected_idx = next;
        }
    }

    /// Moves the selection up, wrapping around.
    pub fn select_prev(&mut self)
        ensures
            final(self).entries == old(self).entries,
            final(self).current_dir == old(self).current_dir,
            old(self).entries@.len() == 0 ==> final(self).selected_idx == old(self).selected_idx,
            old(self).entries@.len() > 0 && old(self).selected_idx == 0 ==> final(self).selected_idx == old(self).entries@.len() - 1,
            old(self).entries@.len() > 0 && old(self).selected_idx > 0 ==> final(self).selected_idx
                == old(self).selected_idx - 1,
    {
        if self.entries.len() > 0 {
            if self.selected_idx == 0 {
                self.selected_idx = self.entries.len() - 1;
            } else {
                self.selected_idx = self.selected_idx - 1;
            }
        }
    }

    /// Moves the selection several rows up, saturating at the top.
    pub fn scroll_up(&mut self, lines: usize)
        ensures
            final(self).entries == old(self).entries,
            old(self).entries@.len() == 0 ==> final(self).selected_idx == old(self).selected_idx,
            old(self).entries@.len() > 0 ==> final(self).selected_idx == (if old(self).selected_idx >= lines {
                old(self).selected_idx - lines
            } else {
                0
            }),
    {
        if self.entries.len() > 0 {
            if self.selected_idx >= lines {
                self.selected_idx = self.selected_idx - lines;
            } else {
                self.selected_idx = 0;
            }
        }
    }

    /// Moves the selection several rows down, stopping at the last row.
    pub fn scroll_down(&mut self, lines: usize)
        ensures
            final(self).entries == old(self).entries,
            old(self).entries@.len() == 0 ==> final(self).selected_idx == old(self).selected_idx,
            old(self).entries@.len() > 0 ==> final(self).selected_idx == (if old(self).selected_idx + lines < old(self).entries@.len() {
                old(self).selected_idx + lines
            } else {
                (old(self).entries@.len() - 1) as int
            }),
    {
        if self.entries.len() > 0 {
            let max_idx: usize = self.entries.len() - 1;
            if lines < max_idx && self.selected_idx < max_idx - lines {
                self.selected_idx = self.selected_idx + lines;
            } else {
                self.selected_idx = max_idx;
            }
        }
    }

    /// Flips the hidden-directory filter; the caller must list again.
    pub fn toggle_hidden(&mut self) -> (r: bool)
        ensures
            final(self).show_hidden == !old(self).show_hidden,
            final(self).current_dir == old(self).current_dir,
            final(self).in_drive_selection == old(self).in_drive_selection,
            r == true,
    {
        self.show_hidden = !self.show_hidden;
        self.entries = Vec::new();
        self.selected_idx = 0;
        true
    }

    /// The selected entry, when the selection is in range.
    pub fn selected_entry(&self) -> (r: Option<&DirEntry>)
        ensures
            self.selected_idx < self.entries@.len() ==> r == Some(
                &self.entries@[self.selected_idx as int],
            ),
            self.selected_idx >= self.entries@.len() ==> r is None,
    {
        if self.selected_idx < self.entries.len() {
            Some(&self.entries[self.selected_idx])
        } else {
            None
        }
    }
}

fn insert_entry_sorted(v: &mut Vec<DirEntry>, e: DirEntry)
    requires
        spec_entries_sorted(old(v)@),
    ensures
        spec_entries_sorted(final(v)@),
        final(v)@.len() == old(v)@.len() + 1,
{
    let n: usize = v.len();
    let mut idx: usize = 0;
    let mut found: bool = false;
    while idx < n && !found
        invariant
            n == v@.len(),
            idx <= n,
            spec_entries_sorted(v@),
            forall|j: int| 0 <= j < idx ==> spec_str_le((#[trigger] v@[j]).name@, e.name@),
            found ==> idx < n && spec_str_le(e.name@, v@[idx as int].name@),
        decreases n - idx, (if found {
            0int
        } else {
            1int
        }),
    {
        if str_le(e.name.as_str(), v[idx].name.as_str()) {
            found = true;
        } else {
            proof {
                lemma_str_le_total(e.name@, v@[idx as int].name@);
            }
            idx = idx + 1;
        }
    }
    proof {
        let s = v@;
        let t = s.insert(idx as int, e);
        assert forall|i: int, j: int| 0 <= i < j < t.len() implies spec_str_le(
            (#[trigger] t[i]).name@,
            (#[trigger] t[j]).name@,
        ) by {
            if j < idx {
                assert(t[i] == s[i]);
                assert(t[j] == s[j]);
            } else if i < idx && j == idx {
                assert(t[i] == s[i]);
            } else if i == idx && j > idx {
                assert(t[j] == s[j - 1]);
                assert(idx < s.len());
                if j - 1 > idx {
                    lemma_str_le_trans(e.name@, s[idx as int].name@, s[j - 1].name@);
                }
            } else if i < idx && j > idx {
                assert(t[i] == s[i]);
                assert(t[j] == s[j - 1]);
            } else {
                assert(t[i] == s[i - 1]);
                assert(t[j] == s[j - 1]);
            }
        }
    }
    v.insert(idx, e);
}

} // verus!
