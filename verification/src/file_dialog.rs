//! The PRG file-selection dialog's state machine.
//!
//! The dialog owns a current directory, a listing of entries (names with
//! a directory flag), a selection index and a visibility flag. The host
//! scans the file system and hands each listing in through
//! [`FileDialog::set_entries`]; the dialog itself only decides: it moves
//! the selection, enters directories, walks back up, and picks `.prg`
//! files. After a call that changes the current directory the listing is
//! empty and the host supplies the new one.

use vstd::prelude::*;

verus! {

/// A `.prg` name: at least four characters, ending in `.prg`.
pub open spec fn is_prg_name(name: Seq<char>) -> bool {
    name.len() >= 4 && name[name.len() - 4] == '.' && name[name.len() - 3] == 'p' && name[
        name.len() - 2] == 'r' && name[name.len() - 1] == 'g'
}

/// The index of the last path separator in `s`, or -1 if there is none.
pub open spec fn last_slash(s: Seq<char>) -> int
    decreases s.len(),
{
    if s.len() == 0 {
        -1
    } else if s[s.len() - 1] == '/' {
        s.len() - 1
    } else {
        last_slash(s.drop_last())
    }
}

/// The parent of a directory path: the text before the last separator,
/// or the empty path when there is no separator.
pub open spec fn parent_dir(s: Seq<char>) -> Seq<char> {
    if last_slash(s) >= 0 {
        s.subrange(0, last_slash(s))
    } else {
        s.subrange(0, 0)
    }
}

/// A separator with nothing but non-separators after it is the last one.
proof fn lemma_last_slash_found(s: Seq<char>, k: int)
    requires
        0 <= k < s.len(),
        s[k] == '/',
        forall|j: int| k < j < s.len() ==> s[j] != '/',
    ensures
        last_slash(s) == k,
    decreases s.len(),
{
    if k < s.len() - 1 {
        lemma_last_slash_found(s.drop_last(), k);
    }
}

/// A path without separators has no last one.
proof fn lemma_last_slash_none(s: Seq<char>)
    requires
        forall|j: int| 0 <= j < s.len() ==> s[j] != '/',
    ensures
        last_slash(s) == -1,
    decreases s.len(),
{
    if s.len() > 0 {
        lemma_last_slash_none(s.drop_last());
    }
}

/// File-selection dialog state.
pub struct FileDialog {
    pub current_dir: String,
    pub entries: Vec<String>,
    pub entry_is_dir: Vec<bool>,
    pub selected_index: usize,
    pub visible: bool,
}

impl FileDialog {
    /// Well-formedness: each entry has its directory flag, and the
    /// selection stays inside the listing (at 0 when the listing is
    /// empty).
    pub open spec fn wf(&self) -> bool {
        self.entries@.len() == self.entry_is_dir@.len() && (if self.entries@.len() == 0 {
            self.selected_index == 0
        } else {
            self.selected_index < self.entries@.len()
        })
    }

    /// A hidden dialog over the given directory with an empty listing.
    pub fn new(default_dir: &str) -> (r: FileDialog)
        ensures
            r.wf(),
            r.current_dir@ == default_dir@,
            r.entries@.len() == 0,
            r.entry_is_dir@.len() == 0,
            r.selected_index == 0,
            !r.visible,
    {
        FileDialog {
            current_dir: default_dir.to_owned(),
            entries: Vec::new(),
            entry_is_dir: Vec::new(),
            selected_index: 0,
            visible: false,
        }
    }

    /// Whether the dialog is shown.
    pub fn is_visible(&self) -> (r: bool)
        ensures
            r == self.visible,
    {
        self.visible
    }

    /// Shows the dialog. The host refreshes the listing afterwards.
    pub fn show(&mut self)
        ensures
            *final(self) == (FileDialog { visible: true, ..*old(self) }),
    {
        self.visible = true;
    }

    /// Hides the dialog.
    pub fn hide_dialog(&mut self)
        ensures
            *final(self) == (FileDialog { visible: false, ..*old(self) }),
    {
        self.visible = false;
    }

    /// Moves the selection up one entry, stopping at the top.
    pub fn move_selection_up(&mut self)
        ensures
            old(self).selected_index > 0 ==> *final(self) == (FileDialog {
                selected_index: (old(self).selected_index - 1) as usize,
                ..*old(self)
            }),
            old(self).selected_index == 0 ==> *final(self) == *old(self),
    {
        if self.selected_index > 0 {
            self.selected_index = self.selected_index - 1;
        }
    }

    /// Moves the selection down one entry, stopping at the bottom.
    pub fn move_selection_down(&mut self)
        requires
            old(self).wf(),
        ensures
            final(self).wf(),
            old(self).entries@.len() > 0 && old(self).selected_index + 1 < old(self).entries@.len() ==> *final(self) == (FileDialog {
                selected_index: (old(self).selected_index + 1) as usize,
                ..*old(self)
            }),
            old(self).entries@.len() == 0 || old(self).selected_index + 1 >= old(self).entries@.len() ==> *final(self) == *old(self),
    {
        if self.entries.len() > 0 && self.selected_index < self.entries.len() - 1 {
            self.selected_index = self.selected_index + 1;
        }
    }

    /// Replaces the listing. Each name in `names` pairs with the flag in
    /// `dirs` saying whether it is a directory. A selection past the new
    /// listing's end is clamped to its last entry.
    pub fn set_entries(&mut self, names: Vec<String>, dirs: Vec<bool>)
        requires
            names@.len() == dirs@.len(),
        ensures
            final(self).wf(),
            final(self).current_dir == old(self).current_dir,
            final(self).visible == old(self).visible,
            final(self).entries == names,
            final(self).entry_is_dir == dirs,
            final(self).selected_index == (if old(self).selected_index < names@.len() {
                old(self).selected_index as int
            } else if names@.len() == 0 {
                0
            } else {
                names@.len() - 1
            }),
    {
        self.entries = names;
        self.entry_is_dir = dirs;
        if self.selected_index >= self.entries.len() {
            self.selected_index = if self.entries.len() == 0 {
                0
            } else {
                self.entries.len() - 1
            };
        }
    }

    /// Acts on the selected entry. A directory becomes the current
    /// directory (with the listing emptied for the host to refill) and
    /// nothing is returned; a `.prg` file hides the dialog and returns
    /// its full path; anything else is ignored.
    pub fn select_current(&mut self) -> (r: Option<String>)
        requires
            old(self).wf(),
        ensures
            final(self).wf(),
            old(self).entries@.len() == 0 ==> (r is None) && *final(self) == *old(self),
            ({
                let n = old(self).entries@.len();
                let sel = old(self).selected_index as int;
                let joined = old(self).current_dir@ + "/"@ + old(self).entries@[sel]@;
                &&& (n > 0 && old(self).entry_is_dir@[sel]) ==> (r is None) && final(self).current_dir@ == joined && final(self).selected_index == 0 && final(self).entries@.len() == 0 && final(self).entry_is_dir@.len() == 0 && final(self).visible
                    == old(self).visible
                &&& (n > 0 && !old(self).entry_is_dir@[sel] && is_prg_name(
                    old(self).entries@[sel]@,
                )) ==> (r is Some) && r->Some_0@ == joined && !final(self).visible && final(self).current_dir == old(self).current_dir && final(self).entries == old(self).entries
                    && final(self).entry_is_dir == old(self).entry_is_dir && final(self).selected_index == old(self).selected_index
                &&& (n > 0 && !old(self).entry_is_dir@[sel] && !is_prg_name(
                    old(self).entries@[sel]@,
                )) ==> (r is None) && *final(self) == *old(self)
            }),
    {
        if self.entries.len() == 0 {
            return None;
        }
        let sel = self.selected_index;
        let name = self.entries[sel].clone();
        let mut path = self.current_dir.clone();
        path.append("/");
        path.append(name.as_str());
        if self.entry_is_dir[sel] {
            self.current_dir = path;
            self.selected_index = 0;
            self.entries = Vec::new();
            self.entry_is_dir = Vec::new();
            None
        } else if name_is_prg(name.as_str()) {
            self.hide_dialog();
            Some(path)
        } else {
            None
        }
    }

    /// Steps to the parent directory: the text before the last path
    /// separator (empty when there is none), with the listing emptied
    /// for the host to refill. An empty current directory has no parent
    /// and nothing changes.
    pub fn go_up(&mut self)
        requires
            old(self).wf(),
        ensures
            final(self).wf(),
            old(self).current_dir@.len() == 0 ==> *final(self) == *old(self),
            old(self).current_dir@.len() > 0 ==> final(self).current_dir@ == parent_dir(
                old(self).current_dir@,
            ) && final(self).selected_index == 0 && final(self).entries@.len() == 0 && final(self).entry_is_dir@.len() == 0 && final(self).visible == old(self).visible,
    {
        let n = self.current_dir.as_str().unicode_len();
        if n == 0 {
            return ;
        }
        let mut j: usize = 0;
        let mut cut: usize = 0;
        let mut found: bool = false;
        while j < n
            invariant
                n == self.current_dir@.len(),
                j <= n,
                !found ==> cut == 0 && (forall|k: int|
                    0 <= k < j ==> self.current_dir@[k] != '/'),
                found ==> 0 <= cut < j && self.current_dir@[cut as int] == '/' && (forall|k: int|
                    cut < k < j ==> self.current_dir@[k] != '/'),
            decreases n - j,
        {
            let c = self.current_dir.as_str().get_char(j);
            if c == '/' {
                cut = j;
                found = true;
            }
            j = j + 1;
        }
        proof {
            if found {
                lemma_last_slash_found(self.current_dir@, cut as int);
            } else {
                lemma_last_slash_none(self.current_dir@);
            }
        }
        let parent = self.current_dir.as_str().substring_char(0, cut).to_owned();
        self.current_dir = parent;
        self.selected_index = 0;
        self.entries = Vec::new();
        self.entry_is_dir = Vec::new();
    }

    /// The directory the listing describes.
    pub fn current_dir(&self) -> (r: &str)
        ensures
            r@ == self.current_dir@,
    {
        self.current_dir.as_str()
    }

    /// The listed entry names.
    pub fn entries(&self) -> (r: &[String])
        ensures
            r@ == self.entries@,
    {
        self.entries.as_slice()
    }

    /// The index of the selected entry.
    pub fn selected_index(&self) -> (r: usize)
        ensures
            r == self.selected_index,
    {
        self.selected_index
    }
}

/// Whether a file name ends in `.prg`.
fn name_is_prg(s: &str) -> (r: bool)
    ensures
        r == is_prg_name(s@),
{
    let n = s.unicode_len();
    if n < 4 {
        return false;
    }
    let c1 = s.get_char(n - 4);
    let c2 = s.get_char(n - 3);
    let c3 = s.get_char(n - 2);
    let c4 = s.get_char(n - 1);
    c1 == '.' && c2 == 'p' && c3 == 'r' && c4 == 'g'
}

} // verus!
