//! The console, the pad button and the status switch.

use vstd::prelude::*;
use crate::text::{decimal, decimal_string};

verus! {

/// A release anywhere lets go of the pad, not only one over the pad.
pub const RELEASE_ANYWHERE: bool = true;

/// A scrolling list of messages, with the number of messages it shows.
pub struct DebugConsole {
    pub n_items: usize,
    pub msgs: Vec<String>,
}

/// What the user interface knows of a file dropped on it.
pub struct DroppedFileInfo {
    pub name: String,
    pub mime: String,
    pub path: String,
}

/// The text of a message list.
pub open spec fn texts(msgs: Seq<String>) -> Seq<Seq<char>> {
    msgs.map_values(|m: String| m@)
}

/// The console line for the dropped file number `idx`.
pub open spec fn file_line(idx: nat, f: DroppedFileInfo) -> Seq<char> {
    "file "@ + decimal(idx) + ": "@ + f.name@ + " - Mime: "@ + f.mime@ + ", Filepath: "@ + f.path@
}

/// The console lines for the first `n` of the dropped `files`.
pub open spec fn file_lines(files: Seq<DroppedFileInfo>, n: nat) -> Seq<Seq<char>>
    decreases n,
{
    if n == 0 {
        Seq::empty()
    } else {
        file_lines(files, (n - 1) as nat).push(file_line((n - 1) as nat, files[n - 1]))
    }
}

/// The console lines that a drop of `files` adds: a heading and one line
/// per file, or nothing when no file was dropped.
pub open spec fn drop_report(files: Seq<DroppedFileInfo>) -> Seq<Seq<char>> {
    if files.len() == 0 {
        Seq::empty()
    } else {
        seq!["droped file:"@] + file_lines(files, files.len())
    }
}

/// The console line that a pointer event adds, if any: a press that began
/// on the pad is a click, else a release over the pad is a release.
pub open spec fn pointer_report(pressed_in_pad: bool, released_in_pad: bool) -> Seq<Seq<char>> {
    if pressed_in_pad {
        seq!["clicked"@]
    } else if released_in_pad {
        seq!["released"@]
    } else {
        Seq::empty()
    }
}

impl DebugConsole {
    /// The number of messages matches the list of messages.
    pub open spec fn counted(&self) -> bool {
        self.n_items == self.msgs@.len()
    }

    /// Appends a message; the count then matches the list.
    pub fn add_entry(&mut self, msg: String)
        requires
            old(self).msgs@.len() < usize::MAX,
        ensures
            final(self).msgs@ == old(self).msgs@.push(msg),
            final(self).n_items == final(self).msgs@.len(),
            final(self).counted(),
    {
        self.msgs.push(msg);
        self.n_items = self.msgs.len();
    }

    /// The text of row `row`: its number and its message, as the console
    /// shows them.
    pub fn row_text(&self, row: usize) -> (s: String)
        requires
            row < self.msgs@.len(),
        ensures
            s@ == decimal(row as nat) + " "@ + self.msgs@[row as int]@,
    {
        let mut s = decimal_string(row as u64);
        s.append(" ");
        s.append(self.msgs[row].as_str());
        s
    }

    /// Reports dropped files: a heading, then one line per file with its
    /// number, name, type and path.
    pub fn log_dropped_files(&mut self, files: &Vec<DroppedFileInfo>)
        requires
            old(self).msgs@.len() + files@.len() + 1 < usize::MAX,
        ensures
            texts(final(self).msgs@) == texts(old(self).msgs@) + drop_report(files@),
            final(self).msgs@.len() <= old(self).msgs@.len() + files@.len() + 1,
            files@.len() > 0 ==> final(self).counted(),
            files@.len() == 0 ==> final(self).n_items == old(self).n_items,
    {
        let ghost start = texts(self.msgs@);
        if files.len() == 0 {
            assert(texts(self.msgs@) =~= start + drop_report(files@));
            return;
        }
        self.add_entry(String::from_str("droped file:"));
        assert(texts(self.msgs@) =~= start + seq!["droped file:"@] + file_lines(files@, 0));
        let n = files.len();
        for idx in 0..n
            invariant
                n == files@.len(),
                n > 0,
                self.msgs@.len() == old(self).msgs@.len() + 1 + idx,
                old(self).msgs@.len() + n + 1 < usize::MAX,
                texts(self.msgs@) == start + seq!["droped file:"@] + file_lines(files@, idx as nat),
                self.counted(),
        {
            let file = &files[idx];
            let mut line = String::from_str("file ");
            let number = decimal_string(idx as u64);
            line.append(number.as_str());
            line.append(": ");
            line.append(file.name.as_str());
            line.append(" - Mime: ");
            line.append(file.mime.as_str());
            line.append(", Filepath: ");
            line.append(file.path.as_str());
            assert(line@ == file_line(idx as nat, files@[idx as int]));
            let ghost before = self.msgs@;
            self.add_entry(line);
            assert(texts(self.msgs@) =~= texts(before).push(line@));
        }
    }

    /// Reports a pointer event on the pad: `clicked` for a press that began
    /// on it, else `released` for a release over it.
    pub fn log_pointer(&mut self, pressed_in_pad: bool, released_in_pad: bool)
        requires
            old(self).msgs@.len() + 1 < usize::MAX,
        ensures
            texts(final(self).msgs@) == texts(old(self).msgs@) + pointer_report(
                pressed_in_pad,
                released_in_pad,
            ),
            (pressed_in_pad || released_in_pad) ==> final(self).counted(),
            !(pressed_in_pad || released_in_pad) ==> final(self).n_items == old(self).n_items,
    {
        let ghost start = texts(self.msgs@);
        if pressed_in_pad {
            self.add_entry(String::from_str("clicked"));
        } else if released_in_pad {
            self.add_entry(String::from_str("released"));
        }
        assert(texts(self.msgs@) =~= start + pointer_report(pressed_in_pad, released_in_pad));
    }
}

/// A press that began on the pad holds it and is reported as `clicked`;
/// otherwise any release lets go of it and is reported as `released`.
/// Returns whether the pad is held.
pub fn pad_press_logged(
    console: &mut DebugConsole,
    is_pressed: bool,
    pressed_on_pad: bool,
    button_released: bool,
) -> (pressed: bool)
    requires
        old(console).msgs@.len() + 1 < usize::MAX,
    ensures
        pressed == (if pressed_on_pad {
            true
        } else if button_released {
            false
        } else {
            is_pressed
        }),
        texts(final(console).msgs@) == texts(old(console).msgs@) + pointer_report(
            pressed_on_pad,
            button_released,
        ),
        (pressed_on_pad || button_released) ==> final(console).counted(),
        !(pressed_on_pad || button_released) ==> final(console).n_items == old(console).n_items,
{
    console.log_pointer(pressed_on_pad, button_released);
    if pressed_on_pad {
        true
    } else if button_released {
        false
    } else {
        is_pressed
    }
}

/// Whether the pad is held after this frame's pointer input: a press that
/// began on the pad holds it; otherwise a release, while the pointer is
/// known, lets go of it; otherwise it stays as it was.
pub fn pad_pressed_after(
    is_pressed: bool,
    button_pressed: bool,
    press_on_pad: bool,
    button_released: bool,
    pointer_known: bool,
    release_on_pad: bool,
) -> (pressed: bool)
    ensures
        pressed == (if button_pressed {
            press_on_pad || is_pressed
        } else if button_released && pointer_known && (release_on_pad || RELEASE_ANYWHERE) {
            false
        } else {
            is_pressed
        }),
{
    if button_pressed {
        if press_on_pad {
            true
        } else {
            is_pressed
        }
    } else if button_released && pointer_known && (release_on_pad || RELEASE_ANYWHERE) {
        false
    } else {
        is_pressed
    }
}

/// The status switch after this frame: a click flips it.
pub fn status_after(status: bool, clicked: bool) -> (s: bool)
    ensures
        s == (status != clicked),
{
    if clicked {
        !status
    } else {
        status
    }
}

} // verus!
