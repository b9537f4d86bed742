//! The mock-up window: a pad that can be pressed and takes dropped files,
//! and a console that reports what happened.

use vstd::prelude::*;
use crate::ui::elements::{drop_report, pointer_report, texts, DebugConsole, DroppedFileInfo};

verus! {

/// The state of the mock-up window.
pub struct MockupGUI {
    pub wave_loaded: bool,
    pub pad_button_is_pressed: bool,
    pub console: DebugConsole,
}

impl Default for MockupGUI {
    /// No wave, the pad up and an empty console.
    fn default() -> (g: MockupGUI)
        ensures
            !g.wave_loaded,
            !g.pad_button_is_pressed,
            g.console.n_items == 0,
            g.console.msgs@ == Seq::<String>::empty(),
    {
        MockupGUI { wave_loaded: false, pad_button_is_pressed: false, console: DebugConsole { n_items: 0, msgs: Vec::new() } }
    }
}

impl MockupGUI {
    /// Applies one frame of input. A press that began on the pad holds it,
    /// otherwise any release lets go of it. The console then reports the
    /// dropped files and the click or release over the pad.
    pub fn apply_input(
        &mut self,
        pressed_on_pad: bool,
        button_released: bool,
        released_on_pad: bool,
        dropped: &Vec<DroppedFileInfo>,
    )
        requires
            old(self).console.msgs@.len() + dropped@.len() + 3 < usize::MAX,
        ensures
            final(self).pad_button_is_pressed == (if pressed_on_pad {
                true
            } else if button_released {
                false
            } else {
                old(self).pad_button_is_pressed
            }),
            final(self).wave_loaded == old(self).wave_loaded,
            texts(final(self).console.msgs@) == texts(old(self).console.msgs@) + drop_report(
                dropped@,
            ) + pointer_report(pressed_on_pad, released_on_pad),
            (dropped@.len() > 0 || pressed_on_pad || released_on_pad) ==> final(self).console.counted(),
            !(dropped@.len() > 0 || pressed_on_pad || released_on_pad) ==> final(self).console.n_items
                == old(self).console.n_items,
    {
        if pressed_on_pad {
            self.pad_button_is_pressed = true;
        } else if button_released {
            self.pad_button_is_pressed = false;
        }
        self.console.log_dropped_files(dropped);
        self.console.log_pointer(pressed_on_pad, released_on_pad);
    }
}

} // verus!
