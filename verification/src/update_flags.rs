//! Requests raised while a frame is drawn and acted on at its end.

use vstd::prelude::*;

verus! {

/// Frame update flags. Acted on and cleared at the end of frame update.
pub struct UpdateFlags {
    pub scroll_to_song: bool,
    /// Path of a MIDI file to open in the inspector.
    pub open_midi_inspector: Option<String>,
    pub close_midi_inspector: bool,
}

impl UpdateFlags {
    /// No request raised.
    pub open spec fn is_clear(&self) -> bool {
        &&& !self.scroll_to_song
        &&& self.open_midi_inspector is None
        &&& !self.close_midi_inspector
    }

    pub fn clear(&mut self)
        ensures
            final(self).is_clear(),
    {
        self.scroll_to_song = false;
        self.open_midi_inspector = None;
        self.close_midi_inspector = false;
    }
}

impl Default for UpdateFlags {
    fn default() -> (r: UpdateFlags)
        ensures
            r.is_clear(),
    {
        UpdateFlags { scroll_to_song: false, open_midi_inspector: None, close_midi_inspector: false }
    }
}

} // verus!
