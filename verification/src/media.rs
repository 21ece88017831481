//! A reference to a MIDI file, with what loading it revealed.

use std::time::Duration;
use vstd::prelude::*;
use crate::paths::{file_name, path_file_name};
use crate::smf::{check_smf, smf_ok};

verus! {

#[verifier::external_type_specification]
#[verifier::external_body]
pub struct ExSynthMidiFileError(rustysynth::MidiFileError);

/// What rustysynth makes of the bytes of a MIDI file: `None` where
/// `MidiFile::new` refuses them, otherwise the file's length as
/// `Duration::try_from_secs_f64` converts `MidiFile::get_length` (`None` where
/// the length is not a valid duration).
pub uninterp spec fn synth_midi_load(bytes: Seq<u8>) -> Option<Option<Duration>>;

/// `rustysynth::MidiFile::new` on the bytes of a file, then `MidiFile::get_length`
/// converted with `Duration::try_from_secs_f64`.
/// Claimed: the outcome is `synth_midi_load` of the bytes.
/// Required: the bytes are a well-formed standard MIDI file (`smf_ok`), which
/// keeps the call clear of the places where the source panics: the header
/// declares at least one track, so `get_length` finds an event time to read;
/// every chunk length is below 2^31 and every event ends inside its chunk, so
/// no buffer sized from a length field outgrows the file; the tick counts it
/// adds in `i32` stay within range.
#[verifier::external_body]
fn load_synth_midi(bytes: &[u8]) -> (r: Result<Option<Duration>, rustysynth::MidiFileError>)
    requires
        smf_ok(bytes@, false),
    ensures
        match r {
            Ok(length) => synth_midi_load(bytes@) == Some(length),
            Err(_) => synth_midi_load(bytes@) is None,
        },
{
    match rustysynth::MidiFile::new(&mut std::io::Cursor::new(bytes)) {
        Ok(file) => Ok(Duration::try_from_secs_f64(file.get_length()).ok()),
        Err(e) => Err(e),
    }
}

/// What loading `contents` leaves in a reference: the error flag and no length
/// for bytes that are no well-formed standard MIDI file or that rustysynth
/// refuses; no error flag and the file's length for bytes that load.
pub open spec fn load_outcome(m: MidiMeta, contents: Seq<u8>) -> bool {
    if !smf_ok(contents, false) {
        m.spec_error() && m.spec_duration() is None
    } else {
        match synth_midi_load(contents) {
            None => m.spec_error() && m.spec_duration() is None,
            Some(length) => !m.spec_error() && m.spec_duration() == length,
        }
    }
}

/// Reference to a midi file with metadata
#[derive(Debug)]
pub struct MidiMeta {
    filepath: String,
    duration: Option<Duration>,
    error: bool,
}

impl MidiMeta {
    /// The file's path.
    pub closed spec fn path(&self) -> Seq<char> {
        self.filepath@
    }

    /// The playback length found when the file was last loaded.
    pub closed spec fn spec_duration(&self) -> Option<Duration> {
        self.duration
    }

    /// Whether the file could be read but did not load as MIDI.
    pub closed spec fn spec_error(&self) -> bool {
        self.error
    }

    /// What `refresh` leaves behind: unreadable contents (`None`) change nothing;
    /// readable ones leave what loading them gives.
    pub open spec fn refreshed(old: MidiMeta, new: MidiMeta, contents: Option<Seq<u8>>) -> bool {
        &&& new.path() == old.path()
        &&& match contents {
            None => new.spec_duration() == old.spec_duration() && new.spec_error() == old.spec_error(),
            Some(bytes) => load_outcome(new, bytes),
        }
    }

    /// A reference to the file at `filepath`, loaded from `contents`: the file's
    /// bytes, or `None` where it could not be read.
    pub fn new(filepath: String, contents: Option<&[u8]>) -> (r: MidiMeta)
        ensures
            r.path() == filepath@,
            match contents {
                None => r.spec_duration() is None && !r.spec_error(),
                Some(bytes) => load_outcome(r, bytes@),
            },
    {
        let mut this = MidiMeta { filepath, duration: None, error: false };
        this.refresh(contents);
        this
    }

    /// Metadata as it was stored before: path, length and error flag.
    pub fn from_parts(filepath: String, duration: Option<Duration>, error: bool) -> (r: MidiMeta)
        ensures
            r.path() == filepath@,
            r.spec_duration() == duration,
            r.spec_error() == error,
    {
        MidiMeta { filepath, duration, error }
    }

    /// Reloads the metadata from `contents`, the file's bytes (`None`: unreadable).
    pub fn refresh(&mut self, contents: Option<&[u8]>)
        ensures
            MidiMeta::refreshed(
                *old(self),
                *final(self),
                match contents { Some(b) => Some(b@), None => None },
            ),
    {
        if let Some(bytes) = contents {
            if !check_smf(bytes, false) {
                self.duration = None;
                self.error = true;
                return;
            }
            match load_synth_midi(bytes) {
                Ok(length) => {
                    self.duration = length;
                    self.error = false;
                },
                Err(_) => {
                    self.duration = None;
                    self.error = true;
                },
            }
        }
    }

    /// A copy of this reference.
    pub fn duplicate(&self) -> (r: MidiMeta)
        ensures
            r.path() == self.path(),
            r.spec_duration() == self.spec_duration(),
            r.spec_error() == self.spec_error(),
    {
        MidiMeta { filepath: self.filepath.clone(), duration: self.duration, error: self.error }
    }

    /// The file's path.
    pub fn get_path(&self) -> (r: String)
        ensures
            r@ == self.path(),
    {
        self.filepath.clone()
    }

    /// The file's name: the last component of its path.
    pub fn get_name(&self) -> (r: String)
        requires
            path_file_name(self.path()) is Some,
        ensures
            path_file_name(self.path()) == Some(r@),
    {
        match file_name(self.filepath.as_str()) {
            Some(name) => name,
            None => {
                assert(false);
                String::new()
            },
        }
    }

    /// The file's name, or `None` where its path has no final component.
    pub fn try_get_name(&self) -> (r: Option<String>)
        ensures
            match r {
                Some(n) => path_file_name(self.path()) == Some(n@),
                None => path_file_name(self.path()) is None,
            },
    {
        match file_name(self.filepath.as_str()) {
            Some(_) => Some(self.get_name()),
            None => None,
        }
    }

    /// The playback length, if the file loaded.
    pub fn get_duration(&self) -> (r: Option<Duration>)
        ensures
            r == self.spec_duration(),
    {
        self.duration
    }

    /// Whether the file was readable but failed to load.
    pub fn has_error(&self) -> (r: bool)
        ensures
            r == self.spec_error(),
    {
        self.error
    }
}

} // verus!
