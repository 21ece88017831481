//! A MIDI file opened for inspection: its header and its tracks, each with the
//! track's name where the file gives one.

use vstd::prelude::*;
use crate::smf::{check_smf, smf_ok};

verus! {

#[verifier::external_type_specification]
#[verifier::external_body]
pub struct ExTrack(midi_msg::Track);

#[verifier::external_type_specification]
#[verifier::external_body]
pub struct ExHeader(midi_msg::Header);

#[verifier::external_type_specification]
#[verifier::external_body]
pub struct ExMidiFileParseError(midi_msg::MidiFileParseError);

/// The events of a track, each as the track name it carries: `Some(text)` for a
/// `Meta::TrackName` event, `None` for any other event.
pub uninterp spec fn track_event_names(track: midi_msg::Track) -> Seq<Option<Seq<char>>>;

/// What `midi_msg::MidiFile::from_midi` makes of the given bytes: `None` where it
/// refuses them, otherwise the events of each track as the track names they carry.
pub uninterp spec fn midi_msg_parse(bytes: Seq<u8>) -> Option<Seq<Seq<Option<Seq<char>>>>>;

/// The events of each track, as the track names they carry.
pub open spec fn tracks_event_names(tracks: Seq<midi_msg::Track>) -> Seq<Seq<Option<Seq<char>>>> {
    tracks.map_values(|t: midi_msg::Track| track_event_names(t))
}

/// The texts of optional strings.
pub open spec fn opt_texts(v: Seq<Option<String>>) -> Seq<Option<Seq<char>>> {
    v.map_values(|o: Option<String>| match o { Some(s) => Some(s@), None => None })
}

/// The first track name among the events, if any.
pub open spec fn first_name(names: Seq<Option<Seq<char>>>) -> Option<Seq<char>>
    decreases names.len(),
{
    if names.len() == 0 {
        None
    } else if names[0] is Some {
        names[0]
    } else {
        first_name(names.drop_first())
    }
}

/// `midi_msg::Track::events`, each event handed out as the track name it carries.
/// Claimed: the result lists `track_event_names` of the track.
#[verifier::external_body]
fn event_track_names(track: &midi_msg::Track) -> (r: Vec<Option<String>>)
    ensures
        opt_texts(r@) == track_event_names(*track),
{
    let mut names = Vec::new();
    for trackevent in track.events() {
        names.push(match &trackevent.event {
            midi_msg::MidiMsg::Meta { msg: midi_msg::Meta::TrackName(name) } => Some(name.clone()),
            _ => None,
        });
    }
    names
}

/// The format a standard MIDI file declares in its header.
#[derive(Debug, Clone, Copy, PartialEq, Eq, Structural)]
pub enum SmfFormat {
    /// One track.
    SingleTrack,
    /// Several tracks, played together.
    MultiTrack,
    /// Several tracks, each a song of its own.
    MultiSong,
}

/// The header of a standard MIDI file, as plain values.
#[derive(Debug, Clone, Copy)]
pub struct HeaderInfo {
    pub format: SmfFormat,
    pub num_tracks: u16,
    /// Ticks per quarter note; `None` where the file counts time in frames.
    pub ticks_per_quarter_note: Option<u16>,
}

/// The header that the first 14 bytes of a well-formed standard MIDI file
/// declare: format (byte 9), track count (bytes 10 and 11) and ticks per
/// quarter note (bytes 12 and 13), both big-endian.
pub open spec fn declared_header(b: Seq<u8>) -> HeaderInfo {
    HeaderInfo {
        format: if b[9] == 0 { SmfFormat::SingleTrack } else { SmfFormat::MultiTrack },
        num_tracks: (b[10] * 256 + b[11]) as u16,
        ticks_per_quarter_note: Some((b[12] * 256 + b[13]) as u16),
    }
}

/// `midi_msg::MidiFile::from_midi`, with the file taken apart into header and
/// tracks, and the header's fields copied out as plain values.
/// Claimed: it fails exactly where `midi_msg_parse` is `None`; otherwise the
/// tracks carry the track names `midi_msg_parse` gives, and the header's fields
/// are those the header bytes declare (`Header::parse_midi_file` reads the
/// format from byte 9, the track count from bytes 10 and 11, and, the top bit
/// of byte 12 being clear, ticks per quarter note from bytes 12 and 13).
/// Required: the bytes are a well-formed standard MIDI file with none of
/// system-exclusive events, running status, or delta times starting with a
/// byte of 0xF0 or above (`smf_ok` with `plain`), which keeps the call clear of
/// the places where the source panics: chunk and meta lengths lie within the
/// data, the system-exclusive decoders (whose slices can run past the data)
/// are never reached, and the look-ahead that joins a channel message with the
/// next one meets a delta time it reads as a failing or unrelated message.
#[verifier::external_body]
fn parse_midi_msg(bytes: &[u8]) -> (r: Result<
    (midi_msg::Header, HeaderInfo, Vec<midi_msg::Track>),
    midi_msg::MidiFileParseError,
>)
    requires
        smf_ok(bytes@, true),
    ensures
        match r {
            Ok((_, info, tracks)) => {
                &&& midi_msg_parse(bytes@) == Some(tracks_event_names(tracks@))
                &&& info == declared_header(bytes@)
            },
            Err(_) => midi_msg_parse(bytes@) is None,
        },
{
    let file = midi_msg::MidiFile::from_midi(bytes)?;
    let format = match file.header.format {
        midi_msg::SMFFormat::SingleTrack => SmfFormat::SingleTrack,
        midi_msg::SMFFormat::MultiTrack => SmfFormat::MultiTrack,
        midi_msg::SMFFormat::MultiSong => SmfFormat::MultiSong,
    };
    let ticks_per_quarter_note = match file.header.division {
        midi_msg::Division::TicksPerQuarterNote(t) => Some(t),
        midi_msg::Division::TimeCode { .. } => None,
    };
    let info = HeaderInfo { format, num_tracks: file.header.num_tracks, ticks_per_quarter_note };
    Ok((file.header, info, file.tracks))
}

/// The name a track gives itself: the text of its first `TrackName` event.
pub fn get_track_name(track: &midi_msg::Track) -> (r: Option<String>)
    ensures
        opt_texts(seq![r])[0] == first_name(track_event_names(*track)),
{
    let names = event_track_names(track);
    assert(opt_texts(names@).skip(0) =~= opt_texts(names@));
    let mut i: usize = 0;
    while i < names.len()
        invariant
            i <= names.len(),
            opt_texts(names@) == track_event_names(*track),
            forall|j: int| 0 <= j < i ==> names@[j] is None,
            first_name(track_event_names(*track)) == first_name(opt_texts(names@).skip(i as int)),
        decreases names.len() - i,
    {
        let ghost rest = opt_texts(names@).skip(i as int);
        assert(rest.drop_first() =~= opt_texts(names@).skip(i + 1));
        assert(rest[0] == opt_texts(names@)[i as int]);
        if let Some(name) = &names[i] {
            return Some(name.clone());
        }
        i += 1;
    }
    assert(opt_texts(names@).skip(i as int).len() == 0);
    None
}

pub struct MidiInspectorTrack {
    pub track: midi_msg::Track,
    pub open: bool,
    pub name: Option<String>,
}

impl MidiInspectorTrack {
    pub fn new(track: midi_msg::Track) -> (r: MidiInspectorTrack)
        ensures
            r.track == track,
            !r.open,
            opt_texts(seq![r.name])[0] == first_name(track_event_names(track)),
    {
        let name = get_track_name(&track);
        MidiInspectorTrack { track, open: false, name }
    }
}

/// The views the inspector offers.
#[derive(Debug, PartialEq, Eq, Structural)]
pub enum MidiInspectorTab {
    EventBrowser,
    PresetMapper,
}

impl Default for MidiInspectorTab {
    fn default() -> (r: MidiInspectorTab)
        ensures
            r == MidiInspectorTab::EventBrowser,
    {
        MidiInspectorTab::EventBrowser
    }
}

/// Why a file could not be opened for inspection.
pub enum InspectorError {
    /// The bytes are not a standard MIDI file the decoder accepts.
    InvalidMidi,
    /// The file is not a well-formed standard MIDI file free of system-exclusive
    /// events, running status and delta times starting with a byte of 0xF0 or above.
    Unsupported,
}

pub struct MidiInspector {
    pub filepath: String,
    pub header: midi_msg::Header,
    /// The header's fields, as plain values.
    pub header_info: HeaderInfo,
    pub tracks: Vec<MidiInspectorTrack>,
}

impl MidiInspector {
    /// Opens the MIDI file at `filepath`, whose bytes are `bytes`, for inspection.
    pub fn new(filepath: &str, bytes: &[u8]) -> (r: Result<MidiInspector, InspectorError>)
        ensures
            !smf_ok(bytes@, true) ==> r matches Err(InspectorError::Unsupported),
            smf_ok(bytes@, true) ==> (r is Ok == midi_msg_parse(bytes@) is Some),
            r matches Ok(insp) ==> {
                let parsed = midi_msg_parse(bytes@)->0;
                &&& insp.filepath@ == filepath@
                &&& insp.header_info == declared_header(bytes@)
                &&& insp.tracks@.len() == parsed.len()
                &&& forall|i: int| 0 <= i < insp.tracks@.len() ==> {
                    &&& !(#[trigger] insp.tracks@[i]).open
                    &&& track_event_names(insp.tracks@[i].track) == parsed[i]
                    &&& opt_texts(seq![insp.tracks@[i].name])[0] == first_name(parsed[i])
                }
            },
    {
        if !check_smf(bytes, true) {
            return Err(InspectorError::Unsupported);
        }
        let (header, header_info, midi_tracks) = match parse_midi_msg(bytes) {
            Ok(parts) => parts,
            Err(_) => return Err(InspectorError::InvalidMidi),
        };
        let ghost parsed = tracks_event_names(midi_tracks@);
        let mut tracks: Vec<MidiInspectorTrack> = Vec::new();
        for track in it: midi_tracks
            invariant
                it.seq() == midi_tracks@,
                parsed == tracks_event_names(midi_tracks@),
                tracks@.len() == it.index(),
                forall|i: int| 0 <= i < tracks@.len() ==> {
                    &&& !(#[trigger] tracks@[i]).open
                    &&& track_event_names(tracks@[i].track) == parsed[i]
                    &&& opt_texts(seq![tracks@[i].name])[0] == first_name(parsed[i])
                },
        {
            tracks.push(MidiInspectorTrack::new(track));
        }
        Ok(MidiInspector { filepath: filepath.to_owned(), header, header_info, tracks })
    }
}

} // verus!
