//! Playback control and the decoder's invocation.
//!
//! `PlayerControl` is the state behind the control surface: the volume, the
//! paused flag, the volume remembered across a mute, and whether the decoding
//! process is still held. Its operations say what the surrounding program has
//! to do to the sink and to the process; they never block.

use vstd::prelude::*;

verus! {

/// The loudest volume, in hundredths of the sink's nominal level.
pub const MAX_VOLUME: i32 = 200;

/// The volume a player starts with, and the one a mute falls back to when no
/// volume was remembered.
pub const DEFAULT_VOLUME: i32 = 50;

/// The number of interleaved channels the decoder is told to produce.
pub const OUTPUT_CHANNELS: u16 = 2;

/// The sample rate the decoder is told to produce.
pub const OUTPUT_SAMPLE_RATE: u32 = 44100;

/// The program that decodes the stream.
pub const DECODER_PROGRAM: &'static str = "ffmpeg";

/// The stream played when no candidate is known.
pub const DEFAULT_STREAM_URL: &'static str = "http://radio.plaza.one/mp3";

/// The format of the samples handed to the sink.
pub struct SinkInfo {
    pub _channels: u16,
    pub _sample_rate: u32,
}

/// The state of the control surface.
pub struct PlayerState {
    /// The volume, in hundredths of the nominal level.
    pub volume: int,
    pub paused: bool,
    /// Whether the sink has been told to stop.
    pub stopped: bool,
    /// Whether the decoding process is still held, and so still to be killed.
    pub decoder_held: bool,
    /// The volume to return to when a mute is lifted.
    pub saved_volume: Option<int>,
}

/// `volume` brought into the range from silence to `MAX_VOLUME`.
pub open spec fn clamped(volume: int) -> int {
    if volume < 0 {
        0
    } else if volume > MAX_VOLUME {
        MAX_VOLUME as int
    } else {
        volume
    }
}

/// The state after a stop: the sink is stopped and the process is let go.
pub open spec fn after_stop(state: PlayerState) -> PlayerState {
    PlayerState { stopped: true, decoder_held: false, ..state }
}

/// The state after the mute key: a sounding player remembers its volume and
/// falls silent; a silent one returns to the remembered volume, or to the
/// default when none was remembered.
pub open spec fn after_mute(state: PlayerState) -> PlayerState {
    if state.volume > 0 {
        PlayerState { volume: 0, saved_volume: Some(state.volume), ..state }
    } else {
        PlayerState {
            volume: match state.saved_volume {
                Some(saved) => saved,
                None => DEFAULT_VOLUME as int,
            },
            ..state
        }
    }
}

/// The control surface over the sink and the decoding process.
pub struct PlayerControl {
    volume: i32,
    paused: bool,
    stopped: bool,
    decoder_held: bool,
    saved_volume: Option<i32>,
}

impl View for PlayerControl {
    type V = PlayerState;

    closed spec fn view(&self) -> PlayerState {
        PlayerState {
            volume: self.volume as int,
            paused: self.paused,
            stopped: self.stopped,
            decoder_held: self.decoder_held,
            saved_volume: match self.saved_volume {
                Some(saved) => Some(saved as int),
                None => None,
            },
        }
    }
}

impl PlayerControl {
    /// Every volume a player holds or remembers lies between silence and
    /// `MAX_VOLUME`.
    #[verifier::type_invariant]
    closed spec fn in_range(self) -> bool {
        &&& 0 <= self.volume <= MAX_VOLUME
        &&& self.saved_volume matches Some(saved) ==> 0 <= saved <= MAX_VOLUME
    }

    /// The control of a player that has just started: at the default volume,
    /// playing, with the decoding process held.
    pub fn new() -> (control: PlayerControl)
        ensures
            control@ == (PlayerState {
                volume: DEFAULT_VOLUME as int,
                paused: false,
                stopped: false,
                decoder_held: true,
                saved_volume: None,
            }),
    {
        PlayerControl {
            volume: DEFAULT_VOLUME,
            paused: false,
            stopped: false,
            decoder_held: true,
            saved_volume: None,
        }
    }

    /// Stops playback for good. The answer tells whether the decoding process
    /// is to be killed and reaped now: it is on the first stop and never again.
    pub fn stop(&mut self) -> (kill: bool)
        ensures
            kill == old(self)@.decoder_held,
            final(self)@ == after_stop(old(self)@),
    {
        proof {
            use_type_invariant(&*self);
        }
        let kill = self.decoder_held;
        self.stopped = true;
        self.decoder_held = false;
        kill
    }

    /// Pauses playback.
    pub fn pause(&mut self)
        ensures
            final(self)@ == (PlayerState { paused: true, ..old(self)@ }),
    {
        proof {
            use_type_invariant(&*self);
        }
        self.paused = true;
    }

    /// Resumes playback.
    pub fn play(&mut self)
        ensures
            final(self)@ == (PlayerState { paused: false, ..old(self)@ }),
    {
        proof {
            use_type_invariant(&*self);
        }
        self.paused = false;
    }

    /// Sets the volume to `volume`, brought into range.
    pub fn set_volume(&mut self, volume: i32)
        ensures
            final(self)@ == (PlayerState { volume: clamped(volume as int), ..old(self)@ }),
            0 <= final(self)@.volume <= MAX_VOLUME,
    {
        proof {
            use_type_invariant(&*self);
        }
        self.volume = if volume < 0 {
            0
        } else if volume > MAX_VOLUME {
            MAX_VOLUME
        } else {
            volume
        };
    }

    /// Whether playback is paused.
    pub fn is_paused(&self) -> (paused: bool)
        ensures
            paused == self@.paused,
    {
        self.paused
    }

    /// Whether playback has been stopped for good.
    pub fn is_stopped(&self) -> (stopped: bool)
        ensures
            stopped == self@.stopped,
    {
        self.stopped
    }

    /// The volume, which always lies between silence and `MAX_VOLUME`.
    pub fn volume(&self) -> (volume: i32)
        ensures
            volume == self@.volume,
            0 <= volume <= MAX_VOLUME,
    {
        proof {
            use_type_invariant(self);
        }
        self.volume
    }

    /// Moves the volume by `delta`, up or down, staying in range.
    pub fn change_volume(&mut self, delta: i32)
        ensures
            final(self)@ == (PlayerState {
                volume: clamped(old(self)@.volume + delta),
                ..old(self)@
            }),
            0 <= final(self)@.volume <= MAX_VOLUME,
    {
        proof {
            use_type_invariant(&*self);
        }
        let wanted: i64 = self.volume as i64 + delta as i64;
        self.volume = if wanted < 0 {
            0
        } else if wanted > MAX_VOLUME as i64 {
            MAX_VOLUME
        } else {
            wanted as i32
        };
    }

    /// Mutes a sounding player and unmutes a silent one.
    pub fn toggle_mute(&mut self)
        ensures
            final(self)@ == after_mute(old(self)@),
    {
        proof {
            use_type_invariant(&*self);
        }
        if self.volume > 0 {
            self.saved_volume = Some(self.volume);
            self.volume = 0;
        } else {
            self.volume = match self.saved_volume {
                Some(saved) => saved,
                None => DEFAULT_VOLUME,
            };
        }
    }

    /// Pauses a playing player and resumes a paused one.
    pub fn toggle_pause(&mut self)
        ensures
            final(self)@ == (PlayerState { paused: !old(self)@.paused, ..old(self)@ }),
    {
        proof {
            use_type_invariant(&*self);
        }
        self.paused = !self.paused;
    }
}

/// What each of `strings` holds, in order.
pub open spec fn texts(strings: Seq<String>) -> Seq<Seq<char>> {
    strings.map_values(|s: String| s@)
}

/// The known endpoints of the broadcast, in order of preference.
pub open spec fn known_streams() -> Seq<Seq<char>> {
    seq!["http://radio.plaza.one/mp3"@, "http://radio.plaza.one/ogg"@, "http://radio.plaza.one/opus"@]
}

/// The arguments that make the decoder read `url`, reconnect by itself when
/// the stream drops, and write raw signed 16-bit little-endian stereo samples
/// at 44100 Hz to its standard output, with nothing but errors logged.
pub open spec fn decoder_command(url: Seq<char>) -> Seq<Seq<char>> {
    seq![
        "-reconnect"@,
        "1"@,
        "-reconnect_streamed"@,
        "1"@,
        "-reconnect_delay_max"@,
        "5"@,
        "-i"@,
        url,
        "-f"@,
        "s16le"@,
        "-acodec"@,
        "pcm_s16le"@,
        "-ar"@,
        "44100"@,
        "-ac"@,
        "2"@,
        "-hide_banner"@,
        "-loglevel"@,
        "error"@,
        "-"@,
    ]
}

/// The stream to play: the first candidate, or the default with no candidate.
pub open spec fn chosen_stream(candidates: Seq<Seq<char>>) -> Seq<char> {
    if candidates.len() > 0 {
        candidates[0]
    } else {
        DEFAULT_STREAM_URL@
    }
}

/// The format the decoder is told to produce.
pub fn output_format() -> (info: SinkInfo)
    ensures
        info._channels == OUTPUT_CHANNELS,
        info._sample_rate == OUTPUT_SAMPLE_RATE,
{
    SinkInfo { _channels: OUTPUT_CHANNELS, _sample_rate: OUTPUT_SAMPLE_RATE }
}

/// The known endpoints of the broadcast, in order of preference.
pub fn stream_candidates() -> (candidates: Vec<String>)
    ensures
        texts(candidates@) == known_streams(),
{
    let mut candidates: Vec<String> = Vec::new();
    candidates.push("http://radio.plaza.one/mp3".to_owned());
    candidates.push("http://radio.plaza.one/ogg".to_owned());
    candidates.push("http://radio.plaza.one/opus".to_owned());
    candidates
}

/// Picks the stream to try: the first candidate, if there is one.
pub fn pick_stream(candidates: &Vec<String>) -> (picked: Option<String>)
    ensures
        match picked {
            Some(url) => candidates@.len() > 0 && url@ == candidates@[0]@,
            None => candidates@.len() == 0,
        },
{
    if candidates.len() > 0 {
        Some(candidates[0].clone())
    } else {
        None
    }
}

/// Settles on the stream to play, and tells whether it is the default that
/// stands in when no candidate is known.
pub fn resolve_stream(candidates: &Vec<String>) -> (resolved: (String, bool))
    ensures
        resolved.0@ == chosen_stream(texts(candidates@)),
        resolved.1 == (candidates@.len() == 0),
{
    match pick_stream(candidates) {
        Some(url) => (url, false),
        None => (DEFAULT_STREAM_URL.to_owned(), true),
    }
}

/// The arguments to start the decoder with for the stream at `url`.
pub fn decoder_args(url: &str) -> (args: Vec<String>)
    ensures
        texts(args@) == decoder_command(url@),
{
    let mut args: Vec<String> = Vec::new();
    args.push("-reconnect".to_owned());
    args.push("1".to_owned());
    args.push("-reconnect_streamed".to_owned());
    args.push("1".to_owned());
    args.push("-reconnect_delay_max".to_owned());
    args.push("5".to_owned());
    args.push("-i".to_owned());
    args.push(url.to_owned());
    args.push("-f".to_owned());
    args.push("s16le".to_owned());
    args.push("-acodec".to_owned());
    args.push("pcm_s16le".to_owned());
    args.push("-ar".to_owned());
    args.push("44100".to_owned());
    args.push("-ac".to_owned());
    args.push("2".to_owned());
    args.push("-hide_banner".to_owned());
    args.push("-loglevel".to_owned());
    args.push("error".to_owned());
    args.push("-".to_owned());
    args
}

/// A requested volume always ends up in range, whatever its sign or size, and
/// one that is in range is kept as it is.
pub proof fn lemma_clamped_is_in_range(volume: int)
    ensures
        0 <= clamped(volume) <= MAX_VOLUME,
        0 <= volume <= MAX_VOLUME ==> clamped(volume) == volume,
{
}

/// The volume to report when the control may be out of reach: silence when the
/// lock on it could not be had.
pub fn volume_or_silence(control: Option<&PlayerControl>) -> (volume: i32)
    ensures
        volume == match control {
            Some(held) => held@.volume,
            None => 0,
        },
        0 <= volume <= MAX_VOLUME,
{
    match control {
        Some(held) => held.volume(),
        None => 0,
    }
}

/// The paused flag to report when the control may be out of reach: paused when
/// the lock on it could not be had.
pub fn paused_or_halted(control: Option<&PlayerControl>) -> (paused: bool)
    ensures
        paused == match control {
            Some(held) => held@.paused,
            None => true,
        },
{
    match control {
        Some(held) => held.is_paused(),
        None => true,
    }
}

/// Stopping is idempotent: a second stop changes nothing and finds no process
/// left to kill.
pub proof fn lemma_stop_is_idempotent(state: PlayerState)
    ensures
        after_stop(after_stop(state)) == after_stop(state),
        !after_stop(state).decoder_held,
{
}

} // verus!
