//! Audio service values: voice configuration and the sound library's
//! status-code conventions.
//!
//! The audio device itself is an external collaborator reached over FFI;
//! what belongs to the core is the voice configuration a caller builds and
//! the meaning of the status codes the device hands back, both of which are
//! plain values.

use vstd::prelude::*;

verus! {

/// The sound library reports success with this status code.
pub const SND_OK: i32 = 0;

/// The sound library reports an invalid argument with this status code.
pub const SND_INVALID: i32 = -1;

/// A voice that is currently playing reports this status code.
pub const SND_WORKING: i32 = 1;

/// Voice slots are numbered `0..16`.
pub const VOICE_COUNT: u32 = 16;

/// A failed audio operation, carrying the status code the device returned.
#[derive(Clone, Copy, Debug, PartialEq, Eq, Structural)]
pub struct SoundError {
    pub code: i32,
}

/// Source voice format.
#[derive(Clone, Copy, Debug, PartialEq, Eq, Structural)]
pub enum VoiceFormat {
    Mono8Bit,
    Mono16Bit,
    Mono16BitBe,
    Stereo8Bit,
    Stereo16Bit,
    Stereo16BitBe,
    Mono8BitU,
    Mono16BitLE,
    Stereo8BitU,
    Stereo16BitLe,
}

/// The format code the sound library names each voice format by.
pub open spec fn format_code(f: VoiceFormat) -> int {
    match f {
        VoiceFormat::Mono8Bit => 0,
        VoiceFormat::Mono16Bit => 1,
        VoiceFormat::Mono16BitBe => 1,
        VoiceFormat::Stereo8Bit => 2,
        VoiceFormat::Stereo16Bit => 3,
        VoiceFormat::Stereo16BitBe => 3,
        VoiceFormat::Mono8BitU => 4,
        VoiceFormat::Mono16BitLE => 5,
        VoiceFormat::Stereo8BitU => 6,
        VoiceFormat::Stereo16BitLe => 7,
    }
}

impl VoiceFormat {
    /// The format code the sound library expects for this format.
    pub fn as_i32(self) -> (r: i32)
        ensures
            r == format_code(self),
    {
        match self {
            VoiceFormat::Mono8Bit => 0,
            VoiceFormat::Mono16Bit => 1,
            VoiceFormat::Mono16BitBe => 1,
            VoiceFormat::Stereo8Bit => 2,
            VoiceFormat::Stereo16Bit => 3,
            VoiceFormat::Stereo16BitBe => 3,
            VoiceFormat::Mono8BitU => 4,
            VoiceFormat::Mono16BitLE => 5,
            VoiceFormat::Stereo8BitU => 6,
            VoiceFormat::Stereo16BitLe => 7,
        }
    }
}

/// Options to be passed when creating a new voice.
#[derive(Clone, Copy, Debug, PartialEq, Eq, Structural)]
pub struct VoiceOptions {
    pub voice: u32,
    pub format: VoiceFormat,
    pub pitch: u32,
    pub delay: u32,
    pub volume_left: u8,
    pub volume_right: u8,
}

impl VoiceOptions {
    /// Creates the options with sensible default values: voice slot 0,
    /// 16-bit stereo at 48000 Hz, no delay, both channels at full volume.
    pub fn new() -> (options: VoiceOptions)
        ensures
            options == (VoiceOptions {
                voice: 0u32,
                format: VoiceFormat::Stereo16Bit,
                pitch: 48000u32,
                delay: 0u32,
                volume_left: 255u8,
                volume_right: 255u8,
            }),
    {
        VoiceOptions {
            voice: 0,
            format: VoiceFormat::Stereo16Bit,
            pitch: 48000,
            delay: 0,
            volume_left: 255,
            volume_right: 255,
        }
    }

    /// Voice slot to use for this sound. Valid values are `0..16`
    /// non-inclusive.
    pub fn voice(self, voice: u32) -> (options: VoiceOptions)
        requires
            voice < VOICE_COUNT,
        ensures
            options == (VoiceOptions { voice, ..self }),
    {
        VoiceOptions { voice, ..self }
    }

    /// Format to use for this sound.
    pub fn format(self, format: VoiceFormat) -> (options: VoiceOptions)
        ensures
            options == (VoiceOptions { format, ..self }),
    {
        VoiceOptions { format, ..self }
    }

    /// Frequency to use, in Hz.
    pub fn pitch(self, pitch: u32) -> (options: VoiceOptions)
        ensures
            options == (VoiceOptions { pitch, ..self }),
    {
        VoiceOptions { pitch, ..self }
    }

    /// Delay to wait before playing, in milliseconds.
    pub fn delay(self, delay: u32) -> (options: VoiceOptions)
        ensures
            options == (VoiceOptions { delay, ..self }),
    {
        VoiceOptions { delay, ..self }
    }

    /// Voice volume of the left channel.
    pub fn volume_left(self, volume_left: u8) -> (options: VoiceOptions)
        ensures
            options == (VoiceOptions { volume_left, ..self }),
    {
        VoiceOptions { volume_left, ..self }
    }

    /// Voice volume of the right channel.
    pub fn volume_right(self, volume_right: u8) -> (options: VoiceOptions)
        ensures
            options == (VoiceOptions { volume_right, ..self }),
    {
        VoiceOptions { volume_right, ..self }
    }
}

/// The audio service. The sound device itself is an external collaborator
/// reached over FFI outside this crate; these operations interpret the
/// status codes it hands back, turning them into results by the library's
/// conventions.
pub struct Asnd;

impl Asnd {
    /// Interprets the status code of a voice operation (set, add, stop,
    /// pause, pitch or volume change): success exactly on [`SND_OK`]; any
    /// other code is handed back as the error.
    pub fn operation_result(code: i32) -> (r: Result<(), SoundError>)
        ensures
            r matches Ok(_) <==> code == SND_OK,
            r matches Err(e) ==> e.code == code,
    {
        if code == SND_OK {
            Ok(())
        } else {
            Err(SoundError { code })
        }
    }

    /// Interprets a voice status query: the voice is playing exactly when
    /// the device reports [`SND_WORKING`]; any other code is handed back as
    /// the error.
    pub fn status_voice_result(code: i32) -> (r: Result<(), SoundError>)
        ensures
            r matches Ok(_) <==> code == SND_WORKING,
            r matches Err(e) ==> e.code == code,
    {
        if code == SND_WORKING {
            Ok(())
        } else {
            Err(SoundError { code })
        }
    }

    /// Interprets the answer to "which voice slot is free?": a valid slot
    /// number (`0..16`) is handed back as the slot; anything else means no
    /// voice is available and is handed back as the error.
    pub fn first_unused_voice_result(code: i32) -> (r: Result<u32, SoundError>)
        ensures
            r matches Ok(_) <==> 0 <= code < VOICE_COUNT,
            r matches Ok(v) ==> v == code,
            r matches Err(e) ==> e.code == code,
    {
        if code >= 0 && code < 16 {
            Ok(code as u32)
        } else {
            Err(SoundError { code })
        }
    }
}

} // verus!
