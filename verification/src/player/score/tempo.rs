//! The tempo channel of a score frame.

use vstd::prelude::*;

verus! {

/// A frame rate, in frames per second.
#[derive(Clone, Copy, Debug, PartialEq, Eq, Structural)]
pub struct Fps(pub i16);

/// A score channel number.
#[derive(Clone, Copy, Debug, PartialEq, Eq, Structural)]
pub struct ChannelNum(pub i16);

/// A duration in seconds.
#[derive(Clone, Copy, Debug, PartialEq, Eq, Structural)]
pub struct Seconds(pub i16);

/// A score frame number.
#[derive(Clone, Copy, Debug, PartialEq, Eq, Structural)]
pub struct FrameNum(pub i16);

/// What the playhead waits for before moving to the next frame.
#[derive(Clone, Copy, Debug, PartialEq, Eq, Structural)]
pub enum Tempo {
    /// Keep the tempo of the previous frame.
    Inherit,
    /// Play at the given frame rate.
    Fps(Fps),
    /// Wait until the video in the given channel has finished.
    WaitForVideo(ChannelNum),
    /// Wait for the given number of seconds.
    WaitForSeconds(Seconds),
    /// Wait for a mouse click or key press.
    WaitForClick,
    /// Wait until the first sound channel has finished.
    WaitForSound1,
    /// Wait until the second sound channel has finished.
    WaitForSound2,
}

/// A raw tempo value that does not encode any tempo.
#[derive(Clone, Copy, Debug, PartialEq, Eq, Structural)]
pub struct InvalidTempo(pub i16);

/// The tempo that a raw tempo value encodes.
pub open spec fn spec_tempo(tempo: int) -> Result<Tempo, InvalidTempo> {
    if tempo == 0 {
        Ok(Tempo::Inherit)
    } else if 1 <= tempo <= 120 {
        Ok(Tempo::Fps(Fps(tempo as i16)))
    } else if -0x78 <= tempo <= -0x48 {
        Ok(Tempo::WaitForVideo(ChannelNum((tempo + 0x7e) as i16)))
    } else if -60 <= tempo <= -1 {
        Ok(Tempo::WaitForSeconds(Seconds((-tempo) as i16)))
    } else if tempo == -0x80 {
        Ok(Tempo::WaitForClick)
    } else if tempo == -0x79 {
        Ok(Tempo::WaitForSound1)
    } else if tempo == -0x7a {
        Ok(Tempo::WaitForSound2)
    } else {
        Err(InvalidTempo(tempo as i16))
    }
}

/// The raw value of a tempo.
pub open spec fn spec_tempo_value(tempo: Tempo) -> int {
    match tempo {
        Tempo::Inherit => 0,
        Tempo::Fps(fps) => fps.0 as int,
        Tempo::WaitForVideo(channel) => channel.0 - 0x7e,
        Tempo::WaitForSeconds(seconds) => -seconds.0,
        Tempo::WaitForClick => -0x80,
        Tempo::WaitForSound1 => -0x79,
        Tempo::WaitForSound2 => -0x7a,
    }
}

/// Whether a tempo is one that a raw tempo value can encode.
pub open spec fn tempo_is_encodable(tempo: Tempo) -> bool {
    match tempo {
        Tempo::Fps(fps) => 1 <= fps.0 <= 120,
        Tempo::WaitForVideo(channel) => 6 <= channel.0 <= 54,
        Tempo::WaitForSeconds(seconds) => 1 <= seconds.0 <= 60,
        _ => true,
    }
}

impl Tempo {
    /// Decodes a raw tempo value.
    pub fn new(tempo: i16) -> (r: Result<Self, InvalidTempo>)
        ensures
            r == spec_tempo(tempo as int),
    {
        if tempo == 0 {
            Ok(Tempo::Inherit)
        } else if 1 <= tempo && tempo <= 120 {
            Ok(Tempo::Fps(Fps(tempo)))
        } else if -0x78 <= tempo && tempo <= -0x48 {
            Ok(Tempo::WaitForVideo(ChannelNum(tempo + 0x7e)))
        } else if -60 <= tempo && tempo <= -1 {
            Ok(Tempo::WaitForSeconds(Seconds(-tempo)))
        } else if tempo == -0x80 {
            Ok(Tempo::WaitForClick)
        } else if tempo == -0x79 {
            Ok(Tempo::WaitForSound1)
        } else if tempo == -0x7a {
            Ok(Tempo::WaitForSound2)
        } else {
            Err(InvalidTempo(tempo))
        }
    }

    /// Encodes this tempo as a raw tempo value.
    pub fn to_primitive(self) -> (r: i16)
        requires
            self matches Tempo::WaitForVideo(channel) ==> channel.0 >= i16::MIN + 0x7e,
            self matches Tempo::WaitForSeconds(seconds) ==> seconds.0 != i16::MIN,
        ensures
            r == spec_tempo_value(self),
    {
        match self {
            Tempo::Inherit => 0,
            Tempo::Fps(fps) => fps.0,
            Tempo::WaitForVideo(channel) => channel.0 - 0x7e,
            Tempo::WaitForSeconds(seconds) => -seconds.0,
            Tempo::WaitForClick => -0x80,
            Tempo::WaitForSound1 => -0x79,
            Tempo::WaitForSound2 => -0x7a,
        }
    }
}

impl Default for Tempo {
    /// Keep the tempo of the previous frame.
    fn default() -> (r: Self)
        ensures
            r == Tempo::Inherit,
    {
        Tempo::Inherit
    }
}

/// Decoding a raw tempo value and encoding the result gives back the raw
/// value, for every raw value that decodes.
pub proof fn lemma_tempo_decode_encode(tempo: i16)
    requires
        spec_tempo(tempo as int) is Ok,
    ensures
        tempo_is_encodable(spec_tempo(tempo as int)->Ok_0),
        spec_tempo_value(spec_tempo(tempo as int)->Ok_0) == tempo,
{
}

/// Encoding a tempo and decoding the raw value gives back the tempo, for
/// every tempo that has an encoding.
pub proof fn lemma_tempo_encode_decode(tempo: Tempo)
    requires
        tempo_is_encodable(tempo),
    ensures
        i16::MIN <= spec_tempo_value(tempo) <= i16::MAX,
        spec_tempo(spec_tempo_value(tempo)) == Ok::<Tempo, InvalidTempo>(tempo),
{
}

/// A raw tempo value decodes exactly when it lies in one of the encoded
/// ranges.
pub proof fn lemma_tempo_valid_range(tempo: i16)
    ensures
        spec_tempo(tempo as int) is Ok <==> (-0x80 <= tempo <= -0x78 && tempo != -0x7b && tempo != -0x7c
            && tempo != -0x7d && tempo != -0x7e && tempo != -0x7f) || (-0x78 <= tempo <= -0x48)
            || (-60 <= tempo <= 120),
{
}

} // verus!
