//! Formats, resolutions and qualities that a download asks for.

use vstd::prelude::*;

verus! {

/// One entry of a list of choices: the name it goes by in the log of downloads, and the
/// argument that asks yt-dlp for it.
#[derive(Debug, PartialEq, Eq)]
pub struct MediaOption {
    pub name: String,
    pub argument: String,
}

pub type VideoResolution = MediaOption;

pub type VideoFormat = MediaOption;

pub type AudioFormat = MediaOption;

pub type AudioQuality = MediaOption;

/// The texts of a choice.
pub struct MediaOptionModel {
    pub name: Seq<char>,
    pub argument: Seq<char>,
}

impl View for MediaOption {
    type V = MediaOptionModel;

    open spec fn view(&self) -> MediaOptionModel {
        MediaOptionModel { name: self.name@, argument: self.argument@ }
    }
}

impl Clone for MediaOption {
    fn clone(&self) -> (copy: Self)
        ensures
            copy == *self,
    {
        MediaOption { name: self.name.clone(), argument: self.argument.clone() }
    }
}

/// The choices in force.
#[derive(Debug, PartialEq, Eq)]
pub struct Options {
    pub video_resolution: VideoResolution,
    pub video_format: VideoFormat,
    pub audio_format: AudioFormat,
    pub audio_quality: AudioQuality,
}

/// The texts of the choices in force.
pub struct OptionsModel {
    pub video_resolution: MediaOptionModel,
    pub video_format: MediaOptionModel,
    pub audio_format: MediaOptionModel,
    pub audio_quality: MediaOptionModel,
}

impl View for Options {
    type V = OptionsModel;

    open spec fn view(&self) -> OptionsModel {
        OptionsModel {
            video_resolution: self.video_resolution@,
            video_format: self.video_format@,
            audio_format: self.audio_format@,
            audio_quality: self.audio_quality@,
        }
    }
}

} // verus!
