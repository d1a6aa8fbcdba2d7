//! What the interface asks the program around it to do.

use crate::path::{path_of, PathModel, RawPath};
use crate::text::texts;
use vstd::prelude::*;

verus! {

/// One thing to do. A list of them is carried out in order.
#[derive(Debug, PartialEq, Eq)]
pub enum Effect {
    /// Write the settings to their file. Where the write is required, the program cannot go on
    /// without it; otherwise a failure is only logged.
    SaveConfig { required: bool },
    /// Start yt-dlp, and report the outcome.
    Start { args: Vec<String>, bin_dir: Option<RawPath>, links_num: usize },
    /// Kill yt-dlp, if it runs.
    Kill,
    /// Note that one of several videos is done.
    FinishedSingleVideo,
    /// Find out whether several videos are being downloaded, and report the answer.
    AskMultipleVideos,
    /// Add a line to the log of downloads.
    LogDownload,
    /// Let the user choose a folder, starting from this one, and report the choice.
    ChooseFolder(RawPath),
    /// Send the reports of downloads through the channel that came with the event.
    KeepSender,
    /// Put the cursor into the field for the link.
    FocusLinkInput,
    /// Close the window.
    CloseWindow,
    /// Print a line.
    Print(String),
}

/// One thing to do, with texts and paths as sequences.
pub enum EffectModel {
    SaveConfig { required: bool },
    Start { args: Seq<Seq<char>>, bin_dir: Option<PathModel>, links_num: nat },
    Kill,
    FinishedSingleVideo,
    AskMultipleVideos,
    LogDownload,
    ChooseFolder(PathModel),
    KeepSender,
    FocusLinkInput,
    CloseWindow,
    Print(Seq<char>),
}

impl View for Effect {
    type V = EffectModel;

    open spec fn view(&self) -> EffectModel {
        match self {
            Effect::SaveConfig { required } => EffectModel::SaveConfig { required: *required },
            Effect::Start { args, bin_dir, links_num } => EffectModel::Start {
                args: texts(args@),
                bin_dir: path_of(*bin_dir),
                links_num: *links_num as nat,
            },
            Effect::Kill => EffectModel::Kill,
            Effect::FinishedSingleVideo => EffectModel::FinishedSingleVideo,
            Effect::AskMultipleVideos => EffectModel::AskMultipleVideos,
            Effect::LogDownload => EffectModel::LogDownload,
            Effect::ChooseFolder(path) => EffectModel::ChooseFolder(path@),
            Effect::KeepSender => EffectModel::KeepSender,
            Effect::FocusLinkInput => EffectModel::FocusLinkInput,
            Effect::CloseWindow => EffectModel::CloseWindow,
            Effect::Print(line) => EffectModel::Print(line@),
        }
    }
}

/// A list of things to do, with texts and paths as sequences.
pub open spec fn effects_of(list: Seq<Effect>) -> Seq<EffectModel> {
    list.map_values(|effect: Effect| effect@)
}

} // verus!
