//! What the window shows.

use crate::gui::{GuiModel, Tab, YtGUI};
use crate::media_options::{
    AudioFormat, AudioQuality, OptionsModel, VideoFormat, VideoResolution,
};
use crate::path::{chosen_folder, folder_or_default, shown_as, PathModel};
use crate::single::Single;
use crate::sponsorblock::SponsorBlockOption;
use crate::text::text_of;
use vstd::prelude::*;

verus! {

/// The part of the window that tells how the download goes.
#[derive(Debug, PartialEq, Eq)]
pub enum Banner {
    /// Nothing to tell.
    Blank,
    /// A note, the place in the playlist, a button to stop, and a bar if there is a percentage.
    Running { note: String, playlist_progress: String, percent: Option<Single> },
    /// What went wrong.
    Failed(String),
}

/// The same part, with texts as sequences.
pub enum BannerModel {
    Blank,
    Running { note: Seq<char>, playlist_progress: Seq<char>, percent: Option<Single> },
    Failed(Seq<char>),
}

impl View for Banner {
    type V = BannerModel;

    open spec fn view(&self) -> BannerModel {
        match self {
            Banner::Blank => BannerModel::Blank,
            Banner::Running { note, playlist_progress, percent } => BannerModel::Running {
                note: note@,
                playlist_progress: playlist_progress@,
                percent: *percent,
            },
            Banner::Failed(note) => BannerModel::Failed(note@),
        }
    }
}

/// Everything that the window shows.
#[derive(Debug, PartialEq, Eq)]
pub struct Screen {
    pub download_link: String,
    pub sponsorblock_choices: Vec<SponsorBlockOption>,
    pub sponsorblock: Option<SponsorBlockOption>,
    pub is_playlist: bool,
    pub active_tab: Tab,
    pub video_resolution: VideoResolution,
    pub video_format: VideoFormat,
    pub audio_quality: AudioQuality,
    pub audio_format: AudioFormat,
    pub banner: Banner,
    pub folder: String,
    /// What submitting the field for the link downloads, at any time.
    pub submit: String,
    /// What the button downloads, where it can be pressed.
    pub download: Option<String>,
}

/// The same, with texts as sequences.
pub struct ScreenModel {
    pub download_link: Seq<char>,
    pub sponsorblock_choices: Seq<SponsorBlockOption>,
    pub sponsorblock: Option<SponsorBlockOption>,
    pub is_playlist: bool,
    pub active_tab: Tab,
    pub options: OptionsModel,
    pub banner: BannerModel,
    pub folder: Seq<char>,
    pub submit: Seq<char>,
    pub download: Option<Seq<char>>,
}

impl View for Screen {
    type V = ScreenModel;

    open spec fn view(&self) -> ScreenModel {
        ScreenModel {
            download_link: self.download_link@,
            sponsorblock_choices: self.sponsorblock_choices@,
            sponsorblock: self.sponsorblock,
            is_playlist: self.is_playlist,
            active_tab: self.active_tab,
            options: OptionsModel {
                video_resolution: self.video_resolution@,
                video_format: self.video_format@,
                audio_format: self.audio_format@,
                audio_quality: self.audio_quality@,
            },
            banner: self.banner@,
            folder: self.folder@,
            submit: self.submit@,
            download: text_of(self.download),
        }
    }
}

impl GuiModel {
    /// How the download goes.
    pub open spec fn banner(self) -> BannerModel {
        match self.download_message {
            Some(Ok(note)) => BannerModel::Running {
                note,
                playlist_progress: self.playlist_progress.unwrap_or(seq![]),
                percent: self.progress,
            },
            Some(Err(note)) => BannerModel::Failed(note),
            None => BannerModel::Blank,
        }
    }

    /// Whether a text is how the download folder is shown.
    pub open spec fn folder_shown_as(self, text: Seq<char>) -> bool {
        shown_as(folder_or_default(self.config.download_folder), text)
    }

    /// What the button downloads: the link, unless a download is under way.
    pub open spec fn button(self) -> Option<Seq<char>> {
        if self.progress is None {
            Some(self.download_link)
        } else {
            None
        }
    }

    /// Everything that the window shows, given the text for the folder.
    pub open spec fn screen(self, folder: Seq<char>) -> ScreenModel {
        ScreenModel {
            download_link: self.download_link,
            sponsorblock_choices: seq![SponsorBlockOption::Remove, SponsorBlockOption::Mark],
            sponsorblock: self.sponsorblock,
            is_playlist: self.is_playlist,
            active_tab: self.active_tab,
            options: self.config.options,
            banner: self.banner(),
            folder,
            submit: self.download_link,
            download: self.button(),
        }
    }
}

impl YtGUI {
    /// How the download goes.
    pub fn show_download_message(&self) -> (banner: Banner)
        ensures
            banner@ == self@.banner(),
    {
        match &self.download_message {
            Some(Ok(note)) => {
                let playlist_progress = match &self.playlist_progress {
                    Some(text) => text.clone(),
                    None => String::new(),
                };
                Banner::Running { note: note.clone(), playlist_progress, percent: self.progress }
            },
            Some(Err(note)) => Banner::Failed(note.clone()),
            None => Banner::Blank,
        }
    }

    /// What submitting the field for the link downloads: the link, also while a download is under
    /// way.
    pub fn submitted_link(&self) -> (link: String)
        ensures
            link@ == self@.download_link,
    {
        self.download_link.clone()
    }

    /// The download folder as it is shown.
    pub fn folder_text(&self) -> (text: String)
        ensures
            self@.folder_shown_as(text@),
            self.config.download_folder is None ==> text@ == "~/Videos"@,
            // a folder that was typed in is shown as it was typed
            self@.config.download_folder matches Some(PathModel::Text(typed)) ==> text@ == typed,
    {
        chosen_folder(&self.config.download_folder).to_text()
    }

    /// Everything that the window shows.
    pub fn screen(&self) -> (screen: Screen)
        ensures
            screen@ == self@.screen(screen.folder@),
            self@.folder_shown_as(screen.folder@),
    {
        self.screen_with(self.folder_text())
    }

    /// Everything that the window shows, given the text for the folder.
    pub fn screen_with(&self, folder: String) -> (screen: Screen)
        ensures
            screen@ == self@.screen(folder@),
    {
        let mut sponsorblock_choices: Vec<SponsorBlockOption> = Vec::new();
        sponsorblock_choices.push(SponsorBlockOption::Remove);
        sponsorblock_choices.push(SponsorBlockOption::Mark);
        assert(sponsorblock_choices@ =~= seq![SponsorBlockOption::Remove, SponsorBlockOption::Mark]);
        let download = if self.progress.is_none() {
            Some(self.download_link.clone())
        } else {
            None
        };
        Screen {
            download_link: self.download_link.clone(),
            sponsorblock_choices,
            sponsorblock: self.sponsorblock,
            is_playlist: self.is_playlist,
            active_tab: self.active_tab,
            video_resolution: self.config.options.video_resolution.clone(),
            video_format: self.config.options.video_format.clone(),
            audio_quality: self.config.options.audio_quality.clone(),
            audio_format: self.config.options.audio_format.clone(),
            banner: self.show_download_message(),
            folder,
            submit: self.submitted_link(),
            download,
        }
    }
}

} // verus!
