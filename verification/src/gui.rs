//! The interface: its state, and how that changes.

use crate::command;
use crate::config::{Config, ConfigModel, WindowPosition, WindowSize};
use crate::effect::{effects_of, Effect, EffectModel};
use crate::links::{count_leading_urls, leading_urls, read_links, requested_links};
use crate::media_options::{
    AudioFormat, AudioQuality, OptionsModel, VideoFormat, VideoResolution,
};
use crate::path::{chosen_folder, copy_path, folder_or_default, path_of, PathModel, RawPath};
use crate::progress::{download_text, download_text_of, Progress};
use crate::session::Step;
use crate::single::{zero, Single};
use crate::sponsorblock::{sponsorblock_args, SponsorBlockOption};
use crate::text::{contains_text, decimal, decimal_text, occurs_in, text_of, texts, trimmed};
use vstd::prelude::*;

verus! {

#[derive(Debug, PartialEq, Eq, Clone, Copy, Structural)]
pub enum Tab {
    Video,
    Audio,
}

/// What happens to the window.
#[derive(Debug, PartialEq, Eq, Clone, Copy, Structural)]
pub enum WindowEvent {
    CloseRequested,
    Resized { width: Single, height: Single },
    Moved { x: Single, y: Single },
    Other,
}

/// What happens to the interface.
#[derive(Debug, Clone, PartialEq, Eq)]
pub enum Message {
    Nothing,
    InputChanged(String),
    TogglePlaylist(bool),
    SelectedSponsorBlockOption(SponsorBlockOption),
    SelectedVideoFormat(VideoFormat),
    SelectedResolution(VideoResolution),
    SelectedAudioFormat(AudioFormat),
    SelectedAudioQuality(AudioQuality),
    SelectDownloadFolder,
    SelectedDownloadFolder(Option<RawPath>),
    SelectFolderTextInput(String),
    SelectTab(Tab),
    ProgressEvent(Progress),
    Ready,
    Command(command::Message),
    IcedEvent(WindowEvent),
    FontLoaded,
}

/// The state of the interface.
#[derive(Debug, PartialEq, Eq)]
pub struct YtGUI {
    pub download_link: String,
    pub is_playlist: bool,
    pub sponsorblock: Option<SponsorBlockOption>,
    pub config: Config,
    pub active_tab: Tab,
    pub playlist_progress: Option<String>,
    pub download_message: Option<Result<String, String>>,
    pub is_choosing_folder: bool,
    pub progress: Option<Single>,
    pub window_size: WindowSize,
    pub window_pos: WindowPosition,
}

/// The state of the interface, with texts and paths as sequences.
pub struct GuiModel {
    pub download_link: Seq<char>,
    pub is_playlist: bool,
    pub sponsorblock: Option<SponsorBlockOption>,
    pub config: ConfigModel,
    pub active_tab: Tab,
    pub playlist_progress: Option<Seq<char>>,
    pub download_message: Option<Result<Seq<char>, Seq<char>>>,
    pub is_choosing_folder: bool,
    pub progress: Option<Single>,
    pub window_size: WindowSize,
    pub window_pos: WindowPosition,
}

/// So many times: write the settings, without fail.
pub open spec fn required_saves(count: nat) -> Seq<EffectModel> {
    Seq::new(count, |i: int| EffectModel::SaveConfig { required: true })
}

/// The text of a note to the user.
pub open spec fn note_of(
    note: Option<Result<String, String>>,
) -> Option<Result<Seq<char>, Seq<char>>> {
    match note {
        Some(Ok(text)) => Some(Ok(text@)),
        Some(Err(text)) => Some(Err(text@)),
        None => None,
    }
}

impl View for YtGUI {
    type V = GuiModel;

    open spec fn view(&self) -> GuiModel {
        GuiModel {
            download_link: self.download_link@,
            is_playlist: self.is_playlist,
            sponsorblock: self.sponsorblock,
            config: self.config@,
            active_tab: self.active_tab,
            playlist_progress: text_of(self.playlist_progress),
            download_message: note_of(self.download_message),
            is_choosing_folder: self.is_choosing_folder,
            progress: self.progress,
            window_size: self.window_size,
            window_pos: self.window_pos,
        }
    }
}

impl GuiModel {
    /// The state in which the interface starts.
    pub open spec fn initial(config: ConfigModel) -> GuiModel {
        GuiModel {
            download_link: config.url.unwrap_or(seq![]),
            is_playlist: false,
            sponsorblock: None,
            config,
            active_tab: Tab::Video,
            playlist_progress: None,
            download_message: None,
            is_choosing_folder: false,
            progress: None,
            window_size: WindowSize { width: zero(), height: zero() },
            window_pos: WindowPosition { x: zero(), y: zero() },
        }
    }

    /// The same state, with a note to the user.
    pub open spec fn noting(self, note: Result<Seq<char>, Seq<char>>) -> GuiModel {
        GuiModel { download_message: Some(note), ..self }
    }

    /// The same state, with no download under way.
    pub open spec fn idle(self) -> GuiModel {
        GuiModel { progress: None, ..self }
    }

    /// The same state, with other media options.
    pub open spec fn with_options(self, options: OptionsModel) -> GuiModel {
        GuiModel { config: ConfigModel { options, ..self.config }, ..self }
    }

    /// The same state, with another download folder.
    pub open spec fn with_folder(self, folder: PathModel) -> GuiModel {
        GuiModel {
            config: ConfigModel { download_folder: Some(folder), ..self.config },
            ..self
        }
    }

    /// The title of the window.
    pub open spec fn title(self) -> Seq<char> {
        "Youtube Downloader"@
    }

    /// What the arguments for the playlist are made from.
    pub open spec fn made_into_playlist_args(self) -> (bool, Option<PathModel>) {
        (self.is_playlist, self.config.download_folder)
    }

    /// The arguments that the active tab asks for.
    pub open spec fn tab_args(self) -> Seq<Seq<char>> {
        let options = self.config.options;
        match self.active_tab {
            Tab::Video => seq![
                "-S"@,
                options.video_resolution.argument,
                "--remux-video"@,
                options.video_format.argument,
            ],
            Tab::Audio => seq![
                "-x"@,
                "--audio-format"@,
                options.audio_format.argument,
                "--audio-quality"@,
                options.audio_quality.argument,
            ],
        }
    }

    /// The arguments that a download of some links gives to yt-dlp.
    pub open spec fn download_args(
        self,
        links: Seq<Seq<char>>,
        playlist_args: Seq<Seq<char>>,
    ) -> Seq<Seq<char>> {
        links + self.tab_args() + playlist_args + sponsorblock_args(self.sponsorblock)
    }

    /// The state after a request for some links, of which the first `valid` are URLs and the
    /// next one, if there is one, is not. Each URL has the settings saved.
    pub open spec fn after_run(self, links: Seq<Seq<char>>, valid: nat) -> GuiModel {
        let saved = if valid > 0 {
            GuiModel { config: self.config.to_save(), ..self }
        } else {
            self
        };
        if valid < links.len() {
            saved.idle().noting(Err("invalid URL on position: "@ + decimal(valid + 1)))
        } else {
            saved
        }
    }

    /// What such a request asks for: one save for each URL and, where all links are URLs, the
    /// start of yt-dlp.
    pub open spec fn effects_of_run(
        self,
        links: Seq<Seq<char>>,
        valid: nat,
        playlist_args: Seq<Seq<char>>,
    ) -> Seq<EffectModel> {
        let saves = required_saves(valid);
        if valid < links.len() {
            saves
        } else {
            saves.push(
                EffectModel::Start {
                    args: self.download_args(links, playlist_args),
                    bin_dir: self.config.bin_dir,
                    links_num: links.len(),
                },
            )
        }
    }
}

/// What the user is told of an error that yt-dlp reports.
pub open spec fn error_note(error: Seq<char>) -> Seq<char> {
    if occurs_in(
        "Private video. Sign in if you've been granted access to this video"@,
        error,
    ) {
        "Private video, skipping..."@
    } else if occurs_in("Video unavailable. This video contains content"@, error) || occurs_in(
        "Video unavailable. This video is no longer available because the YouTube account associated with this video has been terminated."@,
        error,
    ) {
        "Video unavailable, skipping..."@
    } else if occurs_in("YouTube said: The playlist does not exist."@, error) {
        "Playlist does not exist"@
    } else {
        "Something went wrong, logging..."@
    }
}

impl GuiModel {
    /// The state after a command message.
    pub open spec fn after_command(self, message: command::Message) -> GuiModel {
        match message {
            command::Message::Run { link, playlist_args } => {
                let links = requested_links(link@);
                self.after_run(links, leading_urls(links))
            },
            command::Message::Stop => GuiModel { download_message: None, ..self.idle() },
            command::Message::AlreadyExists => self.idle().noting(Err("Already exists"@)),
            command::Message::PlaylistNotChecked => self.idle().noting(
                Err("Playlist checkbox not checked!"@),
            ),
            command::Message::Finished => self.noting(Ok("Finished!"@)),
            command::Message::Error(error) => self.idle().noting(Err(error_note(error@))),
        }
    }

    /// What a command message asks for.
    pub open spec fn effects_of_command(self, message: command::Message) -> Seq<EffectModel> {
        match message {
            command::Message::Run { link, playlist_args } => {
                let links = requested_links(link@);
                self.effects_of_run(links, leading_urls(links), texts(playlist_args@))
            },
            command::Message::Stop => seq![EffectModel::Kill],
            command::Message::AlreadyExists => seq![EffectModel::Kill],
            command::Message::PlaylistNotChecked => seq![EffectModel::Kill],
            command::Message::Finished => seq![EffectModel::Kill, EffectModel::LogDownload],
            command::Message::Error(error) => seq![],
        }
    }

    /// A request with a link that has no colon, and so is no URL, is refused.
    pub open spec fn refuses_without_colon(
        self,
        message: command::Message,
        after: GuiModel,
    ) -> bool {
        message matches command::Message::Run { link, .. } ==> (forall|k: int|
            0 <= k < requested_links(link@).len()
                && !(#[trigger] requested_links(link@)[k]).contains(':') ==> {
                &&& after.progress is None
                &&& after.download_message matches Some(Err(_))
            })
    }

    /// A blank request is refused for its first link, and nothing else changes.
    pub open spec fn refuses_blank(
        self,
        message: command::Message,
        after: GuiModel,
        effects: Seq<EffectModel>,
    ) -> bool {
        message matches command::Message::Run { link, .. } ==> (trimmed(link@).len() == 0 ==> {
            &&& after == self.idle().noting(Err("invalid URL on position: 1"@))
            &&& effects == Seq::<EffectModel>::empty()
        })
    }

    /// The state after a report of progress.
    pub open spec fn after_progress(self, progress: Progress) -> GuiModel {
        match progress {
            Progress::Downloading(download, figures) => GuiModel {
                progress: Some(figures.percent),
                playlist_progress: match download.playlist_text_of() {
                    Some(text) => Some(text),
                    None => self.playlist_progress,
                },
                download_message: Some(Ok(download_text_of(figures))),
                ..self
            },
            Progress::PostProcessing => self.noting(Ok("Processing..."@)),
            Progress::EndOfPlaylist => self.idle().noting(Ok("Finished playlist!"@)),
            Progress::EndOfVideo => self,
            Progress::Other => self,
        }
    }

    /// What a report of progress asks for.
    pub open spec fn effects_of_progress(self, progress: Progress) -> Seq<EffectModel> {
        match progress {
            Progress::EndOfPlaylist => seq![
                EffectModel::Print("end of playlist"@),
                EffectModel::Kill,
                EffectModel::LogDownload,
            ],
            Progress::EndOfVideo if !self.is_playlist => seq![EffectModel::AskMultipleVideos],
            _ => seq![],
        }
    }

    /// The state once it is known whether the video that ended was one of several.
    pub open spec fn after_video(self, multiple: bool) -> GuiModel {
        if multiple {
            self
        } else {
            self.idle().noting(Ok("Finished!"@))
        }
    }

    /// What the end of a video asks for, once that is known.
    pub open spec fn effects_of_video(self, multiple: bool) -> Seq<EffectModel> {
        if multiple {
            seq![EffectModel::FinishedSingleVideo]
        } else {
            seq![EffectModel::Kill, EffectModel::LogDownload]
        }
    }

    /// The state after something happened to the window.
    pub open spec fn after_window_event(self, event: WindowEvent) -> GuiModel {
        match event {
            WindowEvent::CloseRequested => GuiModel {
                config: ConfigModel {
                    window_position: Some(self.window_pos),
                    ..self.config
                }.to_save(),
                ..self
            },
            WindowEvent::Resized { width, height } => GuiModel {
                window_size: WindowSize { width, height },
                ..self
            },
            WindowEvent::Moved { x, y } if self.config.save_window_position => GuiModel {
                window_pos: WindowPosition { x, y },
                ..self
            },
            _ => self,
        }
    }

    /// What that asks for.
    pub open spec fn effects_of_window_event(self, event: WindowEvent) -> Seq<EffectModel> {
        match event {
            WindowEvent::CloseRequested => seq![
                EffectModel::Kill,
                EffectModel::SaveConfig { required: false },
                EffectModel::CloseWindow,
            ],
            _ => seq![],
        }
    }

    /// The state after a choice of one of the settings.
    pub open spec fn after_setting(self, event: Message) -> GuiModel {
        let options = self.config.options;
        match event {
            Message::InputChanged(input) => GuiModel { download_link: input@, ..self },
            Message::TogglePlaylist(is_playlist) => GuiModel { is_playlist, ..self },
            Message::SelectedSponsorBlockOption(choice) => GuiModel {
                sponsorblock: Some(choice),
                ..self
            },
            Message::SelectedVideoFormat(format) => self.with_options(
                OptionsModel { video_format: format@, ..options },
            ),
            Message::SelectedResolution(resolution) => self.with_options(
                OptionsModel { video_resolution: resolution@, ..options },
            ),
            Message::SelectedAudioFormat(format) => self.with_options(
                OptionsModel { audio_format: format@, ..options },
            ),
            Message::SelectedAudioQuality(quality) => self.with_options(
                OptionsModel { audio_quality: quality@, ..options },
            ),
            Message::SelectFolderTextInput(text) => self.with_folder(PathModel::Text(text@)),
            Message::SelectTab(tab) => GuiModel { active_tab: tab, ..self },
            _ => self,
        }
    }

    /// The state after an event.
    pub open spec fn after(self, event: Message) -> GuiModel {
        match event {
            Message::SelectDownloadFolder => GuiModel { is_choosing_folder: true, ..self },
            Message::SelectedDownloadFolder(folder) => {
                let chosen = match folder {
                    Some(path) => self.with_folder(path@),
                    None => self,
                };
                GuiModel { is_choosing_folder: false, ..chosen }
            },
            Message::ProgressEvent(progress) => self.after_progress(progress),
            Message::Command(message) => self.after_command(message),
            Message::IcedEvent(event) => self.after_window_event(event),
            Message::Nothing | Message::Ready | Message::FontLoaded => self,
            _ => self.after_setting(event),
        }
    }

    /// What an event asks for.
    pub open spec fn effects_of(self, event: Message) -> Seq<EffectModel> {
        match event {
            Message::SelectDownloadFolder if !self.is_choosing_folder => seq![
                EffectModel::ChooseFolder(folder_or_default(self.config.download_folder)),
            ],
            Message::ProgressEvent(progress) => self.effects_of_progress(progress),
            Message::Ready => seq![EffectModel::KeepSender],
            Message::Command(message) => self.effects_of_command(message),
            Message::IcedEvent(event) => self.effects_of_window_event(event),
            Message::FontLoaded => seq![EffectModel::FocusLinkInput],
            _ => seq![],
        }
    }
}

impl Message {
    /// Whether the times that the event speaks of can be shown.
    pub open spec fn fits(self) -> bool {
        self matches Message::ProgressEvent(progress) ==> progress.fits()
    }
}

/// What the user is told of an error that yt-dlp reports.
pub fn explain_error(error: &str) -> (note: String)
    ensures
        note@ == error_note(error@),
{
    if contains_text(error, "Private video. Sign in if you've been granted access to this video") {
        String::from_str("Private video, skipping...")
    } else if contains_text(error, "Video unavailable. This video contains content")
        || contains_text(
        error,
        "Video unavailable. This video is no longer available because the YouTube account associated with this video has been terminated.",
    ) {
        String::from_str("Video unavailable, skipping...")
    } else if contains_text(error, "YouTube said: The playlist does not exist.") {
        String::from_str("Playlist does not exist")
    } else {
        String::from_str("Something went wrong, logging...")
    }
}

impl YtGUI {
    /// The interface as it starts, with the settings that were loaded.
    pub fn new(flags: Config) -> (gui: Self)
        ensures
            gui@ == GuiModel::initial(flags@),
    {
        let download_link = match &flags.url {
            Some(url) => url.clone(),
            None => String::new(),
        };
        YtGUI {
            download_link,
            is_playlist: false,
            sponsorblock: None,
            config: flags,
            active_tab: Tab::Video,
            playlist_progress: None,
            download_message: None,
            is_choosing_folder: false,
            progress: None,
            window_size: WindowSize { width: Single::zero(), height: Single::zero() },
            window_pos: WindowPosition { x: Single::zero(), y: Single::zero() },
        }
    }

    /// The title of the window.
    pub fn title(&self) -> (title: String)
        ensures
            title@ == "Youtube Downloader"@,
            title@ == self@.title(),
    {
        String::from_str("Youtube Downloader")
    }

    /// Adds the arguments that the active tab asks for.
    fn push_tab_args(&self, args: &mut Vec<String>)
        ensures
            texts(final(args)@) == texts(old(args)@) + self@.tab_args(),
    {
        match self.active_tab {
            Tab::Video => {
                args.push(String::from_str("-S"));
                args.push(self.config.options.video_resolution.argument.clone());
                // yt-dlp sometimes downloads audio and video apart and merges them in another
                // format; this enforces the one that was chosen
                args.push(String::from_str("--remux-video"));
                args.push(self.config.options.video_format.argument.clone());
            },
            Tab::Audio => {
                args.push(String::from_str("-x"));
                args.push(String::from_str("--audio-format"));
                args.push(self.config.options.audio_format.argument.clone());
                args.push(String::from_str("--audio-quality"));
                args.push(self.config.options.audio_quality.argument.clone());
            },
        }
        assert(texts(args@) =~= texts(old(args)@) + self@.tab_args());
    }

    /// The arguments that a download of some links gives to yt-dlp.
    pub fn download_args(&self, links: Vec<String>, playlist_args: Vec<String>) -> (args: Vec<
        String,
    >)
        ensures
            texts(args@) == self@.download_args(texts(links@), texts(playlist_args@)),
    {
        let mut args = links;
        let mut more = playlist_args;
        self.push_tab_args(&mut args);
        let ghost before = args@;
        args.append(&mut more);
        assert(texts(args@) =~= texts(before) + texts(playlist_args@));
        match self.sponsorblock {
            Some(SponsorBlockOption::Remove) => {
                args.push(String::from_str("--sponsorblock-remove=default"));
            },
            Some(SponsorBlockOption::Mark) => {
                args.push(String::from_str("--sponsorblock-mark=default"));
            },
            None => {},
        }
        assert(texts(args@) =~= texts(before) + texts(playlist_args@) + sponsorblock_args(
            self.sponsorblock,
        ));
        args
    }

    /// What the arguments for the playlist of a request are to be made from: the playlist setting
    /// and the download folder.
    pub fn playlist_inputs(&self) -> (inputs: (bool, Option<RawPath>))
        ensures
            inputs.0 == self@.is_playlist,
            path_of(inputs.1) == self@.config.download_folder,
            (inputs.0, path_of(inputs.1)) == self@.made_into_playlist_args(),
    {
        (self.is_playlist, copy_path(&self.config.download_folder))
    }

    /// Answers a request for some links, of which the first `valid` are URLs and the next one,
    /// if there is one, is not.
    pub fn run_links(
        &mut self,
        links: Vec<String>,
        valid: usize,
        playlist_args: Vec<String>,
    ) -> (effects: Vec<Effect>)
        requires
            valid <= links.len(),
        ensures
            final(self)@ == old(self)@.after_run(texts(links@), valid as nat),
            effects_of(effects@) == old(self)@.effects_of_run(
                texts(links@),
                valid as nat,
                texts(playlist_args@),
            ),
    {
        let mut effects: Vec<Effect> = Vec::new();
        let mut saved: usize = 0;
        let ghost before = self@;
        while saved < valid
            invariant
                saved <= valid,
                self@ == (if saved > 0 {
                    GuiModel { config: before.config.to_save(), ..before }
                } else {
                    before
                }),
                effects_of(effects@) == required_saves(saved as nat),
            decreases valid - saved,
        {
            let ghost earlier = effects@;
            let save = Effect::SaveConfig { required: true };
            self.config.update_config_file();
            effects.push(save);
            assert(effects_of(effects@) =~= effects_of(earlier).push(save@));
            assert(effects_of(effects@) =~= required_saves(saved as nat + 1));
            saved = saved + 1;
        }
        let links_num = links.len();
        if valid < links_num {
            let mut note = String::from_str("invalid URL on position: ");
            note.append(decimal_text(valid as u64 + 1).as_str());
            self.progress = None;
            self.download_message = Some(Err(note));
        } else {
            let args = self.download_args(links, playlist_args);
            let bin_dir = copy_path(&self.config.bin_dir);
            let start = Effect::Start { args, bin_dir, links_num };
            let ghost saves = effects@;
            effects.push(start);
            assert(effects_of(effects@) =~= effects_of(saves).push(start@));
        }
        effects
    }

    /// Answers a command message.
    pub fn command_update(&mut self, message: command::Message) -> (effects: Vec<Effect>)
        ensures
            final(self)@ == old(self)@.after_command(message),
            effects_of(effects@) == old(self)@.effects_of_command(message),
            old(self)@.refuses_without_colon(message, final(self)@),
            old(self)@.refuses_blank(message, final(self)@, effects_of(effects@)),
    {
        let mut effects: Vec<Effect> = Vec::new();
        match message {
            command::Message::Run { link, playlist_args } => {
                let links = read_links(link.as_str());
                let valid = count_leading_urls(&links);
                proof {
                    if trimmed(link@).len() == 0 {
                        assert(!requested_links(link@)[0].contains(':'));
                        assert(valid == 0);
                        assert(required_saves(0) =~= Seq::empty());
                        reveal_strlit("invalid URL on position: ");
                        reveal_strlit("invalid URL on position: 1");
                        assert("invalid URL on position: "@ + decimal(1)
                            =~= "invalid URL on position: 1"@);
                    }
                }
                return self.run_links(links, valid, playlist_args);
            },
            command::Message::Stop => {
                effects.push(Effect::Kill);
                self.progress = None;
                self.download_message = None;
            },
            command::Message::AlreadyExists => {
                effects.push(Effect::Kill);
                self.progress = None;
                self.download_message = Some(Err(String::from_str("Already exists")));
            },
            command::Message::PlaylistNotChecked => {
                effects.push(Effect::Kill);
                self.progress = None;
                self.download_message = Some(
                    Err(String::from_str("Playlist checkbox not checked!")),
                );
            },
            command::Message::Finished => {
                effects.push(Effect::Kill);
                self.download_message = Some(Ok(String::from_str("Finished!")));
                effects.push(Effect::LogDownload);
            },
            command::Message::Error(error) => {
                self.progress = None;
                self.download_message = Some(Err(explain_error(error.as_str())));
            },
        }
        assert(effects_of(effects@) =~= old(self)@.effects_of_command(message));
        effects
    }

    /// Takes in what became of an attempt to start yt-dlp.
    pub fn command_started(&mut self, outcome: Option<Result<String, String>>)
        ensures
            final(self)@ == (GuiModel { download_message: note_of(outcome), ..old(self)@ }),
            final(self)@ == old(self)@.after_step(Step::Started(note_of(outcome))),
    {
        self.download_message = outcome;
    }

    /// Answers a report of progress.
    pub fn progress_update(&mut self, progress: Progress) -> (effects: Vec<Effect>)
        requires
            progress.fits(),
        ensures
            final(self)@ == old(self)@.after_progress(progress),
            effects_of(effects@) == old(self)@.effects_of_progress(progress),
    {
        let mut effects: Vec<Effect> = Vec::new();
        match progress {
            Progress::Downloading(download, figures) => {
                self.progress = Some(figures.percent);
                if let Some(text) = download.playlist_text() {
                    self.playlist_progress = Some(text);
                }
                self.download_message = Some(Ok(download_text(&figures)));
            },
            Progress::PostProcessing => {
                self.download_message = Some(Ok(String::from_str("Processing...")));
            },
            Progress::EndOfPlaylist => {
                effects.push(Effect::Print(String::from_str("end of playlist")));
                effects.push(Effect::Kill);
                self.progress = None;
                self.download_message = Some(Ok(String::from_str("Finished playlist!")));
                effects.push(Effect::LogDownload);
            },
            Progress::EndOfVideo => {
                if !self.is_playlist {
                    effects.push(Effect::AskMultipleVideos);
                }
            },
            Progress::Other => {},
        }
        assert(effects_of(effects@) =~= old(self)@.effects_of_progress(progress));
        effects
    }

    /// Takes in whether the video that ended was one of several.
    pub fn video_ended(&mut self, multiple: bool) -> (effects: Vec<Effect>)
        ensures
            final(self)@ == old(self)@.after_video(multiple),
            effects_of(effects@) == old(self)@.effects_of_video(multiple),
            final(self)@ == old(self)@.after_step(Step::VideoEnded(multiple)),
    {
        let mut effects: Vec<Effect> = Vec::new();
        if multiple {
            effects.push(Effect::FinishedSingleVideo);
        } else {
            effects.push(Effect::Kill);
            self.progress = None;
            self.download_message = Some(Ok(String::from_str("Finished!")));
            effects.push(Effect::LogDownload);
        }
        assert(effects_of(effects@) =~= old(self)@.effects_of_video(multiple));
        effects
    }

    /// Answers what happens to the window.
    fn window_update(&mut self, event: WindowEvent) -> (effects: Vec<Effect>)
        ensures
            final(self)@ == old(self)@.after_window_event(event),
            effects_of(effects@) == old(self)@.effects_of_window_event(event),
    {
        let mut effects: Vec<Effect> = Vec::new();
        match event {
            WindowEvent::CloseRequested => {
                effects.push(Effect::Kill);
                self.config.window_position = Some(self.window_pos);
                self.config.update_config_file();
                effects.push(Effect::SaveConfig { required: false });
                effects.push(Effect::CloseWindow);
            },
            WindowEvent::Resized { width, height } => {
                self.window_size = WindowSize { width, height };
            },
            WindowEvent::Moved { x, y } => {
                if self.config.save_window_position {
                    self.window_pos = WindowPosition { x, y };
                }
            },
            WindowEvent::Other => {},
        }
        assert(effects_of(effects@) =~= old(self)@.effects_of_window_event(event));
        effects
    }

    /// Answers an event.
    pub fn update(&mut self, event: Message) -> (effects: Vec<Effect>)
        requires
            event.fits(),
        ensures
            final(self)@ == old(self)@.after(event),
            effects_of(effects@) == old(self)@.effects_of(event),
            event matches Message::Command(message) ==> {
                &&& old(self)@.refuses_without_colon(message, final(self)@)
                &&& old(self)@.refuses_blank(message, final(self)@, effects_of(effects@))
            },
    {
        let mut effects: Vec<Effect> = Vec::new();
        match event {
            Message::Command(message) => {
                return self.command_update(message);
            },
            Message::InputChanged(input) => {
                self.download_link = input;
            },
            Message::SelectedResolution(resolution) => {
                self.config.options.video_resolution = resolution;
            },
            Message::TogglePlaylist(is_playlist) => {
                self.is_playlist = is_playlist;
            },
            Message::SelectedSponsorBlockOption(sponsorblock) => {
                self.sponsorblock = Some(sponsorblock);
            },
            Message::SelectedVideoFormat(format) => {
                self.config.options.video_format = format;
            },
            Message::SelectDownloadFolder => {
                if !self.is_choosing_folder {
                    self.is_choosing_folder = true;
                    effects.push(Effect::ChooseFolder(chosen_folder(&self.config.download_folder)));
                }
            },
            Message::SelectedDownloadFolder(folder) => {
                if let Some(path) = folder {
                    self.config.download_folder = Some(path);
                }
                self.is_choosing_folder = false;
            },
            Message::SelectFolderTextInput(text) => {
                self.config.download_folder = Some(RawPath::Text(text));
            },
            Message::SelectTab(selected_tab) => {
                self.active_tab = selected_tab;
            },
            Message::SelectedAudioFormat(format) => {
                self.config.options.audio_format = format;
            },
            Message::SelectedAudioQuality(quality) => {
                self.config.options.audio_quality = quality;
            },
            Message::ProgressEvent(progress) => {
                return self.progress_update(progress);
            },
            Message::Ready => {
                effects.push(Effect::KeepSender);
            },
            Message::IcedEvent(event) => {
                return self.window_update(event);
            },
            Message::Nothing => {},
            Message::FontLoaded => {
                effects.push(Effect::FocusLinkInput);
            },
        }
        assert(effects_of(effects@) =~= old(self)@.effects_of(event));
        effects
    }
}

} // verus!
