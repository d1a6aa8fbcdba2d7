use ytdlp_gui::command;
use ytdlp_gui::gui::explain_error;
use ytdlp_gui::log_setup::default_filter;
use ytdlp_gui::media_options::{MediaOption, Options};
use ytdlp_gui::path::RawPath;
use ytdlp_gui::progress::{Download, Figures, Progress};
use ytdlp_gui::screen::Banner;
use ytdlp_gui::single::Single;
use ytdlp_gui::sponsorblock::SponsorBlockOption;
use ytdlp_gui::{Config, Effect, Message, Tab, WindowEvent, WindowPosition, WindowSize, YtGUI};

const URL: &str = "https://www.youtube.com/watch?v=abc";
const OTHER_URL: &str = "https://youtu.be/def";

fn single(value: f32) -> Single {
    Single { bits: value.to_bits() }
}

fn option(name: &str, argument: &str) -> MediaOption {
    MediaOption { name: name.to_string(), argument: argument.to_string() }
}

fn options() -> Options {
    Options {
        video_resolution: option("FullHD", "res:1080"),
        video_format: option("Mp4", "mp4"),
        audio_format: option("Mp3", "mp3"),
        audio_quality: option("Good", "2"),
    }
}

fn config() -> Config {
    Config::with_options(options())
}

fn gui() -> YtGUI {
    YtGUI::new(config())
}

fn strings(list: &[&str]) -> Vec<String> {
    list.iter().map(|s| s.to_string()).collect()
}

fn run(link: &str) -> command::Message {
    command::Message::Run {
        link: link.to_string(),
        playlist_args: strings(&["--no-playlist", "-P", "/videos"]),
    }
}

fn failure(note: &str) -> Option<Result<String, String>> {
    Some(Err(note.to_string()))
}

fn success(note: &str) -> Option<Result<String, String>> {
    Some(Ok(note.to_string()))
}

fn required_save() -> Effect {
    Effect::SaveConfig { required: true }
}

fn busy() -> YtGUI {
    let mut gui = gui();
    gui.progress = Some(single(40.0));
    gui.download_message = success("going on");
    gui.playlist_progress = Some(String::from("Downloading 1/2"));
    gui.download_link = URL.to_string();
    gui
}

fn downloading(eta_seconds: i64, count: Option<i64>, index: Option<i64>) -> Message {
    Message::ProgressEvent(Progress::Downloading(
        Download {
            eta: Some(single(eta_seconds as f32)),
            downloaded_bytes: single(3145728.0),
            total_bytes: Some(single(6291456.0)),
            total_bytes_estimate: None,
            speed: Some(single(1048576.0)),
            playlist_count: count,
            playlist_index: index,
        },
        Figures {
            percent: single(50.0),
            megabytes: single(3.0),
            megabytes_text: String::from("3.00"),
            gigabytes_text: String::from("0.00"),
            speed_text: String::from("1.00"),
            eta_seconds,
        },
    ))
}

#[test]
fn it_starts_with_the_loaded_settings() {
    let loaded = || Config { url: Some(URL.to_string()), ..config() };
    let gui = YtGUI::new(loaded());
    assert_eq!(gui.download_link, URL);
    assert_eq!(gui.config, loaded());
    assert_eq!(gui.active_tab, Tab::Video);
    assert!(!gui.is_playlist);
    assert_eq!(gui.sponsorblock, None);
    assert_eq!(gui.playlist_progress, None);
    assert_eq!(gui.download_message, None);
    assert!(!gui.is_choosing_folder);
    assert_eq!(gui.progress, None);
    assert_eq!(gui.window_size, WindowSize { width: single(0.0), height: single(0.0) });
    assert_eq!(gui.window_pos, WindowPosition { x: single(0.0), y: single(0.0) });
}

#[test]
fn without_a_loaded_link_the_field_is_empty() {
    assert_eq!(gui().download_link, "");
    assert_eq!(gui().title(), "Youtube Downloader");
}

#[test]
fn a_video_request_starts_a_download() {
    let mut gui = gui();
    gui.config.url = Some(URL.to_string());
    gui.config.bin_dir = Some(RawPath::from_text("/usr/bin"));
    let effects = gui.command_update(run(URL));
    assert_eq!(
        effects,
        vec![
            required_save(),
            Effect::Start {
                args: strings(&[
                    URL,
                    "-S",
                    "res:1080",
                    "--remux-video",
                    "mp4",
                    "--no-playlist",
                    "-P",
                    "/videos",
                ]),
                bin_dir: Some(RawPath::from_text("/usr/bin")),
                links_num: 1,
            },
        ]
    );
    assert_eq!(gui.config.url, None);
    assert_eq!(gui.download_message, None);
}

#[test]
fn an_audio_request_starts_a_download_of_several_links() {
    let mut gui = gui();
    gui.active_tab = Tab::Audio;
    gui.sponsorblock = Some(SponsorBlockOption::Mark);
    let effects = gui.command_update(run(&format!(" {} {}\n", URL, OTHER_URL)));
    assert_eq!(
        effects,
        vec![
            required_save(),
            required_save(),
            Effect::Start {
                args: strings(&[
                    URL,
                    OTHER_URL,
                    "-x",
                    "--audio-format",
                    "mp3",
                    "--audio-quality",
                    "2",
                    "--no-playlist",
                    "-P",
                    "/videos",
                    "--sponsorblock-mark=default",
                ]),
                bin_dir: None,
                links_num: 2,
            },
        ]
    );
}

#[test]
fn sponsor_segments_can_be_removed() {
    let mut gui = gui();
    gui.sponsorblock = Some(SponsorBlockOption::Remove);
    let args = gui.download_args(strings(&[URL]), Vec::new());
    assert_eq!(args.last().unwrap(), "--sponsorblock-remove=default");
    assert_eq!(args.len(), 6);
}

#[test]
fn the_outcome_of_the_start_is_shown() {
    let mut gui = gui();
    gui.command_started(failure("yt-dlp was not found"));
    assert_eq!(gui.download_message, failure("yt-dlp was not found"));
    gui.command_started(None);
    assert_eq!(gui.download_message, None);
}

#[test]
fn a_bad_link_is_refused_with_its_position() {
    let mut gui = busy();
    gui.config.url = Some(URL.to_string());
    let effects = gui.command_update(run(&format!("{} nonsense {}", URL, URL)));
    assert_eq!(effects, vec![required_save()]);
    assert_eq!(gui.download_message, failure("invalid URL on position: 2"));
    assert_eq!(gui.progress, None);
    assert_eq!(gui.config.url, None);
}

#[test]
fn a_bad_first_link_saves_nothing() {
    let mut gui = busy();
    gui.config.url = Some(URL.to_string());
    let effects = gui.command_update(run("nonsense"));
    assert_eq!(effects, vec![]);
    assert_eq!(gui.download_message, failure("invalid URL on position: 1"));
    assert_eq!(gui.config.url, Some(URL.to_string()));
}

#[test]
fn two_spaces_make_an_empty_link() {
    let mut gui = gui();
    let effects = gui.command_update(run(&format!("{}  {}", URL, URL)));
    assert_eq!(effects, vec![required_save()]);
    assert_eq!(gui.download_message, failure("invalid URL on position: 2"));
}

#[test]
fn a_blank_request_is_refused() {
    for blank in ["", "   ", "\n\t"] {
        let mut gui = busy();
        assert_eq!(gui.command_update(run(blank)), vec![]);
        assert_eq!(gui.download_message, failure("invalid URL on position: 1"));
        assert_eq!(gui.progress, None);
    }
}

#[test]
fn positions_past_nine_are_written_out() {
    let mut gui = gui();
    let links = strings(&[URL; 12]);
    let effects = gui.run_links(links, 11, Vec::new());
    assert_eq!(effects.len(), 11);
    assert_eq!(gui.download_message, failure("invalid URL on position: 12"));
}

#[test]
fn stopping_clears_the_window() {
    let mut gui = busy();
    assert_eq!(gui.command_update(command::Message::Stop), vec![Effect::Kill]);
    assert_eq!(gui.progress, None);
    assert_eq!(gui.show_download_message(), Banner::Blank);
    assert_eq!(gui.screen().download, Some(URL.to_string()));
}

#[test]
fn existing_files_are_reported() {
    let mut gui = busy();
    assert_eq!(gui.command_update(command::Message::AlreadyExists), vec![Effect::Kill]);
    assert_eq!(gui.progress, None);
    assert_eq!(gui.show_download_message(), Banner::Failed(String::from("Already exists")));
    assert_eq!(gui.screen().download, Some(URL.to_string()));
}

#[test]
fn an_unchecked_playlist_is_reported() {
    let mut gui = busy();
    assert_eq!(gui.command_update(command::Message::PlaylistNotChecked), vec![Effect::Kill]);
    assert_eq!(gui.progress, None);
    assert_eq!(gui.download_message, failure("Playlist checkbox not checked!"));
}

#[test]
fn a_finished_command_is_logged() {
    let mut gui = busy();
    assert_eq!(
        gui.command_update(command::Message::Finished),
        vec![Effect::Kill, Effect::LogDownload]
    );
    assert_eq!(gui.download_message, success("Finished!"));
    assert_eq!(gui.progress, Some(single(40.0)));
}

#[test]
fn errors_are_explained() {
    let samples = [
        (
            "ERROR: Private video. Sign in if you've been granted access to this video",
            "Private video, skipping...",
        ),
        (
            "ERROR: Video unavailable. This video contains content from X",
            "Video unavailable, skipping...",
        ),
        (
            "Video unavailable. This video is no longer available because the YouTube account associated with this video has been terminated.",
            "Video unavailable, skipping...",
        ),
        ("YouTube said: The playlist does not exist.", "Playlist does not exist"),
        ("Video unavailable.", "Something went wrong, logging..."),
        ("", "Something went wrong, logging..."),
    ];
    for (error, note) in samples {
        let mut gui = busy();
        let effects = gui.command_update(command::Message::Error(error.to_string()));
        assert_eq!(effects, vec![]);
        assert_eq!(gui.download_message, failure(note));
        assert_eq!(gui.progress, None);
        assert_eq!(explain_error(error), note);
    }
}

#[test]
fn the_first_explanation_that_fits_counts() {
    let error = "YouTube said: The playlist does not exist. Video unavailable. This video contains content; Private video. Sign in if you've been granted access to this video";
    assert_eq!(explain_error(error), "Private video, skipping...");
    let error = "YouTube said: The playlist does not exist. Video unavailable. This video contains content";
    assert_eq!(explain_error(error), "Video unavailable, skipping...");
}

#[test]
fn a_transfer_is_shown() {
    let mut gui = gui();
    assert_eq!(gui.update(downloading(75, Some(9), Some(4))), vec![]);
    assert_eq!(
        gui.show_download_message(),
        Banner::Running {
            note: String::from("3.00MB | 1.00MB/s | ETA 01:15"),
            playlist_progress: String::from("Downloading 4/9"),
            percent: Some(single(50.0)),
        }
    );
    assert_eq!(gui.screen().download, None);
}

#[test]
fn the_place_in_the_playlist_stays_until_the_next_one() {
    let mut gui = busy();
    gui.update(downloading(1, None, Some(2)));
    assert_eq!(gui.playlist_progress, Some(String::from("Downloading 1/2")));
    gui.update(downloading(1, Some(2), Some(2)));
    assert_eq!(gui.playlist_progress, Some(String::from("Downloading 2/2")));
}

#[test]
fn processing_keeps_the_percentage() {
    let mut gui = busy();
    assert_eq!(gui.update(Message::ProgressEvent(Progress::PostProcessing)), vec![]);
    assert_eq!(gui.download_message, success("Processing..."));
    assert_eq!(gui.progress, Some(single(40.0)));
}

#[test]
fn the_end_of_a_playlist_is_logged() {
    let mut gui = busy();
    assert_eq!(
        gui.update(Message::ProgressEvent(Progress::EndOfPlaylist)),
        vec![
            Effect::Print(String::from("end of playlist")),
            Effect::Kill,
            Effect::LogDownload,
        ]
    );
    assert_eq!(gui.download_message, success("Finished playlist!"));
    assert_eq!(gui.progress, None);
}

#[test]
fn the_end_of_a_video_asks_for_more() {
    let mut gui = busy();
    assert_eq!(
        gui.update(Message::ProgressEvent(Progress::EndOfVideo)),
        vec![Effect::AskMultipleVideos]
    );
    assert_eq!(gui, busy());
    assert_eq!(gui.video_ended(true), vec![Effect::FinishedSingleVideo]);
    assert_eq!(gui, busy());
    assert_eq!(gui.video_ended(false), vec![Effect::Kill, Effect::LogDownload]);
    assert_eq!(gui.download_message, success("Finished!"));
    assert_eq!(gui.progress, None);
}

#[test]
fn videos_of_a_playlist_end_without_notice() {
    let mut gui = busy();
    gui.is_playlist = true;
    assert_eq!(gui.update(Message::ProgressEvent(Progress::EndOfVideo)), vec![]);
    assert_eq!(gui.update(Message::ProgressEvent(Progress::Other)), vec![]);
    assert_eq!(gui.progress, Some(single(40.0)));
}

#[test]
fn settings_are_chosen() {
    let mut gui = busy();
    let events = [
        Message::InputChanged(String::from("link")),
        Message::TogglePlaylist(true),
        Message::SelectedSponsorBlockOption(SponsorBlockOption::Mark),
        Message::SelectedVideoFormat(option("Webm", "webm")),
        Message::SelectedResolution(option("HD", "res:720")),
        Message::SelectedAudioFormat(option("Opus", "opus")),
        Message::SelectedAudioQuality(option("Best", "0")),
        Message::SelectFolderTextInput(String::from("/music")),
        Message::SelectTab(Tab::Audio),
    ];
    for event in events {
        assert_eq!(gui.update(event), vec![]);
    }
    assert_eq!(gui.download_link, "link");
    assert!(gui.is_playlist);
    assert_eq!(gui.sponsorblock, Some(SponsorBlockOption::Mark));
    assert_eq!(gui.config.options.video_format, option("Webm", "webm"));
    assert_eq!(gui.config.options.video_resolution, option("HD", "res:720"));
    assert_eq!(gui.config.options.audio_format, option("Opus", "opus"));
    assert_eq!(gui.config.options.audio_quality, option("Best", "0"));
    assert_eq!(gui.config.download_folder, Some(RawPath::from_text("/music")));
    assert_eq!(gui.active_tab, Tab::Audio);
    assert_eq!(gui.progress, busy().progress);
    assert_eq!(gui.download_message, busy().download_message);
    assert_eq!(gui.playlist_progress, busy().playlist_progress);
}

#[test]
fn settings_can_be_chosen_in_any_order() {
    let mut one = gui();
    let mut other = gui();
    one.update(Message::SelectTab(Tab::Audio));
    one.update(Message::InputChanged(String::from("x")));
    other.update(Message::InputChanged(String::from("y")));
    other.update(Message::InputChanged(String::from("x")));
    other.update(Message::SelectTab(Tab::Audio));
    assert_eq!(one, other);
}

#[test]
fn one_folder_dialog_is_open_at_a_time() {
    let mut gui = gui();
    let opened = gui.update(Message::SelectDownloadFolder);
    assert_eq!(opened, vec![Effect::ChooseFolder(RawPath::from_text("~/Videos"))]);
    assert!(gui.is_choosing_folder);
    assert_eq!(gui.update(Message::SelectDownloadFolder), vec![]);
    gui.update(Message::SelectedDownloadFolder(Some(RawPath::from_text("/films"))));
    assert!(!gui.is_choosing_folder);
    let opened = gui.update(Message::SelectDownloadFolder);
    assert_eq!(opened, vec![Effect::ChooseFolder(RawPath::from_text("/films"))]);
}

#[test]
fn a_cancelled_dialog_changes_nothing() {
    let mut gui = busy();
    gui.config.download_folder = Some(RawPath::from_text("/films"));
    gui.update(Message::SelectDownloadFolder);
    assert_eq!(gui.update(Message::SelectedDownloadFolder(None)), vec![]);
    assert!(!gui.is_choosing_folder);
    assert_eq!(gui.config.download_folder, Some(RawPath::from_text("/films")));
}

#[test]
fn closing_saves_the_position() {
    let mut gui = gui();
    gui.config.save_window_position = true;
    gui.config.url = Some(URL.to_string());
    let moved = WindowEvent::Moved { x: single(10.0), y: single(-20.0) };
    assert_eq!(gui.update(Message::IcedEvent(moved)), vec![]);
    assert_eq!(
        gui.update(Message::IcedEvent(WindowEvent::CloseRequested)),
        vec![Effect::Kill, Effect::SaveConfig { required: false }, Effect::CloseWindow]
    );
    assert_eq!(
        gui.config.window_position,
        Some(WindowPosition { x: single(10.0), y: single(-20.0) })
    );
    assert_eq!(gui.config.url, None);
    let again = YtGUI::new(gui.config);
    assert_eq!(again.download_link, "");
    assert_eq!(again.config.options, options());
}

#[test]
fn moves_are_noted_only_on_request() {
    let mut gui = gui();
    let moved = WindowEvent::Moved { x: single(10.0), y: single(20.0) };
    gui.update(Message::IcedEvent(moved));
    assert_eq!(gui.window_pos, WindowPosition { x: single(0.0), y: single(0.0) });
}

#[test]
fn the_size_of_the_window_is_noted() {
    let mut gui = gui();
    let resized = WindowEvent::Resized { width: single(800.0), height: single(600.0) };
    assert_eq!(gui.update(Message::IcedEvent(resized)), vec![]);
    assert_eq!(gui.window_size, WindowSize { width: single(800.0), height: single(600.0) });
    assert_eq!(gui.config.window_size, None);
    assert_eq!(gui.update(Message::IcedEvent(WindowEvent::Other)), vec![]);
}

#[test]
fn other_events_are_passed_on() {
    let mut gui = busy();
    assert_eq!(gui.update(Message::Nothing), vec![]);
    assert_eq!(gui.update(Message::Ready), vec![Effect::KeepSender]);
    assert_eq!(gui.update(Message::FontLoaded), vec![Effect::FocusLinkInput]);
    assert_eq!(gui, busy());
    assert_eq!(gui.update(Message::Command(command::Message::Stop)), vec![Effect::Kill]);
}

#[test]
fn the_screen_shows_the_state() {
    let mut gui = gui();
    gui.download_link = URL.to_string();
    gui.is_playlist = true;
    gui.sponsorblock = Some(SponsorBlockOption::Remove);
    gui.update(Message::SelectFolderTextInput(String::from("/müsic")));
    let screen = gui.screen();
    assert_eq!(screen.download_link, URL);
    assert_eq!(
        screen.sponsorblock_choices,
        vec![SponsorBlockOption::Remove, SponsorBlockOption::Mark]
    );
    assert_eq!(screen.sponsorblock, Some(SponsorBlockOption::Remove));
    assert!(screen.is_playlist);
    assert_eq!(screen.active_tab, Tab::Video);
    assert_eq!(screen.video_resolution, options().video_resolution);
    assert_eq!(screen.video_format, options().video_format);
    assert_eq!(screen.audio_quality, options().audio_quality);
    assert_eq!(screen.audio_format, options().audio_format);
    assert_eq!(screen.banner, Banner::Blank);
    assert_eq!(screen.folder, "/müsic");
    assert_eq!(screen.submit, URL);
    assert_eq!(screen.download, Some(URL.to_string()));
}

#[test]
fn folders_are_shown_as_text() {
    let mut gui = gui();
    assert_eq!(gui.folder_text(), "~/Videos");
    gui.config.download_folder = Some(RawPath::from_text("/müsic"));
    assert_eq!(gui.folder_text(), "/müsic");
    gui.config.download_folder = Some(RawPath::Bytes(vec![b'/', 0xff, b'a']));
    assert_eq!(gui.folder_text(), "/\u{fffd}a");
    gui.config.download_folder = Some(RawPath::Bytes("/müsic".as_bytes().to_vec()));
    assert_eq!(gui.folder_text(), "/müsic");
}

#[test]
fn an_unpaired_surrogate_is_shown_as_one_replacement() {
    let mut gui = gui();
    gui.config.download_folder = Some(RawPath::Wide(vec![0x43, 0x3a, 0x5c, 0xd800, 0x61]));
    assert_eq!(gui.folder_text(), "C:\\\u{fffd}a");
    gui.config.download_folder = Some(RawPath::Wide("müsic √".encode_utf16().collect()));
    assert_eq!(gui.folder_text(), "müsic √");
    gui.config.download_folder = Some(RawPath::Wide("\u{1f3b5}".encode_utf16().collect()));
    assert_eq!(gui.folder_text(), "\u{1f3b5}");
    let mixed = vec![0xdc00, 0xd800, 0xd83c, 0xdfb5, 0xdfb5, 0xdbff, 0xdfff, 0xffff, 0xdbff];
    gui.config.download_folder = Some(RawPath::Wide(mixed));
    assert_eq!(
        gui.folder_text(),
        "\u{fffd}\u{fffd}\u{1f3b5}\u{fffd}\u{10ffff}\u{ffff}\u{fffd}"
    );
}

#[test]
fn copied_paths_are_the_same() {
    let paths = [
        RawPath::from_text("/films"),
        RawPath::Bytes(vec![1, 255]),
        RawPath::Wide(vec![1, 0xdfff]),
    ];
    for path in paths {
        assert_eq!(path.clone(), path);
    }
}

#[test]
fn a_note_without_a_playlist_has_no_place() {
    let mut gui = gui();
    gui.download_message = success("Processing...");
    assert_eq!(
        gui.show_download_message(),
        Banner::Running {
            note: String::from("Processing..."),
            playlist_progress: String::new(),
            percent: None,
        }
    );
}

#[test]
fn downloads_are_logged_with_their_options() {
    let mut gui = gui();
    gui.download_link = URL.to_string();
    assert_eq!(gui.log_line("now", "/films"), format!("[now]::{}::FullHD:Mp4::/films", URL));
    gui.active_tab = Tab::Audio;
    assert_eq!(gui.log_line("now", "/films"), format!("[now]::{}::Good:Mp3::/films", URL));
}

#[test]
fn a_logged_line_ends_with_the_default_folder() {
    let mut gui = gui();
    gui.download_link = URL.to_string();
    let entry = gui.log_download();
    let line = entry.strip_suffix('\n').unwrap();
    assert!(!line.contains('\n'));
    assert!(line.ends_with(&format!("]::{}::FullHD:Mp4::~/Videos", URL)));
    // a date, a time and an offset from UTC
    let now = line.strip_prefix('[').unwrap().split("]::").next().unwrap();
    let parts: Vec<&str> = now.split(' ').collect();
    assert_eq!(parts.len(), 3);
    let shape = |text: &str| -> String {
        text.chars().map(|c| if c.is_ascii_digit() { '0' } else { c }).collect()
    };
    assert_eq!(shape(parts[0]), "0000-00-00");
    let time = shape(parts[1]);
    assert!(["00:00:00", "00:00:00.000", "00:00:00.000000", "00:00:00.000000000"]
        .contains(&time.as_str()));
    assert!(["+00:00", "-00:00", "+00:00:00", "-00:00:00"].contains(&shape(parts[2]).as_str()));
    assert!(now.starts_with("20"));
    assert!(now.len() >= 26 && !now.contains("::") && !now.contains(']'));
}

#[test]
fn saved_settings_hold_no_link() {
    let mut config = config();
    config.url = Some(URL.to_string());
    config.save_window_position = true;
    config.update_config_file();
    assert_eq!(config.url, None);
    assert!(config.save_window_position);
    assert_eq!(config.options, options());
}

#[test]
fn a_second_dialog_waits_for_an_answer_whatever_happens() {
    let mut gui = gui();
    gui.update(Message::SelectDownloadFolder);
    let events = [
        Message::SelectFolderTextInput(String::from("/music")),
        Message::Command(command::Message::Stop),
        Message::ProgressEvent(Progress::EndOfPlaylist),
        Message::SelectDownloadFolder,
    ];
    for event in events {
        let effects = gui.update(event);
        assert!(!effects.iter().any(|effect| matches!(effect, Effect::ChooseFolder(_))));
        assert!(gui.is_choosing_folder);
    }
    gui.video_ended(false);
    gui.command_started(None);
    assert!(gui.is_choosing_folder);
}

#[test]
fn an_unkept_position_is_saved_as_the_origin() {
    let mut gui = gui();
    gui.config.bin_dir = Some(RawPath::from_text("/opt"));
    let moved = WindowEvent::Moved { x: single(7.0), y: single(8.0) };
    gui.update(Message::IcedEvent(moved));
    gui.update(Message::IcedEvent(WindowEvent::CloseRequested));
    assert_eq!(
        gui.config.window_position,
        Some(WindowPosition { x: single(0.0), y: single(0.0) })
    );
    assert_eq!(gui.config.bin_dir, Some(RawPath::from_text("/opt")));
    assert!(!gui.config.save_window_position);
}

#[test]
fn the_link_can_be_submitted_while_a_download_runs() {
    let gui = busy();
    assert_eq!(gui.submitted_link(), URL);
    assert_eq!(gui.screen().submit, URL);
    assert_eq!(gui.screen().download, None);
}

#[test]
fn playlist_arguments_are_made_from_the_setting_and_the_folder() {
    let mut gui = gui();
    assert_eq!(gui.playlist_inputs(), (false, None));
    gui.update(Message::TogglePlaylist(true));
    gui.update(Message::SelectFolderTextInput(String::from("/music")));
    assert_eq!(gui.playlist_inputs(), (true, Some(RawPath::from_text("/music"))));
}

#[test]
fn a_kept_position_is_the_last_move() {
    let mut gui = YtGUI::new(Config { save_window_position: true, ..config() });
    for place in [1.0, 2.0, 3.0] {
        let moved = WindowEvent::Moved { x: single(place), y: single(-place) };
        gui.update(Message::IcedEvent(moved));
        gui.update(Message::Command(command::Message::Stop));
        gui.video_ended(false);
    }
    gui.update(Message::IcedEvent(WindowEvent::CloseRequested));
    assert_eq!(
        gui.config.window_position,
        Some(WindowPosition { x: single(3.0), y: single(-3.0) })
    );
}

#[test]
fn the_log_filter_has_a_default() {
    assert_eq!(default_filter(true), None);
    assert_eq!(default_filter(false), Some(String::from("none,ytdlp_gui=debug")));
}
