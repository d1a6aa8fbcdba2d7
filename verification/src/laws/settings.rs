//! Choices of settings: what each one sets, and what only it can change.

use crate::command;
use crate::config::ConfigModel;
use crate::effect::EffectModel;
use crate::gui::{GuiModel, Message, WindowEvent};
use crate::media_options::OptionsModel;
use crate::path::PathModel;
use crate::progress::Progress;
use vstd::prelude::*;

verus! {

/// A setting has the value that was last chosen for it, whatever it was before.
pub proof fn a_setting_has_the_value_that_was_chosen(gui: GuiModel, event: Message)
    ensures
        event matches Message::InputChanged(link) ==> gui.after(event).download_link == link@,
        event matches Message::TogglePlaylist(on) ==> gui.after(event).is_playlist == on,
        event matches Message::SelectedSponsorBlockOption(choice) ==> gui.after(event).sponsorblock
            == Some(choice),
        event matches Message::SelectTab(tab) ==> gui.after(event).active_tab == tab,
        event matches Message::SelectFolderTextInput(text) ==> gui.after(
            event,
        ).config.download_folder == Some(PathModel::Text(text@)),
        event matches Message::SelectedDownloadFolder(Some(path)) ==> gui.after(
            event,
        ).config.download_folder == Some(path@),
{
}

/// The same for the media options: name and argument are those of the choice.
pub proof fn a_media_option_has_the_value_that_was_chosen(gui: GuiModel, event: Message)
    ensures
        ({
            let options = gui.after(event).config.options;
            &&& event matches Message::SelectedVideoFormat(choice) ==> options.video_format.name
                == choice.name@ && options.video_format.argument == choice.argument@
            &&& event matches Message::SelectedResolution(choice) ==> options.video_resolution.name
                == choice.name@ && options.video_resolution.argument == choice.argument@
            &&& event matches Message::SelectedAudioFormat(choice) ==> options.audio_format.name
                == choice.name@ && options.audio_format.argument == choice.argument@
            &&& event matches Message::SelectedAudioQuality(choice) ==> options.audio_quality.name
                == choice.name@ && options.audio_quality.argument == choice.argument@
        }),
{
}

/// The link, the playlist setting, the SponsorBlock choice and the tab change only when they are
/// chosen.
#[verifier::rlimit(60)]
pub proof fn choices_change_only_when_made(gui: GuiModel, event: Message)
    ensures
        !(event is InputChanged) ==> gui.after(event).download_link == gui.download_link,
        !(event is TogglePlaylist) ==> gui.after(event).is_playlist == gui.is_playlist,
        !(event is SelectedSponsorBlockOption) ==> gui.after(event).sponsorblock
            == gui.sponsorblock,
        !(event is SelectTab) ==> gui.after(event).active_tab == gui.active_tab,
{
    match event {
        Message::Command(message) => {},
        Message::ProgressEvent(progress) => {},
        Message::IcedEvent(window) => {},
        _ => {},
    }
}

/// The media options change only when they are chosen.
#[verifier::rlimit(60)]
pub proof fn media_options_change_only_when_chosen(gui: GuiModel, event: Message)
    ensures
        ({
            let before = gui.config.options;
            let options = gui.after(event).config.options;
            &&& !(event is SelectedVideoFormat) ==> options.video_format == before.video_format
            &&& !(event is SelectedResolution) ==> options.video_resolution
                == before.video_resolution
            &&& !(event is SelectedAudioFormat) ==> options.audio_format == before.audio_format
            &&& !(event is SelectedAudioQuality) ==> options.audio_quality == before.audio_quality
        }),
{
    match event {
        Message::Command(message) => {
            assert(gui.after_command(message).config.options == gui.config.options);
        },
        Message::ProgressEvent(progress) => {
            assert(gui.after_progress(progress).config == gui.config);
        },
        Message::IcedEvent(window) => {
            assert(gui.after_window_event(window).config.options == gui.config.options);
        },
        _ => {},
    }
}

/// The download folder changes only when one is typed in or picked. The link in the settings
/// changes only by being dropped, and that only by a request or by closing the window; the
/// window position in the settings changes only by closing the window.
#[verifier::rlimit(60)]
pub proof fn other_settings_change_only_on_their_events(gui: GuiModel, event: Message)
    ensures
        ({
            let config = gui.after(event).config;
            &&& !(event is SelectFolderTextInput) && !(event matches Message::SelectedDownloadFolder(
                Some(_),
            )) ==> config.download_folder == gui.config.download_folder
            &&& config.url == gui.config.url || config.url is None
            &&& config.url != gui.config.url ==> {
                ||| event matches Message::Command(command::Message::Run { .. })
                ||| event matches Message::IcedEvent(WindowEvent::CloseRequested)
            }
            &&& !(event matches Message::IcedEvent(WindowEvent::CloseRequested))
                ==> config.window_position == gui.config.window_position
        }),
{
    match event {
        Message::Command(message) => {
            let config = gui.after_command(message).config;
            assert(config == gui.config || config == gui.config.to_save());
        },
        Message::ProgressEvent(progress) => {
            assert(gui.after_progress(progress).config == gui.config);
        },
        Message::IcedEvent(window) => {},
        _ => {},
    }
}

/// The state of the download changes only through command messages and reports, the place in the
/// playlist only through a report that gives it, and the mark that a folder is being chosen only
/// through the dialog.
#[verifier::rlimit(60)]
pub proof fn the_download_changes_only_through_its_events(gui: GuiModel, event: Message)
    ensures
        !(event is Command) && !(event is ProgressEvent) ==> {
            &&& gui.after(event).progress == gui.progress
            &&& gui.after(event).download_message == gui.download_message
        },
        gui.after(event).playlist_progress != gui.playlist_progress ==> (
        event matches Message::ProgressEvent(Progress::Downloading(download, _))
            && download.playlist_count is Some && download.playlist_index is Some),
        !(event is SelectDownloadFolder) && !(event is SelectedDownloadFolder) ==> gui.after(
            event,
        ).is_choosing_folder == gui.is_choosing_folder,
{
    match event {
        Message::Command(message) => {},
        Message::ProgressEvent(progress) => {},
        Message::IcedEvent(window) => {},
        _ => {},
    }
}

/// A choice of a setting asks for nothing.
pub proof fn choices_ask_for_nothing(gui: GuiModel, event: Message)
    requires
        event is InputChanged || event is TogglePlaylist || event is SelectedSponsorBlockOption
            || event is SelectTab || event is SelectFolderTextInput || event is SelectedVideoFormat
            || event is SelectedResolution || event is SelectedAudioFormat
            || event is SelectedAudioQuality,
    ensures
        gui.effects_of(event).len() == 0,
{
}

/// The dialog for the folder is opened where none is open, at the chosen folder or else at
/// `~/Videos`; its answer ends it. Nothing else is asked for.
pub proof fn the_dialog_starts_at_the_folder(gui: GuiModel, answer: Message)
    requires
        answer is SelectedDownloadFolder,
    ensures
        gui.after(Message::SelectDownloadFolder).is_choosing_folder,
        !gui.after(answer).is_choosing_folder,
        gui.effects_of(answer).len() == 0,
        gui.is_choosing_folder ==> gui.effects_of(Message::SelectDownloadFolder).len() == 0,
        !gui.is_choosing_folder ==> {
            let effects = gui.effects_of(Message::SelectDownloadFolder);
            &&& effects.len() == 1
            &&& gui.config.download_folder matches Some(path) ==> effects[0]
                == EffectModel::ChooseFolder(path)
            &&& gui.config.download_folder is None ==> effects[0] == EffectModel::ChooseFolder(
                PathModel::Text("~/Videos"@),
            )
        },
{
}

/// The remaining events: nothing happens on `Nothing`; a new channel is kept; once the font has
/// loaded, the field for the link gets the cursor. None of them changes the state.
pub proof fn events_that_change_nothing(gui: GuiModel)
    ensures
        gui.after(Message::Nothing) == gui,
        gui.after(Message::Ready) == gui,
        gui.after(Message::FontLoaded) == gui,
        gui.effects_of(Message::Nothing).len() == 0,
        gui.effects_of(Message::Ready) == seq![EffectModel::KeepSender],
        gui.effects_of(Message::FontLoaded) == seq![EffectModel::FocusLinkInput],
{
}

/// Settings that are made ready for the file lack the link and are the same otherwise.
pub proof fn settings_for_the_file_lack_only_the_link(config: ConfigModel)
    ensures
        ({
            let ready = config.to_save();
            &&& ready.url is None
            &&& ready.bin_dir == config.bin_dir
            &&& ready.download_folder == config.download_folder
            &&& ready.save_window_position == config.save_window_position
            &&& ready.window_position == config.window_position
            &&& ready.window_size == config.window_size
            &&& ready.options == config.options
        }),
{
}

/// Settings with nothing chosen have no paths, no position, no size and no link.
pub proof fn bare_settings_hold_only_the_options(options: OptionsModel)
    ensures
        ({
            let config = ConfigModel::bare(options);
            &&& config.bin_dir is None
            &&& config.download_folder is None
            &&& !config.save_window_position
            &&& config.window_position is None
            &&& config.window_size is None
            &&& config.url is None
            &&& config.options == options
        }),
{
}

/// The interface starts on the Video tab with the loaded settings and the loaded link, and with
/// nothing chosen, shown or under way.
pub proof fn it_starts_idle(config: ConfigModel)
    ensures
        ({
            let gui = GuiModel::initial(config);
            &&& config.url matches Some(url) ==> gui.download_link == url
            &&& config.url is None ==> gui.download_link.len() == 0
            &&& gui.config == config
            &&& gui.active_tab is Video
            &&& !gui.is_playlist
            &&& gui.sponsorblock is None
            &&& gui.playlist_progress is None
            &&& gui.download_message is None
            &&& !gui.is_choosing_folder
            &&& gui.progress is None
            &&& gui.window_size.width.bits == 0 && gui.window_size.height.bits == 0
            &&& gui.window_pos.x.bits == 0 && gui.window_pos.y.bits == 0
        }),
{
}

/// The arguments for the playlist are made from the playlist setting and the download folder as
/// they are, and the title is the same in every state.
pub proof fn playlist_arguments_follow_the_settings(gui: GuiModel)
    ensures
        gui.made_into_playlist_args().0 == gui.is_playlist,
        gui.made_into_playlist_args().1 == gui.config.download_folder,
        gui.title() == "Youtube Downloader"@,
{
}

} // verus!
