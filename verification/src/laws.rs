//! What holds of the interface, whatever happens to it.

pub mod reports;
pub mod requests;
pub mod settings;
pub mod shown;
pub mod views;
pub mod window;

use crate::command;
use crate::config::{ConfigModel, WindowPosition};
use crate::effect::EffectModel;
use crate::gui::{required_saves, GuiModel, Message, WindowEvent};
use crate::links::{is_url, leading_urls, requested_links};
use crate::path::{PathModel, RawPath};
use crate::progress::Progress;
use crate::single::Single;
use crate::text::decimal;
use crate::text_laws::leading_urls_end_at_the_first_other_link;
use vstd::prelude::*;

verus! {

/// A request whose first link that is no URL stands at index `k` is refused: the note gives its
/// position, counted from one, the settings have been saved once for each link before it, and
/// yt-dlp is not started.
pub proof fn a_refused_request_names_its_first_bad_link(
    gui: GuiModel,
    links: Seq<Seq<char>>,
    playlist_args: Seq<Seq<char>>,
    k: nat,
)
    requires
        k < links.len(),
        forall|i: int| 0 <= i < k ==> is_url(#[trigger] links[i]),
        !is_url(links[k as int]),
    ensures
        ({
            let after = gui.after_run(links, leading_urls(links));
            let effects = gui.effects_of_run(links, leading_urls(links), playlist_args);
            &&& after.download_message == Some(
                Err::<Seq<char>, Seq<char>>("invalid URL on position: "@ + decimal(k + 1)),
            )
            &&& after.progress is None
            &&& effects == required_saves(k)
        }),
{
    leading_urls_end_at_the_first_other_link(links);
    let count = leading_urls(links);
    if count < k {
        assert(is_url(links[count as int]));
    } else if k < count {
        assert(is_url(links[k as int]));
    }
}

/// A request in which every link is a URL starts yt-dlp, after one save for each link: with the
/// links in their order, then what the tab, the playlist and SponsorBlock ask for, and with the
/// number of links. What the user sees does not change yet.
pub proof fn an_accepted_request_starts_the_download(
    gui: GuiModel,
    links: Seq<Seq<char>>,
    playlist_args: Seq<Seq<char>>,
)
    requires
        forall|i: int| 0 <= i < links.len() ==> is_url(#[trigger] links[i]),
    ensures
        ({
            let after = gui.after_run(links, leading_urls(links));
            let effects = gui.effects_of_run(links, leading_urls(links), playlist_args);
            &&& effects.len() == links.len() + 1
            &&& effects.drop_last() == required_saves(links.len())
            &&& effects.last() matches EffectModel::Start { args, bin_dir, links_num }
            &&& args.take(links.len() as int) == links
            &&& args == gui.download_args(links, playlist_args)
            &&& bin_dir == gui.config.bin_dir
            &&& links_num == links.len()
            &&& forall|folder: Seq<char>| after.screen(folder) == gui.screen(folder)
        }),
{
    leading_urls_end_at_the_first_other_link(links);
    let effects = gui.effects_of_run(links, leading_urls(links), playlist_args);
    let args = gui.download_args(links, playlist_args);
    assert(args.take(links.len() as int) =~= links);
    assert(effects.drop_last() =~= required_saves(links.len()));
}

/// yt-dlp is started by no event but a request whose links are all URLs.
pub proof fn only_an_accepted_request_starts_a_download(gui: GuiModel, event: Message, i: int)
    requires
        0 <= i < gui.effects_of(event).len(),
        gui.effects_of(event)[i] is Start,
    ensures
        event matches Message::Command(command::Message::Run { link, .. }) && {
            let links = requested_links(link@);
            &&& forall|j: int| 0 <= j < links.len() ==> is_url(#[trigger] links[j])
            &&& i == links.len()
        },
{
    if let Message::Command(command::Message::Run { link, .. }) = event {
        leading_urls_end_at_the_first_other_link(requested_links(link@));
    }
}

/// The settings that are written to the file never hold the link of the moment.
pub proof fn saved_settings_hold_no_link(gui: GuiModel, event: Message, i: int)
    requires
        0 <= i < gui.effects_of(event).len(),
        gui.effects_of(event)[i] is SaveConfig,
    ensures
        gui.after(event).config.url is None,
{
}

/// The state that the interface starts in, given settings as they are made ready for the file,
/// holds those settings and no link.
pub proof fn a_start_from_settings_made_ready_keeps_them(config: ConfigModel)
    ensures
        GuiModel::initial(config.to_save()).config == (ConfigModel { url: None, ..config }),
        GuiModel::initial(config.to_save()).download_link == Seq::<char>::empty(),
{
}

/// A download is logged only once yt-dlp has been killed.
pub proof fn a_download_is_logged_after_the_kill(gui: GuiModel, event: Message, i: int)
    requires
        0 <= i < gui.effects_of(event).len(),
        gui.effects_of(event)[i] is LogDownload,
    ensures
        i > 0,
        gui.effects_of(event)[i - 1] is Kill,
{
}

/// The same holds where the last video has ended.
pub proof fn the_last_video_is_logged_after_the_kill(gui: GuiModel, multiple: bool, i: int)
    requires
        0 <= i < gui.effects_of_video(multiple).len(),
        gui.effects_of_video(multiple)[i] is LogDownload,
    ensures
        !multiple,
        i > 0,
        gui.effects_of_video(multiple)[i - 1] is Kill,
{
}

/// One folder dialog is open at a time: one is opened only while none is, which is then
/// remembered until the dialog has answered.
pub proof fn one_folder_dialog_at_a_time(gui: GuiModel, event: Message)
    ensures
        forall|i: int|
            0 <= i < gui.effects_of(event).len() && (#[trigger] gui.effects_of(
                event,
            )[i]) is ChooseFolder ==> !gui.is_choosing_folder && gui.after(
                event,
            ).is_choosing_folder && event is SelectDownloadFolder,
        gui.is_choosing_folder && !(event is SelectedDownloadFolder) ==> gui.after(
            event,
        ).is_choosing_folder,
        gui.is_choosing_folder && event is SelectDownloadFolder ==> gui.after(event) == gui
            && gui.effects_of(event) == Seq::<EffectModel>::empty(),
{
}

/// A dialog that is cancelled leaves everything as it was; one that is not sets the folder, and
/// the next dialog starts there.
pub proof fn a_folder_dialog_sets_the_folder_or_nothing(gui: GuiModel, path: RawPath)
    requires
        !gui.is_choosing_folder,
    ensures
        gui.after(Message::SelectDownloadFolder).after(Message::SelectedDownloadFolder(None))
            == gui,
        gui.after(Message::SelectDownloadFolder).after(
            Message::SelectedDownloadFolder(Some(path)),
        ) == gui.with_folder(path@),
        gui.with_folder(path@).effects_of(Message::SelectDownloadFolder) == seq![
            EffectModel::ChooseFolder(path@),
        ],
{
}

/// A folder that is typed in is kept as the very text, and shown as that and nothing else.
pub proof fn a_typed_folder_is_kept_and_shown(gui: GuiModel, text: String)
    ensures
        ({
            let after = gui.after(Message::SelectFolderTextInput(text));
            &&& after.config.download_folder == Some(PathModel::Text(text@))
            &&& forall|shown: Seq<char>| #[trigger]
                after.folder_shown_as(shown) <==> shown == text@
        }),
{
}

/// Submitting the field for the link asks for the link that is shown, whether or not a download
/// is under way.
pub proof fn the_link_can_always_be_submitted(
    gui: GuiModel,
    progress: Option<Single>,
    folder: Seq<char>,
)
    ensures
        ({
            let screen = (GuiModel { progress, ..gui }).screen(folder);
            &&& screen.submit == gui.download_link
            &&& screen.submit == screen.download_link
        }),
{
}

/// Which setting an event replaces, if it does nothing but that.
pub open spec fn setting(event: Message) -> Option<int> {
    match event {
        Message::InputChanged(_) => Some(0),
        Message::TogglePlaylist(_) => Some(1),
        Message::SelectedSponsorBlockOption(_) => Some(2),
        Message::SelectedVideoFormat(_) => Some(3),
        Message::SelectedResolution(_) => Some(4),
        Message::SelectedAudioFormat(_) => Some(5),
        Message::SelectedAudioQuality(_) => Some(6),
        Message::SelectFolderTextInput(_) => Some(7),
        Message::SelectTab(_) => Some(8),
        _ => None,
    }
}

/// Of two choices for the same setting the later one counts; choices for different settings can
/// be made in either order.
pub proof fn settings_are_independent(gui: GuiModel, a: Message, b: Message)
    requires
        setting(a) is Some,
        setting(b) is Some,
    ensures
        setting(a) == setting(b) ==> gui.after(a).after(b) == gui.after(b),
        setting(a) != setting(b) ==> gui.after(a).after(b) == gui.after(b).after(a),
{
    assert(gui.after(a) == gui.after_setting(a));
    assert(gui.after(b) == gui.after_setting(b));
    settings_replace_or_commute(gui, a, b);
}

#[verifier::rlimit(60)]
proof fn settings_replace_or_commute(gui: GuiModel, a: Message, b: Message)
    requires
        setting(a) is Some,
        setting(b) is Some,
    ensures
        setting(a) == setting(b) ==> gui.after_setting(a).after_setting(b) == gui.after_setting(b),
        setting(a) != setting(b) ==> gui.after_setting(a).after_setting(b) == gui.after_setting(
            b,
        ).after_setting(a),
{
}

/// Choosing settings asks for nothing and does not touch the download.
pub proof fn settings_leave_the_download_alone(gui: GuiModel, event: Message)
    requires
        setting(event) is Some,
    ensures
        gui.effects_of(event) == Seq::<EffectModel>::empty(),
        gui.after(event).progress == gui.progress,
        gui.after(event).download_message == gui.download_message,
        gui.after(event).playlist_progress == gui.playlist_progress,
        gui.after(event).banner() == gui.banner(),
{
}

/// A download does not touch the settings, but for the link that saving them drops.
pub proof fn downloads_leave_the_settings_alone(gui: GuiModel, event: Message)
    requires
        event is Command || event is ProgressEvent,
    ensures
        ({
            let after = gui.after(event);
            &&& after.download_link == gui.download_link
            &&& after.is_playlist == gui.is_playlist
            &&& after.sponsorblock == gui.sponsorblock
            &&& after.active_tab == gui.active_tab
            &&& after.is_choosing_folder == gui.is_choosing_folder
            &&& after.window_size == gui.window_size
            &&& after.window_pos == gui.window_pos
            &&& after.config == gui.config || after.config == gui.config.to_save()
        }),
{
}

/// No event changes where yt-dlp is, whether the window position is kept, or the window size
/// that was loaded.
#[verifier::rlimit(60)]
pub proof fn some_settings_never_change(gui: GuiModel, event: Message)
    ensures
        gui.after(event).config.bin_dir == gui.config.bin_dir,
        gui.after(event).config.save_window_position == gui.config.save_window_position,
        gui.after(event).config.window_size == gui.config.window_size,
{
    match event {
        Message::Command(message) => {
            let after = gui.after_command(message);
            assert(after.config == gui.config || after.config == gui.config.to_save());
        },
        Message::ProgressEvent(progress) => {
            assert(gui.after_progress(progress).config == gui.config);
        },
        Message::IcedEvent(WindowEvent::CloseRequested) => {},
        Message::IcedEvent(event) => {
            assert(gui.after_window_event(event).config == gui.config);
        },
        Message::SelectedDownloadFolder(Some(path)) => {},
        Message::SelectFolderTextInput(text) => {},
        Message::SelectedVideoFormat(format) => {},
        Message::SelectedResolution(resolution) => {},
        Message::SelectedAudioFormat(format) => {},
        Message::SelectedAudioQuality(quality) => {},
        _ => {
            assert(gui.after(event).config == gui.config);
        },
    }
}

/// The window position that is saved on closing is the last one that was noted. Moves are noted
/// only where the position is to be kept, and nothing else changes it.
pub proof fn the_last_noted_position_is_saved(gui: GuiModel, event: Message)
    ensures
        gui.after(Message::IcedEvent(WindowEvent::CloseRequested)).config.window_position == Some(
            gui.window_pos,
        ),
        gui.after(event).window_pos == match event {
            Message::IcedEvent(
                WindowEvent::Moved { x, y },
            ) if gui.config.save_window_position => WindowPosition { x, y },
            _ => gui.window_pos,
        },
{
}

/// Stopping clears the note and the percentage: nothing is told, and the button downloads the
/// link again.
pub proof fn stopping_clears_the_window(gui: GuiModel)
    ensures
        ({
            let after = gui.after(Message::Command(command::Message::Stop));
            &&& after.banner() is Blank
            &&& after.button() == Some(gui.download_link)
            &&& gui.effects_of(Message::Command(command::Message::Stop)) == seq![EffectModel::Kill]
        }),
{
}

/// Whenever a command message puts up a failure, the button can be pressed again. (A request
/// that is accepted puts up nothing: an earlier note stays until the start is reported.)
pub proof fn after_a_failure_the_button_works(gui: GuiModel, message: command::Message)
    requires
        gui.after_command(message).banner() is Failed,
        !(message matches command::Message::Run { link, .. } && leading_urls(
            requested_links(link@),
        ) >= requested_links(link@).len()),
    ensures
        gui.after_command(message).button() == Some(gui.download_link),
{
}

/// The end of a playlist, or of the last video, clears the percentage and tells of success.
pub proof fn a_finished_download_frees_the_button(gui: GuiModel)
    ensures
        gui.after(Message::ProgressEvent(Progress::EndOfPlaylist)).button() == Some(
            gui.download_link,
        ),
        gui.after(Message::ProgressEvent(Progress::EndOfPlaylist)).banner() is Running,
        gui.after_video(false).button() == Some(gui.download_link),
        gui.after_video(false).banner() is Running,
{
}

} // verus!
