//! Requests and the other messages of the yt-dlp process.

use crate::command;
use crate::config::ConfigModel;
use crate::effect::EffectModel;
use crate::gui::{error_note, required_saves, GuiModel, Message, Tab};
use crate::links::{is_url, leading_urls, requested_links};
use crate::sponsorblock::SponsorBlockOption;
use crate::text::{decimal, occurs_in, texts};
use crate::text_laws::leading_urls_end_at_the_first_other_link;
use vstd::prelude::*;

verus! {

/// Right after the links come the arguments of the active tab, whatever the SponsorBlock choice
/// and the playlist setting: five for audio, four for video.
pub proof fn the_tab_decides_what_is_downloaded(
    gui: GuiModel,
    links: Seq<Seq<char>>,
    playlist_args: Seq<Seq<char>>,
)
    ensures
        ({
            let args = gui.download_args(links, playlist_args);
            let options = gui.config.options;
            let n = links.len() as int;
            &&& args.len() >= n + 4
            &&& args.take(n) == links
            &&& gui.active_tab is Audio ==> {
                &&& args.len() >= n + 5
                &&& args[n] == "-x"@
                &&& args[n + 1] == "--audio-format"@
                &&& args[n + 2] == options.audio_format.argument
                &&& args[n + 3] == "--audio-quality"@
                &&& args[n + 4] == options.audio_quality.argument
                &&& args.subrange(n + 5, n + 5 + playlist_args.len()) == playlist_args
            }
            &&& gui.active_tab is Video ==> {
                &&& args[n] == "-S"@
                &&& args[n + 1] == options.video_resolution.argument
                &&& args[n + 2] == "--remux-video"@
                &&& args[n + 3] == options.video_format.argument
                &&& args.subrange(n + 4, n + 4 + playlist_args.len()) == playlist_args
            }
        }),
{
    let args = gui.download_args(links, playlist_args);
    let n = links.len() as int;
    assert(args.take(n) =~= links);
    match gui.active_tab {
        Tab::Audio => {
            assert(args.subrange(n + 5, n + 5 + playlist_args.len()) =~= playlist_args);
        },
        Tab::Video => {
            assert(args.subrange(n + 4, n + 4 + playlist_args.len()) =~= playlist_args);
        },
    }
}

/// The SponsorBlock choice adds one argument at the end, and none where there is no choice. Two
/// states that differ only in it give the same arguments before that one.
pub proof fn sponsorblock_adds_one_argument_at_the_end(
    gui: GuiModel,
    other: Option<SponsorBlockOption>,
    links: Seq<Seq<char>>,
    playlist_args: Seq<Seq<char>>,
)
    ensures
        ({
            let args = gui.download_args(links, playlist_args);
            let others = (GuiModel { sponsorblock: other, ..gui }).download_args(
                links,
                playlist_args,
            );
            let n = links.len() + playlist_args.len() + if gui.active_tab is Audio {
                5int
            } else {
                4int
            };
            &&& args.take(n) == others.take(n)
            &&& gui.sponsorblock is None ==> args.len() == n
            &&& gui.sponsorblock is Some ==> args.len() == n + 1
            &&& gui.sponsorblock == Some(SponsorBlockOption::Remove) ==> args.last()
                == "--sponsorblock-remove=default"@
            &&& gui.sponsorblock == Some(SponsorBlockOption::Mark) ==> args.last()
                == "--sponsorblock-mark=default"@
        }),
{
    let args = gui.download_args(links, playlist_args);
    let others = (GuiModel { sponsorblock: other, ..gui }).download_args(links, playlist_args);
    let n = links.len() + playlist_args.len() + if gui.active_tab is Audio {
        5int
    } else {
        4int
    };
    assert(args.take(n) =~= others.take(n));
}

/// The arguments depend on the state only through the active tab, its two options and the
/// SponsorBlock choice.
pub proof fn nothing_else_enters_the_arguments(
    a: GuiModel,
    b: GuiModel,
    links: Seq<Seq<char>>,
    playlist_args: Seq<Seq<char>>,
)
    requires
        a.active_tab == b.active_tab,
        a.sponsorblock == b.sponsorblock,
        a.active_tab is Audio ==> a.config.options.audio_format.argument
            == b.config.options.audio_format.argument
            && a.config.options.audio_quality.argument == b.config.options.audio_quality.argument,
        a.active_tab is Video ==> a.config.options.video_format.argument
            == b.config.options.video_format.argument
            && a.config.options.video_resolution.argument
            == b.config.options.video_resolution.argument,
    ensures
        a.download_args(links, playlist_args) == b.download_args(links, playlist_args),
{
}

/// So many saves are so many: each is to write the settings without fail.
pub proof fn saves_are_counted(count: nat)
    ensures
        required_saves(count).len() == count,
        forall|i: int|
            0 <= i < count ==> #[trigger] required_saves(count)[i] == (EffectModel::SaveConfig {
                required: true,
            }),
{
}

/// A request in which not all links are URLs clears the percentage and puts up the position of
/// the first other link. It drops the link from the settings if it saved them, and touches
/// nothing else. It asks for nothing but the saves.
pub proof fn a_refused_request_only_puts_up_the_position(
    gui: GuiModel,
    links: Seq<Seq<char>>,
    valid: nat,
    playlist_args: Seq<Seq<char>>,
)
    requires
        valid < links.len(),
    ensures
        ({
            let after = gui.after_run(links, valid);
            let effects = gui.effects_of_run(links, valid, playlist_args);
            &&& after.progress is None
            &&& after.download_message matches Some(Err(note)) && note
                == "invalid URL on position: "@ + decimal(valid + 1)
            &&& valid == 0 ==> after.config == gui.config
            &&& valid > 0 ==> after.config == ConfigModel { url: None, ..gui.config }
            &&& after == GuiModel {
                progress: after.progress,
                download_message: after.download_message,
                config: after.config,
                ..gui
            }
            &&& effects.len() == valid
            &&& forall|i: int|
                0 <= i < valid ==> #[trigger] effects[i] == (EffectModel::SaveConfig {
                    required: true,
                })
        }),
{
}

/// A request in which all links are URLs changes nothing but that saving drops the link from the
/// settings. It asks for one save for each link, and at the end for the start of yt-dlp, with the
/// place of yt-dlp and the number of links.
pub proof fn an_accepted_request_asks_for_the_start(
    gui: GuiModel,
    links: Seq<Seq<char>>,
    playlist_args: Seq<Seq<char>>,
)
    ensures
        ({
            let after = gui.after_run(links, links.len());
            let effects = gui.effects_of_run(links, links.len(), playlist_args);
            let n = links.len() as int;
            &&& n == 0 ==> after.config == gui.config
            &&& n > 0 ==> after.config == ConfigModel { url: None, ..gui.config }
            &&& after == GuiModel { config: after.config, ..gui }
            &&& effects.len() == n + 1
            &&& forall|i: int|
                0 <= i < n ==> #[trigger] effects[i] == (EffectModel::SaveConfig { required: true })
            &&& effects[n] matches EffectModel::Start { args, bin_dir, links_num }
            &&& args == gui.download_args(links, playlist_args)
            &&& bin_dir == gui.config.bin_dir
            &&& links_num == n
        }),
{
}

/// What a request does follows from its text: the links it names, and which of them come before
/// the first that is no URL. It does the same as an event as it does as a command message.
pub proof fn a_request_is_for_the_links_in_its_text(
    gui: GuiModel,
    link: String,
    playlist_args: Vec<String>,
    k: nat,
)
    requires
        k <= requested_links(link@).len(),
        forall|i: int| 0 <= i < k ==> is_url(#[trigger] requested_links(link@)[i]),
        k < requested_links(link@).len() ==> !is_url(requested_links(link@)[k as int]),
    ensures
        ({
            let message = command::Message::Run { link, playlist_args };
            let links = requested_links(link@);
            &&& gui.after_command(message) == gui.after_run(links, k)
            &&& gui.effects_of_command(message) == gui.effects_of_run(
                links,
                k,
                texts(playlist_args@),
            )
        }),
{
    let links = requested_links(link@);
    leading_urls_end_at_the_first_other_link(links);
    let count = leading_urls(links);
    if count < k {
        assert(is_url(links[count as int]));
    } else if k < count {
        assert(is_url(links[k as int]));
    }
}

/// A request in which every link is a URL has yt-dlp started with its links and, right behind
/// them, the arguments of the active tab.
pub proof fn a_request_starts_yt_dlp_for_the_tab(
    gui: GuiModel,
    link: String,
    playlist_args: Vec<String>,
)
    requires
        forall|i: int|
            0 <= i < requested_links(link@).len() ==> is_url(#[trigger] requested_links(link@)[i]),
    ensures
        ({
            let effects = gui.effects_of(
                Message::Command(command::Message::Run { link, playlist_args }),
            );
            let links = requested_links(link@);
            let options = gui.config.options;
            let n = links.len() as int;
            &&& effects.len() == n + 1
            &&& effects[n] matches EffectModel::Start { args, bin_dir, links_num }
            &&& args.take(n) == links
            &&& gui.active_tab is Audio ==> args.subrange(n, n + 5) == seq![
                "-x"@,
                "--audio-format"@,
                options.audio_format.argument,
                "--audio-quality"@,
                options.audio_quality.argument,
            ]
            &&& gui.active_tab is Video ==> args.subrange(n, n + 4) == seq![
                "-S"@,
                options.video_resolution.argument,
                "--remux-video"@,
                options.video_format.argument,
            ]
            &&& bin_dir == gui.config.bin_dir
            &&& links_num == n
        }),
{
    let links = requested_links(link@);
    let args = gui.download_args(links, texts(playlist_args@));
    let n = links.len() as int;
    a_request_is_for_the_links_in_its_text(gui, link, playlist_args, links.len());
    the_tab_decides_what_is_downloaded(gui, links, texts(playlist_args@));
    match gui.active_tab {
        Tab::Audio => {
            assert(args.subrange(n, n + 5) =~= seq![
                args[n],
                args[n + 1],
                args[n + 2],
                args[n + 3],
                args[n + 4],
            ]);
        },
        Tab::Video => {
            assert(args.subrange(n, n + 4) =~= seq![
                args[n],
                args[n + 1],
                args[n + 2],
                args[n + 3],
            ]);
        },
    }
}

/// As an event, a command message does what it does on its own.
pub proof fn commands_are_events(gui: GuiModel, message: command::Message)
    ensures
        gui.after(Message::Command(message)) == gui.after_command(message),
        gui.effects_of(Message::Command(message)) == gui.effects_of_command(message),
{
}

/// Each message of the process puts up its note, from any state. All but `Finished` clear the
/// percentage; nothing else changes.
pub proof fn messages_of_the_process_put_up_their_notes(
    gui: GuiModel,
    message: command::Message,
)
    requires
        !(message is Run),
    ensures
        ({
            let after = gui.after_command(message);
            &&& after == GuiModel {
                progress: after.progress,
                download_message: after.download_message,
                ..gui
            }
            &&& message is Finished ==> after.progress == gui.progress
            &&& !(message is Finished) ==> after.progress is None
            &&& message is Stop ==> after.download_message is None
            &&& message is AlreadyExists ==> (after.download_message matches Some(Err(note))
                && note == "Already exists"@)
            &&& message is PlaylistNotChecked ==> (after.download_message matches Some(Err(note))
                && note == "Playlist checkbox not checked!"@)
            &&& message is Finished ==> (after.download_message matches Some(Ok(note)) && note
                == "Finished!"@)
            &&& message matches command::Message::Error(error) ==> (
            after.download_message matches Some(Err(note)) && note == error_note(error@))
        }),
{
}

/// Every message of the process but an error has yt-dlp killed first; only `Finished` asks for
/// more, which is to log the download.
pub proof fn messages_of_the_process_end_it(gui: GuiModel, message: command::Message)
    requires
        !(message is Run),
    ensures
        ({
            let effects = gui.effects_of_command(message);
            &&& message is Error ==> effects.len() == 0
            &&& !(message is Error) ==> effects.len() > 0 && effects[0] is Kill
            &&& message is Finished ==> effects.len() == 2 && effects[1] is LogDownload
            &&& !(message is Error) && !(message is Finished) ==> effects.len() == 1
        }),
{
}

/// An error is explained by what occurs in it, and the first explanation that fits counts.
pub proof fn errors_are_explained_by_what_occurs_in_them(error: Seq<char>)
    ensures
        ({
            let private = occurs_in(
                "Private video. Sign in if you've been granted access to this video"@,
                error,
            );
            let content = occurs_in("Video unavailable. This video contains content"@, error);
            let account = occurs_in(
                "Video unavailable. This video is no longer available because the YouTube account associated with this video has been terminated."@,
                error,
            );
            let playlist = occurs_in("YouTube said: The playlist does not exist."@, error);
            &&& private ==> error_note(error) == "Private video, skipping..."@
            &&& !private && content ==> error_note(error) == "Video unavailable, skipping..."@
            &&& !private && account ==> error_note(error) == "Video unavailable, skipping..."@
            &&& !private && !content && !account && playlist ==> error_note(error)
                == "Playlist does not exist"@
            &&& !private && !content && !account && !playlist ==> error_note(error)
                == "Something went wrong, logging..."@
        }),
{
}

} // verus!
