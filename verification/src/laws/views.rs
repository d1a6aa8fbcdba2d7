//! What the contracts speak of is all that there is: the models leave nothing out.

use crate::config::Config;
use crate::effect::{effects_of, Effect, EffectModel};
use crate::gui::{note_of, YtGUI};
use crate::media_options::{MediaOption, Options};
use crate::path::{path_of, PathModel, RawPath};
use crate::screen::{Banner, BannerModel, Screen};
use crate::text::{text_of, texts};
use vstd::prelude::*;

verus! {

/// The model of the interface has every part of it.
pub proof fn the_model_of_the_interface_is_complete(gui: YtGUI)
    ensures
        gui@.download_link == gui.download_link@,
        gui@.is_playlist == gui.is_playlist,
        gui@.sponsorblock == gui.sponsorblock,
        gui@.config == gui.config@,
        gui@.active_tab == gui.active_tab,
        gui.playlist_progress matches Some(place) ==> gui@.playlist_progress == Some(place@),
        gui.playlist_progress is None ==> gui@.playlist_progress is None,
        gui.download_message matches Some(Ok(note)) ==> gui@.download_message == Some(
            Ok::<Seq<char>, Seq<char>>(note@),
        ),
        gui.download_message matches Some(Err(note)) ==> gui@.download_message == Some(
            Err::<Seq<char>, Seq<char>>(note@),
        ),
        gui.download_message is None ==> gui@.download_message is None,
        gui@.is_choosing_folder == gui.is_choosing_folder,
        gui@.progress == gui.progress,
        gui@.window_size == gui.window_size,
        gui@.window_pos == gui.window_pos,
{
}

/// The model of the settings has every part of them.
pub proof fn the_model_of_the_settings_is_complete(config: Config)
    ensures
        config.bin_dir matches Some(path) ==> config@.bin_dir == Some(path@),
        config.bin_dir is None ==> config@.bin_dir is None,
        config.download_folder matches Some(path) ==> config@.download_folder == Some(path@),
        config.download_folder is None ==> config@.download_folder is None,
        config@.save_window_position == config.save_window_position,
        config@.window_position == config.window_position,
        config@.window_size == config.window_size,
        config.url matches Some(url) ==> config@.url == Some(url@),
        config.url is None ==> config@.url is None,
        config@.options == config.options@,
{
}

/// The model of the media options has every part of them.
pub proof fn the_model_of_the_options_is_complete(options: Options, option: MediaOption)
    ensures
        options@.video_resolution == options.video_resolution@,
        options@.video_format == options.video_format@,
        options@.audio_format == options.audio_format@,
        options@.audio_quality == options.audio_quality@,
        option@.name == option.name@,
        option@.argument == option.argument@,
{
}

/// The model of a path holds its contents.
pub proof fn the_model_of_a_path_is_complete(path: RawPath)
    ensures
        path matches RawPath::Text(text) ==> path@ == PathModel::Text(text@),
        path matches RawPath::Bytes(bytes) ==> path@ == PathModel::Bytes(bytes@),
        path matches RawPath::Wide(units) ==> path@ == PathModel::Wide(units@),
        path_of(Some(path)) == Some(path@),
        path_of(None) is None,
{
}

/// The model of an effect holds everything that is asked for.
pub proof fn the_model_of_an_effect_is_complete(effect: Effect)
    ensures
        effect matches Effect::SaveConfig { required } ==> effect@ == (EffectModel::SaveConfig {
            required,
        }),
        effect matches Effect::Start { args, bin_dir, links_num } ==> effect@ == (
        EffectModel::Start {
            args: texts(args@),
            bin_dir: path_of(bin_dir),
            links_num: links_num as nat,
        }),
        effect is Kill <==> effect@ is Kill,
        effect is FinishedSingleVideo <==> effect@ is FinishedSingleVideo,
        effect is AskMultipleVideos <==> effect@ is AskMultipleVideos,
        effect is LogDownload <==> effect@ is LogDownload,
        effect matches Effect::ChooseFolder(path) ==> effect@ == EffectModel::ChooseFolder(path@),
        effect is KeepSender <==> effect@ is KeepSender,
        effect is FocusLinkInput <==> effect@ is FocusLinkInput,
        effect is CloseWindow <==> effect@ is CloseWindow,
        effect matches Effect::Print(line) ==> effect@ == EffectModel::Print(line@),
{
}

/// Lists keep their length and order in the models.
pub proof fn the_models_of_lists_are_complete(list: Seq<String>, effects: Seq<Effect>, i: int)
    ensures
        texts(list).len() == list.len(),
        0 <= i < list.len() ==> texts(list)[i] == list[i]@,
        effects_of(effects).len() == effects.len(),
        0 <= i < effects.len() ==> effects_of(effects)[i] == effects[i]@,
{
}

/// The models of an optional text and of a note hold what is there.
pub proof fn the_models_of_notes_are_complete(text: String)
    ensures
        text_of(Some(text)) == Some(text@),
        text_of(None) is None,
        note_of(Some(Ok(text))) == Some(Ok::<Seq<char>, Seq<char>>(text@)),
        note_of(Some(Err(text))) == Some(Err::<Seq<char>, Seq<char>>(text@)),
        note_of(None) is None,
{
}

/// The model of the window has every part of what is shown.
pub proof fn the_model_of_the_window_is_complete(screen: Screen, banner: Banner)
    ensures
        screen@.download_link == screen.download_link@,
        screen@.sponsorblock_choices == screen.sponsorblock_choices@,
        screen@.sponsorblock == screen.sponsorblock,
        screen@.is_playlist == screen.is_playlist,
        screen@.active_tab == screen.active_tab,
        screen@.options.video_resolution == screen.video_resolution@,
        screen@.options.video_format == screen.video_format@,
        screen@.options.audio_format == screen.audio_format@,
        screen@.options.audio_quality == screen.audio_quality@,
        screen@.banner == screen.banner@,
        screen@.folder == screen.folder@,
        screen@.submit == screen.submit@,
        screen.download matches Some(link) ==> screen@.download == Some(link@),
        screen.download is None ==> screen@.download is None,
        banner is Blank <==> banner@ is Blank,
        banner matches Banner::Running { note, playlist_progress, percent } ==> banner@ == (
        BannerModel::Running {
            note: note@,
            playlist_progress: playlist_progress@,
            percent,
        }),
        banner matches Banner::Failed(note) ==> banner@ == BannerModel::Failed(note@),
{
}

} // verus!
