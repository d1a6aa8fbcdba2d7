//! What is shown and what is logged.

use crate::download_log::is_local_time;
use crate::gui::GuiModel;
use crate::path::{folder_or_default, lossy_text, path_named, shown_as, wide_text, PathModel};
use crate::screen::BannerModel;
use crate::sponsorblock::SponsorBlockOption;
use vstd::prelude::*;
use vstd::utf8::*;

verus! {

/// The banner tells the note that is put up, as a success or as a failure, and nothing where there
/// is none. With a success it gives the place in the playlist, if there is one, and the
/// percentage.
pub proof fn the_banner_tells_the_note(gui: GuiModel)
    ensures
        gui.download_message is None ==> gui.banner() is Blank,
        gui.download_message matches Some(Err(text)) ==> (
        gui.banner() matches BannerModel::Failed(note) && note == text),
        gui.download_message matches Some(Ok(text)) ==> {
            &&& gui.banner() matches BannerModel::Running { note, playlist_progress, percent }
            &&& note == text
            &&& gui.playlist_progress matches Some(place) ==> playlist_progress == place
            &&& gui.playlist_progress is None ==> playlist_progress.len() == 0
            &&& percent == gui.progress
        },
{
}

/// The button can be pressed exactly where there is no percentage, and then downloads the link.
pub proof fn the_button_waits_for_the_download(gui: GuiModel)
    ensures
        gui.button() is Some <==> gui.progress is None,
        gui.button() matches Some(link) ==> link == gui.download_link,
{
}

/// The window shows the state as it is: link, choices, options, tab, banner, folder and button.
pub proof fn the_window_shows_the_state(gui: GuiModel, folder: Seq<char>)
    ensures
        ({
            let screen = gui.screen(folder);
            &&& screen.download_link == gui.download_link
            &&& screen.submit == gui.download_link
            &&& screen.sponsorblock_choices.len() == 2
            &&& screen.sponsorblock_choices[0] == SponsorBlockOption::Remove
            &&& screen.sponsorblock_choices[1] == SponsorBlockOption::Mark
            &&& screen.sponsorblock == gui.sponsorblock
            &&& screen.is_playlist == gui.is_playlist
            &&& screen.active_tab == gui.active_tab
            &&& screen.options.video_resolution == gui.config.options.video_resolution
            &&& screen.options.video_format == gui.config.options.video_format
            &&& screen.options.audio_format == gui.config.options.audio_format
            &&& screen.options.audio_quality == gui.config.options.audio_quality
            &&& screen.banner == gui.banner()
            &&& screen.folder == folder
            &&& screen.download == gui.button()
        }),
{
}

/// The folder that is shown is the chosen one, or `~/Videos` where none is. A folder that is text
/// has no other form than that text.
pub proof fn the_folder_shown_is_the_chosen_one(gui: GuiModel, shown: Seq<char>)
    ensures
        gui.config.download_folder is None ==> (gui.folder_shown_as(shown) <==> shown
            == "~/Videos"@),
        gui.config.download_folder matches Some(path) ==> (gui.folder_shown_as(shown) <==> shown_as(
            path,
            shown,
        )),
        gui.config.download_folder matches Some(path) ==> folder_or_default(
            gui.config.download_folder,
        ) == path,
        gui.config.download_folder is None ==> folder_or_default(gui.config.download_folder)
            == PathModel::Text("~/Videos"@),
{
}

/// A path that is text is shown as that text; one of bytes as their lossy decoding, which for
/// UTF-8 is the text they encode. A text names the path that is this text.
pub proof fn paths_are_shown_as_they_are(
    text: Seq<char>,
    bytes: Seq<u8>,
    units: Seq<u16>,
    shown: Seq<char>,
)
    ensures
        path_named(text) == PathModel::Text(text),
        shown_as(PathModel::Text(text), shown) <==> shown == text,
        shown_as(PathModel::Bytes(bytes), shown) ==> shown == lossy_text(bytes),
        shown_as(PathModel::Bytes(bytes), shown) && valid_utf8(bytes) ==> shown == decode_utf8(
            bytes,
        ),
        shown_as(PathModel::Bytes(encode_utf8(text)), shown) ==> shown == text,
        shown_as(PathModel::Wide(units), shown) <==> shown == wide_text(units),
{
    encode_utf8_valid_utf8(text);
    encode_utf8_decode_utf8(text);
}

/// The 16-bit units that encode a text as UTF-16: one for a character of the first plane, and two
/// surrogates for any other.
pub open spec fn utf16(text: Seq<char>) -> Seq<u16>
    decreases text.len(),
{
    if text.len() == 0 {
        seq![]
    } else {
        let code = text[0] as int;
        let rest = utf16(text.skip(1));
        if code < 0x10000 {
            seq![code as u16] + rest
        } else {
            let high = 0xd800 + (code - 0x10000) / 0x400;
            let low = 0xdc00 + (code - 0x10000) % 0x400;
            seq![high as u16, low as u16] + rest
        }
    }
}

proof fn characters_are_no_surrogates(c: char)
    ensures
        0 <= c as int <= 0x10ffff,
        !(0xd800 <= c as int <= 0xdfff),
{
}

/// Units that encode a text come out as that text, whatever follows them.
pub proof fn encoded_text_comes_out_again(text: Seq<char>, rest: Seq<u16>)
    ensures
        wide_text(utf16(text) + rest) == text + wide_text(rest),
    decreases text.len(),
{
    let units = utf16(text) + rest;
    if text.len() == 0 {
        assert(units =~= rest);
        assert(text + wide_text(rest) =~= wide_text(rest));
    } else {
        let code = text[0] as int;
        let tail = utf16(text.skip(1)) + rest;
        encoded_text_comes_out_again(text.skip(1), rest);
        characters_are_no_surrogates(text[0]);
        if code < 0x10000 {
            assert(units.skip(1) =~= tail);
        } else {
            let above = code - 0x10000;
            assert(0 <= above / 0x400 < 0x400);
            assert(units[0] == 0xd800 + above / 0x400);
            assert(units[1] == 0xdc00 + above % 0x400);
            assert(units.skip(2) =~= tail);
            assert(0x10000 + (units[0] - 0xd800) * 0x400 + (units[1] - 0xdc00) == code);
        }
        assert(wide_text(units) =~= seq![text[0]] + wide_text(tail));
        assert(seq![text[0]] + (text.skip(1) + wide_text(rest)) =~= text + wide_text(rest));
    }
}

/// A surrogate that is not one of a pair comes out as the replacement character, and what follows
/// it comes out as if it stood alone.
pub proof fn lone_surrogates_are_replaced(unit: u16, rest: Seq<u16>)
    requires
        0xd800 <= unit <= 0xdfff,
        unit <= 0xdbff ==> rest.len() == 0 || !(0xdc00 <= rest[0] <= 0xdfff),
    ensures
        wide_text(seq![unit] + rest) == seq!['\u{fffd}'] + wide_text(rest),
{
    let units = seq![unit] + rest;
    assert(units.skip(1) =~= rest);
}

/// The line of the log gives the time in brackets, the link, the names of the two options of the
/// active tab and the folder, with two colons between.
pub proof fn a_line_of_the_log_has_four_parts(gui: GuiModel, now: Seq<char>, folder: Seq<char>)
    ensures
        ({
            let options = gui.config.options;
            let line = gui.log_line(now, folder);
            &&& gui.active_tab is Video ==> line == "["@ + now + "]::"@ + gui.download_link + "::"@
                + (options.video_resolution.name + ":"@ + options.video_format.name) + "::"@
                + folder
            &&& gui.active_tab is Audio ==> line == "["@ + now + "]::"@ + gui.download_link + "::"@
                + (options.audio_quality.name + ":"@ + options.audio_format.name) + "::"@ + folder
        }),
{
}

/// What the log gets for a download is one such line with a line break, with a local time and with
/// the folder as it is shown.
pub proof fn the_log_gets_one_line(gui: GuiModel, entry: Seq<char>)
    requires
        gui.is_logged_as(entry),
    ensures
        exists|now: Seq<char>, folder: Seq<char>|
            {
                &&& is_local_time(now)
                &&& gui.folder_shown_as(folder)
                &&& entry == #[trigger] gui.log_line(now, folder) + "\n"@
            },
{
}

} // verus!
