//! Reports of progress, and the end of a download.

use crate::effect::EffectModel;
use crate::gui::{GuiModel, Message};
use crate::progress::{
    amount_text_of, download_text_of, eta_text_of, Download, Figures, Progress, LONGEST_SECONDS,
};
use crate::screen::BannerModel;
use crate::single::Single;
use crate::text::{integer, two_places};
use vstd::prelude::*;

verus! {

/// After any report of a transfer, from any state, the percentage is that of the report, in the
/// state and in the banner, and the note is the line for its figures. The button cannot be
/// pressed.
pub proof fn a_transfer_shows_its_own_figures(
    gui: GuiModel,
    download: Download,
    figures: Figures,
)
    ensures
        ({
            let after = gui.after(Message::ProgressEvent(Progress::Downloading(download, figures)));
            &&& after.progress == Some(figures.percent)
            &&& after.download_message matches Some(Ok(note)) && note == download_text_of(figures)
            &&& after.banner() matches BannerModel::Running { note, playlist_progress, percent }
            &&& note == download_text_of(figures)
            &&& percent == Some(figures.percent)
            &&& after.button() is None
        }),
{
}

/// Of two reports in a row the later one counts: what is shown is what it would show alone, but
/// that a place in the playlist stays until the next one is given.
pub proof fn the_later_report_counts(
    gui: GuiModel,
    first: (Download, Figures),
    second: (Download, Figures),
)
    ensures
        ({
            let one = Message::ProgressEvent(Progress::Downloading(first.0, first.1));
            let two = Message::ProgressEvent(Progress::Downloading(second.0, second.1));
            let both = gui.after(one).after(two);
            &&& both.progress == Some(second.1.percent)
            &&& both.progress == gui.after(two).progress
            &&& both.download_message == gui.after(two).download_message
            &&& second.0.playlist_count is Some && second.0.playlist_index is Some ==> both
                == gui.after(two)
            &&& second.0.playlist_count is None || second.0.playlist_index is None
                ==> both.playlist_progress == gui.after(one).playlist_progress
        }),
{
}

/// The place in the playlist is the one that the report gives, and stays where the report does
/// not give both numbers.
pub proof fn the_place_in_the_playlist_is_the_reported_one(
    gui: GuiModel,
    download: Download,
    figures: Figures,
)
    ensures
        ({
            let after = gui.after(Message::ProgressEvent(Progress::Downloading(download, figures)));
            &&& download.playlist_count matches Some(count) ==> (
            download.playlist_index matches Some(index) ==> after.playlist_progress == Some(
                "Downloading "@ + integer(index as int) + "/"@ + integer(count as int),
            ))
            &&& download.playlist_count is None || download.playlist_index is None
                ==> after.playlist_progress == gui.playlist_progress
        }),
{
}

/// A transfer changes what is shown of the download and nothing else, and asks for nothing.
pub proof fn a_transfer_changes_only_what_is_shown(
    gui: GuiModel,
    download: Download,
    figures: Figures,
)
    ensures
        ({
            let event = Message::ProgressEvent(Progress::Downloading(download, figures));
            let after = gui.after(event);
            &&& after == GuiModel {
                progress: after.progress,
                playlist_progress: after.playlist_progress,
                download_message: after.download_message,
                ..gui
            }
            &&& gui.effects_of(event).len() == 0
        }),
{
}

/// Work after the transfer is told of, and changes nothing but the note. A report of another kind
/// changes nothing. Neither asks for anything.
pub proof fn processing_changes_only_the_note(gui: GuiModel)
    ensures
        ({
            let processing = Message::ProgressEvent(Progress::PostProcessing);
            let other = Message::ProgressEvent(Progress::Other);
            let after = gui.after(processing);
            &&& after.download_message matches Some(Ok(note)) && note == "Processing..."@
            &&& after == GuiModel { download_message: after.download_message, ..gui }
            &&& gui.after(other) == gui
            &&& gui.effects_of(processing).len() == 0
            &&& gui.effects_of(other).len() == 0
        }),
{
}

/// The end of a video asks for one thing, whether there are several, where the playlist setting is
/// off, and for nothing where it is on. No other part of the state matters, and the state stays.
pub proof fn the_end_of_a_video_depends_on_the_playlist_setting_alone(gui: GuiModel)
    ensures
        ({
            let event = Message::ProgressEvent(Progress::EndOfVideo);
            &&& !gui.is_playlist ==> gui.effects_of(event).len() == 1 && gui.effects_of(
                event,
            )[0] is AskMultipleVideos
            &&& gui.is_playlist ==> gui.effects_of(event).len() == 0
            &&& gui.after(event) == gui
        }),
{
}

/// Where the video that ended was one of several, that is noted and nothing changes. Where it was
/// the last, the percentage goes, success is told, yt-dlp is killed and the download is logged.
pub proof fn the_last_video_ends_the_download(gui: GuiModel)
    ensures
        gui.after_video(true) == gui,
        gui.effects_of_video(true) == seq![EffectModel::FinishedSingleVideo],
        ({
            let after = gui.after_video(false);
            &&& after.progress is None
            &&& after.download_message matches Some(Ok(note)) && note == "Finished!"@
            &&& after == GuiModel {
                progress: after.progress,
                download_message: after.download_message,
                ..gui
            }
        }),
        gui.effects_of_video(false) == seq![EffectModel::Kill, EffectModel::LogDownload],
{
}

/// The end of a playlist does the same from any state, with its own note and a printed line.
pub proof fn the_end_of_a_playlist_ends_the_download(gui: GuiModel)
    ensures
        ({
            let event = Message::ProgressEvent(Progress::EndOfPlaylist);
            let after = gui.after(event);
            let effects = gui.effects_of(event);
            &&& after.progress is None
            &&& after.download_message matches Some(Ok(note)) && note == "Finished playlist!"@
            &&& after == GuiModel {
                progress: after.progress,
                download_message: after.download_message,
                ..gui
            }
            &&& effects.len() == 3
            &&& effects[0] matches EffectModel::Print(line) && line == "end of playlist"@
            &&& effects[1] is Kill
            &&& effects[2] is LogDownload
        }),
{
}

/// As an event, a report does what it does on its own.
pub proof fn reports_are_events(gui: GuiModel, progress: Progress)
    ensures
        gui.after(Message::ProgressEvent(progress)) == gui.after_progress(progress),
        gui.effects_of(Message::ProgressEvent(progress)) == gui.effects_of_progress(progress),
{
}

/// The line for a transfer gives the amount, the speed and the time left, in this order. The
/// amount is in gigabytes exactly where it is more than 1024 megabytes.
pub proof fn the_line_gives_amount_speed_and_time(figures: Figures)
    ensures
        ({
            let rest = " | "@ + figures.speed_text@ + "MB/s | ETA "@ + eta_text_of(
                figures.eta_seconds as int,
            );
            &&& figures.megabytes.above_1024() ==> download_text_of(figures)
                == figures.gigabytes_text@ + "GB"@ + rest
            &&& !figures.megabytes.above_1024() ==> download_text_of(figures)
                == figures.megabytes_text@ + "MB"@ + rest
        }),
{
    let rest = " | "@ + figures.speed_text@ + "MB/s | ETA "@ + eta_text_of(
        figures.eta_seconds as int,
    );
    assert(download_text_of(figures) =~= amount_text_of(figures) + rest);
}

/// A time left is shown as the minutes and seconds that make it up: whole minutes, and less than
/// a minute of seconds, both of the sign of the time.
pub proof fn a_time_left_is_shown_as_its_minutes_and_seconds(minutes: int, seconds: int)
    requires
        -60 < seconds < 60,
        minutes > 0 ==> seconds >= 0,
        minutes < 0 ==> seconds <= 0,
    ensures
        eta_text_of(minutes * 60 + seconds) == two_places(minutes) + ":"@ + two_places(seconds),
{
}

/// A single-precision number with sign bit, exponent and fraction is greater than 1024, which is
/// two to the tenth, exactly where it is positive, is a number, and has a greater exponent or the
/// same one with a fraction.
pub proof fn comparison_follows_the_parts_of_a_number(
    number: Single,
    sign: int,
    exponent: int,
    fraction: int,
)
    requires
        0 <= sign <= 1,
        0 <= exponent < 256,
        0 <= fraction < 0x80_0000,
        number.bits == sign * 0x8000_0000 + exponent * 0x80_0000 + fraction,
    ensures
        number.above_1024() <==> {
            &&& sign == 0
            &&& !(exponent == 255 && fraction > 0)
            &&& exponent - 127 > 10 || (exponent - 127 == 10 && fraction > 0)
        },
{
}

/// The total is the exact size if that is known, else the estimate if that is known, else zero;
/// speed and time left are zero where they are not known.
pub proof fn unknown_figures_are_replaced(download: Download)
    ensures
        download.total_bytes matches Some(size) ==> download.total_of() == size,
        download.total_bytes is None ==> (download.total_bytes_estimate matches Some(size)
            ==> download.total_of() == size),
        download.total_bytes is None && download.total_bytes_estimate is None
            ==> download.total_of().bits == 0,
        download.speed matches Some(speed) ==> download.speed_of() == speed,
        download.speed is None ==> download.speed_of().bits == 0,
        download.eta matches Some(eta) ==> download.eta_of() == eta,
        download.eta is None ==> download.eta_of().bits == 0,
{
}

/// Every report is taken but one whose time left is longer than can be shown.
pub proof fn only_a_time_out_of_bounds_is_left_out(
    event: Message,
    progress: Progress,
    figures: Figures,
)
    ensures
        figures.fits() <==> -9_223_372_036_854_775 <= figures.eta_seconds <= 9_223_372_036_854_775,
        progress.fits() <==> !(progress matches Progress::Downloading(_, reported)
            && !reported.fits()),
        event.fits() <==> !(event matches Message::ProgressEvent(
            Progress::Downloading(_, figures),
        ) && (figures.eta_seconds > 9_223_372_036_854_775 || figures.eta_seconds
            < -9_223_372_036_854_775)),
        LONGEST_SECONDS == i64::MAX / 1000,
{
}

} // verus!
