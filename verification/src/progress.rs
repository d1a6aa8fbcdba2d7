//! What yt-dlp reports while it works.

use crate::single::{zero, Single};
use crate::text::{integer, integer_text, two_places, two_places_text};
use vstd::prelude::*;

verus! {

/// The longest time, in seconds, that `chrono::Duration` can hold.
pub const LONGEST_SECONDS: i64 = 9_223_372_036_854_775;

/// The state of a transfer.
#[derive(Debug, Clone, Copy, PartialEq, Eq)]
pub struct Download {
    pub eta: Option<Single>,
    pub downloaded_bytes: Single,
    pub total_bytes: Option<Single>,
    pub total_bytes_estimate: Option<Single>,
    pub speed: Option<Single>,
    pub playlist_count: Option<i64>,
    pub playlist_index: Option<i64>,
}

/// What arithmetic makes of the state of a transfer.
#[derive(Debug, Clone, PartialEq, Eq)]
pub struct Figures {
    /// The part downloaded, in percent of the total size.
    pub percent: Single,
    /// The part downloaded, in megabytes.
    pub megabytes: Single,
    /// The same, with two decimals.
    pub megabytes_text: String,
    /// The part downloaded in gigabytes, with two decimals.
    pub gigabytes_text: String,
    /// The speed in megabytes per second, with two decimals.
    pub speed_text: String,
    /// The time left, cut to whole seconds.
    pub eta_seconds: i64,
}

/// One report.
#[derive(Debug, Clone, PartialEq, Eq)]
pub enum Progress {
    Downloading(Download, Figures),
    PostProcessing,
    EndOfPlaylist,
    EndOfVideo,
    Other,
}

/// Division that drops the fraction, whatever the sign.
pub open spec fn quotient(value: int, divisor: int) -> int
    recommends
        divisor > 0,
{
    if value < 0 {
        -((-value) / divisor)
    } else {
        value / divisor
    }
}

/// A time left, as minutes and seconds.
pub open spec fn eta_text_of(seconds: int) -> Seq<char> {
    let minutes = quotient(seconds, 60);
    two_places(minutes) + ":"@ + two_places(seconds - minutes * 60)
}

/// How much has been downloaded: in gigabytes past 1024 megabytes, else in megabytes.
pub open spec fn amount_text_of(figures: Figures) -> Seq<char> {
    if figures.megabytes.above_1024() {
        figures.gigabytes_text@ + "GB"@
    } else {
        figures.megabytes_text@ + "MB"@
    }
}

/// The line that tells how a transfer goes.
pub open spec fn download_text_of(figures: Figures) -> Seq<char> {
    amount_text_of(figures) + " | "@ + figures.speed_text@ + "MB/s | ETA "@ + eta_text_of(
        figures.eta_seconds as int,
    )
}

/// Which entry of how many a playlist is at.
pub open spec fn playlist_text_of(index: int, count: int) -> Seq<char> {
    "Downloading "@ + integer(index) + "/"@ + integer(count)
}

/// Calls `chrono::Duration::seconds` and `num_minutes`: the whole minutes in a number of
/// seconds, with the fraction dropped. Longer times than `chrono` can hold would panic.
#[verifier::external_body]
fn whole_minutes(seconds: i64) -> (minutes: i64)
    requires
        -LONGEST_SECONDS <= seconds <= LONGEST_SECONDS,
    ensures
        minutes == quotient(seconds as int, 60),
{
    chrono::Duration::seconds(seconds).num_minutes()
}

/// Calls `chrono::Duration::seconds` and `num_seconds`: the seconds that went in come out.
/// Longer times than `chrono` can hold would panic.
#[verifier::external_body]
fn whole_seconds(seconds: i64) -> (total: i64)
    requires
        -LONGEST_SECONDS <= seconds <= LONGEST_SECONDS,
    ensures
        total == seconds,
{
    chrono::Duration::seconds(seconds).num_seconds()
}

impl Figures {
    /// Whether the time left is one that can be shown.
    pub open spec fn fits(self) -> bool {
        -LONGEST_SECONDS <= self.eta_seconds <= LONGEST_SECONDS
    }
}

impl Progress {
    /// Whether the time left, if there is one, can be shown.
    pub open spec fn fits(self) -> bool {
        self matches Progress::Downloading(_, figures) ==> figures.fits()
    }
}

impl Download {
    /// The size of the whole: the exact one if known, else the estimate, else zero.
    pub open spec fn total_of(self) -> Single {
        self.total_bytes.unwrap_or(self.total_bytes_estimate.unwrap_or(zero()))
    }

    /// The speed, or zero where it is not known.
    pub open spec fn speed_of(self) -> Single {
        self.speed.unwrap_or(zero())
    }

    /// The time left, or zero where it is not known.
    pub open spec fn eta_of(self) -> Single {
        self.eta.unwrap_or(zero())
    }

    /// The text for the entry of the playlist, where both numbers are known.
    pub open spec fn playlist_text_of(self) -> Option<Seq<char>> {
        match (self.playlist_count, self.playlist_index) {
            (Some(count), Some(index)) => Some(playlist_text_of(index as int, count as int)),
            _ => None,
        }
    }

    /// The size of the whole: the exact one if known, else the estimate, else zero.
    pub fn total(&self) -> (size: Single)
        ensures
            size == self.total_of(),
    {
        match self.total_bytes {
            Some(size) => size,
            None => Single::or_zero(self.total_bytes_estimate),
        }
    }

    /// The speed, or zero where it is not known.
    pub fn speed_or_zero(&self) -> (speed: Single)
        ensures
            speed == self.speed.unwrap_or(zero()),
            speed == self.speed_of(),
    {
        Single::or_zero(self.speed)
    }

    /// The time left, or zero where it is not known.
    pub fn eta_or_zero(&self) -> (eta: Single)
        ensures
            eta == self.eta.unwrap_or(zero()),
            eta == self.eta_of(),
    {
        Single::or_zero(self.eta)
    }

    /// The text for the entry of the playlist, where both numbers are known.
    pub fn playlist_text(&self) -> (text: Option<String>)
        ensures
            crate::text::text_of(text) == self.playlist_text_of(),
    {
        match (self.playlist_count, self.playlist_index) {
            (Some(count), Some(index)) => {
                let mut text = String::from_str("Downloading ");
                text.append(integer_text(index).as_str());
                text.append("/");
                text.append(integer_text(count).as_str());
                Some(text)
            },
            _ => None,
        }
    }
}

/// A time left, as minutes and seconds.
pub fn eta_text(seconds: i64) -> (text: String)
    requires
        -LONGEST_SECONDS <= seconds <= LONGEST_SECONDS,
    ensures
        text@ == eta_text_of(seconds as int),
{
    let minutes = whole_minutes(seconds);
    let mut text = two_places_text(minutes);
    text.append(":");
    text.append(two_places_text(whole_seconds(seconds) - minutes * 60).as_str());
    text
}

/// The line that tells how a transfer goes.
pub fn download_text(figures: &Figures) -> (text: String)
    requires
        figures.fits(),
    ensures
        text@ == download_text_of(*figures),
{
    let mut text = String::new();
    if figures.megabytes.is_above_1024() {
        text.append(figures.gigabytes_text.as_str());
        text.append("GB");
        assert(text@ =~= amount_text_of(*figures));
    } else {
        text.append(figures.megabytes_text.as_str());
        text.append("MB");
        assert(text@ =~= amount_text_of(*figures));
    }
    text.append(" | ");
    text.append(figures.speed_text.as_str());
    text.append("MB/s | ETA ");
    text.append(eta_text(figures.eta_seconds).as_str());
    text
}

} // verus!
