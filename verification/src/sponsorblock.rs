//! What yt-dlp does with the segments that SponsorBlock reports.

use vstd::prelude::*;

verus! {

#[derive(Debug, Clone, Copy, PartialEq, Eq, Structural)]
pub enum SponsorBlockOption {
    Remove,
    Mark,
}

/// The arguments that carry the choice to yt-dlp.
pub open spec fn sponsorblock_args(choice: Option<SponsorBlockOption>) -> Seq<Seq<char>> {
    match choice {
        Some(SponsorBlockOption::Remove) => seq!["--sponsorblock-remove=default"@],
        Some(SponsorBlockOption::Mark) => seq!["--sponsorblock-mark=default"@],
        None => seq![],
    }
}

} // verus!
