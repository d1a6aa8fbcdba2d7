//! What is asked of, and heard from, the yt-dlp process.

use vstd::prelude::*;

verus! {

#[derive(Debug, Clone, PartialEq, Eq)]
pub enum Message {
    /// Download what the text names. The arguments are those that are made for the playlist from
    /// what `YtGUI::playlist_inputs` gives.
    Run { link: String, playlist_args: Vec<String> },
    Stop,
    AlreadyExists,
    PlaylistNotChecked,
    Finished,
    Error(String),
}

} // verus!
