# ytdlp_gui

A graphical front end for yt-dlp. The library under `src/` holds its state and takes its
decisions. It is verified with Verus; what it takes on trust are six small wrappers around calls
into `url`, `chrono` and the standard library, each with a comment that says what is believed of
the call. The program under `app/` draws the window
with iced, listens to events, and carries out what the library asks for.

- `gui`: the state (`YtGUI`), the events (`Message`), and what each event does
- `effect`: what the program is asked to do in return
- `command`, `progress`: messages to and from the yt-dlp process
- `links`: the links in a request, checked with the `url` crate
- `config`, `media_options`, `sponsorblock`, `path`: the settings
- `screen`, `download_log`, `log_setup`: what is shown and what is logged
- `text`, `single`: text work, and single-precision numbers carried as bit patterns
- `laws`, `text_laws`, `session`: what is proved of the whole

An event goes into `YtGUI::update`, which returns a list of `Effect`s. Three of them are
questions, whose answers go back in: `Start` (`command_started`), `AskMultipleVideos`
(`video_ended`) and `ChooseFolder` (the event `SelectedDownloadFolder`).

The process itself, the lists of media options and the parsing of its output come to the program
through the trait `Backend` in `app/backend.rs`.
