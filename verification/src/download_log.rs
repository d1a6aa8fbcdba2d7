//! The log of downloads.

use crate::gui::{GuiModel, Tab, YtGUI};
use crate::text::occurs_in;
use vstd::prelude::*;

verus! {

impl GuiModel {
    /// The names of the two choices that the active tab is about.
    pub open spec fn tab_names(self) -> Seq<char> {
        let options = self.config.options;
        match self.active_tab {
            Tab::Video => options.video_resolution.name + ":"@ + options.video_format.name,
            Tab::Audio => options.audio_quality.name + ":"@ + options.audio_format.name,
        }
    }

    /// The line for a download that ended at the given time and went to the given folder:
    /// `[<date-time>]::<URL>::<options>::<download-path>`.
    pub open spec fn log_line(self, now: Seq<char>, folder: Seq<char>) -> Seq<char> {
        "["@ + now + "]::"@ + self.download_link + "::"@ + self.tab_names() + "::"@ + folder
    }
}

/// Whether a character is a decimal digit.
pub open spec fn is_digit(c: char) -> bool {
    '0' <= c <= '9'
}

/// Whether a text is a date: the year in four digits, or from the year 10000 on in more of them
/// behind a plus sign, then month and day in two digits each, with hyphens between.
pub open spec fn is_date(text: Seq<char>) -> bool {
    let n = text.len() as int;
    &&& n == 10 || n >= 12
    &&& forall|i: int|
        0 <= i < n ==> {
            if i == n - 3 || i == n - 6 {
                #[trigger] text[i] == '-'
            } else if i == 0 && n > 10 {
                text[i] == '+'
            } else {
                is_digit(text[i])
            }
        }
}

/// Whether a text is a time of day: hours, minutes and seconds in two digits each, with colons
/// between, then nothing, or a point and three, six or nine digits.
pub open spec fn is_time_of_day(text: Seq<char>) -> bool {
    let n = text.len() as int;
    &&& n == 8 || n == 12 || n == 15 || n == 18
    &&& forall|i: int|
        0 <= i < n ==> {
            if i == 2 || i == 5 {
                #[trigger] text[i] == ':'
            } else if i == 8 {
                text[i] == '.'
            } else {
                is_digit(text[i])
            }
        }
}

/// Whether a text is an offset from UTC: a sign, then hours, minutes and perhaps seconds in two
/// digits each, with colons between.
pub open spec fn is_offset(text: Seq<char>) -> bool {
    let n = text.len() as int;
    &&& n == 6 || n == 9
    &&& forall|i: int|
        0 <= i < n ==> {
            if i == 0 {
                #[trigger] text[i] == '+' || text[i] == '-'
            } else if i == 3 || i == 6 {
                text[i] == ':'
            } else {
                is_digit(text[i])
            }
        }
}

/// A date, a time of day and an offset, with a space between each two.
pub open spec fn time_text(date: Seq<char>, time: Seq<char>, offset: Seq<char>) -> Seq<char> {
    date.push(' ') + time.push(' ') + offset
}

/// Whether a text is a local time, written out in full.
pub open spec fn is_local_time(text: Seq<char>) -> bool {
    exists|date: Seq<char>, time: Seq<char>, offset: Seq<char>|
        {
            &&& text == #[trigger] time_text(date, time, offset)
            &&& is_date(date)
            &&& is_time_of_day(time)
            &&& is_offset(offset)
        }
}

impl GuiModel {
    /// Whether a text is what the log gets for a download that has ended.
    pub open spec fn is_logged_as(self, entry: Seq<char>) -> bool {
        exists|now: Seq<char>, folder: Seq<char>|
            {
                &&& entry == #[trigger] self.log_line(now, folder) + "\n"@
                &&& is_local_time(now)
                &&& self.folder_shown_as(folder)
            }
    }
}

/// Calls `chrono::Local::now` and writes the time out as its `Display` does: the date, the time of
/// day and the offset from UTC, in the forms that the contract gives. Which time it is depends on
/// the clock and the time zone of the machine, so that is left unsaid. A clock that is set before
/// 1970, or a zone that is a day or more off UTC, makes `chrono` panic.
#[verifier::external_body]
fn local_time_text() -> (now: String)
    ensures
        is_local_time(now@),
{
    chrono::Local::now().to_string()
}

/// A local time has at least 26 characters. It holds no line break, no closing bracket and no two
/// colons in a row, so that it cannot be taken for more than the first part of a line of the log.
pub proof fn a_local_time_stays_in_its_place(now: Seq<char>)
    requires
        is_local_time(now),
    ensures
        now.len() >= 26,
        !now.contains('\n'),
        !now.contains(']'),
        !occurs_in("::"@, now),
{
    let (date, time, offset): (Seq<char>, Seq<char>, Seq<char>) = choose|
        date: Seq<char>,
        time: Seq<char>,
        offset: Seq<char>,
    |
        {
            &&& now == #[trigger] time_text(date, time, offset)
            &&& is_date(date)
            &&& is_time_of_day(time)
            &&& is_offset(offset)
        };
    let first = date.len() as int;
    let second = first + 1 + time.len();
    assert forall|i: int| 0 <= i < now.len() implies {
        &&& now[i] != '\n'
        &&& now[i] != ']'
        &&& i + 1 < now.len() ==> !(#[trigger] now[i] == ':' && now[i + 1] == ':')
    } by {
        if i < first {
            assert(now[i] == date[i]);
        } else if first < i < second {
            assert(now[i] == time[i - first - 1]);
            if i + 1 < second {
                assert(now[i + 1] == time[i - first]);
            }
        } else if i > second {
            assert(now[i] == offset[i - second - 1]);
            if i + 1 < now.len() {
                assert(now[i + 1] == offset[i - second]);
            }
        }
    }
    reveal_strlit("::");
    if occurs_in("::"@, now) {
        let at = choose|at: int|
            0 <= at <= now.len() - "::"@.len() && #[trigger] now.subrange(at, at + "::"@.len())
                == "::"@;
        assert(now[at] == now.subrange(at, at + 2)[0]);
        assert(now[at + 1] == now.subrange(at, at + 2)[1]);
    }
}

/// The time of a download can be read back from its line: it is what stands between the opening
/// bracket and the first closing one.
pub proof fn the_time_can_be_read_back(gui: GuiModel, now: Seq<char>, folder: Seq<char>)
    requires
        is_local_time(now),
    ensures
        ({
            let line = gui.log_line(now, folder);
            &&& line.len() > now.len() + 1
            &&& line[0] == '['
            &&& line.subrange(1, now.len() as int + 1) == now
            &&& line[now.len() as int + 1] == ']'
            &&& forall|i: int| 0 <= i <= now.len() ==> #[trigger] line[i] != ']'
        }),
{
    a_local_time_stays_in_its_place(now);
    let line = gui.log_line(now, folder);
    reveal_strlit("[");
    reveal_strlit("]::");
    assert(line.subrange(1, now.len() as int + 1) =~= now);
    assert forall|i: int| 0 <= i <= now.len() implies #[trigger] line[i] != ']' by {
        if i > 0 {
            assert(line[i] == now[i - 1]);
        }
    }
}

impl YtGUI {
    /// The line for a download that ended at the given time and went to the given folder:
    /// `[<date-time>]::<URL>::<options>::<download-path>`.
    pub fn log_line(&self, now: &str, folder: &str) -> (line: String)
        ensures
            line@ == self@.log_line(now@, folder@),
    {
        let mut line = String::from_str("[");
        line.append(now);
        line.append("]::");
        line.append(self.download_link.as_str());
        line.append("::");
        let mut names = String::new();
        match self.active_tab {
            Tab::Video => {
                names.append(self.config.options.video_resolution.name.as_str());
                names.append(":");
                names.append(self.config.options.video_format.name.as_str());
            },
            Tab::Audio => {
                names.append(self.config.options.audio_quality.name.as_str());
                names.append(":");
                names.append(self.config.options.audio_format.name.as_str());
            },
        }
        assert(names@ =~= self@.tab_names());
        line.append(names.as_str());
        line.append("::");
        line.append(folder);
        line
    }

    /// What is added to the log for a download that ends now: its line, and a line break.
    pub fn log_download(&self) -> (entry: String)
        ensures
            exists|now: Seq<char>, folder: Seq<char>|
                {
                    &&& entry@ == #[trigger] self@.log_line(now, folder) + "\n"@
                    &&& is_local_time(now)
                    &&& self@.folder_shown_as(folder)
                },
            self@.is_logged_as(entry@),
    {
        let now = local_time_text();
        let folder = self.folder_text();
        let mut entry = self.log_line(now.as_str(), folder.as_str());
        entry.append("\n");
        entry
    }
}

} // verus!
