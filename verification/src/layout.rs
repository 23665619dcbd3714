//! What goes where on the screen: the title, the list, the status line and
//! the information pane, and the words that they show.

use vstd::prelude::*;
use vstd::string::*;
use crate::app_state::AppState;
use crate::codec::{layout_label, layout_words, SoundFileCodecData};
use crate::names::string_views;
use crate::playback::TransportState;

verus! {

/// An area of the screen, in character cells.
#[derive(Clone, Copy, Debug, PartialEq, Eq)]
pub struct Rect {
    pub x: u16,
    pub y: u16,
    pub width: u16,
    pub height: u16,
}

/// The areas of the screen.
#[derive(Clone, Copy, Debug, PartialEq, Eq)]
pub struct ScreenLayout {
    /// The title, on the first line.
    pub title: Rect,
    /// The list of directories and files.
    pub list: Rect,
    /// The status line, on the last line.
    pub status: Rect,
    /// The information pane, where it is shown.
    pub info: Option<Rect>,
}

/// The width of the information pane.
pub const WIDTH_INFO_PANE: u16 = 25;

/// The information pane is shown while a file is selected and the screen is
/// more than twice as wide as the pane.
pub open spec fn shows_info_pane(width: u16, file_selected: bool) -> bool {
    file_selected && width > 2 * WIDTH_INFO_PANE
}

/// The lines between the title and the status line.
pub open spec fn body_height(height: u16) -> u16 {
    if height >= 2 {
        (height - 2) as u16
    } else {
        0
    }
}

/// The height of the information pane: that of the list, but three lines at
/// least and five at most.
pub open spec fn info_height(height: u16) -> u16 {
    if body_height(height) < 3 {
        3
    } else if body_height(height) > 5 {
        5
    } else {
        body_height(height)
    }
}

/// Divides a screen of `width` by `height` cells: the title on the first
/// line, the status on the last, the list between them, and the information
/// pane, where it is shown, at the right of the list.
pub fn plan_layout(width: u16, height: u16, file_selected: bool) -> (layout: ScreenLayout)
    ensures
        layout.title == (Rect { x: 0, y: 0, width, height: 1 }),
        layout.status == (Rect {
            x: 0,
            y: if height >= 1 {
                (height - 1) as u16
            } else {
                0
            },
            width,
            height: 1,
        }),
        layout.list.x == 0,
        layout.list.y == 1,
        layout.list.height == body_height(height),
        shows_info_pane(width, file_selected) ==> layout.list.width == width - WIDTH_INFO_PANE
            && layout.info == Some(
            Rect {
                x: layout.list.width,
                y: 1,
                width: WIDTH_INFO_PANE,
                height: info_height(height),
            },
        ),
        !shows_info_pane(width, file_selected) ==> layout.list.width == width && layout.info
            is None,
{
    let body: u16 = if height >= 2 {
        height - 2
    } else {
        0
    };
    let last: u16 = if height >= 1 {
        height - 1
    } else {
        0
    };
    let show = file_selected && width > WIDTH_INFO_PANE * 2;
    let list_width: u16 = if show {
        width - WIDTH_INFO_PANE
    } else {
        width
    };
    let info = if show {
        let info_height: u16 = if body < 3 {
            3
        } else if body > 5 {
            5
        } else {
            body
        };
        Some(Rect { x: list_width, y: 1, width: WIDTH_INFO_PANE, height: info_height })
    } else {
        None
    };
    ScreenLayout {
        title: Rect { x: 0, y: 0, width, height: 1 },
        list: Rect { x: 0, y: 1, width: list_width, height: body },
        status: Rect { x: 0, y: last, width, height: 1 },
        info,
    }
}

/// What the status line shows.
#[derive(Clone, Debug, PartialEq, Eq)]
pub enum StatusLine {
    /// The message of the last failure.
    Failure(String),
    /// The progress of the sound that plays: the time played, which is no
    /// more than the length, and the length, in milliseconds.
    Progress { elapsed_millis: u128, total_millis: u128 },
    /// Nothing.
    Blank,
}

/// What the status line shows, names as their characters.
pub enum StatusModel {
    Failure(Seq<char>),
    Progress { elapsed_millis: u128, total_millis: u128 },
    Blank,
}

impl View for StatusLine {
    type V = StatusModel;

    open spec fn view(&self) -> StatusModel {
        match self {
            StatusLine::Failure(message) => StatusModel::Failure(message@),
            StatusLine::Progress { elapsed_millis, total_millis } => StatusModel::Progress {
                elapsed_millis: *elapsed_millis,
                total_millis: *total_millis,
            },
            StatusLine::Blank => StatusModel::Blank,
        }
    }
}

/// Nanoseconds as whole milliseconds.
pub open spec fn millis_of(nanos: u128) -> u128 {
    nanos / 1_000_000
}

/// The time played as the progress shows it, in milliseconds: held at the
/// length of the sound once it has passed it.
pub open spec fn shown_millis(play_time: u128, play_duration: u128) -> u128 {
    if millis_of(play_time) <= millis_of(play_duration) {
        millis_of(play_time)
    } else {
        millis_of(play_duration)
    }
}

/// The status line for a state: the last failure comes first; else, while a
/// sound that has a length is playing, its progress, with the time played
/// held at the length; else nothing.
pub open spec fn status_of(
    last_error: Seq<char>,
    playing: bool,
    play_time: u128,
    play_duration: u128,
) -> StatusModel {
    if last_error.len() > 0 {
        StatusModel::Failure(last_error)
    } else if playing && millis_of(play_duration) > 0 {
        StatusModel::Progress {
            elapsed_millis: shown_millis(play_time, play_duration),
            total_millis: millis_of(play_duration),
        }
    } else {
        StatusModel::Blank
    }
}

/// While a sound that has a length is playing and no failure stands, the
/// status line shows its progress, whatever the time played; the time shown
/// never passes the length, and the length shown is not zero.
pub proof fn lemma_progress_within_length(play_time: u128, play_duration: u128)
    requires
        millis_of(play_duration) > 0,
    ensures
        status_of(Seq::empty(), true, play_time, play_duration) == (StatusModel::Progress {
            elapsed_millis: shown_millis(play_time, play_duration),
            total_millis: millis_of(play_duration),
        }),
        shown_millis(play_time, play_duration) <= millis_of(play_duration),
        millis_of(play_time) > millis_of(play_duration) ==> shown_millis(play_time, play_duration)
            == millis_of(play_duration),
{
}

/// Tells what the status line shows.
pub fn status_line<H>(state: &AppState<H>, transport: TransportState) -> (line: StatusLine)
    ensures
        line@ == status_of(
            state@.last_error,
            state@.session is Some && transport is Playing,
            match state@.session {
                Some(session) => session.play_time,
                None => 0,
            },
            match state@.session {
                Some(session) => session.play_duration,
                None => 0,
            },
        ),
{
    if !state.last_error_msg().as_str().is_empty() {
        return StatusLine::Failure(state.last_error_msg().clone());
    }
    if state.is_playing(transport) {
        let elapsed_millis = state.play_time() / 1_000_000;
        let total_millis = state.play_duration() / 1_000_000;
        if total_millis > 0 {
            let shown = if elapsed_millis <= total_millis {
                elapsed_millis
            } else {
                total_millis
            };
            return StatusLine::Progress { elapsed_millis: shown, total_millis };
        }
    }
    StatusLine::Blank
}

/// The title line: the name of the application and its keys.
pub fn title_text() -> (text: &'static str)
    ensures
        text@ == "spinup:  (j)down | (k)up | (space) play or navigate dir | ((bksp)stop | (q)quit"@,
{
    "spinup:  (j)down | (k)up | (space) play or navigate dir | ((bksp)stop | (q)quit"
}

/// The title of the list: the current directory.
pub fn list_title(current_directory: &str) -> (title: String)
    ensures
        title@ == "Dir: "@ + current_directory@,
{
    "Dir: ".to_owned().concat(current_directory)
}

/// The character of a decimal digit.
pub open spec fn digit_char(digit: nat) -> char {
    if digit == 0 {
        '0'
    } else if digit == 1 {
        '1'
    } else if digit == 2 {
        '2'
    } else if digit == 3 {
        '3'
    } else if digit == 4 {
        '4'
    } else if digit == 5 {
        '5'
    } else if digit == 6 {
        '6'
    } else if digit == 7 {
        '7'
    } else if digit == 8 {
        '8'
    } else {
        '9'
    }
}

/// A number in decimal digits, without leading zeros.
pub open spec fn decimal_digits(n: nat) -> Seq<char>
    decreases n,
{
    if n < 10 {
        seq![digit_char(n)]
    } else {
        decimal_digits(n / 10).push(digit_char(n % 10))
    }
}

fn digit_str(digit: u32) -> (text: &'static str)
    requires
        digit < 10,
    ensures
        text@ == seq![digit_char(digit as nat)],
{
    proof {
        reveal_strlit("0");
        reveal_strlit("1");
        reveal_strlit("2");
        reveal_strlit("3");
        reveal_strlit("4");
        reveal_strlit("5");
        reveal_strlit("6");
        reveal_strlit("7");
        reveal_strlit("8");
        reveal_strlit("9");
    }
    let text = if digit == 0 {
        "0"
    } else if digit == 1 {
        "1"
    } else if digit == 2 {
        "2"
    } else if digit == 3 {
        "3"
    } else if digit == 4 {
        "4"
    } else if digit == 5 {
        "5"
    } else if digit == 6 {
        "6"
    } else if digit == 7 {
        "7"
    } else if digit == 8 {
        "8"
    } else {
        "9"
    };
    assert(text@ =~= seq![digit_char(digit as nat)]);
    text
}

/// Writes a number in decimal digits.
pub fn decimal(n: u32) -> (text: String)
    ensures
        text@ == decimal_digits(n as nat),
{
    let mut text = digit_str(n % 10).to_owned();
    let mut rest: u32 = n / 10;
    while rest > 0
        invariant
            decimal_digits(n as nat) == (if rest > 0 {
                decimal_digits(rest as nat) + text@
            } else {
                text@
            }),
        decreases rest,
    {
        let ghost later = text@;
        let ghost digit = seq![digit_char((rest % 10) as nat)];
        text = digit_str(rest % 10).to_owned().concat(text.as_str());
        proof {
            if rest >= 10 {
                assert(decimal_digits(rest as nat) + later =~= decimal_digits((rest / 10) as nat)
                    + (digit + later));
            } else {
                assert(decimal_digits(rest as nat) + later =~= digit + later);
            }
        }
        rest = rest / 10;
    }
    text
}

/// The lines of the information pane: the sample rate, the bit depth and the
/// channel layout, each as far as it is known.
pub open spec fn info_text(codec: SoundFileCodecData) -> Seq<Seq<char>> {
    (match codec.sample_rate {
        Some(rate) => seq!["Sample Rate: "@ + decimal_digits(rate as nat)],
        None => Seq::empty(),
    }) + (match codec.bit_depth {
        Some(depth) => seq!["Bit Depth: "@ + decimal_digits(depth as nat)],
        None => Seq::empty(),
    }) + (match codec.file_layout {
        Some(layout) => seq!["Layout: "@ + layout_words(layout)],
        None => Seq::empty(),
    })
}

/// Writes the lines of the information pane.
pub fn info_lines(codec: SoundFileCodecData) -> (lines: Vec<String>)
    ensures
        string_views(lines@) == info_text(codec),
{
    let mut lines: Vec<String> = Vec::new();
    if let Some(rate) = codec.sample_rate {
        lines.push("Sample Rate: ".to_owned().concat(decimal(rate).as_str()));
    }
    if let Some(depth) = codec.bit_depth {
        lines.push("Bit Depth: ".to_owned().concat(decimal(depth).as_str()));
    }
    if let Some(layout) = codec.file_layout {
        lines.push("Layout: ".to_owned().concat(layout_label(layout)));
    }
    assert(string_views(lines@) =~= info_text(codec));
    lines
}

} // verus!
