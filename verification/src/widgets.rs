//! What an episode row shows: which buttons, which labels, and what the
//! labels say. The toolkit draws; the choices are made here.

use crate::application::Action;
use crate::downloads::{task_of, Manager, TaskView};
use crate::models::opt_int;
use crate::text::{opt_text, trim_blanks, trimmed};
use chrono::{Datelike, TimeZone};
use humansize::FileSize;
use vstd::prelude::*;

verus! {

/// The states of an episode row.
#[derive(Clone, Copy, PartialEq, Eq, Structural, Debug)]
pub enum EpisodeState {
    /// The episode has no media file attached: text only.
    NoUri,
    /// The episode is being downloaded.
    InProgress,
    /// The episode has been downloaded and can be played.
    Playable,
    /// The episode can be downloaded.
    NotDownloaded,
}

/// The state of the row of an episode: without a media address there is
/// nothing to download; a running download shows its progress; a downloaded
/// episode can be played; any other can be downloaded.
pub fn determine_buttons_state(has_uri: bool, is_downloading: bool, has_local_uri: bool) -> (state:
    EpisodeState)
    ensures
        state == (if !has_uri {
            EpisodeState::NoUri
        } else if is_downloading {
            EpisodeState::InProgress
        } else if has_local_uri {
            EpisodeState::Playable
        } else {
            EpisodeState::NotDownloaded
        }),
{
    if !has_uri {
        EpisodeState::NoUri
    } else if is_downloading {
        EpisodeState::InProgress
    } else if has_local_uri {
        EpisodeState::Playable
    } else {
        EpisodeState::NotDownloaded
    }
}

/// Which parts of an episode row are visible. `None` leaves a part as it is.
#[derive(Clone, Copy, PartialEq, Eq, Structural, Debug)]
pub struct Visible {
    pub cancel: bool,
    pub play: bool,
    pub download: bool,
    pub text_only: Option<bool>,
    pub local_size: bool,
    pub size_separator: bool,
    pub total_size: Option<bool>,
}

impl EpisodeState {
    /// The parts of the row that show in this state.
    pub open spec fn spec_visible(self) -> Visible {
        match self {
            EpisodeState::NoUri => Visible {
                cancel: false,
                play: false,
                download: false,
                text_only: Some(true),
                local_size: false,
                size_separator: false,
                total_size: None,
            },
            EpisodeState::InProgress => Visible {
                cancel: true,
                play: false,
                download: false,
                text_only: None,
                local_size: true,
                size_separator: true,
                total_size: Some(true),
            },
            EpisodeState::Playable => Visible {
                cancel: false,
                play: true,
                download: false,
                text_only: None,
                local_size: false,
                size_separator: false,
                total_size: Some(true),
            },
            EpisodeState::NotDownloaded => Visible {
                cancel: false,
                play: false,
                download: true,
                text_only: None,
                local_size: false,
                size_separator: false,
                total_size: None,
            },
        }
    }

    /// The parts of the row that show in this state. Exactly one of the
    /// cancel, play and download buttons and the text-only button shows.
    #[verifier::when_used_as_spec(spec_visible)]
    pub fn visible(self) -> (v: Visible)
        ensures
            v == self.spec_visible(),
    {
        match self {
            EpisodeState::NoUri => Visible {
                cancel: false,
                play: false,
                download: false,
                text_only: Some(true),
                local_size: false,
                size_separator: false,
                total_size: None,
            },
            EpisodeState::InProgress => Visible {
                cancel: true,
                play: false,
                download: false,
                text_only: None,
                local_size: true,
                size_separator: true,
                total_size: Some(true),
            },
            EpisodeState::Playable => Visible {
                cancel: false,
                play: true,
                download: false,
                text_only: None,
                local_size: false,
                size_separator: false,
                total_size: Some(true),
            },
            EpisodeState::NotDownloaded => Visible {
                cancel: false,
                play: false,
                download: true,
                text_only: None,
                local_size: false,
                size_separator: false,
                total_size: None,
            },
        }
    }
}

/// Whole minutes in a number of seconds, rounded towards zero.
pub open spec fn whole_minutes(seconds: int) -> int {
    if seconds >= 0 {
        seconds / 60
    } else {
        -((-seconds) / 60)
    }
}

/// The whole minutes of a duration in seconds, as `chrono::Duration::seconds`
/// followed by `num_minutes` gives them: the quotient by 60, rounded towards
/// zero. Every 32-bit number of seconds is within what `seconds` accepts.
#[verifier::external_body]
fn minutes_of(seconds: i32) -> (minutes: i64)
    ensures
        minutes == whole_minutes(seconds as int),
{
    chrono::Duration::seconds(seconds.into()).num_minutes()
}

/// The minutes to show for an episode of the given length, or `None` where
/// the label stays hidden: the length is unknown or under a minute.
pub fn duration_minutes(seconds: Option<i32>) -> (minutes: Option<i64>)
    ensures
        minutes == (match seconds {
            Some(s) => if whole_minutes(s as int) != 0 {
                Some(whole_minutes(s as int) as i64)
            } else {
                None
            },
            None => None,
        }),
{
    match seconds {
        Some(s) => {
            let minutes = minutes_of(s);
            if minutes != 0 {
                Some(minutes)
            } else {
                None
            }
        },
        None => None,
    }
}

/// What `humansize` writes for a number of bytes with binary division,
/// decimal unit names, no decimals and a space before the unit; `None`
/// where it refuses the number.
pub uninterp spec fn humansize_label(bytes: int) -> Option<Seq<char>>;

/// Formats a number of bytes for reading with `humansize::FileSize::file_size`:
/// divided by 1024 as often as it goes, without decimals, a space, and the
/// unit under its decimal name. The contract names the text and says what
/// the source shows at a glance: a negative number is refused, no other is.
#[verifier::external_body]
fn file_size_label(bytes: i32) -> (label: Option<String>)
    ensures
        opt_text(label) == humansize_label(bytes as int),
        label is Some <==> bytes >= 0,
{
    bytes.file_size(humansize::file_size_opts::FileSizeOpts {
        divider: humansize::file_size_opts::Kilo::Binary,
        units: humansize::file_size_opts::Kilo::Decimal,
        decimal_places: 0,
        decimal_zeroes: 0,
        fixed_at: humansize::file_size_opts::FixedAt::No,
        long_units: false,
        space: true,
        suffix: "",
        allow_negative: false,
    }).ok()
}

/// The size label for an episode, or `None` where it stays hidden: the size
/// is unknown, zero or negative.
pub open spec fn size_label_of(bytes: Option<int>) -> Option<Seq<char>> {
    match bytes {
        Some(b) => if b == 0 {
            None
        } else {
            humansize_label(b)
        },
        None => None,
    }
}

/// The size label for an episode of the given size in bytes.
pub fn size_label(bytes: Option<i32>) -> (label: Option<String>)
    ensures
        opt_text(label) == size_label_of(opt_int(bytes)),
        label is Some <==> (bytes matches Some(b) && b > 0),
{
    match bytes {
        Some(b) => if b == 0 {
            None
        } else {
            file_size_label(b)
        },
        None => None,
    }
}

/// The size that a download announced, as far as it fits the size label.
pub fn announced_size(total_bytes: u64) -> (bytes: Option<i32>)
    ensures
        bytes == (if total_bytes <= i32::MAX {
            Some(total_bytes as i32)
        } else {
            None
        }),
{
    if total_bytes <= 2_147_483_647 {
        Some(total_bytes as i32)
    } else {
        None
    }
}

/// The calendar year, in UTC, of a moment given in seconds since 1970.
pub uninterp spec fn utc_year(epoch: int) -> int;

/// The calendar year of a moment in UTC, read off with
/// `chrono::Utc.timestamp_opt` and `Datelike::year`. Every 32-bit number of
/// seconds is a moment that `timestamp_opt` accepts.
#[verifier::external_body]
fn year_of(epoch: i32) -> (year: i32)
    ensures
        year == utc_year(epoch as int),
{
    chrono::Utc.timestamp_opt(i64::from(epoch), 0).unwrap().year()
}

/// A moment in UTC as `chrono` writes it under a format pattern.
pub uninterp spec fn formatted(epoch: int, pattern: Seq<char>) -> Seq<char>;

/// The pattern for a day with its year.
pub open spec fn day_year_pattern() -> Seq<char> {
    seq!['%', 'e', ' ', '%', 'b', ' ', '%', 'Y']
}

/// The pattern for a day without its year.
pub open spec fn day_pattern() -> Seq<char> {
    seq!['%', 'e', ' ', '%', 'b']
}

/// Writes a moment in UTC with `chrono`'s `format` under one of the two
/// patterns for a day. Other patterns are kept out: `format` fails on a
/// pattern it does not know.
#[verifier::external_body]
fn format_moment(epoch: i32, pattern: &str) -> (text: String)
    requires
        pattern@ == day_year_pattern() || pattern@ == day_pattern(),
    ensures
        text@ == formatted(epoch as int, pattern@),
{
    chrono::Utc.timestamp_opt(i64::from(epoch), 0).unwrap().format(pattern).to_string()
}

/// The date label for a formatted day: the text without the blanks around
/// it (a day of one digit is written with a blank in front).
pub fn day_label(formatted_day: &str) -> (label: String)
    ensures
        label@ == trimmed(formatted_day@),
{
    trim_blanks(formatted_day)
}

/// Whether the date of an episode is written with its year: only when it
/// is not the current one.
pub fn shows_year(epoch_year: i32, current_year: i32) -> (with_year: bool)
    ensures
        with_year == (epoch_year != current_year),
{
    epoch_year != current_year
}

/// The date label of an episode published at `epoch`, read in the year
/// `current_year`.
pub fn date_label(epoch: i32, current_year: i32) -> (label: String)
    ensures
        label@ == trimmed(
            formatted(
                epoch as int,
                if utc_year(epoch as int) != current_year {
                    day_year_pattern()
                } else {
                    day_pattern()
                },
            ),
        ),
{
    proof {
        reveal_strlit("%e %b %Y");
        reveal_strlit("%e %b");
    }
    let pattern = if shows_year(year_of(epoch), current_year) {
        "%e %b %Y"
    } else {
        "%e %b"
    };
    assert("%e %b %Y"@ =~= day_year_pattern());
    assert("%e %b"@ =~= day_pattern());
    let text = format_moment(epoch, pattern);
    day_label(text.as_str())
}

/// Starts the download of an episode when its download button is pressed.
/// Where the manager accepts the task, the views in the background are to
/// be refreshed; where the episode is being downloaded already, nothing
/// happens.
pub fn on_download_clicked(manager: &mut Manager, episode_id: i32) -> (action: Option<Action>)
    ensures
        action is Some == !task_of(old(manager)@, episode_id).active(),
        action matches Some(a) ==> a is RefreshEpisodesViewBGR,
        final(manager)@ == (if action is Some {
            old(manager)@.insert(episode_id, TaskView::Queued)
        } else {
            old(manager)@
        }),
{
    if manager.add(episode_id) {
        Some(Action::RefreshEpisodesViewBGR)
    } else {
        None
    }
}

} // verus!
