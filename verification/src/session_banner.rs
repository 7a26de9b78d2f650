//! The banners in a terminal's scrollback where session sharing starts and ends.

use vstd::prelude::*;

use crate::localization::{text_spec, CatalogBundle, LocaleId};
use crate::text::{extend_str, string_from_chars};

verus! {

/// A calendar day: the year and the day of the year.
#[derive(Clone, Copy, Debug, PartialEq, Eq, Structural)]
pub struct CalendarDay {
    pub year: i32,
    pub ordinal: u32,
}

/// The colour of a banner's border and rules.
#[derive(Clone, Copy, Debug, PartialEq, Eq, Structural)]
pub enum BannerBorder {
    /// The live-session colour, while the session is active.
    Active,
    /// The plain surface colour.
    Inactive,
}

/// What a banner shows: a bold label, the moment, and the border colour.
#[derive(Clone, Debug)]
pub struct SharedSessionBanner {
    pub label: String,
    pub datetime: String,
    pub border: BannerBorder,
}

/// The label of the banner where sharing starts: an ambient agent's
/// environment, a remote-control session, or a shared session.
pub open spec fn started_label_key(is_shared_ambient_agent_session: bool, is_remote_control: bool) -> Seq<char> {
    if is_shared_ambient_agent_session {
        "terminal.shared_session.inline_banner.environment_started"@
    } else if is_remote_control {
        "terminal.shared_session.inline_banner.remote_control_active"@
    } else {
        "terminal.shared_session.inline_banner.sharing_started"@
    }
}

/// The label of the banner where sharing ends.
pub open spec fn ended_label_key(is_shared_ambient_agent_session: bool, is_remote_control: bool) -> Seq<char> {
    if is_shared_ambient_agent_session {
        "terminal.shared_session.inline_banner.environment_ended"@
    } else if is_remote_control {
        "terminal.shared_session.inline_banner.remote_control_stopped"@
    } else {
        "terminal.shared_session.inline_banner.sharing_ended"@
    }
}

/// The moment: `today` (in the user's language) or the month and day,
/// then `, ` and the time of day.
pub open spec fn banner_datetime(
    b: CatalogBundle,
    locale: LocaleId,
    day: CalendarDay,
    today: CalendarDay,
    month_day: Seq<char>,
    time_of_day: Seq<char>,
) -> Seq<char> {
    (if day == today {
        text_spec(b, locale, "terminal.shared_session.inline_banner.today"@)
    } else {
        month_day
    }) + ", "@ + time_of_day
}

/// A banner: the label, the moment (see [`banner_datetime`]), and the
/// border of an active session or a plain one.
pub open spec fn banner_ok(
    b: CatalogBundle,
    locale: LocaleId,
    is_active: bool,
    label_key: Seq<char>,
    day: CalendarDay,
    today: CalendarDay,
    month_day: Seq<char>,
    time_of_day: Seq<char>,
    r: SharedSessionBanner,
) -> bool {
    &&& r.label@ == text_spec(b, locale, label_key)
    &&& r.datetime@ == banner_datetime(b, locale, day, today, month_day, time_of_day)
    &&& r.border == if is_active {
        BannerBorder::Active
    } else {
        BannerBorder::Inactive
    }
}

fn inline_shared_session_banner(
    is_active: bool,
    label_key: &str,
    day: CalendarDay,
    today: CalendarDay,
    month_day: &str,
    time_of_day: &str,
    catalogs: &CatalogBundle,
    locale: LocaleId,
) -> (r: SharedSessionBanner)
    ensures
        banner_ok(*catalogs, locale, is_active, label_key@, day, today, month_day@, time_of_day@, r),
{
    let is_today = day.year == today.year && day.ordinal == today.ordinal;
    let mut dt: Vec<char> = Vec::new();
    if is_today {
        let t = catalogs.text(locale, "terminal.shared_session.inline_banner.today");
        extend_str(&mut dt, t.as_str());
    } else {
        extend_str(&mut dt, month_day);
    }
    extend_str(&mut dt, ", ");
    extend_str(&mut dt, time_of_day);
    SharedSessionBanner {
        label: catalogs.text(locale, label_key),
        datetime: string_from_chars(dt.as_slice()),
        border: if is_active {
            BannerBorder::Active
        } else {
            BannerBorder::Inactive
        },
    }
}

/// The banner where sharing starts at `started_at`; `today` is the current
/// day, and `month_day` and `time_of_day` the moment as the user's locale
/// writes them.
pub fn render_inline_shared_session_started_banner(
    is_active: bool,
    is_shared_ambient_agent_session: bool,
    is_remote_control: bool,
    started_at: CalendarDay,
    today: CalendarDay,
    month_day: &str,
    time_of_day: &str,
    catalogs: &CatalogBundle,
    locale: LocaleId,
) -> (r: SharedSessionBanner)
    ensures
        banner_ok(
            *catalogs,
            locale,
            is_active,
            started_label_key(is_shared_ambient_agent_session, is_remote_control),
            started_at,
            today,
            month_day@,
            time_of_day@,
            r,
        ),
{
    let key = if is_shared_ambient_agent_session {
        "terminal.shared_session.inline_banner.environment_started"
    } else if is_remote_control {
        "terminal.shared_session.inline_banner.remote_control_active"
    } else {
        "terminal.shared_session.inline_banner.sharing_started"
    };
    inline_shared_session_banner(is_active, key, started_at, today, month_day, time_of_day, catalogs, locale)
}

/// The banner where sharing ends at `ended_at`, never in the active colour.
pub fn render_inline_shared_session_ended_banner(
    is_shared_ambient_agent_session: bool,
    is_remote_control: bool,
    ended_at: CalendarDay,
    today: CalendarDay,
    month_day: &str,
    time_of_day: &str,
    catalogs: &CatalogBundle,
    locale: LocaleId,
) -> (r: SharedSessionBanner)
    ensures
        banner_ok(
            *catalogs,
            locale,
            false,
            ended_label_key(is_shared_ambient_agent_session, is_remote_control),
            ended_at,
            today,
            month_day@,
            time_of_day@,
            r,
        ),
{
    let key = if is_shared_ambient_agent_session {
        "terminal.shared_session.inline_banner.environment_ended"
    } else if is_remote_control {
        "terminal.shared_session.inline_banner.remote_control_stopped"
    } else {
        "terminal.shared_session.inline_banner.sharing_ended"
    };
    inline_shared_session_banner(false, key, ended_at, today, month_day, time_of_day, catalogs, locale)
}

} // verus!
