use warp_app::localization::{Catalog, CatalogBundle, LocaleId};
use warp_app::session_banner::{
    render_inline_shared_session_ended_banner, render_inline_shared_session_started_banner,
    BannerBorder, CalendarDay,
};

fn catalogs() -> CatalogBundle {
    let en = [
        ("terminal.shared_session.inline_banner.sharing_started", "Sharing started"),
        ("terminal.shared_session.inline_banner.sharing_ended", "Sharing ended"),
        ("terminal.shared_session.inline_banner.environment_started", "Environment started"),
        ("terminal.shared_session.inline_banner.remote_control_stopped", "Remote control stopped"),
        ("terminal.shared_session.inline_banner.today", "Today"),
    ];
    let zh = [
        ("terminal.shared_session.inline_banner.sharing_started", "已开始共享"),
        ("terminal.shared_session.inline_banner.today", "今天"),
    ];
    CatalogBundle {
        default_locale: LocaleId::EnUs,
        catalogs: vec![
            Catalog {
                locale: LocaleId::EnUs,
                entries: en.iter().map(|(k, v)| (k.to_string(), v.to_string())).collect(),
            },
            Catalog {
                locale: LocaleId::ZhCn,
                entries: zh.iter().map(|(k, v)| (k.to_string(), v.to_string())).collect(),
            },
        ],
    }
}

const TODAY: CalendarDay = CalendarDay { year: 2025, ordinal: 100 };

#[test]
fn started_banner_today_is_active() {
    let banner = render_inline_shared_session_started_banner(
        true, false, false, TODAY, TODAY, "Apr 10", "3:04 PM", &catalogs(), LocaleId::ZhCn,
    );
    assert_eq!(banner.label, "已开始共享");
    assert_eq!(banner.datetime, "今天, 3:04 PM");
    assert_eq!(banner.border, BannerBorder::Active);
}

#[test]
fn started_banner_on_another_day_shows_the_date() {
    let banner = render_inline_shared_session_started_banner(
        false,
        true,
        true,
        CalendarDay { year: 2024, ordinal: 100 },
        TODAY,
        "Apr 9",
        "9:00 AM",
        &catalogs(),
        LocaleId::EnUs,
    );
    assert_eq!(banner.label, "Environment started");
    assert_eq!(banner.datetime, "Apr 9, 9:00 AM");
    assert_eq!(banner.border, BannerBorder::Inactive);
}

#[test]
fn ended_banner_is_never_active() {
    let banner = render_inline_shared_session_ended_banner(
        false, true, TODAY, TODAY, "Apr 10", "5:00 PM", &catalogs(), LocaleId::EnUs,
    );
    assert_eq!(banner.label, "Remote control stopped");
    assert_eq!(banner.datetime, "Today, 5:00 PM");
    assert_eq!(banner.border, BannerBorder::Inactive);
    let plain = render_inline_shared_session_ended_banner(
        false, false, TODAY, TODAY, "Apr 10", "5:00 PM", &catalogs(), LocaleId::ZhCn,
    );
    assert_eq!(plain.label, "Sharing ended");
}
