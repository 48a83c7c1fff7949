use hltvapi::models::fixture::Fixture;
use hltvapi::services::fixtures::{
    build_fixture, fixture_calendar, fixture_event, fixtures_from_page, rating_stars, try_build_fixture,
    FixtureCard,
};
use hltvapi::time::Timestamp;

const CARD: &str = "<div class=\"upcomingMatch\">\
<a href=\"/matches/2347119/liquid-vs-nip-esl-pro-league-season-14\" class=\"match a-reset\">\
<div class=\"matchTime\" data-unix=\"1630512000000\">18:00</div>\
<div class=\"matchRating\"><i class=\"fa fa-star\"></i><i class=\"fa fa-star\"></i>\
<i class=\"fa fa-star faded\"></i><i class=\"fa fa-star faded\"></i><i class=\"fa fa-star faded\"></i></div>\
<div class=\"matchMeta\">bo3</div>\
<div class=\"matchTeamName\">Liquid</div><div class=\"matchTeamName\">NIP</div>\
<div class=\"matchEventName\">ESL Pro League Season 14</div>\
</a>\
<a href=\"/betting/analytics/2347119/liquid-vs-nip\" class=\"matchAnalytics\">Analytics</a>\
</div>";

const LIVE_CARD: &str = "<div class=\"upcomingMatch\"><a href=\"/matches/1/a-vs-b\" class=\"match\">\
<div class=\"matchTime\">LIVE</div>\
<div class=\"matchRating\"><i class=\"faded\"></i><i class=\"faded\"></i><i class=\"faded\"></i>\
<i class=\"faded\"></i><i class=\"faded\"></i></div>\
<div class=\"matchMeta\">bo1</div><div class=\"matchTeamName\">A</div>\
<div class=\"matchEventName\">Cup</div></a>\
<a href=\"/betting/analytics/1\" class=\"matchAnalytics\">x</a></div>";

const EMPTY_CARD: &str =
    "<div class=\"upcomingMatch\"><div class=\"matchInfoEmpty\">No match</div></div>";

const NAMELESS_CARD: &str = "<div class=\"upcomingMatch\"><div class=\"matchTime\" data-unix=\"1\">x</div>\
<div class=\"matchRating\"></div></div>";

fn page(cards: &[&str]) -> String {
    format!("<html><body>{}</body></html>", cards.concat())
}

#[test]
fn test_build_fixture() {
    let fixture = build_fixture(CARD).unwrap();
    assert_eq!(fixture.name.unwrap(), "ESL Pro League Season 14");
}

#[test]
fn build_fixture_reads_every_field() {
    let f = build_fixture(CARD).unwrap();
    assert_eq!(f.team1.unwrap(), "Liquid");
    assert_eq!(f.team2.unwrap(), "NIP");
    assert_eq!(f.rating, Some(2));
    assert_eq!(f.meta.unwrap(), "bo3");
    assert_eq!(f.link.unwrap(), "/matches/2347119/liquid-vs-nip-esl-pro-league-season-14");
    assert_eq!(f.analytics.unwrap(), "/betting/analytics/2347119/liquid-vs-nip");
    assert_eq!(f.start_time, Some(Timestamp { secs: 1630512000, nanos: 0 }));
    assert_eq!(f.top_tier, Some(false));
    assert!(f.hash.is_none() && f.id.is_none());
}

#[test]
fn live_card_starts_now_and_misses_team() {
    let f = build_fixture(LIVE_CARD).unwrap();
    assert_eq!(f.team1.unwrap(), "A");
    assert_eq!(f.team2.unwrap(), "TBD");
    assert_eq!(f.rating, Some(0));
    assert!(f.start_time.unwrap().secs > 1_600_000_000);
}

#[test]
fn empty_card_gives_no_fixture() {
    assert!(build_fixture(EMPTY_CARD).is_none());
    assert!(!FixtureCard::read(EMPTY_CARD).is_malformed());
}

#[test]
fn card_without_name_is_malformed() {
    assert!(FixtureCard::read(NAMELESS_CARD).is_malformed());
}

#[test]
fn card_with_six_faded_stars_is_malformed() {
    let card = CARD.replace(
        "<div class=\"matchRating\">",
        "<div class=\"matchRating\"><i class=\"faded\"></i><i class=\"faded\"></i><i class=\"faded\"></i>",
    );
    assert!(FixtureCard::read(&card).is_malformed());
}

#[test]
fn trying_cards() {
    let built = try_build_fixture(CARD).unwrap().unwrap();
    assert_eq!(built.name.as_deref(), Some("ESL Pro League Season 14"));
    assert_eq!(built.start_time, Some(Timestamp { secs: 1_630_512_000, nanos: 0 }));
    assert!(try_build_fixture(NAMELESS_CARD).is_none());
    assert!(try_build_fixture(EMPTY_CARD).unwrap().is_none());
}

#[test]
fn card_without_meta_gives_no_fixture() {
    let card = CARD.replace("<div class=\"matchMeta\">bo3</div>", "");
    assert!(!FixtureCard::read(&card).is_malformed());
    assert!(build_fixture(&card).is_none());
}

#[test]
fn page_yields_fixtures_in_order() {
    let fixtures = fixtures_from_page(&page(&[CARD, EMPTY_CARD, LIVE_CARD])).unwrap();
    assert_eq!(fixtures.len(), 2);
    assert_eq!(fixtures[0].name.as_deref(), Some("ESL Pro League Season 14"));
    assert_eq!(fixtures[1].name.as_deref(), Some("Cup"));
}

#[test]
fn page_with_malformed_card_yields_nothing() {
    assert!(fixtures_from_page(&page(&[CARD, NAMELESS_CARD])).is_none());
    assert_eq!(fixtures_from_page("<html></html>").unwrap().len(), 0);
}

#[test]
fn stars_are_drawn() {
    assert_eq!(rating_stars(3), "\u{2605}\u{2605}\u{2605}\u{2606}\u{2606}");
    assert_eq!(rating_stars(0), "\u{2606}\u{2606}\u{2606}\u{2606}\u{2606}");
    assert_eq!(rating_stars(-2), "\u{2606}\u{2606}\u{2606}\u{2606}\u{2606}");
    assert_eq!(rating_stars(9), "\u{2605}\u{2605}\u{2605}\u{2605}\u{2605}");
}

fn sample_fixture(secs: i64) -> Fixture {
    Fixture {
        id: 1,
        name: "ESL Pro League Season 14".to_string(),
        link: "/matches/1/a-vs-b".to_string(),
        team1: "Liquid".to_string(),
        team2: "NIP".to_string(),
        start_time: Timestamp { secs, nanos: 0 },
        rating: 2,
        meta: "bo3".to_string(),
        analytics: "/betting/analytics/1".to_string(),
        top_tier: true,
        hash: "abc".to_string(),
        created_at: Timestamp { secs: 0, nanos: 0 },
        updated_at: None,
    }
}

#[test]
fn calendar_event_texts() {
    let e = fixture_event(&sample_fixture(1000));
    assert_eq!(e.uid, "abc");
    assert_eq!(e.summary, "ESL Pro League Season 14 - Liquid vs. NIP (bo3)");
    assert_eq!(
        e.description,
        "rating: \u{2605}\u{2605}\u{2606}\u{2606}\u{2606} (2/5)\nlink: https://www.hltv.org/matches/1/a-vs-b\nanalytics: /betting/analytics/1\n"
    );
    assert_eq!(e.starts, Timestamp { secs: 1000, nanos: 0 });
    assert_eq!(e.ends, Timestamp { secs: 8200, nanos: 0 });
}

#[test]
fn calendar_holds_every_fixture() {
    let text = fixture_calendar(&vec![sample_fixture(1_630_512_000)]).unwrap();
    assert!(text.contains("BEGIN:VCALENDAR"));
    assert!(text.contains("UID:abc"));
    assert!(text.contains("SUMMARY:ESL Pro League Season 14 - Liquid vs. NIP (bo3)"));
    assert!(text.contains("DTSTART:20210901T160000"));
    assert!(text.contains("DTEND:20210901T180000"));
}

#[test]
fn calendar_lists_each_fixture_once_in_order() {
    let mut second = sample_fixture(1_630_600_000);
    second.hash = String::from("def");
    let text = fixture_calendar(&vec![sample_fixture(1_630_512_000), second]).unwrap();
    assert_eq!(text.matches("BEGIN:VEVENT").count(), 2);
    assert_eq!(text.matches("DTSTAMP:").count(), 2);
    let first_uid = text.find("UID:abc").unwrap();
    let second_uid = text.find("UID:def").unwrap();
    assert!(first_uid < second_uid);
    assert_eq!(fixture_calendar(&vec![]).unwrap().matches("BEGIN:VEVENT").count(), 0);
}

#[test]
fn leap_second_start_ends_past_the_leap() {
    let mut f = sample_fixture(1_630_511_999);
    f.start_time.nanos = 1_500_000_000;
    let e = fixture_event(&f);
    assert_eq!(e.starts, Timestamp { secs: 1_630_511_999, nanos: 1_500_000_000 });
    assert_eq!(e.ends, Timestamp { secs: 1_630_519_199, nanos: 500_000_000 });
    let text = fixture_calendar(&vec![f]).unwrap();
    assert!(text.contains("DTEND:20210901T175959"));
}

#[test]
fn calendar_refuses_unbounded_end() {
    assert!(fixture_calendar(&vec![sample_fixture(i64::MAX - 10)]).is_none());
}
