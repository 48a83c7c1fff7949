use hltvapi::models::fixture::{Fixture, FixtureDTO, NewFixture, PublicFixture};
use hltvapi::models::news::{News, NewNews, NewsDTO, PublicNews};
use hltvapi::time::Timestamp;

fn fixture(id: i32, hash: &str, top_tier: bool) -> Fixture {
    Fixture {
        id,
        name: format!("event {}", id),
        link: "/m".to_string(),
        team1: "A".to_string(),
        team2: "B".to_string(),
        start_time: Timestamp { secs: 100, nanos: 5 },
        rating: 3,
        meta: "bo3".to_string(),
        analytics: "/an".to_string(),
        top_tier,
        hash: hash.to_string(),
        created_at: Timestamp { secs: 1, nanos: 0 },
        updated_at: Some(Timestamp { secs: 2, nanos: 0 }),
    }
}

fn news(id: i32, hash: &str) -> News {
    News {
        id,
        title: format!("title {}", id),
        link: "/n".to_string(),
        pub_date: Timestamp { secs: 3, nanos: 0 },
        image: None,
        image_text: None,
        content: None,
        description: Some("d".to_string()),
        author: None,
        hash: hash.to_string(),
        created_at: Timestamp { secs: 1, nanos: 0 },
        updated_at: None,
    }
}

#[test]
fn public_fixture_keeps_fields() {
    let p = PublicFixture::from(fixture(4, "h4", true));
    assert_eq!(p.name, "event 4");
    assert_eq!(p.hash, "h4");
    assert_eq!(p.start_time, Timestamp { secs: 100, nanos: 5 });
    assert_eq!(p.updated_at, Some(Timestamp { secs: 2, nanos: 0 }));
    assert!(p.top_tier);
}

#[test]
fn fixture_round_trip_keeps_data() {
    let dto = FixtureDTO::from(fixture(4, "h4", true));
    assert_eq!(dto.id, None);
    assert_eq!(dto.hash.as_deref(), Some("h4"));
    let n = NewFixture::enrich(dto, "fresh".to_string(), Timestamp { secs: 9, nanos: 9 });
    assert_eq!(n.name, "event 4");
    assert_eq!(n.start_time, Timestamp { secs: 100, nanos: 5 });
    assert_eq!(n.rating, 3);
    assert!(n.top_tier);
    assert_eq!(n.hash, "fresh");
}

fn empty_fixture_dto() -> FixtureDTO {
    FixtureDTO {
        id: None,
        name: None,
        link: None,
        team1: None,
        team2: None,
        start_time: None,
        rating: None,
        meta: None,
        analytics: None,
        top_tier: None,
        hash: Some("ignored".to_string()),
        created_at: None,
        updated_at: None,
    }
}

#[test]
fn enrich_fills_defaults() {
    let n = NewFixture::enrich(empty_fixture_dto(), "h".to_string(), Timestamp { secs: 9, nanos: 1 });
    assert_eq!(n.name, "");
    assert_eq!(n.rating, 0);
    assert!(!n.top_tier);
    assert_eq!(n.start_time, Timestamp { secs: 9, nanos: 1 });
    assert_eq!(n.hash, "h");
}

#[test]
fn new_fixture_gets_fresh_uuid() {
    let a = NewFixture::from(empty_fixture_dto());
    let b = NewFixture::from(empty_fixture_dto());
    assert_eq!(a.hash.len(), 36);
    assert_ne!(a.hash, "ignored");
    assert_ne!(a.hash, b.hash);
    assert!(a.start_time.secs > 1_600_000_000);
}

#[test]
fn fresh_uuid_is_hyphenated_lowercase_v4() {
    let hash = NewFixture::from(empty_fixture_dto()).hash;
    let chars: Vec<char> = hash.chars().collect();
    assert_eq!(chars.len(), 36);
    for (i, c) in chars.iter().enumerate() {
        if i == 8 || i == 13 || i == 18 || i == 23 {
            assert_eq!(*c, '-');
        } else {
            assert!(c.is_ascii_digit() || ('a'..='f').contains(c));
        }
    }
    assert_eq!(chars[14], '4');
    assert!(['8', '9', 'a', 'b'].contains(&chars[19]));
}

#[test]
fn default_fixture_listing_is_top_tier_and_ten() {
    let rows: Vec<Fixture> = (0..25).map(|i| fixture(i, "h", i % 2 == 0)).collect();
    let listed = Fixture::filtered_public(&rows, None, None);
    assert_eq!(listed.len(), 10);
    assert!(listed.iter().all(|p| p.top_tier));
    assert_eq!(listed[1].name, "event 2");
}

#[test]
fn fixture_listing_parameters() {
    let rows: Vec<Fixture> = (0..6).map(|i| fixture(i, "h", i < 2)).collect();
    let others = Fixture::filtered_public(&rows, Some(3), Some(false));
    assert_eq!(others.iter().map(|p| p.name.as_str()).collect::<Vec<_>>(), vec!["event 2", "event 3", "event 4"]);
    assert_eq!(Fixture::filtered_public(&rows, Some(-1), Some(false)).len(), 4);
    assert_eq!(Fixture::filtered_public(&rows, Some(0), None).len(), 0);
    assert_eq!(Fixture::all_public(&rows).len(), 6);
}

#[test]
fn fixture_lookups() {
    let rows = vec![fixture(1, "a", true), fixture(2, "b", true), fixture(3, "b", false)];
    assert_eq!(Fixture::get(&rows, 3).unwrap().hash, "b");
    assert!(Fixture::get(&rows, 9).is_none());
    assert_eq!(Fixture::find(&rows, &"b".to_string()).unwrap().id, 2);
    assert_eq!(Fixture::find_public(&rows, &"b".to_string()).unwrap().name, "event 2");
    assert!(Fixture::find_public(&rows, &"z".to_string()).is_none());
}

#[test]
fn news_listing_and_lookups() {
    let rows: Vec<News> = (0..15).map(|i| news(i, if i == 4 { "x" } else { "y" })).collect();
    assert_eq!(News::filtered_public(&rows, None).len(), 10);
    assert_eq!(News::filtered_public(&rows, Some(2))[1].title, "title 1");
    assert_eq!(News::filtered_public(&rows, Some(-5)).len(), 15);
    assert_eq!(News::all_public(&rows).len(), 15);
    assert_eq!(News::find_public(&rows, &"x".to_string()).unwrap().title, "title 4");
    assert_eq!(News::get(&rows, 7).unwrap().title, "title 7");
    assert!(News::find(&rows, &"q".to_string()).is_none());
}

#[test]
fn public_news_keeps_fields() {
    let p = PublicNews::from(news(3, "k"));
    assert_eq!(p.title, "title 3");
    assert_eq!(p.hash, "k");
    assert_eq!(p.description.as_deref(), Some("d"));
}

#[test]
fn new_news_enrichment() {
    let dto = NewsDTO {
        id: Some(1),
        title: None,
        link: Some("/n".to_string()),
        pub_date: None,
        image: Some("i".to_string()),
        image_text: None,
        content: None,
        description: None,
        author: Some("w".to_string()),
        hash: None,
        created_at: None,
        updated_at: None,
    };
    let n = NewNews::from(dto);
    assert_eq!(n.title, "");
    assert_eq!(n.link, "/n");
    assert_eq!(n.image.as_deref(), Some("i"));
    assert_eq!(n.author.as_deref(), Some("w"));
    assert_eq!(n.hash.len(), 36);
}
