use hltvapi::models::news::News;
use hltvapi::services::news::{build_news, news_channel, news_feed, news_links, try_build_news, NewsPage};
use hltvapi::time::Timestamp;

const PAGE: &str = "<html><head>\
<meta property=\"og:url\" content=\"https://www.hltv.org/news/32373/elige-shines-as-liquid-hammer-nip-in-esl-pro-league-opener\">\
</head><body><article class=\"newsitem\">\
<h1 class=\"headline\">EliGE shines as Liquid hammer NIP in ESL Pro League opener</h1>\
<p class=\"headertext\">Liquid cruised.</p>\
<div class=\"date\" data-unix=\"1630516800000\">1/9</div>\
<div class=\"image-con\"><img class=\"image\" src=\"https://img.example/x.jpg\"></div>\
<div class=\"imagetext\">Photo</div>\
<div class=\"newstext-con\"><p class=\"news-block\">First.</p><p class=\"news-block\">Second.</p></div>\
<a class=\"authorName\"><span>Writer</span></a>\
</article></body></html>";

#[test]
fn test_build_news() {
    let item = build_news(PAGE.to_string());
    assert_eq!(
        item.unwrap().title.unwrap(),
        "EliGE shines as Liquid hammer NIP in ESL Pro League opener"
    );
}

#[test]
fn build_news_reads_every_field() {
    let n = build_news(PAGE.to_string()).unwrap();
    assert_eq!(
        n.link.unwrap(),
        "/news/32373/elige-shines-as-liquid-hammer-nip-in-esl-pro-league-opener"
    );
    assert_eq!(n.pub_date, Some(Timestamp { secs: 1630516800, nanos: 0 }));
    assert_eq!(n.image.unwrap(), "https://img.example/x.jpg");
    assert_eq!(n.image_text.unwrap(), "<div class=\"imagetext\">Photo</div>");
    assert_eq!(
        n.content.unwrap(),
        "<p class=\"news-block\">First.</p><p class=\"news-block\">Second.</p>"
    );
    assert_eq!(n.description.unwrap(), "Liquid cruised.");
    assert_eq!(n.author.unwrap(), "Writer");
    assert!(n.hash.is_none());
}

#[test]
fn relative_page_address_stays() {
    let page = PAGE.replace("https://www.hltv.org/news/32373", "/news/32373");
    let n = build_news(page).unwrap();
    assert_eq!(
        n.link.unwrap(),
        "/news/32373/elige-shines-as-liquid-hammer-nip-in-esl-pro-league-opener"
    );
}

#[test]
fn missing_parts_get_placeholders() {
    let page = "<html><body><article class=\"newsitem\"><div class=\"date\" data-unix=\"0\"></div></article></body></html>";
    let n = build_news(page.to_string()).unwrap();
    assert_eq!(n.title.unwrap(), "<TITLE>");
    assert_eq!(n.link.unwrap(), "<LINK>");
    assert_eq!(n.author.unwrap(), "<AUTHOR>");
    assert_eq!(n.image.unwrap(), "<IMAGE>");
    assert_eq!(n.image_text.unwrap(), "<IMAGE TEXT>");
    assert_eq!(n.description.unwrap(), "<DESCRIPTION>");
    assert_eq!(n.content.unwrap(), "");
    assert_eq!(n.pub_date, Some(Timestamp { secs: 0, nanos: 0 }));
}

#[test]
fn page_without_article_gives_nothing() {
    assert!(build_news("<html><body><p>nothing</p></body></html>".to_string()).is_none());
}

#[test]
fn article_without_date_is_malformed() {
    let page = PAGE.replace(" data-unix=\"1630516800000\"", "");
    assert!(NewsPage::read(&page).is_malformed());
    assert!(try_build_news(page).is_none());
    let unreadable = PAGE.replace("1630516800000", "soon");
    assert!(try_build_news(unreadable).is_none());
}

#[test]
fn well_formed_page_is_built_when_tried() {
    let n = try_build_news(PAGE.to_string()).unwrap().unwrap();
    assert_eq!(n.author.unwrap(), "Writer");
}

fn index(hrefs: &[Option<&str>]) -> String {
    let links: Vec<String> = hrefs
        .iter()
        .map(|h| match h {
            Some(h) => format!("<a class=\"newsline\" href=\"{}\">x</a>", h),
            None => "<a class=\"newsline\">x</a>".to_string(),
        })
        .collect();
    format!("<html><body>{}</body></html>", links.concat())
}

#[test]
fn index_yields_first_five_links() {
    let page = index(&[Some("/a"), Some("/b"), Some("/c"), Some("/d"), Some("/e"), Some("/f")]);
    assert_eq!(news_links(&page).unwrap(), vec!["/a", "/b", "/c", "/d", "/e"]);
    let short = index(&[Some("/a"), Some("/b")]);
    assert_eq!(news_links(&short).unwrap(), vec!["/a", "/b"]);
}

#[test]
fn index_link_without_address() {
    assert!(news_links(&index(&[Some("/a"), None])).is_none());
    let late = index(&[Some("/a"), Some("/b"), Some("/c"), Some("/d"), Some("/e"), None]);
    assert_eq!(news_links(&late).unwrap().len(), 5);
}

fn stored_news() -> News {
    News {
        id: 7,
        title: "Title".to_string(),
        link: "/news/1/x".to_string(),
        pub_date: Timestamp { secs: 0, nanos: 0 },
        image: Some("https://img.example/x.jpg".to_string()),
        image_text: None,
        content: Some("<p>c</p>".to_string()),
        description: Some("d".to_string()),
        author: Some("w".to_string()),
        hash: "h-1".to_string(),
        created_at: Timestamp { secs: 0, nanos: 0 },
        updated_at: None,
    }
}

#[test]
fn feed_items_of_stored_news() {
    let channel = news_channel(&vec![stored_news()], "https://base", "now".to_string()).unwrap();
    assert_eq!(channel.title, "Unofficial hltv.org News");
    assert_eq!(channel.link, "https://base");
    assert_eq!(channel.image_url, "https://hltvapi.f4b.io/logo.png");
    assert_eq!(channel.items.len(), 1);
    let item = &channel.items[0];
    assert_eq!(item.link.as_deref(), Some("https://base/news/1/x"));
    assert_eq!(item.title.as_deref(), Some("Title"));
    assert_eq!(item.guid, "h-1");
    assert!(item.guid_is_permalink);
    assert_eq!(item.image_type, "image/jpeg");
    assert_eq!(item.pub_date.as_deref(), Some("1970-01-01 00:00:00"));
}

#[test]
fn feed_text_holds_items() {
    let text = news_feed(&vec![stored_news()], "https://base").unwrap();
    assert!(text.contains("<title>Unofficial hltv.org News</title>"));
    assert!(text.contains("<link>https://base/news/1/x</link>"));
    assert!(text.contains("<guid>h-1</guid>"));
    assert!(!text.contains("isPermaLink"));
    assert!(text.contains("image/jpeg"));
}

#[test]
fn feed_refuses_unwritable_date() {
    let mut n = stored_news();
    n.pub_date = Timestamp { secs: i64::MAX, nanos: 0 };
    assert!(news_feed(&vec![n], "https://base").is_none());
}

fn dated_page(stamp: &str) -> String {
    format!(
        "<html><body><article class=\"newsitem\"><div class=\"date\" data-unix=\"{}\"></div></article></body></html>",
        stamp
    )
}

#[test]
fn publication_times_from_milliseconds() {
    let n = build_news(dated_page("1500")).unwrap();
    assert_eq!(n.pub_date, Some(Timestamp { secs: 1, nanos: 500_000_000 }));
    let n = build_news(dated_page("-1")).unwrap();
    assert_eq!(n.pub_date, Some(Timestamp { secs: -1, nanos: 999_000_000 }));
    assert!(try_build_news(dated_page("9223372036854775807")).is_none());
    assert!(try_build_news(dated_page("12.5")).is_none());
}

#[test]
fn feed_writes_fractional_dates() {
    let mut n = stored_news();
    n.pub_date = Timestamp { secs: 1630512000, nanos: 500_000_000 };
    let channel = news_channel(&vec![n], "https://base", "now".to_string()).unwrap();
    assert_eq!(channel.items[0].pub_date.as_deref(), Some("2021-09-01 16:00:00.500"));
    assert_eq!(channel.last_build_date, "now");
}
