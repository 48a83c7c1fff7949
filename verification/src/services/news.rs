//! News: what an article page holds, the article made of it, the links of the news
//! index, and the RSS feed of stored articles.
use rss::{Channel, Enclosure, Guid, Image, Item};
use vstd::prelude::*;

use crate::html::{select_attr, select_inner_html, select_outer_html, selected_attr, selected_inner_html, selected_outer_html};
use crate::models::news::{News, NewsDTO, NewsDTOView, NewsView};
use crate::text::{parse_i64, decimal_i64, remove_all, remove_pattern};
use crate::time::{Timestamp, datetime_text, naive_datetime_text, now_rfc2822, rfc2822_text, utc_timestamp_exists, spec_from_millis, timestamp_from_millis, utc_millis_in_range};

verus! {

/// What the markup of an article page holds, query by query. The queries after the
/// first three look inside the page's first article and find nothing when it has none.
pub struct NewsPage {
    /// Outer markup of each `article.newsitem` of the page.
    pub articles: Vec<String>,
    /// The `content` attribute of each `meta[property="og:url"]` of the page.
    pub og_urls: Vec<Option<String>>,
    /// Inner markup of each `a.authorName>span` of the page.
    pub authors: Vec<String>,
    /// Inner markup of each `h1.headline`.
    pub titles: Vec<String>,
    /// The `data-unix` attribute of each `div.date`.
    pub date_stamps: Vec<Option<String>>,
    /// The `src` attribute of each `div.image-con>img.image`.
    pub images: Vec<Option<String>>,
    /// Outer markup of each `div.imagetext`.
    pub image_texts: Vec<String>,
    /// Outer markup of each `div.newstext-con>p.news-block`.
    pub blocks: Vec<String>,
    /// Inner markup of each `p.headertext`.
    pub descriptions: Vec<String>,
}

pub struct NewsPageView {
    pub articles: Seq<Seq<char>>,
    pub og_urls: Seq<Option<Seq<char>>>,
    pub authors: Seq<Seq<char>>,
    pub titles: Seq<Seq<char>>,
    pub date_stamps: Seq<Option<Seq<char>>>,
    pub images: Seq<Option<Seq<char>>>,
    pub image_texts: Seq<Seq<char>>,
    pub blocks: Seq<Seq<char>>,
    pub descriptions: Seq<Seq<char>>,
}

impl View for NewsPage {
    type V = NewsPageView;

    open spec fn view(&self) -> NewsPageView {
        NewsPageView {
            articles: self.articles.deep_view(),
            og_urls: self.og_urls.deep_view(),
            authors: self.authors.deep_view(),
            titles: self.titles.deep_view(),
            date_stamps: self.date_stamps.deep_view(),
            images: self.images.deep_view(),
            image_texts: self.image_texts.deep_view(),
            blocks: self.blocks.deep_view(),
            descriptions: self.descriptions.deep_view(),
        }
    }
}

/// What the article page with markup `html` holds.
pub open spec fn page_of(html: Seq<char>) -> NewsPageView {
    let articles = selected_outer_html(html, "article.newsitem"@);
    let article = articles[0];
    let found = articles.len() > 0;
    NewsPageView {
        articles: articles,
        og_urls: selected_attr(html, "meta[property=\"og:url\"]"@, "content"@),
        authors: selected_inner_html(html, "a.authorName>span"@),
        titles: if found { selected_inner_html(article, "h1.headline"@) } else { Seq::empty() },
        date_stamps: if found { selected_attr(article, "div.date"@, "data-unix"@) } else { Seq::empty() },
        images: if found { selected_attr(article, "div.image-con>img.image"@, "src"@) } else { Seq::empty() },
        image_texts: if found { selected_outer_html(article, "div.imagetext"@) } else { Seq::empty() },
        blocks: if found { selected_outer_html(article, "div.newstext-con>p.news-block"@) } else { Seq::empty() },
        descriptions: if found { selected_inner_html(article, "p.headertext"@) } else { Seq::empty() },
    }
}

/// The first of `found`, or `fallback` when there is none.
pub open spec fn first_or(found: Seq<Seq<char>>, fallback: Seq<char>) -> Seq<char> {
    if found.len() > 0 {
        found[0]
    } else {
        fallback
    }
}

/// The texts of `parts` one after the other.
pub open spec fn joined(parts: Seq<Seq<char>>) -> Seq<char>
    decreases parts.len(),
{
    if parts.len() == 0 {
        Seq::empty()
    } else {
        joined(parts.drop_last()) + parts.last()
    }
}

impl NewsPageView {
    /// The publication time the article gives, in milliseconds since the epoch.
    pub open spec fn date_millis(self) -> Option<i64> {
        if self.date_stamps.len() > 0 && self.date_stamps[0] is Some {
            decimal_i64(self.date_stamps[0]->0)
        } else {
            None
        }
    }

    /// The page has an article that lacks something an article record cannot be made
    /// without: a readable publication time, the address in a page link that is there,
    /// or the source of an image that is there.
    pub open spec fn is_malformed(self) -> bool {
        self.articles.len() > 0 && (
            (self.og_urls.len() > 0 && self.og_urls[0] is None)
            || self.date_millis() is None
            || !utc_millis_in_range(self.date_millis()->0)
            || (self.images.len() > 0 && self.images[0] is None)
        )
    }
}

/// The article a well-formed page describes: none when the page has no article.
/// Missing parts read "<TITLE>", "<LINK>", "<AUTHOR>", "<IMAGE>", "<IMAGE TEXT>" and
/// "<DESCRIPTION>"; the link is the page address with the site's address taken out;
/// the content is all content blocks, one after the other.
pub open spec fn news_of(page: NewsPageView) -> Option<NewsDTOView> {
    if page.articles.len() == 0 {
        None
    } else {
        Some(NewsDTOView {
            id: None,
            title: Some(first_or(page.titles, "<TITLE>"@)),
            link: Some(if page.og_urls.len() > 0 {
                remove_all(page.og_urls[0]->0, "https://www.hltv.org"@)
            } else {
                "<LINK>"@
            }),
            pub_date: Some(spec_from_millis(page.date_millis()->0)),
            image: Some(if page.images.len() > 0 { page.images[0]->0 } else { "<IMAGE>"@ }),
            image_text: Some(first_or(page.image_texts, "<IMAGE TEXT>"@)),
            content: Some(joined(page.blocks)),
            description: Some(first_or(page.descriptions, "<DESCRIPTION>"@)),
            author: Some(first_or(page.authors, "<AUTHOR>"@)),
            hash: None,
            created_at: None,
            updated_at: None,
        })
    }
}

fn first_or_text(found: &Vec<String>, fallback: &str) -> (r: String)
    ensures
        r@ == first_or(found.deep_view(), fallback@),
{
    if found.len() > 0 {
        found[0].clone()
    } else {
        String::from_str(fallback)
    }
}

fn join_texts(parts: &Vec<String>) -> (r: String)
    ensures
        r@ == joined(parts.deep_view()),
{
    let mut out = String::new();
    for i in 0..parts.len()
        invariant
            out@ == joined(parts.deep_view().take(i as int)),
    {
        out.append(parts[i].as_str());
        assert(parts.deep_view().take(i + 1).drop_last() =~= parts.deep_view().take(i as int));
    }
    assert(parts.deep_view().take(parts.len() as int) =~= parts.deep_view());
    out
}

impl NewsPage {
    /// Reads what the article page with markup `html` holds.
    pub fn read(html: &str) -> (r: NewsPage)
        ensures
            r@ == page_of(html@),
    {
        let articles = select_outer_html(html, "article.newsitem");
        let og_urls = select_attr(html, "meta[property=\"og:url\"]", "content");
        let authors = select_inner_html(html, "a.authorName>span");
        if articles.len() == 0 {
            let r = NewsPage {
                articles: articles,
                og_urls: og_urls,
                authors: authors,
                titles: Vec::new(),
                date_stamps: Vec::new(),
                images: Vec::new(),
                image_texts: Vec::new(),
                blocks: Vec::new(),
                descriptions: Vec::new(),
            };
            assert(r@.titles =~= page_of(html@).titles);
            assert(r@.date_stamps =~= page_of(html@).date_stamps);
            assert(r@.images =~= page_of(html@).images);
            assert(r@.image_texts =~= page_of(html@).image_texts);
            assert(r@.blocks =~= page_of(html@).blocks);
            assert(r@.descriptions =~= page_of(html@).descriptions);
            return r;
        }
        let article = articles[0].as_str();
        NewsPage {
            titles: select_inner_html(article, "h1.headline"),
            date_stamps: select_attr(article, "div.date", "data-unix"),
            images: select_attr(article, "div.image-con>img.image", "src"),
            image_texts: select_outer_html(article, "div.imagetext"),
            blocks: select_outer_html(article, "div.newstext-con>p.news-block"),
            descriptions: select_inner_html(article, "p.headertext"),
            articles: articles,
            og_urls: og_urls,
            authors: authors,
        }
    }

    /// Whether the page's article lacks something an article record cannot be made without.
    pub fn is_malformed(&self) -> (r: bool)
        ensures
            r == self@.is_malformed(),
    {
        if self.articles.len() == 0 {
            return false;
        }
        if self.og_urls.len() > 0 && self.og_urls[0].is_none() {
            return true;
        }
        if self.date_stamps.len() == 0 {
            return true;
        }
        match &self.date_stamps[0] {
            None => {
                return true;
            },
            Some(stamp) => match parse_i64(stamp.as_str()) {
                None => {
                    return true;
                },
                Some(millis) => {
                    if timestamp_from_millis(millis).is_none() {
                        return true;
                    }
                },
            },
        }
        self.images.len() > 0 && self.images[0].is_none()
    }
}

/// Makes the article that a well-formed page describes.
pub fn assemble_news(page: &NewsPage) -> (r: Option<NewsDTO>)
    requires
        !page@.is_malformed(),
    ensures
        r.deep_view() == news_of(page@),
{
    if page.articles.len() == 0 {
        return None;
    }
    let title = first_or_text(&page.titles, "<TITLE>");
    let link = if page.og_urls.len() > 0 {
        let address = page.og_urls[0].as_ref().unwrap();
        remove_pattern(address.as_str(), "https://www.hltv.org")
    } else {
        String::from_str("<LINK>")
    };
    let stamp = page.date_stamps[0].as_ref().unwrap();
    let millis = parse_i64(stamp.as_str()).unwrap();
    let pub_date = timestamp_from_millis(millis).unwrap();
    let author = first_or_text(&page.authors, "<AUTHOR>");
    let image = if page.images.len() > 0 {
        page.images[0].as_ref().unwrap().clone()
    } else {
        String::from_str("<IMAGE>")
    };
    let image_text = first_or_text(&page.image_texts, "<IMAGE TEXT>");
    let content = join_texts(&page.blocks);
    let description = first_or_text(&page.descriptions, "<DESCRIPTION>");
    let r = NewsDTO {
        id: None,
        title: Some(title),
        link: Some(link),
        pub_date: Some(pub_date),
        image: Some(image),
        image_text: Some(image_text),
        content: Some(content),
        description: Some(description),
        author: Some(author),
        hash: None,
        created_at: None,
        updated_at: None,
    };
    assert(r.deep_view() == news_of(page@).unwrap());
    Some(r)
}

/// Makes the article that the page with markup `html_content` describes.
pub fn build_news(html_content: String) -> (r: Option<NewsDTO>)
    requires
        !page_of(html_content@).is_malformed(),
    ensures
        r.deep_view() == news_of(page_of(html_content@)),
{
    let page = NewsPage::read(html_content.as_str());
    assemble_news(&page)
}

/// Makes the article that the page with markup `html_content` describes, when the page
/// is well-formed (the outer option is absent otherwise).
pub fn try_build_news(html_content: String) -> (r: Option<Option<NewsDTO>>)
    ensures
        r is None <==> page_of(html_content@).is_malformed(),
        r matches Some(n) ==> n.deep_view() == news_of(page_of(html_content@)),
{
    let page = NewsPage::read(html_content.as_str());
    if page.is_malformed() {
        None
    } else {
        Some(build_news(html_content))
    }
}

/// How many article links the news index yields at most.
pub open spec fn max_links() -> int {
    5
}

/// The article addresses of the news index whose `a.newsline` links carry `hrefs`:
/// those of the first five links.
pub open spec fn links_of(hrefs: Seq<Option<Seq<char>>>) -> Seq<Seq<char>> {
    let n = if hrefs.len() < max_links() { hrefs.len() as int } else { max_links() };
    hrefs.take(n).map_values(|h: Option<Seq<char>>| h->0)
}

/// One of the first five links of the news index carries no address.
pub open spec fn links_malformed(hrefs: Seq<Option<Seq<char>>>) -> bool {
    exists|i: int| 0 <= i < hrefs.len() && i < max_links() && #[trigger] hrefs[i] is None
}

/// The article addresses on the news index page with markup `page_html`: those of its
/// first five `a.newsline` links; none when one of them carries no address.
pub fn news_links(page_html: &str) -> (r: Option<Vec<String>>)
    ensures
        r is None <==> links_malformed(selected_attr(page_html@, "a.newsline"@, "href"@)),
        r matches Some(v) ==> v.deep_view() == links_of(selected_attr(page_html@, "a.newsline"@, "href"@)),
{
    let hrefs = select_attr(page_html, "a.newsline", "href");
    let ghost all = hrefs.deep_view();
    let mut url_list: Vec<String> = Vec::new();
    let mut i: usize = 0;
    while i < hrefs.len()
        invariant_except_break
            all == hrefs.deep_view(),
            all == selected_attr(page_html@, "a.newsline"@, "href"@),
            i <= hrefs.len(),
            i < max_links(),
            url_list.len() == i,
            forall|k: int| 0 <= k < i ==> !(#[trigger] all[k] is None),
            url_list.deep_view() == all.take(i as int).map_values(|h: Option<Seq<char>>| h->0),
        ensures
            all == hrefs.deep_view(),
            i <= hrefs.len(),
            i <= max_links(),
            i == hrefs.len() || i == max_links(),
            forall|k: int| 0 <= k < i ==> !(#[trigger] all[k] is None),
            url_list.deep_view() == all.take(i as int).map_values(|h: Option<Seq<char>>| h->0),
        decreases hrefs.len() - i,
    {
        match &hrefs[i] {
            None => {
                assert(selected_attr(page_html@, "a.newsline"@, "href"@)[i as int] is None);
                assert(links_malformed(selected_attr(page_html@, "a.newsline"@, "href"@)));
                return None;
            },
            Some(link) => {
                url_list.push(link.clone());
            },
        }
        assert(all.take(i + 1).map_values(|h: Option<Seq<char>>| h->0)
            =~= all.take(i as int).map_values(|h: Option<Seq<char>>| h->0).push(all[i as int]->0));
        i = i + 1;
        if url_list.len() >= 5 {
            break;
        }
    }
    assert(url_list.deep_view() =~= links_of(all));
    Some(url_list)
}

/// An item of the news feed, field by field as RSS has it.
pub struct FeedItem {
    pub title: Option<String>,
    pub link: Option<String>,
    pub description: Option<String>,
    pub author: Option<String>,
    pub guid: String,
    /// Whether the identifier is a permanent address of the item.
    pub guid_is_permalink: bool,
    pub image: String,
    pub image_type: String,
    pub pub_date: Option<String>,
    pub content: Option<String>,
}

/// The news feed: its heading and its items.
pub struct FeedChannel {
    pub title: String,
    pub link: String,
    pub description: String,
    pub image_url: String,
    pub image_title: String,
    pub last_build_date: String,
    pub items: Vec<FeedItem>,
}

pub struct FeedItemView {
    pub title: Option<Seq<char>>,
    pub link: Option<Seq<char>>,
    pub description: Option<Seq<char>>,
    pub author: Option<Seq<char>>,
    pub guid: Seq<char>,
    pub guid_is_permalink: bool,
    pub image: Seq<char>,
    pub image_type: Seq<char>,
    pub pub_date: Option<Seq<char>>,
    pub content: Option<Seq<char>>,
}

pub struct FeedChannelView {
    pub title: Seq<char>,
    pub link: Seq<char>,
    pub description: Seq<char>,
    pub image_url: Seq<char>,
    pub image_title: Seq<char>,
    pub last_build_date: Seq<char>,
    pub items: Seq<FeedItemView>,
}

impl View for FeedItem {
    type V = FeedItemView;

    open spec fn view(&self) -> FeedItemView {
        FeedItemView {
            title: self.title.deep_view(),
            link: self.link.deep_view(),
            description: self.description.deep_view(),
            author: self.author.deep_view(),
            guid: self.guid@,
            guid_is_permalink: self.guid_is_permalink,
            image: self.image@,
            image_type: self.image_type@,
            pub_date: self.pub_date.deep_view(),
            content: self.content.deep_view(),
        }
    }
}

impl DeepView for FeedItem {
    type V = FeedItemView;

    open spec fn deep_view(&self) -> FeedItemView {
        self@
    }
}

impl View for FeedChannel {
    type V = FeedChannelView;

    open spec fn view(&self) -> FeedChannelView {
        FeedChannelView {
            title: self.title@,
            link: self.link@,
            description: self.description@,
            image_url: self.image_url@,
            image_title: self.image_title@,
            last_build_date: self.last_build_date@,
            items: self.items.deep_view(),
        }
    }
}

/// The feed item of a stored article whose image is known: titled by the article, linking
/// to `base_url` followed by the article's link, identified by its hash (marked as a
/// permanent address), with its image as a JPEG enclosure and `pub_date` as its
/// publication date.
pub open spec fn feed_item_of(n: NewsView, base_url: Seq<char>, pub_date: Seq<char>) -> FeedItemView {
    FeedItemView {
        title: Some(n.title),
        link: Some(base_url + n.link),
        description: n.description,
        author: n.author,
        guid: n.hash,
        guid_is_permalink: true,
        image: n.image->0,
        image_type: "image/jpeg"@,
        pub_date: Some(pub_date),
        content: n.content,
    }
}

/// The publication date of a stored article can be written.
pub open spec fn date_writable(n: NewsView) -> bool {
    utc_timestamp_exists(n.pub_date.secs, n.pub_date.nanos)
}

/// How the publication date of a stored article is written.
pub open spec fn date_text_of(n: NewsView) -> Seq<char> {
    naive_datetime_text(n.pub_date.secs, n.pub_date.nanos)
}

/// The feed items of the stored articles, in order.
pub open spec fn feed_items_of(news: Seq<NewsView>, base_url: Seq<char>) -> Seq<FeedItemView> {
    news.map_values(|n: NewsView| feed_item_of(n, base_url, date_text_of(n)))
}

/// The news feed of the stored articles, published at `last_build_date`.
pub open spec fn channel_of(news: Seq<NewsView>, base_url: Seq<char>, last_build_date: Seq<char>) -> FeedChannelView {
    FeedChannelView {
        title: "Unofficial hltv.org News"@,
        link: base_url,
        description: "An unofficial hltv.org RSS news-feed."@,
        image_url: "https://hltvapi.f4b.io/logo.png"@,
        image_title: "hltvapi logo"@,
        last_build_date: last_build_date,
        items: feed_items_of(news, base_url),
    }
}

/// Calls mime's `IMAGE_JPEG` and its `Display`. Claimed: the text is "image/jpeg", as
/// mime's source spells it.
#[verifier::external_body]
fn image_jpeg() -> (r: String)
    ensures
        r@ == "image/jpeg"@,
{
    mime::IMAGE_JPEG.to_string()
}

/// Makes the feed item of a stored article whose image is known, published at `pub_date`.
pub fn feed_item(n: &News, app_base_url: &str, pub_date: String) -> (r: FeedItem)
    requires
        n.image is Some,
    ensures
        r@ == feed_item_of(n@, app_base_url@, pub_date@),
        r.title.deep_view() == Some(n.title@),
        r.link.deep_view() == Some(app_base_url@ + n.link@),
        r.description.deep_view() == n.description.deep_view(),
        r.author.deep_view() == n.author.deep_view(),
        r.content.deep_view() == n.content.deep_view(),
        r.guid@ == n.hash@,
        r.image@ == n.image.deep_view()->0,
        r.pub_date.deep_view() == Some(pub_date@),
{
    let mut link = String::from_str(app_base_url);
    link.append(n.link.as_str());
    FeedItem {
        title: Some(n.title.clone()),
        link: Some(link),
        description: clone_text(&n.description),
        author: clone_text(&n.author),
        guid: n.hash.clone(),
        guid_is_permalink: true,
        image: n.image.as_ref().unwrap().clone(),
        image_type: image_jpeg(),
        pub_date: Some(pub_date),
        content: clone_text(&n.content),
    }
}

fn clone_text(o: &Option<String>) -> (r: Option<String>)
    ensures
        r.deep_view() == o.deep_view(),
{
    match o {
        Some(s) => Some(s.clone()),
        None => None,
    }
}

/// Makes the news feed of the stored articles, all of which have an image, published at
/// `last_build_date`; none when a publication date cannot be written.
pub fn news_channel(news: &Vec<News>, app_base_url: &str, last_build_date: String) -> (r: Option<FeedChannel>)
    requires
        forall|i: int| 0 <= i < news.len() ==> (#[trigger] news[i]).image is Some,
    ensures
        r is None <==> exists|i: int| 0 <= i < news.len() && !date_writable(#[trigger] news[i]@),
        r matches Some(c) ==> c@ == channel_of(news.deep_view(), app_base_url@, last_build_date@),
        r matches Some(c) ==> c.items.len() == news.len() && forall|i: int| 0 <= i < news.len() ==>
            (#[trigger] c.items[i]).description.deep_view() == news[i].description.deep_view(),
{
    let mut items: Vec<FeedItem> = Vec::new();
    for i in 0..news.len()
        invariant
            forall|k: int| 0 <= k < news.len() ==> (#[trigger] news[k]).image is Some,
            forall|k: int| 0 <= k < i ==> date_writable(#[trigger] news[k]@),
            items.deep_view() =~= feed_items_of(news.deep_view().take(i as int), app_base_url@),
    {
        let pub_date = match datetime_text(news[i].pub_date) {
            Some(text) => text,
            None => {
                assert(!date_writable(news[i as int]@));
                return None;
            },
        };
        items.push(feed_item(&news[i], app_base_url, pub_date));
        assert(feed_items_of(news.deep_view().take(i + 1), app_base_url@)
            =~= feed_items_of(news.deep_view().take(i as int), app_base_url@).push(
                feed_item_of(news[i as int]@, app_base_url@, date_text_of(news[i as int]@))));
    }
    assert(news.deep_view().take(news.len() as int) =~= news.deep_view());
    proof {
        lemma_feed_items_carry_articles(news.deep_view(), app_base_url@, last_build_date@);
        assert(items.deep_view().len() == items.len());
        assert forall|i: int| 0 <= i < news.len() implies
            (#[trigger] items[i]).description.deep_view() == news[i].description.deep_view() by {
            assert(items.deep_view()[i] == items[i]@);
            assert(news.deep_view()[i] == news[i]@);
        }
    }
    Some(FeedChannel {
        title: String::from_str("Unofficial hltv.org News"),
        link: String::from_str(app_base_url),
        description: String::from_str("An unofficial hltv.org RSS news-feed."),
        image_url: String::from_str("https://hltvapi.f4b.io/logo.png"),
        image_title: String::from_str("hltvapi logo"),
        last_build_date: last_build_date,
        items: items,
    })
}

/// The RSS text of a news feed.
pub uninterp spec fn rss_text(channel: FeedChannelView) -> Seq<char>;

/// Calls rss's `Channel`, `Item`, `Guid`, `Enclosure` and `Image`, the channel's `Display`,
/// and `SyndicationExtension::default()`, the syndication extension that every feed carries.
/// Claimed: the text is a function of the feed alone (named above).
#[verifier::external_body]
fn render_feed(channel: FeedChannel) -> (r: String)
    ensures
        r@ == rss_text(channel@),
{
    let mut items = Vec::new();
    for it in channel.items {
        items.push(Item { title: it.title, link: it.link, description: it.description, author: it.author,
            guid: Some(Guid { value: it.guid, permalink: it.guid_is_permalink }),
            enclosure: Some(Enclosure { url: it.image, mime_type: it.image_type, ..Default::default() }),
            pub_date: it.pub_date, content: it.content, ..Default::default() });
    }
    Channel { title: channel.title, link: channel.link, description: channel.description,
        image: Some(Image { url: channel.image_url, title: channel.image_title, ..Default::default() }),
        syndication_ext: Some(Default::default()), last_build_date: Some(channel.last_build_date), items,
        ..Default::default() }.to_string()
}

/// The RSS text of the news feed of the stored articles, all of which have an image, built
/// now (its build date is the RFC 2822 text of a reading of the clock); none when a publication date cannot be written.
pub fn news_feed(news: &Vec<News>, app_base_url: &str) -> (r: Option<String>)
    requires
        forall|i: int| 0 <= i < news.len() ==> (#[trigger] news[i]).image is Some,
    ensures
        r is None <==> exists|i: int| 0 <= i < news.len() && !date_writable(#[trigger] news[i]@),
        r matches Some(text) ==> exists|built: Timestamp|
            text@ == rss_text(#[trigger] channel_of(news.deep_view(), app_base_url@, rfc2822_text(built.secs, built.nanos))),
{
    let last_build_date = now_rfc2822();
    let ghost built = choose|t: Timestamp| last_build_date@ == #[trigger] rfc2822_text(t.secs, t.nanos);
    match news_channel(news, app_base_url, last_build_date) {
        Some(channel) => {
            let text = render_feed(channel);
            assert(text@ == rss_text(channel_of(news.deep_view(), app_base_url@, rfc2822_text(built.secs, built.nanos))));
            Some(text)
        },
        None => None,
    }
}

/// The news index yields at most five article addresses, those of its first links in order.
pub proof fn lemma_links_bounded(hrefs: Seq<Option<Seq<char>>>)
    ensures
        links_of(hrefs).len() <= max_links(),
        links_of(hrefs).len() <= hrefs.len(),
        !links_malformed(hrefs) ==> forall|i: int| 0 <= i < links_of(hrefs).len() ==>
            Some(#[trigger] links_of(hrefs)[i]) == hrefs[i],
{
}

/// The news feed has one item per stored article, in order, and each item carries its
/// article: the article's title, its link behind the feed's base address, its description,
/// author and content unchanged, its hash as a permanent identifier, its image as a JPEG
/// enclosure and its written publication date.
pub proof fn lemma_feed_items_carry_articles(news: Seq<NewsView>, base_url: Seq<char>, last_build_date: Seq<char>)
    ensures
        channel_of(news, base_url, last_build_date).items.len() == news.len(),
        channel_of(news, base_url, last_build_date).link == base_url,
        channel_of(news, base_url, last_build_date).last_build_date == last_build_date,
        forall|i: int| 0 <= i < news.len() ==> {
            let item = #[trigger] channel_of(news, base_url, last_build_date).items[i];
            &&& item.title == Some(news[i].title)
            &&& item.link == Some(base_url + news[i].link)
            &&& item.description == news[i].description
            &&& item.author == news[i].author
            &&& item.content == news[i].content
            &&& item.guid == news[i].hash
            &&& item.guid_is_permalink
            &&& item.image == news[i].image->0
            &&& item.image_type == "image/jpeg"@
            &&& item.pub_date == Some(date_text_of(news[i]))
        },
{
}

} // verus!
