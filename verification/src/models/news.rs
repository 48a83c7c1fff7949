//! News articles: the stored record, the insertable record, the public shape and
//! the transfer shape, with the conversions and listings between them.
use vstd::prelude::*;

use crate::models::{is_uuid_v4_text, listing_limit, new_hash, spec_listing_limit, take_limit, lemma_take_limit_push, text_or_empty};
use crate::time::{utc_now, Timestamp};

verus! {

/// A stored news article.
#[derive(Debug)]
pub struct News {
    pub id: i32,
    pub title: String,
    pub link: String,
    pub pub_date: Timestamp,
    pub image: Option<String>,
    pub image_text: Option<String>,
    pub content: Option<String>,
    pub description: Option<String>,
    pub author: Option<String>,
    pub hash: String,
    pub created_at: Timestamp,
    pub updated_at: Option<Timestamp>,
}

/// A news article ready to be stored; the store gives it its id and creation time.
#[derive(Debug)]
pub struct NewNews {
    pub title: String,
    pub link: String,
    pub pub_date: Timestamp,
    pub image: Option<String>,
    pub image_text: Option<String>,
    pub content: Option<String>,
    pub description: Option<String>,
    pub author: Option<String>,
    pub hash: String,
}

/// A news article as it is shown to clients: the stored record without its id.
#[derive(Debug)]
pub struct PublicNews {
    pub title: String,
    pub link: String,
    pub pub_date: Timestamp,
    pub image: Option<String>,
    pub image_text: Option<String>,
    pub content: Option<String>,
    pub description: Option<String>,
    pub author: Option<String>,
    pub hash: String,
    pub created_at: Timestamp,
    pub updated_at: Option<Timestamp>,
}

/// A news article passed between modules, every field optional.
#[derive(Debug)]
pub struct NewsDTO {
    pub id: Option<i32>,
    pub title: Option<String>,
    pub link: Option<String>,
    pub pub_date: Option<Timestamp>,
    pub image: Option<String>,
    pub image_text: Option<String>,
    pub content: Option<String>,
    pub description: Option<String>,
    pub author: Option<String>,
    pub hash: Option<String>,
    pub created_at: Option<Timestamp>,
    pub updated_at: Option<Timestamp>,
}

pub struct NewsView {
    pub id: i32,
    pub title: Seq<char>,
    pub link: Seq<char>,
    pub pub_date: Timestamp,
    pub image: Option<Seq<char>>,
    pub image_text: Option<Seq<char>>,
    pub content: Option<Seq<char>>,
    pub description: Option<Seq<char>>,
    pub author: Option<Seq<char>>,
    pub hash: Seq<char>,
    pub created_at: Timestamp,
    pub updated_at: Option<Timestamp>,
}

pub struct NewNewsView {
    pub title: Seq<char>,
    pub link: Seq<char>,
    pub pub_date: Timestamp,
    pub image: Option<Seq<char>>,
    pub image_text: Option<Seq<char>>,
    pub content: Option<Seq<char>>,
    pub description: Option<Seq<char>>,
    pub author: Option<Seq<char>>,
    pub hash: Seq<char>,
}

pub struct PublicNewsView {
    pub title: Seq<char>,
    pub link: Seq<char>,
    pub pub_date: Timestamp,
    pub image: Option<Seq<char>>,
    pub image_text: Option<Seq<char>>,
    pub content: Option<Seq<char>>,
    pub description: Option<Seq<char>>,
    pub author: Option<Seq<char>>,
    pub hash: Seq<char>,
    pub created_at: Timestamp,
    pub updated_at: Option<Timestamp>,
}

pub struct NewsDTOView {
    pub id: Option<i32>,
    pub title: Option<Seq<char>>,
    pub link: Option<Seq<char>>,
    pub pub_date: Option<Timestamp>,
    pub image: Option<Seq<char>>,
    pub image_text: Option<Seq<char>>,
    pub content: Option<Seq<char>>,
    pub description: Option<Seq<char>>,
    pub author: Option<Seq<char>>,
    pub hash: Option<Seq<char>>,
    pub created_at: Option<Timestamp>,
    pub updated_at: Option<Timestamp>,
}

impl View for News {
    type V = NewsView;

    open spec fn view(&self) -> NewsView {
        NewsView {
            id: self.id,
            title: self.title@,
            link: self.link@,
            pub_date: self.pub_date,
            image: self.image.deep_view(),
            image_text: self.image_text.deep_view(),
            content: self.content.deep_view(),
            description: self.description.deep_view(),
            author: self.author.deep_view(),
            hash: self.hash@,
            created_at: self.created_at,
            updated_at: self.updated_at,
        }
    }
}

impl DeepView for News {
    type V = NewsView;

    open spec fn deep_view(&self) -> NewsView {
        self@
    }
}

impl View for NewNews {
    type V = NewNewsView;

    open spec fn view(&self) -> NewNewsView {
        NewNewsView {
            title: self.title@,
            link: self.link@,
            pub_date: self.pub_date,
            image: self.image.deep_view(),
            image_text: self.image_text.deep_view(),
            content: self.content.deep_view(),
            description: self.description.deep_view(),
            author: self.author.deep_view(),
            hash: self.hash@,
        }
    }
}

impl View for PublicNews {
    type V = PublicNewsView;

    open spec fn view(&self) -> PublicNewsView {
        PublicNewsView {
            title: self.title@,
            link: self.link@,
            pub_date: self.pub_date,
            image: self.image.deep_view(),
            image_text: self.image_text.deep_view(),
            content: self.content.deep_view(),
            description: self.description.deep_view(),
            author: self.author.deep_view(),
            hash: self.hash@,
            created_at: self.created_at,
            updated_at: self.updated_at,
        }
    }
}

impl DeepView for PublicNews {
    type V = PublicNewsView;

    open spec fn deep_view(&self) -> PublicNewsView {
        self@
    }
}

impl View for NewsDTO {
    type V = NewsDTOView;

    open spec fn view(&self) -> NewsDTOView {
        NewsDTOView {
            id: self.id,
            title: self.title.deep_view(),
            link: self.link.deep_view(),
            pub_date: self.pub_date,
            image: self.image.deep_view(),
            image_text: self.image_text.deep_view(),
            content: self.content.deep_view(),
            description: self.description.deep_view(),
            author: self.author.deep_view(),
            hash: self.hash.deep_view(),
            created_at: self.created_at,
            updated_at: self.updated_at,
        }
    }
}

impl DeepView for NewsDTO {
    type V = NewsDTOView;

    open spec fn deep_view(&self) -> NewsDTOView {
        self@
    }
}

impl NewsView {
    /// The public shape of a stored article.
    pub open spec fn public(self) -> PublicNewsView {
        PublicNewsView {
            title: self.title,
            link: self.link,
            pub_date: self.pub_date,
            image: self.image,
            image_text: self.image_text,
            content: self.content,
            description: self.description,
            author: self.author,
            hash: self.hash,
            created_at: self.created_at,
            updated_at: self.updated_at,
        }
    }
}

impl NewsDTOView {
    /// The insertable article made from a transfer shape, with the identifier `hash` and
    /// `now` standing in for a missing publication date; a missing title or link becomes
    /// empty, the optional texts move over as they are.
    pub open spec fn enriched(self, hash: Seq<char>, now: Timestamp) -> NewNewsView {
        NewNewsView {
            title: text_or_empty(self.title),
            link: text_or_empty(self.link),
            pub_date: match self.pub_date {
                Some(t) => t,
                None => now,
            },
            image: self.image,
            image_text: self.image_text,
            content: self.content,
            description: self.description,
            author: self.author,
            hash: hash,
        }
    }
}

impl vstd::std_specs::convert::FromSpecImpl<News> for PublicNews {
    open spec fn obeys_from_spec() -> bool {
        true
    }

    open spec fn from_spec(news: News) -> PublicNews {
        PublicNews {
            title: news.title,
            link: news.link,
            pub_date: news.pub_date,
            image: news.image,
            image_text: news.image_text,
            content: news.content,
            description: news.description,
            author: news.author,
            hash: news.hash,
            created_at: news.created_at,
            updated_at: news.updated_at,
        }
    }
}

impl From<News> for PublicNews {
    /// Drops the id of a stored article; every other field moves over unchanged.
    fn from(news: News) -> (r: PublicNews) {
        PublicNews {
            title: news.title,
            link: news.link,
            pub_date: news.pub_date,
            image: news.image,
            image_text: news.image_text,
            content: news.content,
            description: news.description,
            author: news.author,
            hash: news.hash,
            created_at: news.created_at,
            updated_at: news.updated_at,
        }
    }
}

fn clone_text(o: &Option<String>) -> (r: Option<String>)
    ensures
        r.deep_view() == o.deep_view(),
{
    match o {
        Some(s) => Some(s.clone()),
        None => None,
    }
}

impl NewNews {
    /// Makes an insertable article of a transfer shape, with the identifier `hash` and
    /// `now` standing in for a missing publication date.
    pub fn enrich(dto: NewsDTO, hash: String, now: Timestamp) -> (r: NewNews)
        ensures
            r@ == dto@.enriched(hash@, now),
            dto.pub_date matches Some(t) ==> r.pub_date == t,
            dto.pub_date is None ==> r.pub_date == now,
            r.hash@ == hash@,
    {
        let title = match dto.title {
            Some(s) => s,
            None => String::new(),
        };
        let link = match dto.link {
            Some(s) => s,
            None => String::new(),
        };
        NewNews {
            title: title,
            link: link,
            pub_date: match dto.pub_date {
                Some(t) => t,
                None => now,
            },
            image: dto.image,
            image_text: dto.image_text,
            content: dto.content,
            description: dto.description,
            author: dto.author,
            hash: hash,
        }
    }

    /// Makes an insertable article of a transfer shape: it gets a fresh identifier (a
    /// random version 4 UUID in hyphenated lower-case form, whatever hash the shape held) and, when it has no publication
    /// date, the current time.
    pub fn from(dto: NewsDTO) -> (r: NewNews)
        ensures
            is_uuid_v4_text(r.hash@),
            dto.pub_date matches Some(t) ==> r.pub_date == t,
            dto.pub_date is Some ==> r@ == dto@.enriched(r.hash@, r.pub_date),
            exists|now: Timestamp| r@ == #[trigger] dto@.enriched(r.hash@, now),
    {
        let hash = new_hash();
        let now = match dto.pub_date {
            Some(t) => t,
            None => utc_now(),
        };
        let r = NewNews::enrich(dto, hash, now);
        assert(r@ == dto@.enriched(r.hash@, now));
        r
    }
}

impl News {
    /// The public shape of this article.
    pub fn to_public(&self) -> (r: PublicNews)
        ensures
            r@ == self@.public(),
            r.title@ == self.title@,
            r.link@ == self.link@,
            r.pub_date == self.pub_date,
            r.image.deep_view() == self.image.deep_view(),
            r.image_text.deep_view() == self.image_text.deep_view(),
            r.content.deep_view() == self.content.deep_view(),
            r.description.deep_view() == self.description.deep_view(),
            r.author.deep_view() == self.author.deep_view(),
            r.hash@ == self.hash@,
            r.created_at == self.created_at,
            r.updated_at == self.updated_at,
    {
        PublicNews {
            title: self.title.clone(),
            link: self.link.clone(),
            pub_date: self.pub_date,
            image: clone_text(&self.image),
            image_text: clone_text(&self.image_text),
            content: clone_text(&self.content),
            description: clone_text(&self.description),
            author: clone_text(&self.author),
            hash: self.hash.clone(),
            created_at: self.created_at,
            updated_at: self.updated_at,
        }
    }

    /// The public shapes of all stored articles, in store order.
    pub fn all_public(rows: &Vec<News>) -> (r: Vec<PublicNews>)
        ensures
            r.deep_view() == rows.deep_view().map_values(|n: NewsView| n.public()),
    {
        let mut out: Vec<PublicNews> = Vec::new();
        for i in 0..rows.len()
            invariant
                out.deep_view() =~= rows.deep_view().take(i as int).map_values(|n: NewsView| n.public()),
        {
            out.push(rows[i].to_public());
            assert(rows.deep_view().take(i + 1) =~= rows.deep_view().take(i as int).push(rows[i as int]@));
            assert(rows.deep_view().take(i + 1).map_values(|n: NewsView| n.public())
                =~= rows.deep_view().take(i as int).map_values(|n: NewsView| n.public()).push(rows[i as int]@.public()));
        }
        assert(rows.deep_view().take(rows.len() as int) =~= rows.deep_view());
        out
    }

    /// The listing of stored articles: the public shapes in store order, at most
    /// `limit_to` of them (ten unless told otherwise; a negative limit sets no bound).
    pub fn filtered_public(rows: &Vec<News>, limit_to: Option<i64>) -> (r: Vec<PublicNews>)
        ensures
            r.deep_view() == take_limit(
                rows.deep_view().map_values(|n: NewsView| n.public()),
                spec_listing_limit(limit_to),
            ),
    {
        let limit = listing_limit(limit_to);
        let mut out: Vec<PublicNews> = Vec::new();
        for i in 0..rows.len()
            invariant
                limit == spec_listing_limit(limit_to),
                out.deep_view() == take_limit(rows.deep_view().take(i as int).map_values(|n: NewsView| n.public()), limit),
        {
            let ghost before = rows.deep_view().take(i as int).map_values(|n: NewsView| n.public());
            assert(rows.deep_view().take(i + 1).map_values(|n: NewsView| n.public())
                =~= before.push(rows[i as int]@.public()));
            proof {
                lemma_take_limit_push(before, rows[i as int]@.public(), limit);
            }
            if limit < 0 || (out.len() as i64) < limit {
                out.push(rows[i].to_public());
            }
            assert(out.deep_view() =~= take_limit(before.push(rows[i as int]@.public()), limit));
        }
        assert(rows.deep_view().take(rows.len() as int) =~= rows.deep_view());
        out
    }

    /// The first stored article with id `id_to_get`.
    pub fn get(rows: &Vec<News>, id_to_get: i32) -> (r: Option<&News>)
        ensures
            r matches Some(n) ==> exists|i: int| 0 <= i < rows.len() && rows[i] == *n && n.id == id_to_get
                && forall|j: int| 0 <= j < i ==> rows[j].id != id_to_get,
            r is None ==> forall|j: int| 0 <= j < rows.len() ==> rows[j].id != id_to_get,
    {
        for i in 0..rows.len()
            invariant
                forall|j: int| 0 <= j < i ==> rows[j].id != id_to_get,
        {
            if rows[i].id == id_to_get {
                return Some(&rows[i]);
            }
        }
        None
    }

    /// The first stored article whose hash is `hash_to_find`.
    pub fn find<'a>(rows: &'a Vec<News>, hash_to_find: &String) -> (r: Option<&'a News>)
        ensures
            r matches Some(n) ==> exists|i: int| 0 <= i < rows.len() && rows[i] == *n && n.hash@ == hash_to_find@
                && forall|j: int| 0 <= j < i ==> rows[j].hash@ != hash_to_find@,
            r is None ==> forall|j: int| 0 <= j < rows.len() ==> rows[j].hash@ != hash_to_find@,
    {
        for i in 0..rows.len()
            invariant
                forall|j: int| 0 <= j < i ==> rows[j].hash@ != hash_to_find@,
        {
            if rows[i].hash == *hash_to_find {
                return Some(&rows[i]);
            }
        }
        None
    }

    /// The public shape of the first stored article whose hash is `hash_to_find`.
    pub fn find_public(rows: &Vec<News>, hash_to_find: &String) -> (r: Option<PublicNews>)
        ensures
            r matches Some(p) ==> exists|i: int| 0 <= i < rows.len() && rows[i]@.public() == p@
                && rows[i].hash@ == hash_to_find@
                && forall|j: int| 0 <= j < i ==> rows[j].hash@ != hash_to_find@,
            r is None ==> forall|j: int| 0 <= j < rows.len() ==> rows[j].hash@ != hash_to_find@,
    {
        match News::find(rows, hash_to_find) {
            Some(n) => Some(n.to_public()),
            None => None,
        }
    }
}

/// A listing of news holds the public shapes of stored articles in store order, no more
/// of them than the limit (ten unless told otherwise) when it is not negative.
pub proof fn lemma_news_listing(rows: Seq<NewsView>, limit_to: Option<i64>)
    ensures
        ({
            let all = rows.map_values(|n: NewsView| n.public());
            let listed = take_limit(all, spec_listing_limit(limit_to));
            &&& listed.len() <= rows.len()
            &&& spec_listing_limit(limit_to) >= 0 ==> listed.len() <= spec_listing_limit(limit_to)
            &&& forall|i: int| 0 <= i < listed.len() ==> #[trigger] listed[i] == rows[i].public()
        }),
{
}

/// An insertable article depends only on the data fields of its transfer shape: the
/// shape's own id, hash and times play no part.
pub proof fn lemma_news_enrich_ignores_identity(d1: NewsDTOView, d2: NewsDTOView, hash: Seq<char>, now: Timestamp)
    requires
        d1.title == d2.title,
        d1.link == d2.link,
        d1.pub_date == d2.pub_date,
        d1.image == d2.image,
        d1.image_text == d2.image_text,
        d1.content == d2.content,
        d1.description == d2.description,
        d1.author == d2.author,
    ensures
        d1.enriched(hash, now) == d2.enriched(hash, now),
{
}

/// The public shape of a stored article is the article without its id: every other field,
/// its publication date and its creation time among them, is the article's own.
pub proof fn lemma_public_news_fields(n: NewsView)
    ensures
        n.public().title == n.title,
        n.public().link == n.link,
        n.public().pub_date == n.pub_date,
        n.public().image == n.image,
        n.public().image_text == n.image_text,
        n.public().content == n.content,
        n.public().description == n.description,
        n.public().author == n.author,
        n.public().hash == n.hash,
        n.public().created_at == n.created_at,
        n.public().updated_at == n.updated_at,
{
}

/// Two stored articles have the same public shape exactly when they agree on everything
/// but their ids: the public shape forgets the id and nothing else.
pub proof fn lemma_public_news_forgets_only_id(n: NewsView, m: NewsView)
    ensures
        n.public() == m.public() <==> (n == NewsView { id: n.id, ..m }),
{
    if n.public() == m.public() {
        lemma_public_news_fields(n);
        lemma_public_news_fields(m);
    }
}

/// An insertable article is published when its transfer shape says, and only when the
/// shape has no publication date at `now`.
pub proof fn lemma_news_enrich_pub_date(d: NewsDTOView, hash: Seq<char>, now: Timestamp)
    ensures
        d.pub_date matches Some(t) ==> d.enriched(hash, now).pub_date == t,
        d.pub_date is None ==> d.enriched(hash, now).pub_date == now,
        d.enriched(hash, now).hash == hash,
{
}

} // verus!
