//! Match fixtures: the stored record, the insertable record, the public shape and
//! the transfer shape, with the conversions and listings between them.
use vstd::prelude::*;

use crate::models::{is_uuid_v4_text, listing_limit, new_hash, spec_listing_limit, take_limit, lemma_take_limit_push, text_or_empty};
use crate::time::{utc_now, Timestamp};

verus! {

/// A stored fixture.
#[derive(Debug)]
pub struct Fixture {
    pub id: i32,
    pub name: String,
    pub link: String,
    pub team1: String,
    pub team2: String,
    pub start_time: Timestamp,
    pub rating: i32,
    pub meta: String,
    pub analytics: String,
    pub top_tier: bool,
    pub hash: String,
    pub created_at: Timestamp,
    pub updated_at: Option<Timestamp>,
}

/// A fixture ready to be stored; the store gives it its id and creation time.
#[derive(Debug)]
pub struct NewFixture {
    pub name: String,
    pub link: String,
    pub team1: String,
    pub team2: String,
    pub start_time: Timestamp,
    pub rating: i32,
    pub meta: String,
    pub analytics: String,
    pub top_tier: bool,
    pub hash: String,
}

/// A fixture as it is shown to clients: the stored record without its id.
#[derive(Debug)]
pub struct PublicFixture {
    pub name: String,
    pub link: String,
    pub team1: String,
    pub team2: String,
    pub start_time: Timestamp,
    pub rating: i32,
    pub meta: String,
    pub analytics: String,
    pub top_tier: bool,
    pub hash: String,
    pub created_at: Timestamp,
    pub updated_at: Option<Timestamp>,
}

/// A fixture passed between modules, every field optional.
#[derive(Debug)]
pub struct FixtureDTO {
    pub id: Option<i32>,
    pub name: Option<String>,
    pub link: Option<String>,
    pub team1: Option<String>,
    pub team2: Option<String>,
    pub start_time: Option<Timestamp>,
    pub rating: Option<i32>,
    pub meta: Option<String>,
    pub analytics: Option<String>,
    pub top_tier: Option<bool>,
    pub hash: Option<String>,
    pub created_at: Option<Timestamp>,
    pub updated_at: Option<Timestamp>,
}

pub struct FixtureView {
    pub id: i32,
    pub name: Seq<char>,
    pub link: Seq<char>,
    pub team1: Seq<char>,
    pub team2: Seq<char>,
    pub start_time: Timestamp,
    pub rating: i32,
    pub meta: Seq<char>,
    pub analytics: Seq<char>,
    pub top_tier: bool,
    pub hash: Seq<char>,
    pub created_at: Timestamp,
    pub updated_at: Option<Timestamp>,
}

pub struct NewFixtureView {
    pub name: Seq<char>,
    pub link: Seq<char>,
    pub team1: Seq<char>,
    pub team2: Seq<char>,
    pub start_time: Timestamp,
    pub rating: i32,
    pub meta: Seq<char>,
    pub analytics: Seq<char>,
    pub top_tier: bool,
    pub hash: Seq<char>,
}

pub struct PublicFixtureView {
    pub name: Seq<char>,
    pub link: Seq<char>,
    pub team1: Seq<char>,
    pub team2: Seq<char>,
    pub start_time: Timestamp,
    pub rating: i32,
    pub meta: Seq<char>,
    pub analytics: Seq<char>,
    pub top_tier: bool,
    pub hash: Seq<char>,
    pub created_at: Timestamp,
    pub updated_at: Option<Timestamp>,
}

pub struct FixtureDTOView {
    pub id: Option<i32>,
    pub name: Option<Seq<char>>,
    pub link: Option<Seq<char>>,
    pub team1: Option<Seq<char>>,
    pub team2: Option<Seq<char>>,
    pub start_time: Option<Timestamp>,
    pub rating: Option<i32>,
    pub meta: Option<Seq<char>>,
    pub analytics: Option<Seq<char>>,
    pub top_tier: Option<bool>,
    pub hash: Option<Seq<char>>,
    pub created_at: Option<Timestamp>,
    pub updated_at: Option<Timestamp>,
}

impl View for Fixture {
    type V = FixtureView;

    open spec fn view(&self) -> FixtureView {
        FixtureView {
            id: self.id,
            name: self.name@,
            link: self.link@,
            team1: self.team1@,
            team2: self.team2@,
            start_time: self.start_time,
            rating: self.rating,
            meta: self.meta@,
            analytics: self.analytics@,
            top_tier: self.top_tier,
            hash: self.hash@,
            created_at: self.created_at,
            updated_at: self.updated_at,
        }
    }
}

impl DeepView for Fixture {
    type V = FixtureView;

    open spec fn deep_view(&self) -> FixtureView {
        self@
    }
}

impl View for NewFixture {
    type V = NewFixtureView;

    open spec fn view(&self) -> NewFixtureView {
        NewFixtureView {
            name: self.name@,
            link: self.link@,
            team1: self.team1@,
            team2: self.team2@,
            start_time: self.start_time,
            rating: self.rating,
            meta: self.meta@,
            analytics: self.analytics@,
            top_tier: self.top_tier,
            hash: self.hash@,
        }
    }
}

impl View for PublicFixture {
    type V = PublicFixtureView;

    open spec fn view(&self) -> PublicFixtureView {
        PublicFixtureView {
            name: self.name@,
            link: self.link@,
            team1: self.team1@,
            team2: self.team2@,
            start_time: self.start_time,
            rating: self.rating,
            meta: self.meta@,
            analytics: self.analytics@,
            top_tier: self.top_tier,
            hash: self.hash@,
            created_at: self.created_at,
            updated_at: self.updated_at,
        }
    }
}

impl DeepView for PublicFixture {
    type V = PublicFixtureView;

    open spec fn deep_view(&self) -> PublicFixtureView {
        self@
    }
}

impl View for FixtureDTO {
    type V = FixtureDTOView;

    open spec fn view(&self) -> FixtureDTOView {
        FixtureDTOView {
            id: self.id,
            name: self.name.deep_view(),
            link: self.link.deep_view(),
            team1: self.team1.deep_view(),
            team2: self.team2.deep_view(),
            start_time: self.start_time,
            rating: self.rating,
            meta: self.meta.deep_view(),
            analytics: self.analytics.deep_view(),
            top_tier: self.top_tier,
            hash: self.hash.deep_view(),
            created_at: self.created_at,
            updated_at: self.updated_at,
        }
    }
}

impl DeepView for FixtureDTO {
    type V = FixtureDTOView;

    open spec fn deep_view(&self) -> FixtureDTOView {
        self@
    }
}

fn string_or_empty(o: Option<String>) -> (r: String)
    ensures
        r@ == text_or_empty(o.deep_view()),
{
    match o {
        Some(s) => s,
        None => String::new(),
    }
}

impl FixtureView {
    /// The public shape of a stored fixture.
    pub open spec fn public(self) -> PublicFixtureView {
        PublicFixtureView {
            name: self.name,
            link: self.link,
            team1: self.team1,
            team2: self.team2,
            start_time: self.start_time,
            rating: self.rating,
            meta: self.meta,
            analytics: self.analytics,
            top_tier: self.top_tier,
            hash: self.hash,
            created_at: self.created_at,
            updated_at: self.updated_at,
        }
    }

    /// The transfer shape of a stored fixture whose update time is known.
    pub open spec fn dto(self) -> FixtureDTOView {
        FixtureDTOView {
            id: None,
            name: Some(self.name),
            link: Some(self.link),
            team1: Some(self.team1),
            team2: Some(self.team2),
            start_time: Some(self.start_time),
            rating: Some(self.rating),
            meta: Some(self.meta),
            analytics: Some(self.analytics),
            top_tier: Some(self.top_tier),
            hash: Some(self.hash),
            created_at: Some(self.created_at),
            updated_at: self.updated_at,
        }
    }
}

impl FixtureDTOView {
    /// The insertable fixture made from a transfer shape, with the identifier `hash` and
    /// `now` standing in for a missing start time; missing texts and numbers become
    /// empty, zero or false.
    pub open spec fn enriched(self, hash: Seq<char>, now: Timestamp) -> NewFixtureView {
        NewFixtureView {
            name: text_or_empty(self.name),
            link: text_or_empty(self.link),
            team1: text_or_empty(self.team1),
            team2: text_or_empty(self.team2),
            start_time: match self.start_time {
                Some(t) => t,
                None => now,
            },
            rating: match self.rating {
                Some(r) => r,
                None => 0,
            },
            meta: text_or_empty(self.meta),
            analytics: text_or_empty(self.analytics),
            top_tier: match self.top_tier {
                Some(b) => b,
                None => false,
            },
            hash: hash,
        }
    }
}

/// The public shapes of the fixtures in `rows` whose top-tier flag is `top_tier`, in order.
pub open spec fn public_of_tier(rows: Seq<FixtureView>, top_tier: bool) -> Seq<PublicFixtureView>
    decreases rows.len(),
{
    if rows.len() == 0 {
        Seq::empty()
    } else {
        let earlier = public_of_tier(rows.drop_last(), top_tier);
        if rows.last().top_tier == top_tier {
            earlier.push(rows.last().public())
        } else {
            earlier
        }
    }
}

/// The top-tier flag a listing filters on: the one asked for, else top tier.
pub open spec fn spec_listing_tier(is_top_tier: Option<bool>) -> bool {
    match is_top_tier {
        Some(b) => b,
        None => true,
    }
}

impl vstd::std_specs::convert::FromSpecImpl<Fixture> for PublicFixture {
    open spec fn obeys_from_spec() -> bool {
        true
    }

    open spec fn from_spec(fixture: Fixture) -> PublicFixture {
        PublicFixture {
            name: fixture.name,
            link: fixture.link,
            team1: fixture.team1,
            team2: fixture.team2,
            start_time: fixture.start_time,
            rating: fixture.rating,
            meta: fixture.meta,
            analytics: fixture.analytics,
            top_tier: fixture.top_tier,
            hash: fixture.hash,
            created_at: fixture.created_at,
            updated_at: fixture.updated_at,
        }
    }
}

impl From<Fixture> for PublicFixture {
    /// Drops the id of a stored fixture; every other field moves over unchanged.
    fn from(fixture: Fixture) -> (r: PublicFixture) {
        PublicFixture {
            name: fixture.name,
            link: fixture.link,
            team1: fixture.team1,
            team2: fixture.team2,
            start_time: fixture.start_time,
            rating: fixture.rating,
            meta: fixture.meta,
            analytics: fixture.analytics,
            top_tier: fixture.top_tier,
            hash: fixture.hash,
            created_at: fixture.created_at,
            updated_at: fixture.updated_at,
        }
    }
}

impl FixtureDTO {
    /// The transfer shape of a stored fixture; the id is left out. The fixture must
    /// have an update time.
    pub fn from(fixture: Fixture) -> (r: FixtureDTO)
        requires
            fixture.updated_at is Some,
        ensures
            r@ == fixture@.dto(),
    {
        let updated = fixture.updated_at.unwrap();
        FixtureDTO {
            id: None,
            name: Some(fixture.name),
            link: Some(fixture.link),
            team1: Some(fixture.team1),
            team2: Some(fixture.team2),
            start_time: Some(fixture.start_time),
            rating: Some(fixture.rating),
            meta: Some(fixture.meta),
            analytics: Some(fixture.analytics),
            top_tier: Some(fixture.top_tier),
            hash: Some(fixture.hash),
            created_at: Some(fixture.created_at),
            updated_at: Some(updated),
        }
    }
}

impl NewFixture {
    /// Makes an insertable fixture of a transfer shape, with the identifier `hash` and
    /// `now` standing in for a missing start time.
    pub fn enrich(dto: FixtureDTO, hash: String, now: Timestamp) -> (r: NewFixture)
        ensures
            r@ == dto@.enriched(hash@, now),
            dto.start_time matches Some(t) ==> r.start_time == t,
            dto.start_time is None ==> r.start_time == now,
            r.hash@ == hash@,
    {
        NewFixture {
            name: string_or_empty(dto.name),
            link: string_or_empty(dto.link),
            team1: string_or_empty(dto.team1),
            team2: string_or_empty(dto.team2),
            start_time: match dto.start_time {
                Some(t) => t,
                None => now,
            },
            rating: match dto.rating {
                Some(r) => r,
                None => 0,
            },
            meta: string_or_empty(dto.meta),
            analytics: string_or_empty(dto.analytics),
            top_tier: match dto.top_tier {
                Some(b) => b,
                None => false,
            },
            hash: hash,
        }
    }

    /// Makes an insertable fixture of a transfer shape: it gets a fresh identifier (a
    /// random version 4 UUID in hyphenated lower-case form, whatever hash the shape held) and, when it has no start time,
    /// the current time.
    pub fn from(dto: FixtureDTO) -> (r: NewFixture)
        ensures
            is_uuid_v4_text(r.hash@),
            dto.start_time matches Some(t) ==> r.start_time == t,
            dto.start_time is Some ==> r@ == dto@.enriched(r.hash@, r.start_time),
            exists|now: Timestamp| r@ == #[trigger] dto@.enriched(r.hash@, now),
    {
        let hash = new_hash();
        let now = match dto.start_time {
            Some(t) => t,
            None => utc_now(),
        };
        let r = NewFixture::enrich(dto, hash, now);
        assert(r@ == dto@.enriched(r.hash@, now));
        r
    }
}

impl Fixture {
    /// The public shape of this fixture.
    pub fn to_public(&self) -> (r: PublicFixture)
        ensures
            r@ == self@.public(),
            r.name@ == self.name@,
            r.link@ == self.link@,
            r.team1@ == self.team1@,
            r.team2@ == self.team2@,
            r.start_time == self.start_time,
            r.rating == self.rating,
            r.meta@ == self.meta@,
            r.analytics@ == self.analytics@,
            r.top_tier == self.top_tier,
            r.hash@ == self.hash@,
            r.created_at == self.created_at,
            r.updated_at == self.updated_at,
    {
        PublicFixture {
            name: self.name.clone(),
            link: self.link.clone(),
            team1: self.team1.clone(),
            team2: self.team2.clone(),
            start_time: self.start_time,
            rating: self.rating,
            meta: self.meta.clone(),
            analytics: self.analytics.clone(),
            top_tier: self.top_tier,
            hash: self.hash.clone(),
            created_at: self.created_at,
            updated_at: self.updated_at,
        }
    }

    /// The public shapes of all stored fixtures, in store order.
    pub fn all_public(rows: &Vec<Fixture>) -> (r: Vec<PublicFixture>)
        ensures
            r.deep_view() == rows.deep_view().map_values(|f: FixtureView| f.public()),
    {
        let mut out: Vec<PublicFixture> = Vec::new();
        for i in 0..rows.len()
            invariant
                out.deep_view() =~= rows.deep_view().take(i as int).map_values(|f: FixtureView| f.public()),
        {
            out.push(rows[i].to_public());
            assert(rows.deep_view().take(i + 1) =~= rows.deep_view().take(i as int).push(rows[i as int]@));
            assert(rows.deep_view().take(i + 1).map_values(|f: FixtureView| f.public())
                =~= rows.deep_view().take(i as int).map_values(|f: FixtureView| f.public()).push(rows[i as int]@.public()));
        }
        assert(rows.deep_view().take(rows.len() as int) =~= rows.deep_view());
        out
    }

    /// The listing of stored fixtures: those of the asked-for tier (top tier unless
    /// told otherwise), in store order, at most `limit_to` of them (ten unless told
    /// otherwise; a negative limit sets no bound).
    pub fn filtered_public(rows: &Vec<Fixture>, limit_to: Option<i64>, is_top_tier: Option<bool>) -> (r: Vec<PublicFixture>)
        ensures
            r.deep_view() == take_limit(
                public_of_tier(rows.deep_view(), spec_listing_tier(is_top_tier)),
                spec_listing_limit(limit_to),
            ),
    {
        let limit = listing_limit(limit_to);
        let top_tier = match is_top_tier {
            Some(b) => b,
            None => true,
        };
        let mut out: Vec<PublicFixture> = Vec::new();
        for i in 0..rows.len()
            invariant
                limit == spec_listing_limit(limit_to),
                top_tier == spec_listing_tier(is_top_tier),
                out.deep_view() == take_limit(public_of_tier(rows.deep_view().take(i as int), top_tier), limit),
        {
            let ghost before = rows.deep_view().take(i as int);
            let ghost chosen = public_of_tier(before, top_tier);
            assert(rows.deep_view().take(i + 1).drop_last() =~= before);
            if rows[i].top_tier == top_tier {
                proof {
                    lemma_take_limit_push(chosen, rows[i as int]@.public(), limit);
                }
                if limit < 0 || (out.len() as i64) < limit {
                    out.push(rows[i].to_public());
                }
                assert(out.deep_view() =~= take_limit(chosen.push(rows[i as int]@.public()), limit));
            }
        }
        assert(rows.deep_view().take(rows.len() as int) =~= rows.deep_view());
        out
    }

    /// The first stored fixture with id `id_to_get`.
    pub fn get(rows: &Vec<Fixture>, id_to_get: i32) -> (r: Option<&Fixture>)
        ensures
            r matches Some(f) ==> exists|i: int| 0 <= i < rows.len() && rows[i] == *f && f.id == id_to_get
                && forall|j: int| 0 <= j < i ==> rows[j].id != id_to_get,
            r is None ==> forall|j: int| 0 <= j < rows.len() ==> rows[j].id != id_to_get,
    {
        for i in 0..rows.len()
            invariant
                forall|j: int| 0 <= j < i ==> rows[j].id != id_to_get,
        {
            if rows[i].id == id_to_get {
                return Some(&rows[i]);
            }
        }
        None
    }

    /// The first stored fixture whose hash is `hash_to_find`.
    pub fn find<'a>(rows: &'a Vec<Fixture>, hash_to_find: &String) -> (r: Option<&'a Fixture>)
        ensures
            r matches Some(f) ==> exists|i: int| 0 <= i < rows.len() && rows[i] == *f && f.hash@ == hash_to_find@
                && forall|j: int| 0 <= j < i ==> rows[j].hash@ != hash_to_find@,
            r is None ==> forall|j: int| 0 <= j < rows.len() ==> rows[j].hash@ != hash_to_find@,
    {
        for i in 0..rows.len()
            invariant
                forall|j: int| 0 <= j < i ==> rows[j].hash@ != hash_to_find@,
        {
            if rows[i].hash == *hash_to_find {
                return Some(&rows[i]);
            }
        }
        None
    }

    /// The public shape of the first stored fixture whose hash is `hash_to_find`.
    pub fn find_public(rows: &Vec<Fixture>, hash_to_find: &String) -> (r: Option<PublicFixture>)
        ensures
            r matches Some(p) ==> exists|i: int| 0 <= i < rows.len() && rows[i]@.public() == p@
                && rows[i].hash@ == hash_to_find@
                && forall|j: int| 0 <= j < i ==> rows[j].hash@ != hash_to_find@,
            r is None ==> forall|j: int| 0 <= j < rows.len() ==> rows[j].hash@ != hash_to_find@,
    {
        match Fixture::find(rows, hash_to_find) {
            Some(f) => Some(f.to_public()),
            None => None,
        }
    }
}

/// Every entry of `public_of_tier(rows, top_tier)` is the public shape of one of `rows`
/// of that tier, and there are no more entries than rows.
pub proof fn lemma_public_of_tier(rows: Seq<FixtureView>, top_tier: bool)
    ensures
        public_of_tier(rows, top_tier).len() <= rows.len(),
        forall|i: int| 0 <= i < public_of_tier(rows, top_tier).len() ==>
            (#[trigger] public_of_tier(rows, top_tier)[i]).top_tier == top_tier,
    decreases rows.len(),
{
    if rows.len() > 0 {
        lemma_public_of_tier(rows.drop_last(), top_tier);
    }
}

/// A listing of fixtures holds only fixtures of the asked-for tier (top tier unless told
/// otherwise), and no more of them than the limit (ten unless told otherwise) when the
/// limit is not negative.
pub proof fn lemma_fixture_listing(rows: Seq<FixtureView>, limit_to: Option<i64>, is_top_tier: Option<bool>)
    ensures
        ({
            let listed = take_limit(public_of_tier(rows, spec_listing_tier(is_top_tier)), spec_listing_limit(limit_to));
            &&& forall|i: int| 0 <= i < listed.len() ==> (#[trigger] listed[i]).top_tier == spec_listing_tier(is_top_tier)
            &&& spec_listing_limit(limit_to) >= 0 ==> listed.len() <= spec_listing_limit(limit_to)
            &&& listed.len() <= rows.len()
        }),
{
    let chosen = public_of_tier(rows, spec_listing_tier(is_top_tier));
    lemma_public_of_tier(rows, spec_listing_tier(is_top_tier));
    let listed = take_limit(chosen, spec_listing_limit(limit_to));
    assert forall|i: int| 0 <= i < listed.len() implies (#[trigger] listed[i]).top_tier == spec_listing_tier(is_top_tier) by {
        assert(listed[i] == chosen[i]);
    }
}

/// The listing asked for without parameters holds at most ten fixtures, all of them top tier.
pub proof fn lemma_default_fixture_listing(rows: Seq<FixtureView>)
    ensures
        ({
            let listed = take_limit(public_of_tier(rows, spec_listing_tier(None)), spec_listing_limit(None));
            &&& listed.len() <= 10
            &&& forall|i: int| 0 <= i < listed.len() ==> (#[trigger] listed[i]).top_tier
        }),
{
    lemma_fixture_listing(rows, None, None);
}

/// Turning a stored fixture into its transfer shape and that into an insertable fixture
/// keeps every data field; only the identifier is the one given.
pub proof fn lemma_fixture_round_trip(f: FixtureView, hash: Seq<char>, now: Timestamp)
    requires
        f.updated_at is Some,
    ensures
        ({
            let n = f.dto().enriched(hash, now);
            &&& n.name == f.name
            &&& n.link == f.link
            &&& n.team1 == f.team1
            &&& n.team2 == f.team2
            &&& n.start_time == f.start_time
            &&& n.rating == f.rating
            &&& n.meta == f.meta
            &&& n.analytics == f.analytics
            &&& n.top_tier == f.top_tier
            &&& n.hash == hash
        }),
{
}

/// An insertable fixture depends only on the data fields of its transfer shape: the
/// shape's own id, hash and times play no part.
pub proof fn lemma_fixture_enrich_ignores_identity(d1: FixtureDTOView, d2: FixtureDTOView, hash: Seq<char>, now: Timestamp)
    requires
        d1.name == d2.name,
        d1.link == d2.link,
        d1.team1 == d2.team1,
        d1.team2 == d2.team2,
        d1.start_time == d2.start_time,
        d1.rating == d2.rating,
        d1.meta == d2.meta,
        d1.analytics == d2.analytics,
        d1.top_tier == d2.top_tier,
    ensures
        d1.enriched(hash, now) == d2.enriched(hash, now),
{
}

/// The public shape of a stored fixture is the fixture without its id: every other field,
/// its start time and its creation time among them, is the fixture's own.
pub proof fn lemma_public_fixture_fields(f: FixtureView)
    ensures
        f.public().name == f.name,
        f.public().link == f.link,
        f.public().team1 == f.team1,
        f.public().team2 == f.team2,
        f.public().start_time == f.start_time,
        f.public().rating == f.rating,
        f.public().meta == f.meta,
        f.public().analytics == f.analytics,
        f.public().top_tier == f.top_tier,
        f.public().hash == f.hash,
        f.public().created_at == f.created_at,
        f.public().updated_at == f.updated_at,
{
}

/// Two stored fixtures have the same public shape exactly when they agree on everything
/// but their ids: the public shape forgets the id and nothing else.
pub proof fn lemma_public_fixture_forgets_only_id(f: FixtureView, g: FixtureView)
    ensures
        f.public() == g.public() <==> (f == FixtureView { id: f.id, ..g }),
{
    if f.public() == g.public() {
        lemma_public_fixture_fields(f);
        lemma_public_fixture_fields(g);
    }
}

/// An insertable fixture starts when its transfer shape says, and only when the shape has
/// no start time at `now`.
pub proof fn lemma_fixture_enrich_start_time(d: FixtureDTOView, hash: Seq<char>, now: Timestamp)
    ensures
        d.start_time matches Some(t) ==> d.enriched(hash, now).start_time == t,
        d.start_time is None ==> d.enriched(hash, now).start_time == now,
        d.enriched(hash, now).hash == hash,
{
}

} // verus!
