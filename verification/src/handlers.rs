//! What the web handlers decide: listing parameters, the landing page's line of
//! wisdom, and the reply to a request for a bundled resource.
use vstd::prelude::*;
use vstd::utf8::is_ascii_chars;

verus! {

/// The parameters of a listing request. Top tier is the default, and currently the
/// only option offered.
#[derive(Debug)]
pub struct Limiter {
    pub limit: Option<i64>,
    pub top_tier: Option<bool>,
}

impl Default for Limiter {
    /// Ten entries, top tier.
    fn default() -> (r: Limiter)
        ensures
            r.limit == Some(10i64),
            r.top_tier == Some(true),
    {
        Limiter { limit: Some(10), top_tier: Some(true) }
    }
}

/// The lines of wisdom the landing page picks from.
pub open spec fn wisdom_sentences() -> Seq<Seq<char>> {
    seq![
        "might get DMCA struck at all times..."@,
        "get 'em while they're hot..."@,
        "may go down every second..."@,
    ]
}

/// Calls rand's `random_range` over `0..n`. Claimed: the result lies in that range, as
/// rand documents; which one it is is left to chance.
#[verifier::external_body]
fn random_below(n: usize) -> (r: usize)
    requires
        n > 0,
    ensures
        r < n,
{
    rand::random_range(0..n)
}

/// The line of wisdom numbered `k`.
pub fn wisdom_at(k: usize) -> (r: String)
    requires
        k < 3,
    ensures
        r@ == wisdom_sentences()[k as int],
{
    let line = if k == 0 {
        "might get DMCA struck at all times..."
    } else if k == 1 {
        "get 'em while they're hot..."
    } else {
        "may go down every second..."
    };
    String::from_str(line)
}

/// Picks one of the lines of wisdom at random: the one `wisdom_at` gives for a number
/// drawn below three.
pub fn choose_wisdom() -> (r: String)
    ensures
        exists|k: int| 0 <= k < 3 && r@ == #[trigger] wisdom_sentences()[k],
{
    let k = random_below(3);
    wisdom_at(k)
}

/// The media type that mime_guess gives first for a path, if any.
pub uninterp spec fn guessed_mime(path: Seq<char>) -> Option<Seq<char>>;

/// Calls mime_guess's `from_path` and `MimeGuess::first`, and the media type's `Display`.
/// Claimed: the result is a function of the path alone (named above).
#[verifier::external_body]
fn guess_mime(path: &str) -> (r: Option<String>)
    ensures
        r.deep_view() == guessed_mime(path@),
{
    match mime_guess::from_path(path).first() {
        Some(m) => Some(m.to_string()),
        None => None,
    }
}

/// The reply to a request for a bundled resource.
#[derive(Debug)]
pub enum ResourceReply {
    /// The name is not plain ASCII; the text explains.
    Forbidden(String),
    /// No resource has that name; the text explains.
    NotFound(String),
    /// The resource is served with this media type.
    Found(String),
}

pub enum ResourceReplyView {
    Forbidden(Seq<char>),
    NotFound(Seq<char>),
    Found(Seq<char>),
}

impl View for ResourceReply {
    type V = ResourceReplyView;

    open spec fn view(&self) -> ResourceReplyView {
        match self {
            ResourceReply::Forbidden(s) => ResourceReplyView::Forbidden(s@),
            ResourceReply::NotFound(s) => ResourceReplyView::NotFound(s@),
            ResourceReply::Found(s) => ResourceReplyView::Found(s@),
        }
    }
}

/// The reply to a request for the resource `resource`, which is bundled or not as
/// `exists` says: a non-ASCII name is refused, an unknown one is not found, and a
/// bundled one is served with the media type its name suggests.
pub open spec fn reply_of(resource: Seq<char>, exists: bool) -> ResourceReplyView {
    if !is_ascii_chars(resource) {
        ResourceReplyView::Forbidden("invalid file name: '"@ + resource + "'"@)
    } else if !exists {
        ResourceReplyView::NotFound("no such file: '"@ + resource + "'"@)
    } else {
        ResourceReplyView::Found(guessed_mime(resource)->0)
    }
}

/// Decides the reply to a request for the resource `resource`, which is bundled or not
/// as `exists` says; none when a bundled resource's name suggests no media type.
pub fn resource_reply(resource: &str, exists: bool) -> (r: Option<ResourceReply>)
    ensures
        r is None <==> is_ascii_chars(resource@) && exists && guessed_mime(resource@) is None,
        r matches Some(reply) ==> reply@ == reply_of(resource@, exists),
{
    if !resource.is_ascii() {
        let mut message = String::from_str("invalid file name: '");
        message.append(resource);
        message.append("'");
        Some(ResourceReply::Forbidden(message))
    } else if !exists {
        let mut message = String::from_str("no such file: '");
        message.append(resource);
        message.append("'");
        Some(ResourceReply::NotFound(message))
    } else {
        match guess_mime(resource) {
            Some(media_type) => Some(ResourceReply::Found(media_type)),
            None => None,
        }
    }
}

} // verus!
