//! Fixed addresses of the scraped site.
use vstd::prelude::*;

verus! {

/// The address of the site that fixtures and news are read from.
pub const BASE_URL: &'static str = "https://www.hltv.org";

} // verus!
