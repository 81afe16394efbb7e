//! Extraction and persistence of memorial page citations.
//!
//! The library parses memorial page markup into a structured [`Memorial`]
//! record through fallback-ordered selector rules, resolves the numeric
//! identifier from page metadata, and persists records idempotently in a
//! single-table store keyed by that identifier.  Fetching pages and the
//! command-line surface live outside the library.

use vstd::prelude::*;
use vstd::string::*;

mod db;
mod error;
mod models;
mod parser;
mod text;

pub use db::Store;
pub use db::get_memorial_by_id;
pub use db::search_complete;
pub use db::search_memorials_by_name;
pub use db::search_sound;
pub use db::sorted_by_name;
pub use db::store_in_db;

pub use error::Error;
pub use models::Memorial;
pub use models::MemorialV;
pub use models::RowV;
pub use models::citation_of;
pub use models::record_of_row;
pub use models::row_of;
pub use models::spec_is_valid;
pub use models::spec_wf;
pub use parser::Field;
pub use parser::Rule;
pub use parser::RuleV;
pub use parser::chain_result;
pub use parser::extract_ok;
pub use parser::extracted;
pub use parser::parse_page;
pub use parser::resolved_id;
pub use parser::rule_table;
pub use parser::rules_spec;
pub use text::contains_seq;
pub use text::last_nonempty_segment;
pub use text::last_segment;
pub use text::name_matches;
pub use text::parse_u64;
pub use text::parse_u64_of;
pub use text::seq_le;
pub use text::str_contains;

verus! {

/// Configuration options for the parser.
#[derive(Debug, Clone)]
pub struct Config {
    /// User agent string for page requests.
    pub user_agent: String,
    /// Connection timeout in seconds.
    pub timeout_secs: u64,
    /// Path to the store file.
    pub db_path: String,
}

impl Default for Config {
    /// The default configuration: a browser user agent, a ten second
    /// timeout, and a `memorials.db` store in the working directory.
    fn default() -> (c: Self)
        ensures
            c.user_agent@
                == "Mozilla/5.0 (Windows NT 10.0; Win64; x64) AppleWebKit/537.36 (KHTML, like Gecko) Chrome/91.0.4472.124 Safari/537.36"@,
            c.timeout_secs == 10,
            c.db_path@ == "memorials.db"@,
    {
        Config {
            user_agent: "Mozilla/5.0 (Windows NT 10.0; Win64; x64) AppleWebKit/537.36 (KHTML, like Gecko) Chrome/91.0.4472.124 Safari/537.36".to_owned(),
            timeout_secs: 10,
            db_path: "memorials.db".to_owned(),
        }
    }
}

/// The site domain whose presence marks an input as already being a URL.
pub open spec fn site_domain() -> Seq<char> {
    "findagrave.com"@
}

/// How the pipeline normalizes its input: a string already holding the
/// site's domain passes through unchanged; anything else is taken as a
/// bare identifier and substituted into the fixed memorial URL template.
pub open spec fn normalized_url(input: Seq<char>) -> Seq<char> {
    if contains_seq(input, site_domain()) {
        input
    } else {
        "https://www.findagrave.com/memorial/"@ + input
    }
}

/// Normalize a bare identifier or URL into the memorial page URL.
pub fn normalize_url(url_or_id: &str) -> (r: String)
    ensures
        r@ == normalized_url(url_or_id@),
{
    if str_contains(url_or_id, "findagrave.com") {
        url_or_id.to_owned()
    } else {
        String::from_str("https://www.findagrave.com/memorial/").concat(url_or_id)
    }
}

} // verus!
