//! Query building and result extraction for an academic search page.
//!
//! `query` turns a set of search parameters into the request URL, and
//! `extract` turns the page that comes back into result records.
pub mod error;
pub mod extract;
pub mod query;

pub use error::Error;
pub use extract::{collect_results, scrape_serialize, BlockFields, ScholarResult};
pub use query::{get_base_url, ScholarArgs, Services};
