//! Dictionary lookups against the Youdao result page: the identity-fallback
//! policy of the fetcher and the extraction of phonetics and translations
//! from the page's HTML, with their contracts.

pub mod dom;
pub mod error;
pub mod extract;
pub mod fetch;
pub mod render;
pub mod script;

pub use error::YdtError;

pub use extract::parse_translation_from_html;
pub use fetch::get_translation;
