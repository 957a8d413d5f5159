//! The journal's records: works, mnemons, provider references, search results.

pub mod mnemon;
pub mod provider;
pub mod search;
pub mod work;

pub use mnemon::{Mnemon, MnemonView};
pub use provider::{ProviderRef, ProviderRefView};
pub use search::{SearchResult, SearchResultView, SearchResultsPage};
pub use work::{Work, WorkOrigin, WorkType, WorkView};
