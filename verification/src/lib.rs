//! Recommendation session engine: criteria snapshots kept per session, the
//! merge of wizard answers and of like/dislike feedback into them, the
//! rendering of a snapshot as a discovery query, and the join of watch-provider
//! lookups onto the discovered movies.

pub mod catalog;
pub mod criteria;
pub mod enrich;
pub mod errors;
pub mod feedback;
pub mod query;
pub mod service;
pub mod store;
pub mod text;
