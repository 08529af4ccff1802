//! Data carried through the enrichment pipeline: links fetched from the
//! store, the outcome recorded for each link, and the error taxonomy.

use vstd::prelude::*;

verus! {

/// Metadata of the collection a link belongs to. The pipeline never reads
/// it; it is carried through for fidelity with the store's records.
#[derive(Clone, Debug, PartialEq, Eq)]
pub struct Collection {
    pub id: i64,
    pub owner_id: i64,
    pub name: String,
}

/// One bookmarked link as returned by the store. Immutable once built; the
/// pipeline never writes back. `tags` holds the store's own tag records as
/// opaque text, passed through unmodified.
#[derive(Clone, Debug, PartialEq, Eq)]
pub struct Link {
    pub id: i64,
    pub name: String,
    pub url: String,
    pub text_content: Option<String>,
    pub collection: Collection,
    pub tags: Vec<String>,
}

/// An error raised while fetching a page of links from the store.
#[derive(Clone, Debug, PartialEq, Eq)]
pub enum FetchError {
    /// The request never produced a response (connection or TLS failure).
    Transport { detail: String },
    /// The store answered with a non-2xx status.
    HttpStatus { status: u16, body: String },
    /// The response body does not match the expected page schema.
    Parse { detail: String },
}

/// An error raised while enriching one link.
#[derive(Clone, Debug, PartialEq, Eq)]
pub enum EnrichError {
    /// The text-generation backend or its transport failed.
    Llm { detail: String },
    /// The backend answered without usable content.
    EmptyResponse,
    /// The backend's tag reply is not a valid JSON array of strings.
    MalformedTags,
}

/// What one completed pipeline run produced for its link: a summary and a
/// tag list, or the error that stopped it.
#[derive(Clone, Debug, PartialEq, Eq)]
pub enum EnrichmentOutcome {
    Enriched { summary: String, tags: Vec<String> },
    Failed { error: EnrichError },
}

/// The record the orchestrator aggregates, keyed by the link's id. Created
/// exactly once per link by a completed pipeline run.
#[derive(Clone, Debug, PartialEq, Eq)]
pub struct EnrichmentResult {
    pub link_id: i64,
    pub outcome: EnrichmentOutcome,
}

impl EnrichmentResult {
    /// Whether this record carries a summary and tags rather than an error.
    pub fn is_success(&self) -> (r: bool)
        ensures
            r == (self.outcome is Enriched),
    {
        match self.outcome {
            EnrichmentOutcome::Enriched { .. } => true,
            EnrichmentOutcome::Failed { .. } => false,
        }
    }
}

} // verus!
