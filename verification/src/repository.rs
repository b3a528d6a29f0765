//! What the use cases need of the storage of records.

use vstd::prelude::*;
use crate::model::UrlRecord;
use crate::short_url::ShortUrl;

verus! {

#[verifier::external_type_specification]
#[verifier::external_body]
pub struct ExAnyhowError(anyhow::Error);

/// Read access to stored records, enough for a node that only redirects.
pub trait UrlReader: Send + Sync {
    /// The record stored under `id`, if any.
    fn get_by_id(&self, id: &ShortUrl) -> Result<Option<UrlRecord>, anyhow::Error>;

    /// Counts one more visit of `id`. A redirect calls it before answering, so an
    /// implementation that counts in a store should hand the counting to the
    /// background and return at once.
    fn track_click(&self, id: &ShortUrl);
}

/// Write access to stored records.
pub trait UrlWriter: Send + Sync {
    /// Stores `record`, replacing any record with the same identifier.
    fn save(&self, record: &UrlRecord) -> Result<(), anyhow::Error>;

    /// Removes the record stored under `id`.
    fn delete(&self, id: &ShortUrl) -> Result<(), anyhow::Error>;

    /// At most `limit` records, after skipping `offset` of them.
    fn list(&self, limit: usize, offset: usize) -> (r: Result<Vec<UrlRecord>, anyhow::Error>)
        ensures
            r is Ok ==> r->Ok_0@.len() <= limit;
}

} // verus!
