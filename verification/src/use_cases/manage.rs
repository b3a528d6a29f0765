//! Removing and listing records.

use vstd::prelude::*;
use std::sync::Arc;
use crate::error::{DomainError, DomainErrorView};
use crate::model::UrlRecord;
use crate::repository::UrlWriter;
use crate::short_url::ShortUrl;

verus! {

/// Management of stored records through a writer.
pub struct ManageUseCase<W: UrlWriter + ?Sized + 'static> {
    writer: Arc<W>,
}

impl<W: UrlWriter + ?Sized + 'static> ManageUseCase<W> {
    pub fn new(writer: Arc<W>) -> (r: Self)
        ensures
            r.writer() == writer,
    {
        ManageUseCase { writer }
    }

    /// The writer that this use case works through.
    pub closed spec fn writer(&self) -> Arc<W> {
        self.writer
    }

    /// Removes the record of `id`; a failure of the writer becomes
    /// `Other("Error al borrar el registro")`.
    pub fn delete(&self, id: &ShortUrl) -> (r: Result<(), DomainError>)
        ensures
            r matches Err(e) ==> e@ == DomainErrorView::Other("Error al borrar el registro"@),
            exists|res: Result<(), anyhow::Error>|
                #[trigger] call_ensures(W::delete, (&*self.writer(), id), res) && (r is Ok <==> res is Ok),
    {
        DomainError::from_storage(self.writer.delete(id), "Error al borrar el registro")
    }

    /// At most `limit` records after the first `offset`, as the writer lists them;
    /// a failure of the writer becomes `Other("Error al listar registros")`.
    pub fn list(&self, limit: usize, offset: usize) -> (r: Result<Vec<UrlRecord>, DomainError>)
        ensures
            r matches Err(e) ==> e@ == DomainErrorView::Other("Error al listar registros"@),
            r matches Ok(list) ==> list@.len() <= limit,
            exists|res: Result<Vec<UrlRecord>, anyhow::Error>|
                #[trigger] call_ensures(W::list, (&*self.writer(), limit, offset), res) && (r is Ok <==> res is Ok)
                    && (r is Ok ==> r->Ok_0 == res->Ok_0),
    {
        DomainError::from_storage(self.writer.list(limit, offset), "Error al listar registros")
    }
}

} // verus!
