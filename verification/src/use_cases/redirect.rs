//! Resolving a short identifier to its URL.

use vstd::prelude::*;
use std::sync::Arc;
use crate::error::{DomainError, DomainErrorView};
use crate::model::{UrlRecord, UrlRecordView, optional_record_view};
use crate::repository::UrlReader;
use crate::short_url::ShortUrl;

verus! {

/// Where a looked-up record leads: its URL, or `NotFound` when there is no
/// record or when the record only reserves its identifier.
pub open spec fn redirect_outcome(record: Option<UrlRecordView>) -> Result<Seq<char>, DomainErrorView> {
    match record {
        Some(rec) => match rec.long_url {
            Some(url) => Ok(url),
            None => Err(DomainErrorView::NotFound),
        },
        None => Err(DomainErrorView::NotFound),
    }
}

/// A stored record that leads to a URL redirects to that URL, however often it has
/// been visited and whenever it was created.
pub proof fn record_with_url_redirects_to_it(rec: UrlRecordView)
    requires
        rec.long_url is Some,
    ensures
        redirect_outcome(Some(rec)) == Ok::<Seq<char>, DomainErrorView>(rec.long_url->0),
{
}

/// Where a record leads depends on its URL alone: two records with the same URL
/// redirect alike, whatever their identifiers, creation times and clicks.
pub proof fn redirect_depends_only_on_url(a: UrlRecordView, b: UrlRecordView)
    requires
        a.long_url == b.long_url,
    ensures
        redirect_outcome(Some(a)) == redirect_outcome(Some(b)),
{
}

/// Counting a visit does not change where a record leads.
pub proof fn visits_do_not_change_the_target(rec: UrlRecordView, clicks: i64)
    ensures
        redirect_outcome(Some(UrlRecordView { clicks, ..rec })) == redirect_outcome(Some(rec)),
{
}

/// Only a missing record or a reservation is not found.
pub proof fn not_found_only_without_url(record: Option<UrlRecordView>)
    ensures
        redirect_outcome(record) is Err <==> (record is None || record->0.long_url is None),
        redirect_outcome(record) is Err ==> redirect_outcome(record)->Err_0 == DomainErrorView::NotFound,
{
}

/// The view of the outcome of a redirect.
pub open spec fn redirect_view(r: Result<String, DomainError>) -> Result<Seq<char>, DomainErrorView> {
    match r {
        Ok(url) => Ok(url@),
        Err(e) => Err(e@),
    }
}

/// The URL that a looked-up record leads to, as `redirect_outcome` describes it.
pub fn redirect_target(record: Option<UrlRecord>) -> (r: Result<String, DomainError>)
    ensures
        redirect_view(r) == redirect_outcome(optional_record_view(record)),
{
    match record {
        Some(rec) => match rec.long_url {
            Some(url) => Ok(url),
            None => Err(DomainError::NotFound),
        },
        None => Err(DomainError::NotFound),
    }
}

/// Resolution of short identifiers through a reader.
pub struct RedirectUseCase<R: UrlReader + ?Sized + 'static> {
    repo: Arc<R>,
}

impl<R: UrlReader + ?Sized + 'static> RedirectUseCase<R> {
    pub fn new(repo: Arc<R>) -> (r: Self)
        ensures
            r.repo() == repo,
    {
        RedirectUseCase { repo }
    }

    /// The reader that this use case works through.
    pub closed spec fn repo(&self) -> Arc<R> {
        self.repo
    }

    /// The URL that `short_id` leads to, as `redirect_target` gives it for the
    /// record that the reader returns; a click is tracked when there is one.
    /// A failure of the reader becomes `Other("Error de repositorio")`.
    pub fn redirect(&self, short_id: &ShortUrl) -> (r: Result<String, DomainError>)
        ensures
            r matches Err(e) ==> e@ == DomainErrorView::NotFound
                || e@ == DomainErrorView::Other("Error de repositorio"@),
            exists|found: Result<Option<UrlRecord>, anyhow::Error>|
                #[trigger] call_ensures(R::get_by_id, (&*self.repo(), short_id), found) && redirect_view(r)
                    == match found {
                    Ok(record) => redirect_outcome(optional_record_view(record)),
                    Err(_) => Err(DomainErrorView::Other("Error de repositorio"@)),
                },
            r is Ok ==> call_ensures(R::track_click, (&*self.repo(), short_id), ()),
    {
        let found = self.repo.get_by_id(short_id);
        let record = DomainError::from_storage(found, "Error de repositorio")?;
        let url = redirect_target(record)?;
        self.repo.track_click(short_id);
        Ok(url)
    }
}

} // verus!
