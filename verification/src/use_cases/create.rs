//! Creating a short identifier, or claiming a reserved one.

use vstd::prelude::*;
use std::sync::Arc;
use crate::error::{DomainError, DomainErrorView};
use crate::model::{naive_utc_now, optional_record_view, UrlRecord, UrlRecordView};
use crate::use_cases::redirect::redirect_outcome;
use crate::repository::{UrlReader, UrlWriter};
use crate::short_url::{ShortUrl, is_short_url_text, is_random_short_url_text, normalized};

verus! {

/// A record for `id` leading to `url`, created at `created_at`, never visited.
pub open spec fn fresh_record(id: Seq<char>, url: Seq<char>, created_at: chrono::NaiveDateTime) -> UrlRecordView {
    UrlRecordView { id, long_url: Some(url), created_at, clicks: 0 }
}

/// The record that creating or claiming `id` for `url` stores, given the record
/// already stored under `id`: a new record created at `now` when there is none;
/// the stored record's creation time kept when it only reserves the identifier;
/// `Conflict("ShortUrl ya en uso")` when it already leads to a URL.
pub open spec fn planned_record(
    id: Seq<char>,
    existing: Option<UrlRecordView>,
    url: Seq<char>,
    now: chrono::NaiveDateTime,
) -> Result<UrlRecordView, DomainErrorView> {
    match existing {
        None => Ok(fresh_record(id, url, now)),
        Some(rec) => if rec.long_url is None {
            Ok(fresh_record(id, url, rec.created_at))
        } else {
            Err(DomainErrorView::Conflict("ShortUrl ya en uso"@))
        },
    }
}

/// The view of a planned record.
pub open spec fn planned_view(r: Result<UrlRecord, DomainError>) -> Result<UrlRecordView, DomainErrorView> {
    match r {
        Ok(rec) => Ok(rec@),
        Err(e) => Err(e@),
    }
}

/// A record that creating or claiming stores leads to the URL it was given.
pub proof fn planned_record_leads_to_its_url(
    id: Seq<char>,
    existing: Option<UrlRecordView>,
    url: Seq<char>,
    now: chrono::NaiveDateTime,
)
    requires
        planned_record(id, existing, url, now) is Ok,
    ensures
        redirect_outcome(Some(planned_record(id, existing, url, now)->Ok_0)) == Ok::<Seq<char>, DomainErrorView>(url),
{
}

/// The record that creating or claiming `id` for `url` stores, as `planned_record`
/// describes it.
pub fn claim_or_create_record(
    id: ShortUrl,
    existing: Option<UrlRecord>,
    url: String,
    now: chrono::NaiveDateTime,
) -> (r: Result<UrlRecord, DomainError>)
    ensures
        planned_view(r) == planned_record(id@, optional_record_view(existing), url@, now),
{
    match existing {
        Some(record) => {
            if record.long_url.is_none() {
                Ok(UrlRecord { id, long_url: Some(url), created_at: record.created_at, clicks: 0 })
            } else {
                Err(DomainError::Conflict(String::from_str("ShortUrl ya en uso")))
            }
        },
        None => Ok(UrlRecord { id, long_url: Some(url), created_at: now, clicks: 0 }),
    }
}

/// Creation of short identifiers through a writer and a reader.
pub struct CreateUseCase<RW: UrlWriter + ?Sized + 'static, RR: UrlReader + ?Sized + 'static> {
    writer: Arc<RW>,
    reader: Arc<RR>,
}

impl<RW: UrlWriter + ?Sized + 'static, RR: UrlReader + ?Sized + 'static> CreateUseCase<RW, RR> {
    pub fn new(writer: Arc<RW>, reader: Arc<RR>) -> (r: Self)
        ensures
            r.writer() == writer,
            r.reader() == reader,
    {
        CreateUseCase { writer, reader }
    }

    /// The writer that this use case works through.
    pub closed spec fn writer(&self) -> Arc<RW> {
        self.writer
    }

    /// The reader that this use case works through.
    pub closed spec fn reader(&self) -> Arc<RR> {
        self.reader
    }

    /// Whether the reader was asked for a record under an identifier with text `id`
    /// and answered, and the writer then saved the record that `planned_record`
    /// gives for `url` and that answer, created at some time `now`.
    pub open spec fn saved_after_reading(&self, id: Seq<char>, url: Seq<char>) -> bool {
        exists|sid: ShortUrl, found: Option<UrlRecord>, now: chrono::NaiveDateTime, rec: UrlRecord|
            #![trigger call_ensures(RR::get_by_id, (&*self.reader(), &sid), Ok::<Option<UrlRecord>, anyhow::Error>(found)), call_ensures(RW::save, (&*self.writer(), &rec), Ok::<(), anyhow::Error>(())), planned_record(id, optional_record_view(found), url, now)]
            {
                &&& sid@ == id
                &&& call_ensures(
                    RR::get_by_id,
                    (&*self.reader(), &sid),
                    Ok::<Option<UrlRecord>, anyhow::Error>(found),
                )
                &&& planned_record(id, optional_record_view(found), url, now) == Ok::<
                    UrlRecordView,
                    DomainErrorView,
                >(rec@)
                &&& call_ensures(RW::save, (&*self.writer(), &rec), Ok::<(), anyhow::Error>(()))
            }
    }

    /// Stores `url` under the identifier `id_opt` (normalized to lower case) or,
    /// without one, under a random identifier, and returns the identifier. The
    /// record stored is the one `claim_or_create_record` gives for what the reader
    /// holds under the identifier. A custom identifier that is not valid gives
    /// `InvalidInput("ShortUrl inválido")`; failures of the reader and of the writer
    /// give `Other("Error de repositorio")` and `Other("Error al grabar el registro")`.
    pub fn create_or_claim(&self, id_opt: Option<String>, url: String) -> (r: Result<ShortUrl, DomainError>)
        ensures
            (id_opt matches Some(v) && !is_short_url_text(normalized(v@))) <==> (r is Err && r->Err_0@
                == DomainErrorView::InvalidInput("ShortUrl inválido"@)),
            r matches Ok(id) ==> match id_opt {
                Some(v) => id@ == normalized(v@),
                None => is_random_short_url_text(id@),
            },
            r matches Err(e) ==> e@ == DomainErrorView::InvalidInput("ShortUrl inválido"@)
                || e@ == DomainErrorView::Conflict("ShortUrl ya en uso"@)
                || e@ == DomainErrorView::Other("Error de repositorio"@)
                || e@ == DomainErrorView::Other("Error al grabar el registro"@),
            r matches Ok(id) ==> self.saved_after_reading(id@, url@),
    {
        let ghost url_view = url@;
        let short_id = match id_opt {
            Some(val) => match ShortUrl::new(val.as_str()) {
                Ok(id) => id,
                Err(_) => {
                    return Err(DomainError::InvalidInput(String::from_str("ShortUrl inválido")));
                },
            },
            None => ShortUrl::random(),
        };
        let found = self.reader.get_by_id(&short_id);
        let ghost found_result = found;
        let existing = DomainError::from_storage(found, "Error de repositorio")?;
        let ghost found_record = existing;
        let now = naive_utc_now();
        let record = claim_or_create_record(short_id.clone(), existing, url, now)?;
        let saved = self.writer.save(&record);
        let ghost saved_result = saved;
        DomainError::from_storage(saved, "Error al grabar el registro")?;
        proof {
            assert(found_result == Ok::<Option<UrlRecord>, anyhow::Error>(found_record));
            assert(saved_result == Ok::<(), anyhow::Error>(()));
            assert(call_ensures(RR::get_by_id, (&*self.reader(), &short_id), Ok::<Option<UrlRecord>, anyhow::Error>(found_record)));
            assert(call_ensures(RW::save, (&*self.writer(), &record), Ok::<(), anyhow::Error>(())));
            assert(planned_record(short_id@, optional_record_view(found_record), url_view, now) == Ok::<
                UrlRecordView,
                DomainErrorView,
            >(record@));
            assert(self.saved_after_reading(short_id@, url_view));
        }
        Ok(short_id)
    }
}

} // verus!
