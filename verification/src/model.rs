//! The stored record of a short identifier.

use vstd::prelude::*;
use crate::short_url::ShortUrl;

verus! {

#[verifier::external_type_specification]
#[verifier::external_body]
pub struct ExNaiveDateTime(chrono::NaiveDateTime);

/// Calls `chrono::Utc::now` and takes the result's `naive_utc` time. Nothing is
/// claimed of the result: it is the time of the call.
#[verifier::external_body]
pub(crate) fn naive_utc_now() -> chrono::NaiveDateTime {
    chrono::Utc::now().naive_utc()
}

/// A short identifier with the URL it leads to, when it was created and how
/// often it was followed. A record without a URL reserves its identifier.
#[derive(Debug, PartialEq, Eq)]
pub struct UrlRecord {
    pub id: ShortUrl,
    pub long_url: Option<String>,
    pub created_at: chrono::NaiveDateTime,
    pub clicks: i64,
}

/// The contents of a `UrlRecord` as plain values.
pub struct UrlRecordView {
    pub id: Seq<char>,
    pub long_url: Option<Seq<char>>,
    pub created_at: chrono::NaiveDateTime,
    pub clicks: i64,
}

impl View for UrlRecord {
    type V = UrlRecordView;

    open spec fn view(&self) -> UrlRecordView {
        UrlRecordView {
            id: self.id@,
            long_url: self.long_url.deep_view(),
            created_at: self.created_at,
            clicks: self.clicks,
        }
    }
}

/// The view of a record that may be absent.
pub open spec fn optional_record_view(record: Option<UrlRecord>) -> Option<UrlRecordView> {
    match record {
        Some(rec) => Some(rec@),
        None => None,
    }
}

impl Clone for UrlRecord {
    fn clone(&self) -> (r: Self)
        ensures
            r@ == self@,
    {
        let long_url = match &self.long_url {
            Some(u) => Some(u.clone()),
            None => None,
        };
        UrlRecord { id: self.id.clone(), long_url, created_at: self.created_at, clicks: self.clicks }
    }
}

} // verus!
