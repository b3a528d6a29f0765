//! Records held in memory after being read from a JSON or TOML file.

use vstd::prelude::*;
use crate::config::AppConfig;
use crate::error::AppError;
use crate::model::UrlRecord;
use crate::repository::UrlReader;
use crate::short_url::ShortUrl;

verus! {

/// Whether `records[i]` is the first record whose identifier is `id`.
pub open spec fn is_first_with_id(records: Seq<UrlRecord>, id: Seq<char>, i: int) -> bool {
    &&& 0 <= i < records.len()
    &&& records[i].id@ == id
    &&& forall|j: int| 0 <= j < i ==> (#[trigger] records[j]).id@ != id
}

/// Whether some record's identifier is `id`.
pub open spec fn has_id(records: Seq<UrlRecord>, id: Seq<char>) -> bool {
    exists|i: int| 0 <= i < records.len() && (#[trigger] records[i]).id@ == id
}

/// A read-only repository over a fixed list of records.
#[derive(Debug)]
pub struct JSONFileRepo {
    records: Vec<UrlRecord>,
}

impl JSONFileRepo {
    /// A repository over `records`, in their order.
    pub fn from_records(records: Vec<UrlRecord>) -> (r: Self)
        ensures
            r.records() == records@,
    {
        JSONFileRepo { records }
    }

    /// The records, in their order.
    pub closed spec fn records(&self) -> Seq<UrlRecord> {
        self.records@
    }

    /// The path of the file to read the records from, as the settings give it;
    /// `ConfigMissingError("repo_file_path")` when they give none.
    pub fn file_path(c: &AppConfig) -> (r: Result<String, AppError>)
        ensures
            c.repo_file_path is Some <==> r is Ok,
            r matches Ok(p) ==> p@ == c.repo_file_path->0@,
            r matches Err(e) ==> e matches AppError::ConfigMissingError(s) && s@ == "repo_file_path"@,
    {
        match &c.repo_file_path {
            Some(path) => Ok(path.clone()),
            None => Err(AppError::ConfigMissingError(String::from_str("repo_file_path"))),
        }
    }
}

impl UrlReader for JSONFileRepo {
    /// A copy of the first record whose identifier is `id`; never fails.
    fn get_by_id(&self, id: &ShortUrl) -> (r: Result<Option<UrlRecord>, anyhow::Error>)
        ensures
            r is Ok,
            r->Ok_0 is Some <==> has_id(self.records(), id@),
            r->Ok_0 matches Some(rec) ==> exists|i: int|
                is_first_with_id(self.records(), id@, i) && rec@ == #[trigger] self.records()[i]@,
    {
        let mut i: usize = 0;
        while i < self.records.len()
            invariant
                i <= self.records@.len(),
                forall|j: int| 0 <= j < i ==> (#[trigger] self.records@[j]).id@ != id@,
            decreases self.records@.len() - i,
        {
            if self.records[i].id == *id {
                let found = self.records[i].clone();
                assert(is_first_with_id(self.records@, id@, i as int));
                return Ok(Some(found));
            }
            i = i + 1;
        }
        Ok(None)
    }

    /// Visits are not counted in a file.
    fn track_click(&self, id: &ShortUrl) {
    }
}

} // verus!
