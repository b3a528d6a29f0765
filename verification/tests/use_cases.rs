use std::sync::{Arc, Mutex};

use chrono::NaiveDate;
use dwarfer::error::DomainError;
use dwarfer::model::UrlRecord;
use dwarfer::repository::{UrlReader, UrlWriter};
use dwarfer::short_url::ShortUrl;
use dwarfer::use_cases::create::{claim_or_create_record, CreateUseCase};
use dwarfer::use_cases::manage::ManageUseCase;
use dwarfer::use_cases::redirect::{redirect_target, RedirectUseCase};

/// A repository in memory, with switches that make its calls fail.
#[derive(Default)]
struct MemoryRepo {
    records: Mutex<Vec<UrlRecord>>,
    clicks: Mutex<Vec<String>>,
    fail_reads: bool,
    fail_writes: bool,
}

impl MemoryRepo {
    fn with(records: Vec<UrlRecord>) -> Self {
        MemoryRepo { records: Mutex::new(records), ..Default::default() }
    }
    fn all(&self) -> Vec<UrlRecord> {
        self.records.lock().unwrap().clone()
    }
}

impl UrlReader for MemoryRepo {
    fn get_by_id(&self, id: &ShortUrl) -> Result<Option<UrlRecord>, anyhow::Error> {
        if self.fail_reads {
            return Err(anyhow::Error::msg("read failed"));
        }
        Ok(self.records.lock().unwrap().iter().find(|r| r.id == *id).cloned())
    }
    fn track_click(&self, id: &ShortUrl) {
        self.clicks.lock().unwrap().push(id.as_str().to_string());
    }
}

impl UrlWriter for MemoryRepo {
    fn save(&self, record: &UrlRecord) -> Result<(), anyhow::Error> {
        if self.fail_writes {
            return Err(anyhow::Error::msg("write failed"));
        }
        let mut records = self.records.lock().unwrap();
        records.retain(|r| r.id != record.id);
        records.push(record.clone());
        Ok(())
    }
    fn delete(&self, id: &ShortUrl) -> Result<(), anyhow::Error> {
        if self.fail_writes {
            return Err(anyhow::Error::msg("write failed"));
        }
        self.records.lock().unwrap().retain(|r| r.id != *id);
        Ok(())
    }
    fn list(&self, limit: usize, offset: usize) -> Result<Vec<UrlRecord>, anyhow::Error> {
        if self.fail_reads {
            return Err(anyhow::Error::msg("read failed"));
        }
        Ok(self.records.lock().unwrap().iter().skip(offset).take(limit).cloned().collect())
    }
}

fn time(h: u32) -> chrono::NaiveDateTime {
    NaiveDate::from_ymd_opt(2024, 1, 2).unwrap().and_hms_opt(h, 4, 5).unwrap()
}

fn record(id: &str, url: Option<&str>, h: u32, clicks: i64) -> UrlRecord {
    UrlRecord {
        id: ShortUrl::new(id).unwrap(),
        long_url: url.map(|u| u.to_string()),
        created_at: time(h),
        clicks,
    }
}

fn create_use_case(repo: &Arc<MemoryRepo>) -> CreateUseCase<MemoryRepo, MemoryRepo> {
    CreateUseCase::new(repo.clone(), repo.clone())
}

#[test]
fn claim_or_create_fresh_record() {
    let id = ShortUrl::new("fresh").unwrap();
    let rec = claim_or_create_record(id.clone(), None, "https://a.example".to_string(), time(9)).unwrap();
    assert_eq!(rec, record("fresh", Some("https://a.example"), 9, 0));
}

#[test]
fn claim_keeps_reservation_time_and_resets_clicks() {
    let id = ShortUrl::new("held").unwrap();
    let reserved = record("held", None, 1, 7);
    let rec = claim_or_create_record(id, Some(reserved), "https://b.example".to_string(), time(9)).unwrap();
    assert_eq!(rec, record("held", Some("https://b.example"), 1, 0));
}

#[test]
fn claim_of_used_identifier_conflicts() {
    let id = ShortUrl::new("used").unwrap();
    let used = record("used", Some("https://old.example"), 1, 3);
    match claim_or_create_record(id, Some(used), "https://new.example".to_string(), time(9)) {
        Err(DomainError::Conflict(m)) => assert_eq!(m, "ShortUrl ya en uso"),
        other => panic!("unexpected {other:?}"),
    }
}

#[test]
fn create_with_custom_identifier_is_normalized_and_stored() {
    let repo = Arc::new(MemoryRepo::default());
    let uc = create_use_case(&repo);
    let id = uc.create_or_claim(Some("MyLink".to_string()), "https://c.example".to_string()).unwrap();
    assert_eq!(id.as_str(), "mylink");
    let stored = repo.all();
    assert_eq!(stored.len(), 1);
    assert_eq!(stored[0].id.as_str(), "mylink");
    assert_eq!(stored[0].long_url.as_deref(), Some("https://c.example"));
    assert_eq!(stored[0].clicks, 0);
    let age = chrono::Utc::now().naive_utc() - stored[0].created_at;
    assert!(age.num_seconds().abs() < 60);
}

#[test]
fn create_without_identifier_uses_a_random_one() {
    let repo = Arc::new(MemoryRepo::default());
    let uc = create_use_case(&repo);
    let id = uc.create_or_claim(None, "https://d.example".to_string()).unwrap();
    assert_eq!(id.as_str().len(), 6);
    assert_eq!(repo.all()[0].id, id);
}

#[test]
fn create_with_invalid_identifier() {
    let repo = Arc::new(MemoryRepo::default());
    let uc = create_use_case(&repo);
    match uc.create_or_claim(Some("bad id!".to_string()), "https://e.example".to_string()) {
        Err(DomainError::InvalidInput(m)) => assert_eq!(m, "ShortUrl inválido"),
        other => panic!("unexpected {other:?}"),
    }
    assert!(repo.all().is_empty());
}

#[test]
fn create_claims_a_reservation() {
    let repo = Arc::new(MemoryRepo::with(vec![record("promo", None, 2, 4)]));
    let uc = create_use_case(&repo);
    let id = uc.create_or_claim(Some("promo".to_string()), "https://f.example".to_string()).unwrap();
    assert_eq!(id.as_str(), "promo");
    assert_eq!(repo.all(), vec![record("promo", Some("https://f.example"), 2, 0)]);
}

#[test]
fn create_refuses_an_identifier_in_use() {
    let repo = Arc::new(MemoryRepo::with(vec![record("taken", Some("https://g.example"), 2, 4)]));
    let uc = create_use_case(&repo);
    match uc.create_or_claim(Some("TAKEN".to_string()), "https://h.example".to_string()) {
        Err(DomainError::Conflict(m)) => assert_eq!(m, "ShortUrl ya en uso"),
        other => panic!("unexpected {other:?}"),
    }
    assert_eq!(repo.all(), vec![record("taken", Some("https://g.example"), 2, 4)]);
}

#[test]
fn create_reports_repository_failures() {
    let reads = Arc::new(MemoryRepo { fail_reads: true, ..Default::default() });
    match create_use_case(&reads).create_or_claim(Some("x1".to_string()), "u".to_string()) {
        Err(DomainError::Other(m)) => assert_eq!(m, "Error de repositorio"),
        other => panic!("unexpected {other:?}"),
    }
    let writes = Arc::new(MemoryRepo { fail_writes: true, ..Default::default() });
    match create_use_case(&writes).create_or_claim(Some("x1".to_string()), "u".to_string()) {
        Err(DomainError::Other(m)) => assert_eq!(m, "Error al grabar el registro"),
        other => panic!("unexpected {other:?}"),
    }
}

#[test]
fn redirect_target_cases() {
    assert_eq!(redirect_target(Some(record("a", Some("https://x"), 1, 0))).unwrap(), "https://x");
    assert!(matches!(redirect_target(Some(record("a", None, 1, 0))), Err(DomainError::NotFound)));
    assert!(matches!(redirect_target(None), Err(DomainError::NotFound)));
}

#[test]
fn redirect_leads_to_the_url_and_tracks_the_click() {
    let repo = Arc::new(MemoryRepo::with(vec![record("go", Some("https://i.example"), 1, 0)]));
    let uc = RedirectUseCase::new(repo.clone());
    let id = ShortUrl::new("go").unwrap();
    assert_eq!(uc.redirect(&id).unwrap(), "https://i.example");
    assert_eq!(*repo.clicks.lock().unwrap(), vec!["go".to_string()]);
}

#[test]
fn redirect_of_reserved_or_unknown_is_not_found() {
    let repo = Arc::new(MemoryRepo::with(vec![record("held", None, 1, 0)]));
    let uc = RedirectUseCase::new(repo.clone());
    assert!(matches!(uc.redirect(&ShortUrl::new("held").unwrap()), Err(DomainError::NotFound)));
    assert!(matches!(uc.redirect(&ShortUrl::new("nope").unwrap()), Err(DomainError::NotFound)));
    assert!(repo.clicks.lock().unwrap().is_empty());
}

#[test]
fn redirect_reports_repository_failure() {
    let repo = Arc::new(MemoryRepo { fail_reads: true, ..Default::default() });
    match RedirectUseCase::new(repo).redirect(&ShortUrl::new("go").unwrap()) {
        Err(DomainError::Other(m)) => assert_eq!(m, "Error de repositorio"),
        other => panic!("unexpected {other:?}"),
    }
}

#[test]
fn create_then_redirect_gives_the_url() {
    let repo = Arc::new(MemoryRepo::default());
    let id = create_use_case(&repo).create_or_claim(None, "https://j.example".to_string()).unwrap();
    assert_eq!(RedirectUseCase::new(repo).redirect(&id).unwrap(), "https://j.example");
}

#[test]
fn manage_lists_and_deletes() {
    let repo = Arc::new(MemoryRepo::with(vec![
        record("a1", Some("https://1"), 1, 0),
        record("a2", Some("https://2"), 1, 0),
        record("a3", None, 1, 0),
    ]));
    let uc = ManageUseCase::new(repo.clone());
    let listed = uc.list(2, 1).unwrap();
    assert_eq!(listed.iter().map(|r| r.id.as_str()).collect::<Vec<_>>(), vec!["a2", "a3"]);
    uc.delete(&ShortUrl::new("a2").unwrap()).unwrap();
    assert_eq!(repo.all().len(), 2);
}

#[test]
fn manage_reports_repository_failures() {
    let repo = Arc::new(MemoryRepo { fail_reads: true, fail_writes: true, ..Default::default() });
    let uc = ManageUseCase::new(repo);
    match uc.list(10, 0) {
        Err(DomainError::Other(m)) => assert_eq!(m, "Error al listar registros"),
        other => panic!("unexpected {other:?}"),
    }
    match uc.delete(&ShortUrl::new("a").unwrap()) {
        Err(DomainError::Other(m)) => assert_eq!(m, "Error al borrar el registro"),
        other => panic!("unexpected {other:?}"),
    }
}

#[test]
fn domain_error_messages() {
    assert_eq!(DomainError::NotFound.message(), "Not found");
    assert_eq!(DomainError::InvalidInput("x".into()).message(), "Invalid input: x");
    assert_eq!(DomainError::Unauthorized.message(), "Unauthorized");
    assert_eq!(DomainError::Conflict("y".into()).message(), "Conflict: y");
    assert_eq!(DomainError::Other("z".into()).message(), "Error: z");
}

#[test]
fn from_storage_passes_values_and_maps_failures() {
    assert_eq!(DomainError::from_storage::<u8>(Ok(3), "m").unwrap(), 3);
    match DomainError::from_storage::<u8>(Err(anyhow::Error::msg("boom")), "m") {
        Err(DomainError::Other(m)) => assert_eq!(m, "m"),
        other => panic!("unexpected {other:?}"),
    }
}
