use std::sync::{Arc, Mutex};

use chrono::NaiveDate;
use dwarfer::cli::{create_output, delete_output, list_line, list_output, run_command, CliCommand};
use dwarfer::error::DomainError;
use dwarfer::model::UrlRecord;
use dwarfer::repository::{UrlReader, UrlWriter};
use dwarfer::short_url::ShortUrl;
use dwarfer::use_cases::create::CreateUseCase;
use dwarfer::use_cases::manage::ManageUseCase;

#[derive(Default)]
struct Repo {
    records: Mutex<Vec<UrlRecord>>,
}

impl UrlReader for Repo {
    fn get_by_id(&self, id: &ShortUrl) -> Result<Option<UrlRecord>, anyhow::Error> {
        Ok(self.records.lock().unwrap().iter().find(|r| r.id == *id).cloned())
    }
    fn track_click(&self, _id: &ShortUrl) {}
}

impl UrlWriter for Repo {
    fn save(&self, record: &UrlRecord) -> Result<(), anyhow::Error> {
        self.records.lock().unwrap().push(record.clone());
        Ok(())
    }
    fn delete(&self, id: &ShortUrl) -> Result<(), anyhow::Error> {
        self.records.lock().unwrap().retain(|r| r.id != *id);
        Ok(())
    }
    fn list(&self, limit: usize, offset: usize) -> Result<Vec<UrlRecord>, anyhow::Error> {
        Ok(self.records.lock().unwrap().iter().skip(offset).take(limit).cloned().collect())
    }
}

fn record(id: &str, url: Option<&str>, clicks: i64) -> UrlRecord {
    UrlRecord {
        id: ShortUrl::new(id).unwrap(),
        long_url: url.map(|u| u.to_string()),
        created_at: NaiveDate::from_ymd_opt(2024, 1, 1).unwrap().and_hms_opt(0, 0, 0).unwrap(),
        clicks,
    }
}

#[test]
fn list_line_matches_the_format() {
    let rec = record("abc", Some("https://x"), 42);
    assert_eq!(list_line(&rec), format!("ID: {:<10} -> URL: {:<30} (Clicks: {})", "abc", "https://x", 42));
    let reserved = record("r", None, -7);
    assert_eq!(list_line(&reserved), format!("ID: {:<10} -> URL: {:<30} (Clicks: {})", "r", "", -7));
    let long = record(&"l".repeat(12), Some(&"u".repeat(40)), i64::MIN);
    assert_eq!(
        list_line(&long),
        format!("ID: {:<10} -> URL: {:<30} (Clicks: {})", "l".repeat(12), "u".repeat(40), i64::MIN)
    );
    let wide = record("w", Some("ünïcødé"), i64::MAX);
    assert_eq!(list_line(&wide), format!("ID: {:<10} -> URL: {:<30} (Clicks: {})", "w", "ünïcødé", i64::MAX));
    assert_eq!(list_line(&record("z", None, 0)), format!("ID: {:<10} -> URL: {:<30} (Clicks: {})", "z", "", 0));
}

#[test]
fn outputs_of_each_command() {
    let out = create_output(Ok(ShortUrl::new("abc").unwrap()));
    assert!(!out.is_error);
    assert_eq!(out.lines, vec!["ShortUrl creado: abc".to_string()]);
    let out = create_output(Err(DomainError::InvalidInput("ShortUrl inválido".into())));
    assert!(out.is_error);
    assert_eq!(out.lines, vec!["Error al crear: Invalid input: ShortUrl inválido".to_string()]);

    let out = list_output(Ok(vec![record("a", None, 1), record("b", Some("u"), 2)]));
    assert!(!out.is_error);
    assert_eq!(out.lines.len(), 2);
    assert_eq!(out.lines[1], list_line(&record("b", Some("u"), 2)));
    let out = list_output(Err(DomainError::Other("Error al listar registros".into())));
    assert_eq!(out.lines, vec!["Error al listar: Error: Error al listar registros".to_string()]);

    assert_eq!(delete_output(Ok(())).lines, vec!["ShortUrl eliminado.".to_string()]);
    let out = delete_output(Err(DomainError::NotFound));
    assert!(out.is_error);
    assert_eq!(out.lines, vec!["Error al eliminar: Not found".to_string()]);
}

#[test]
fn run_command_goes_through_the_use_cases() {
    let repo = Arc::new(Repo::default());
    let create = CreateUseCase::new(repo.clone(), repo.clone());
    let manage = ManageUseCase::new(repo.clone());

    let out = run_command(CliCommand::Create { url: "https://a".into(), id: Some("Abc".into()) }, &create, &manage);
    assert_eq!(out.lines, vec!["ShortUrl creado: abc".to_string()]);
    let out = run_command(CliCommand::Create { url: "https://b".into(), id: Some("abc".into()) }, &create, &manage);
    assert!(out.is_error);
    assert_eq!(out.lines, vec!["Error al crear: Conflict: ShortUrl ya en uso".to_string()]);

    let out = run_command(CliCommand::List { limit: 10, offset: 0 }, &create, &manage);
    assert_eq!(out.lines, vec![list_line(&repo.records.lock().unwrap()[0])]);

    let out = run_command(CliCommand::Delete { id: ShortUrl::new("abc").unwrap() }, &create, &manage);
    assert_eq!(out.lines, vec!["ShortUrl eliminado.".to_string()]);
    let out = run_command(CliCommand::List { limit: 10, offset: 0 }, &create, &manage);
    assert!(out.lines.is_empty());
}

#[test]
fn run_command_list_respects_the_limit() {
    let repo = Arc::new(Repo::default());
    let create = CreateUseCase::new(repo.clone(), repo.clone());
    let manage = ManageUseCase::new(repo.clone());
    for i in 0..5 {
        run_command(CliCommand::Create { url: "u".into(), id: Some(format!("k{i}")) }, &create, &manage);
    }
    let out = run_command(CliCommand::List { limit: 3, offset: 1 }, &create, &manage);
    assert_eq!(out.lines.len(), 3);
    let out = run_command(CliCommand::Create { url: "u".into(), id: None }, &create, &manage);
    assert!(out.lines[0].starts_with("ShortUrl creado: "));
    assert_eq!(out.lines[0].len(), "ShortUrl creado: ".len() + 6);
}
