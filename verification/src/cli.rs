//! What the command line does for each command, apart from parsing and printing.

use vstd::prelude::*;
use crate::error::DomainError;
use crate::model::{UrlRecord, UrlRecordView};
use crate::repository::{UrlReader, UrlWriter};
use crate::short_url::{ShortUrl, is_short_url_text, is_random_short_url_text, normalized};
use crate::use_cases::create::CreateUseCase;
use crate::use_cases::manage::ManageUseCase;

verus! {

/// A command of the command line that works on stored records.
pub enum CliCommand {
    /// Creates or claims a short identifier for `url`.
    Create { url: String, id: Option<String> },
    /// Lists stored records.
    List { limit: usize, offset: usize },
    /// Removes the record of `id`.
    Delete { id: ShortUrl },
}

/// Lines to print, on standard output or, for a failure, on standard error.
pub struct CliOutput {
    pub lines: Vec<String>,
    pub is_error: bool,
}

/// Calls `String::push`, which appends `c` to the end of the string.
#[verifier::external_body]
fn push_char(s: &mut String, c: char)
    ensures
        final(s)@ == old(s)@.push(c),
{
    s.push(c);
}

/// The character of the decimal digit `d`.
pub open spec fn digit_char(d: nat) -> char {
    (d + 48) as char
}

/// The decimal digits of `n`, without leading zeros.
pub open spec fn decimal_digits(n: nat) -> Seq<char>
    decreases n,
{
    if n < 10 {
        seq![digit_char(n)]
    } else {
        decimal_digits(n / 10).push(digit_char(n % 10))
    }
}

/// `n` written in decimal, with a leading `-` when negative.
pub open spec fn decimal_text(n: int) -> Seq<char> {
    if n < 0 {
        seq!['-'] + decimal_digits((-n) as nat)
    } else {
        decimal_digits(n as nat)
    }
}

fn push_decimal_digits(out: &mut String, n: u64)
    ensures
        final(out)@ == old(out)@ + decimal_digits(n as nat),
    decreases n,
{
    if n >= 10 {
        push_decimal_digits(out, n / 10);
    }
    let d: u8 = (n % 10) as u8;
    let c: char = (d + 48) as char;
    assert(c == digit_char((n % 10) as nat));
    push_char(out, c);
}

/// Appends `n` written in decimal.
fn push_decimal(out: &mut String, n: i64)
    ensures
        final(out)@ == old(out)@ + decimal_text(n as int),
{
    if n < 0 {
        push_char(out, '-');
        let magnitude: u64 = (0i128 - n as i128) as u64;
        push_decimal_digits(out, magnitude);
        assert(out@ =~= old(out)@ + decimal_text(n as int));
    } else {
        push_decimal_digits(out, n as u64);
    }
}

/// `s` followed by spaces up to `width` characters.
pub open spec fn pad_right(s: Seq<char>, width: nat) -> Seq<char> {
    if s.len() >= width {
        s
    } else {
        s + Seq::new((width - s.len()) as nat, |i: int| ' ')
    }
}

/// Appends `s` followed by spaces up to `width` characters.
fn push_padded(out: &mut String, s: &str, width: usize)
    ensures
        final(out)@ == old(out)@ + pad_right(s@, width as nat),
{
    out.append(s);
    let len = s.unicode_len();
    if len < width {
        let mut k: usize = len;
        while k < width
            invariant
                len == s@.len(),
                len <= k <= width,
                out@ == old(out)@ + s@ + Seq::new((k - len) as nat, |i: int| ' '),
            decreases width - k,
        {
            push_char(out, ' ');
            k = k + 1;
            assert(out@ =~= old(out)@ + s@ + Seq::new((k - len) as nat, |i: int| ' '));
        }
    }
    assert(out@ =~= old(out)@ + pad_right(s@, width as nat));
}

/// Width of the identifier column of a listed record.
pub const LIST_ID_WIDTH: usize = 10;

/// Width of the URL column of a listed record.
pub const LIST_URL_WIDTH: usize = 30;

/// The URL of a record, or the empty text for a reservation.
pub open spec fn url_or_empty(long_url: Option<Seq<char>>) -> Seq<char> {
    match long_url {
        Some(u) => u,
        None => Seq::empty(),
    }
}

/// The line that lists `rec`: `ID: {id:<10} -> URL: {url:<30} (Clicks: {clicks})`.
pub open spec fn list_line_text(rec: UrlRecordView) -> Seq<char> {
    "ID: "@ + pad_right(rec.id, LIST_ID_WIDTH as nat) + " -> URL: "@ + pad_right(
        url_or_empty(rec.long_url),
        LIST_URL_WIDTH as nat,
    ) + " (Clicks: "@ + decimal_text(rec.clicks as int) + ")"@
}

/// The line that lists `rec`, as `list_line_text` describes it.
pub fn list_line(rec: &UrlRecord) -> (r: String)
    ensures
        r@ == list_line_text(rec@),
{
    let mut line = String::from_str("ID: ");
    push_padded(&mut line, rec.id.as_str(), LIST_ID_WIDTH);
    line.append(" -> URL: ");
    match &rec.long_url {
        Some(u) => push_padded(&mut line, u.as_str(), LIST_URL_WIDTH),
        None => {
            proof {
                reveal_strlit("");
            }
            push_padded(&mut line, "", LIST_URL_WIDTH);
        },
    }
    line.append(" (Clicks: ");
    push_decimal(&mut line, rec.clicks);
    line.append(")");
    assert(line@ =~= list_line_text(rec@));
    line
}

/// `prefix` followed by the message of `e`.
fn error_line(prefix: &str, e: &DomainError) -> (r: String)
    ensures
        r@ == prefix@ + e.message_text(),
{
    let mut line = String::from_str(prefix);
    let message = e.message();
    line.append(message.as_str());
    line
}

/// What `create` prints: `ShortUrl creado: {id}`, or `Error al crear: {error}`
/// on standard error.
pub fn create_output(outcome: Result<ShortUrl, DomainError>) -> (r: CliOutput)
    ensures
        r.is_error == outcome is Err,
        r.lines.deep_view() == seq![
            match outcome {
                Ok(id) => "ShortUrl creado: "@ + id@,
                Err(e) => "Error al crear: "@ + e.message_text(),
            },
        ],
{
    match outcome {
        Ok(id) => {
            let mut line = String::from_str("ShortUrl creado: ");
            line.append(id.as_str());
            let lines = vec![line];
            assert(lines.deep_view() =~= seq![line@]);
            CliOutput { lines, is_error: false }
        },
        Err(e) => {
            let lines = vec![error_line("Error al crear: ", &e)];
            assert(lines.deep_view() =~= seq![lines@[0]@]);
            CliOutput { lines, is_error: true }
        },
    }
}

/// What `list` prints: one `list_line` per record, or `Error al listar: {error}`
/// on standard error.
pub fn list_output(outcome: Result<Vec<UrlRecord>, DomainError>) -> (r: CliOutput)
    ensures
        r.is_error == outcome is Err,
        outcome matches Ok(list) ==> r.lines.deep_view() == list@.map_values(
            |rec: UrlRecord| list_line_text(rec@),
        ),
        outcome matches Err(e) ==> r.lines.deep_view() == seq!["Error al listar: "@ + e.message_text()],
{
    match outcome {
        Ok(list) => {
            let mut lines: Vec<String> = Vec::new();
            let mut i: usize = 0;
            while i < list.len()
                invariant
                    i <= list@.len(),
                    lines.deep_view() =~= list@.map_values(|rec: UrlRecord| list_line_text(rec@)).take(
                        i as int,
                    ),
                decreases list@.len() - i,
            {
                let line = list_line(&list[i]);
                let ghost before = lines.deep_view();
                lines.push(line);
                assert(lines.deep_view() =~= before.push(list_line_text(list@[i as int]@)));
                i = i + 1;
            }
            assert(list@.map_values(|rec: UrlRecord| list_line_text(rec@)).take(list@.len() as int)
                =~= list@.map_values(|rec: UrlRecord| list_line_text(rec@)));
            CliOutput { lines, is_error: false }
        },
        Err(e) => {
            let lines = vec![error_line("Error al listar: ", &e)];
            assert(lines.deep_view() =~= seq![lines@[0]@]);
            CliOutput { lines, is_error: true }
        },
    }
}

/// What `delete` prints: `ShortUrl eliminado.`, or `Error al eliminar: {error}`
/// on standard error.
pub fn delete_output(outcome: Result<(), DomainError>) -> (r: CliOutput)
    ensures
        r.is_error == outcome is Err,
        r.lines.deep_view() == seq![
            match outcome {
                Ok(_) => "ShortUrl eliminado."@,
                Err(e) => "Error al eliminar: "@ + e.message_text(),
            },
        ],
{
    match outcome {
        Ok(()) => {
            let lines = vec![String::from_str("ShortUrl eliminado.")];
            assert(lines.deep_view() =~= seq![lines@[0]@]);
            CliOutput { lines, is_error: false }
        },
        Err(e) => {
            let lines = vec![error_line("Error al eliminar: ", &e)];
            assert(lines.deep_view() =~= seq![lines@[0]@]);
            CliOutput { lines, is_error: true }
        },
    }
}

/// The identifier that a `Create` command asks for.
pub open spec fn requested_id(command: CliCommand) -> Option<Seq<char>> {
    match command {
        CliCommand::Create { id, .. } => match id {
            Some(v) => Some(v@),
            None => None,
        },
        _ => None,
    }
}

/// Whether `t` is the identifier that creating with `requested` gives: the
/// normalized request, or a random identifier when none was asked for.
pub open spec fn is_created_id(requested: Option<Seq<char>>, t: Seq<char>) -> bool {
    match requested {
        Some(v) => t == normalized(v),
        None => is_random_short_url_text(t),
    }
}

/// Runs `command` through the use cases and gives what to print, as
/// `create_output`, `list_output` and `delete_output` describe it.
pub fn run_command<RW: UrlWriter + ?Sized + 'static, RR: UrlReader + ?Sized + 'static>(
    command: CliCommand,
    create_use_case: &CreateUseCase<RW, RR>,
    manage_use_case: &ManageUseCase<RW>,
) -> (r: CliOutput)
    ensures
        command is Create || command is Delete || r.is_error ==> r.lines.deep_view().len() == 1,
        command matches CliCommand::Create { id, .. } && id matches Some(v) && !is_short_url_text(
            normalized(v@),
        ) ==> r.is_error && r.lines.deep_view()[0] == "Error al crear: "@ + ("Invalid input: "@
            + "ShortUrl inválido"@),
        command is Delete && !r.is_error ==> r.lines.deep_view()[0] == "ShortUrl eliminado."@,
        command is Delete && r.is_error ==> r.lines.deep_view()[0] == "Error al eliminar: "@ + (
        "Error: "@ + "Error al borrar el registro"@),
        command is List && r.is_error ==> r.lines.deep_view()[0] == "Error al listar: "@ + ("Error: "@
            + "Error al listar registros"@),
        command is List && !r.is_error ==> r.lines.deep_view().len() <= command->limit,
        command is Create ==> exists|res: Result<ShortUrl, DomainError>|
            #[trigger] call_ensures(
                CreateUseCase::<RW, RR>::create_or_claim,
                (create_use_case, command->Create_id, command->url),
                res,
            ) && r.is_error == res is Err,
        command is Delete ==> exists|res: Result<(), DomainError>|
            #[trigger] call_ensures(ManageUseCase::<RW>::delete, (manage_use_case, &command->Delete_id), res)
                && r.is_error == res is Err,
        command is List ==> exists|res: Result<Vec<UrlRecord>, DomainError>|
            #[trigger] call_ensures(
                ManageUseCase::<RW>::list,
                (manage_use_case, command->limit, command->offset),
                res,
            ) && r.is_error == res is Err && (res is Ok ==> r.lines.deep_view() == res->Ok_0@.map_values(
                |rec: UrlRecord| list_line_text(rec@),
            )),
        command is Create && !r.is_error ==> exists|t: Seq<char>|
            r.lines.deep_view()[0] == "ShortUrl creado: "@ + t && is_created_id(requested_id(command), t),
{
    match command {
        CliCommand::Create { url, id } => create_output(create_use_case.create_or_claim(id, url)),
        CliCommand::List { limit, offset } => list_output(manage_use_case.list(limit, offset)),
        CliCommand::Delete { id } => delete_output(manage_use_case.delete(&id)),
    }
}

} // verus!
