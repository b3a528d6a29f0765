//! What the HTTP interface answers to each request, apart from the transport.

use vstd::prelude::*;
use crate::auth::{AuthenticationService, AuthorizationService, Principal, PrincipalView};
use crate::error::DomainError;
use crate::model::UrlRecord;
use crate::repository::{UrlReader, UrlWriter};
use crate::short_url::{ShortUrl, is_short_url_text, is_random_short_url_text, normalized};
use crate::use_cases::create::CreateUseCase;
use crate::use_cases::manage::ManageUseCase;
use crate::use_cases::redirect::RedirectUseCase;

verus! {

pub const STATUS_OK: u16 = 200;
pub const STATUS_CREATED: u16 = 201;
pub const STATUS_NO_CONTENT: u16 = 204;
pub const STATUS_TEMPORARY_REDIRECT: u16 = 307;
pub const STATUS_BAD_REQUEST: u16 = 400;
pub const STATUS_UNAUTHORIZED: u16 = 401;
pub const STATUS_FORBIDDEN: u16 = 403;
pub const STATUS_NOT_FOUND: u16 = 404;
pub const STATUS_INTERNAL_SERVER_ERROR: u16 = 500;

/// Header that carries the caller's API key.
pub const API_KEY_HEADER: &'static str = "X-API-KEY";

/// Number of identifiers that listing returns.
pub const LIST_LIMIT: usize = 100;

/// Body of a request that creates or claims a short identifier.
pub struct CreateRequest {
    pub url: String,
    pub id: Option<String>,
}

/// Body of a response.
pub enum ResponseBody {
    /// No body.
    Empty,
    /// A redirect to this URL.
    Location(String),
    /// This text as a JSON string.
    JsonText(String),
    /// These texts as a JSON array of strings.
    JsonTexts(Vec<String>),
    /// This plain text.
    Text(String),
}

/// A response: its status code and its body.
pub struct HttpResponse {
    pub status: u16,
    pub body: ResponseBody,
}

/// The contents of a `ResponseBody` as plain values.
pub enum ResponseBodyView {
    Empty,
    Location(Seq<char>),
    JsonText(Seq<char>),
    JsonTexts(Seq<Seq<char>>),
    Text(Seq<char>),
}

impl View for ResponseBody {
    type V = ResponseBodyView;

    open spec fn view(&self) -> ResponseBodyView {
        match self {
            ResponseBody::Empty => ResponseBodyView::Empty,
            ResponseBody::Location(s) => ResponseBodyView::Location(s@),
            ResponseBody::JsonText(s) => ResponseBodyView::JsonText(s@),
            ResponseBody::JsonTexts(v) => ResponseBodyView::JsonTexts(v.deep_view()),
            ResponseBody::Text(s) => ResponseBodyView::Text(s@),
        }
    }
}

/// A response with status `status` and no body.
fn status_only(status: u16) -> (r: HttpResponse)
    ensures
        r.status == status,
        r.body@ == ResponseBodyView::Empty,
{
    HttpResponse { status, body: ResponseBody::Empty }
}

/// The text of a token that may be absent.
pub open spec fn token_view(token: Option<&str>) -> Option<Seq<char>> {
    match token {
        Some(t) => Some(t@),
        None => None,
    }
}

/// The answer to the caller of `action`: 401 without a token or for a token that
/// the authentication service refuses; 403 when the authorization service refuses
/// the action to the token's principal; otherwise that principal.
pub open spec fn auth_answer<AS: AuthenticationService + ?Sized, AZ: AuthorizationService + ?Sized>(
    auth_service: &AS,
    auth_z_service: &AZ,
    token: Option<Seq<char>>,
    action: Seq<char>,
) -> Result<PrincipalView, u16> {
    match token {
        None => Err(STATUS_UNAUTHORIZED),
        Some(t) => if !auth_service.accepts(t) {
            Err(STATUS_UNAUTHORIZED)
        } else if !auth_z_service.permits(auth_service.principal_for(t), action) {
            Err(STATUS_FORBIDDEN)
        } else {
            Ok(auth_service.principal_for(t))
        },
    }
}

/// The view of the answer of `check_auth`.
pub open spec fn auth_view(r: Result<Principal, u16>) -> Result<PrincipalView, u16> {
    match r {
        Ok(p) => Ok(p@),
        Err(c) => Err(c),
    }
}

/// Checks the caller of `action`, as `auth_answer` describes it.
pub fn check_auth<AS: AuthenticationService + ?Sized, AZ: AuthorizationService + ?Sized>(
    auth_service: &AS,
    auth_z_service: &AZ,
    token: Option<&str>,
    action: &str,
) -> (r: Result<Principal, u16>)
    ensures
        auth_view(r) == auth_answer(auth_service, auth_z_service, token_view(token), action@),
{
    let token = match token {
        Some(t) => t,
        None => {
            return Err(STATUS_UNAUTHORIZED);
        },
    };
    let principal = match auth_service.authenticate(token) {
        Ok(p) => p,
        Err(_) => {
            return Err(STATUS_UNAUTHORIZED);
        },
    };
    match auth_z_service.authorize(&principal, action) {
        Ok(()) => Ok(principal),
        Err(_) => Err(STATUS_FORBIDDEN),
    }
}

/// The answer to a redirect: 307 to the URL, or 404 for any error.
pub fn redirect_reply(outcome: Result<String, DomainError>) -> (r: HttpResponse)
    ensures
        outcome is Ok ==> r.status == STATUS_TEMPORARY_REDIRECT && r.body@ == ResponseBodyView::Location(
            outcome->Ok_0@,
        ),
        outcome is Err ==> r.status == STATUS_NOT_FOUND && r.body@ == ResponseBodyView::Empty,
{
    match outcome {
        Ok(url) => HttpResponse { status: STATUS_TEMPORARY_REDIRECT, body: ResponseBody::Location(url) },
        Err(_) => status_only(STATUS_NOT_FOUND),
    }
}

/// The answer to `GET /{id}`: 400 for an identifier that is not valid, else
/// `redirect_reply` of the redirect use case's outcome.
pub fn redirect_response<RR: UrlReader + ?Sized + 'static>(
    redirect_use_case: &RedirectUseCase<RR>,
    id: &str,
) -> (r: HttpResponse)
    ensures
        !is_short_url_text(normalized(id@)) ==> r.status == STATUS_BAD_REQUEST && r.body@
            == ResponseBodyView::Empty,
        is_short_url_text(normalized(id@)) ==> (r.status == STATUS_TEMPORARY_REDIRECT && r.body@ is Location)
            || (r.status == STATUS_NOT_FOUND && r.body@ == ResponseBodyView::Empty),
        is_short_url_text(normalized(id@)) ==> exists|sid: ShortUrl, res: Result<String, DomainError>|
            #[trigger] call_ensures(RedirectUseCase::<RR>::redirect, (redirect_use_case, &sid), res) && sid@
                == normalized(id@) && (res is Ok ==> r.status == STATUS_TEMPORARY_REDIRECT && r.body@
                == ResponseBodyView::Location(res->Ok_0@)) && (res is Err ==> r.status == STATUS_NOT_FOUND),
{
    match ShortUrl::new(id) {
        Ok(short_id) => redirect_reply(redirect_use_case.redirect(&short_id)),
        Err(_) => status_only(STATUS_BAD_REQUEST),
    }
}

/// The answer to a creation: 201 with the identifier as a JSON string, or 400
/// with the error's message.
pub fn create_reply(outcome: Result<ShortUrl, DomainError>) -> (r: HttpResponse)
    ensures
        outcome is Ok ==> r.status == STATUS_CREATED && r.body@ == ResponseBodyView::JsonText(
            outcome->Ok_0@,
        ),
        outcome is Err ==> r.status == STATUS_BAD_REQUEST && r.body@ == ResponseBodyView::Text(
            outcome->Err_0.message_text(),
        ),
{
    match outcome {
        Ok(id) => HttpResponse { status: STATUS_CREATED, body: ResponseBody::JsonText(String::from_str(id.as_str())) },
        Err(e) => HttpResponse { status: STATUS_BAD_REQUEST, body: ResponseBody::Text(e.message()) },
    }
}

/// The answer to `POST /`: the refusal status when the caller may not `create`,
/// else `create_reply` of the creation use case's outcome.
pub fn create_response<
    RW: UrlWriter + ?Sized + 'static,
    RR: UrlReader + ?Sized + 'static,
    AS: AuthenticationService + ?Sized,
    AZ: AuthorizationService + ?Sized,
>(
    create_use_case: &CreateUseCase<RW, RR>,
    auth_service: &AS,
    auth_z_service: &AZ,
    token: Option<&str>,
    request: CreateRequest,
) -> (r: HttpResponse)
    ensures
        auth_answer(auth_service, auth_z_service, token_view(token), "create"@) matches Err(c) ==> r.status
            == c && r.body@ == ResponseBodyView::Empty,
        auth_answer(auth_service, auth_z_service, token_view(token), "create"@) is Ok ==> {
            &&& r.status == STATUS_CREATED || r.status == STATUS_BAD_REQUEST
            &&& (request.id matches Some(v) && !is_short_url_text(normalized(v@))) ==> (r.status
                == STATUS_BAD_REQUEST && r.body@ == ResponseBodyView::Text(
                "Invalid input: "@ + "ShortUrl inválido"@,
            ))
            &&& r.status == STATUS_CREATED ==> (r.body@ matches ResponseBodyView::JsonText(s) && match request.id {
                Some(v) => s == normalized(v@),
                None => is_random_short_url_text(s),
            })
            &&& r.status == STATUS_BAD_REQUEST ==> r.body@ is Text
            &&& exists|res: Result<ShortUrl, DomainError>|
                #[trigger] call_ensures(
                    CreateUseCase::<RW, RR>::create_or_claim,
                    (create_use_case, request.id, request.url),
                    res,
                ) && (res is Ok ==> r.status == STATUS_CREATED && r.body@ == ResponseBodyView::JsonText(
                    res->Ok_0@,
                )) && (res is Err ==> r.status == STATUS_BAD_REQUEST && r.body@ == ResponseBodyView::Text(
                    res->Err_0.message_text(),
                ))
        },
{
    if let Err(status) = check_auth(auth_service, auth_z_service, token, "create") {
        return status_only(status);
    }
    let outcome = create_use_case.create_or_claim(request.id, request.url);
    create_reply(outcome)
}

/// The identifiers of `records`, in order.
pub open spec fn ids_of(records: Seq<UrlRecord>) -> Seq<Seq<char>> {
    records.map_values(|rec: UrlRecord| rec.id@)
}

/// The answer to a listing: 200 with the identifiers as a JSON array, or 500.
pub fn list_reply(outcome: Result<Vec<UrlRecord>, DomainError>) -> (r: HttpResponse)
    ensures
        outcome is Ok ==> r.status == STATUS_OK && r.body@ == ResponseBodyView::JsonTexts(
            ids_of(outcome->Ok_0@),
        ),
        outcome is Err ==> r.status == STATUS_INTERNAL_SERVER_ERROR && r.body@ == ResponseBodyView::Empty,
{
    match outcome {
        Ok(list) => {
            let mut ids: Vec<String> = Vec::new();
            let mut i: usize = 0;
            while i < list.len()
                invariant
                    i <= list@.len(),
                    ids.deep_view() =~= ids_of(list@).take(i as int),
                decreases list@.len() - i,
            {
                let id = String::from_str(list[i].id.as_str());
                let ghost before = ids.deep_view();
                ids.push(id);
                assert(ids.deep_view() =~= before.push(list@[i as int].id@));
                assert(ids_of(list@).take(i + 1) =~= ids_of(list@).take(i as int).push(list@[i as int].id@));
                i = i + 1;
            }
            assert(ids_of(list@).take(list@.len() as int) =~= ids_of(list@));
            HttpResponse { status: STATUS_OK, body: ResponseBody::JsonTexts(ids) }
        },
        Err(_) => status_only(STATUS_INTERNAL_SERVER_ERROR),
    }
}

/// The answer to `GET /`: the refusal status when the caller may not `list`,
/// else `list_reply` of the first 100 records.
pub fn list_response<W: UrlWriter + ?Sized + 'static, AS: AuthenticationService + ?Sized, AZ: AuthorizationService + ?Sized>(
    manage_use_case: &ManageUseCase<W>,
    auth_service: &AS,
    auth_z_service: &AZ,
    token: Option<&str>,
) -> (r: HttpResponse)
    ensures
        auth_answer(auth_service, auth_z_service, token_view(token), "list"@) matches Err(c) ==> r.status == c
            && r.body@ == ResponseBodyView::Empty,
        auth_answer(auth_service, auth_z_service, token_view(token), "list"@) is Ok ==> exists|
            res: Result<Vec<UrlRecord>, DomainError>,
        |
            #[trigger] call_ensures(ManageUseCase::<W>::list, (manage_use_case, LIST_LIMIT, 0usize), res) && (
            res is Ok ==> r.status == STATUS_OK && r.body@ == ResponseBodyView::JsonTexts(ids_of(res->Ok_0@)))
                && (res is Err ==> r.status == STATUS_INTERNAL_SERVER_ERROR),
        auth_answer(auth_service, auth_z_service, token_view(token), "list"@) is Ok ==> (r.status == STATUS_OK
            && (r.body@ matches ResponseBodyView::JsonTexts(ids) && ids.len() <= LIST_LIMIT)) || (r.status
            == STATUS_INTERNAL_SERVER_ERROR && r.body@ == ResponseBodyView::Empty),
{
    if let Err(status) = check_auth(auth_service, auth_z_service, token, "list") {
        return status_only(status);
    }
    list_reply(manage_use_case.list(LIST_LIMIT, 0))
}

/// The answer to a removal: 204, or 500.
pub fn delete_reply(outcome: Result<(), DomainError>) -> (r: HttpResponse)
    ensures
        outcome is Ok ==> r.status == STATUS_NO_CONTENT && r.body@ == ResponseBodyView::Empty,
        outcome is Err ==> r.status == STATUS_INTERNAL_SERVER_ERROR && r.body@ == ResponseBodyView::Empty,
{
    match outcome {
        Ok(()) => status_only(STATUS_NO_CONTENT),
        Err(_) => status_only(STATUS_INTERNAL_SERVER_ERROR),
    }
}

/// The answer to `DELETE /{id}`: the refusal status when the caller may not
/// `delete`, 400 for an identifier that is not valid, else `delete_reply` of the
/// removal.
pub fn delete_response<W: UrlWriter + ?Sized + 'static, AS: AuthenticationService + ?Sized, AZ: AuthorizationService + ?Sized>(
    manage_use_case: &ManageUseCase<W>,
    auth_service: &AS,
    auth_z_service: &AZ,
    token: Option<&str>,
    id: &str,
) -> (r: HttpResponse)
    ensures
        r.body@ == ResponseBodyView::Empty,
        auth_answer(auth_service, auth_z_service, token_view(token), "delete"@) matches Err(c) ==> r.status
            == c,
        auth_answer(auth_service, auth_z_service, token_view(token), "delete"@) is Ok ==> {
            &&& !is_short_url_text(normalized(id@)) ==> r.status == STATUS_BAD_REQUEST
            &&& is_short_url_text(normalized(id@)) ==> exists|sid: ShortUrl, res: Result<(), DomainError>|
                #[trigger] call_ensures(ManageUseCase::<W>::delete, (manage_use_case, &sid), res) && sid@
                    == normalized(id@) && (res is Ok ==> r.status == STATUS_NO_CONTENT) && (res is Err
                    ==> r.status == STATUS_INTERNAL_SERVER_ERROR)
        },
{
    if let Err(status) = check_auth(auth_service, auth_z_service, token, "delete") {
        return status_only(status);
    }
    match ShortUrl::new(id) {
        Ok(short_id) => delete_reply(manage_use_case.delete(&short_id)),
        Err(_) => status_only(STATUS_BAD_REQUEST),
    }
}

} // verus!
