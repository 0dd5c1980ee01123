//! The per-call decisions of the client: the immutable configuration, the
//! URL of each endpoint, and the classifier that maps a raw transport
//! outcome onto the error currency.
//!
//! The network itself stays outside: whatever issues the GET hands the
//! classifier a plain status and body (or the status, canonical reason and
//! detail of a transport failure) and takes plain values back.

use vstd::prelude::*;
use crate::common::WallpaperType;
use crate::common::wallpaper_type_wire;
use crate::error::ErrorResponse;
use crate::get_wallpaper::GetWallpaperResponse;
use crate::text::dec_of;
use crate::text::u64_dec;
use crate::wallpaper::Wallpaper;

verus! {

/// The fixed production origin of the service.
pub open spec fn default_base_url() -> Seq<char> {
    "https://api.digitalblasphemy.com"@
}

/// The `Authorization` header value derived from an API key.
pub open spec fn bearer_of(key: Seq<char>) -> Seq<char> {
    "Bearer "@ + key
}

/// The immutable configuration a client carries: the ready `Authorization`
/// header value and the base URL. No call mutates it.
#[derive(Debug, Clone)]
pub struct ClientConfig {
    pub authorization: String,
    pub base_url: String,
}

impl ClientConfig {
    /// A configuration for the production origin.
    pub fn new(api_key: String) -> (r: ClientConfig)
        ensures
            r.authorization@ == bearer_of(api_key@),
            r.base_url@ == default_base_url(),
    {
        let mut authorization = "Bearer ".to_owned();
        authorization.append(api_key.as_str());
        ClientConfig { authorization, base_url: "https://api.digitalblasphemy.com".to_owned() }
    }

    /// A configuration against another origin; meant for testing only.
    pub fn with_base_url(api_key: String, base_url: String) -> (r: ClientConfig)
        ensures
            r.authorization@ == bearer_of(api_key@),
            r.base_url == base_url,
    {
        let mut authorization = "Bearer ".to_owned();
        authorization.append(api_key.as_str());
        ClientConfig { authorization, base_url }
    }
}

/// The URL of the account-information endpoint.
pub open spec fn account_url_of(base: Seq<char>) -> Seq<char> {
    base + "/v2/core/account"@
}

/// The URL of the listing endpoint.
pub open spec fn wallpapers_url_of(base: Seq<char>) -> Seq<char> {
    base + "/v2/core/wallpapers"@
}

/// The URL of the single-wallpaper endpoint for a wallpaper ID.
pub open spec fn wallpaper_url_of(base: Seq<char>, wallpaper_id: nat) -> Seq<char> {
    base + "/v2/core/wallpaper/"@ + dec_of(wallpaper_id)
}

/// The URL of the download endpoint for a type, a size and a wallpaper ID.
pub open spec fn download_url_of(
    base: Seq<char>,
    wallpaper_type: WallpaperType,
    width: nat,
    height: nat,
    wallpaper_id: nat,
) -> Seq<char> {
    base + "/v2/core/download/wallpaper/"@ + wallpaper_type_wire(wallpaper_type) + "/"@ + dec_of(
        width,
    ) + "/"@ + dec_of(height) + "/"@ + dec_of(wallpaper_id)
}

/// Builds the account-information URL.
pub fn account_url(base: &str) -> (r: String)
    ensures
        r@ == account_url_of(base@),
{
    let mut url = base.to_owned();
    url.append("/v2/core/account");
    url
}

/// Builds the listing URL.
pub fn wallpapers_url(base: &str) -> (r: String)
    ensures
        r@ == wallpapers_url_of(base@),
{
    let mut url = base.to_owned();
    url.append("/v2/core/wallpapers");
    url
}

/// Builds the single-wallpaper URL.
pub fn wallpaper_url(base: &str, wallpaper_id: u16) -> (r: String)
    ensures
        r@ == wallpaper_url_of(base@, wallpaper_id as nat),
{
    let mut url = base.to_owned();
    url.append("/v2/core/wallpaper/");
    let id_text = u64_dec(wallpaper_id as u64);
    url.append(id_text.as_str());
    url
}

/// Builds the download URL.
pub fn download_url(
    base: &str,
    wallpaper_type: &WallpaperType,
    width: u16,
    height: u16,
    wallpaper_id: u16,
) -> (r: String)
    ensures
        r@ == download_url_of(
            base@,
            *wallpaper_type,
            width as nat,
            height as nat,
            wallpaper_id as nat,
        ),
{
    let mut url = base.to_owned();
    url.append("/v2/core/download/wallpaper/");
    url.append(wallpaper_type.as_str());
    url.append("/");
    let width_text = u64_dec(width as u64);
    url.append(width_text.as_str());
    url.append("/");
    let height_text = u64_dec(height as u64);
    url.append(height_text.as_str());
    url.append("/");
    let id_text = u64_dec(wallpaper_id as u64);
    url.append(id_text.as_str());
    url
}

/// What one fetch came back as, freed of the HTTP library's types: either a
/// transport failure that still exposed an HTTP status, or a response with
/// its status and body text.
#[derive(Debug, Clone)]
pub enum FetchOutcome {
    /// The transport failed before a usable response arrived, but an HTTP
    /// status could be extracted: its numeric status, its canonical reason
    /// text, and the underlying error's own description.
    Transport { status: u16, reason: String, detail: String },
    /// A response arrived with this status code and body text.
    Response { status: u16, body: String },
}

/// What to do with one fetch outcome.
#[derive(Debug, Clone)]
pub enum Classified {
    /// A success status: decode `body` as the operation's response type.
    Success { body: String },
    /// A failure whose report is already assembled.
    Failure { error: ErrorResponse },
    /// A failure status other than 404: the body itself carries the report
    /// and must be decoded as an [`ErrorResponse`].
    DecodeErrorBody { body: String },
}

/// Whether an HTTP status is a success (the 2xx range).
pub open spec fn is_success_status(status: u16) -> bool {
    200 <= status < 300
}

/// Classifies one fetch outcome, the decision table of every operation:
/// a transport failure becomes an error report carrying its status, reason
/// and detail; a 404 response becomes an error report with the body as the
/// sole detail string; any other non-success response has its body decoded
/// as the report itself; a success response proceeds to the body decode.
pub fn classify_outcome(outcome: FetchOutcome) -> (c: Classified)
    ensures
        (match outcome {
            FetchOutcome::Transport { status, reason, detail } => {
                &&& c matches Classified::Failure { error }
                &&& error.code == status as u64
                &&& error.description == reason
                &&& error.errors matches Some(es)
                &&& es@.len() == 1
                &&& es@[0] == detail
            },
            FetchOutcome::Response { status, body } => {
                if is_success_status(status) {
                    c == (Classified::Success { body })
                } else if status == 404 {
                    &&& c matches Classified::Failure { error }
                    &&& error.code == 404
                    &&& error.description@ == "Not Found"@
                    &&& error.errors matches Some(es)
                    &&& es@.len() == 1
                    &&& es@[0] == body
                } else {
                    c == (Classified::DecodeErrorBody { body })
                }
            },
        }),
{
    match outcome {
        FetchOutcome::Transport { status, reason, detail } => {
            let mut es: Vec<String> = Vec::new();
            es.push(detail);
            Classified::Failure {
                error: ErrorResponse { code: status as u64, description: reason, errors: Some(es) },
            }
        },
        FetchOutcome::Response { status, body } => {
            if 200 <= status && status < 300 {
                Classified::Success { body }
            } else if status == 404 {
                let mut es: Vec<String> = Vec::new();
                es.push(body);
                Classified::Failure {
                    error: ErrorResponse {
                        code: 404,
                        description: "Not Found".to_owned(),
                        errors: Some(es),
                    },
                }
            } else {
                Classified::DecodeErrorBody { body }
            }
        },
    }
}

impl GetWallpaperResponse {
    /// The wallpaper of a successful lookup: absent is the server's normal
    /// "not found" answer, not an error.
    pub fn into_wallpaper(self) -> (r: Option<Wallpaper>)
        ensures
            r == self.wallpaper,
    {
        self.wallpaper
    }
}

} // verus!
