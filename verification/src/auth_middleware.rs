//! The decisions of the API's authentication middleware: what the
//! `Authorization` and `X-On-Behalf-Of` headers make of a caller, and which
//! callers each route guard lets through.

use vstd::prelude::*;
use crate::auth::{ApiError, AuthError, AuthStore, Authenticator, SecretApiKey, parse_secret_key, record_accepts, StoredApiKey,
    authentication_outcome};
use crate::strings::{first_index_of, lemma_first_index_of, char_position, chars_of, substring, owned,
    same_text};

verus! {

/// The header an admin names the project it acts for in.
pub const ON_BEHALF_OF_HEADER_NAME: &'static str = "X-On-Behalf-Of";

/// The configuration of the API service.
pub struct ApiSvcConfig {
    pub address: String,
    pub port: u16,
    pub database_uri: String,
    /// The admin keys. Only whether a key is among them is read, so a key
    /// listed twice counts as once (the configuration loader lists each once).
    pub admin_api_keys: Vec<String>,
    pub log_request_body: bool,
    pub log_response_body: bool,
}

/// The part of the application state the authentication middleware reads.
pub struct AuthenticationState<S> {
    pub authenticator: Authenticator<S>,
    pub config: ApiSvcConfig,
}

impl<S> AuthenticationState<S> {
    pub fn new(authenticator: Authenticator<S>, config: ApiSvcConfig) -> (st: AuthenticationState<S>)
        ensures
            st.authenticator == authenticator,
            st.config == config,
    {
        AuthenticationState { authenticator, config }
    }
}

/// Who the caller is.
pub enum AuthenticationStatus {
    Unauthenticated,
    /// A project's own key.
    Authenticated(String),
    /// An admin key, possibly acting on behalf of a project.
    Admin(Option<String>),
}

impl AuthenticationStatus {
    /// The project the request acts for, if any.
    pub open spec fn spec_project_id(&self) -> Option<String> {
        match self {
            AuthenticationStatus::Authenticated(p) => Some(*p),
            AuthenticationStatus::Admin(Some(p)) => Some(*p),
            _ => None,
        }
    }

    pub fn project_id(&self) -> (p: Option<String>)
        ensures
            p == self.spec_project_id(),
    {
        match self {
            AuthenticationStatus::Authenticated(p) => Some(p.clone()),
            AuthenticationStatus::Admin(Some(p)) => Some(p.clone()),
            _ => None,
        }
    }
}

/// The text of the error for an `Authorization` header that is not of the
/// form `Bearer <key>`.
pub open spec fn malformed_header_message() -> Seq<char> {
    "Authentication header is malformed, please use `Authorization: Bearer sk_...`"@
}

/// What the `Authorization` header yields: no key when it is missing or
/// empty, the text after the first space when the text before it is
/// `Bearer`, and an error otherwise.
pub open spec fn auth_key_of(header: Option<Seq<char>>) -> Result<Option<Seq<char>>, ()> {
    match header {
        None => Ok(None),
        Some(h) => if h.len() == 0 {
            Ok(None)
        } else {
            match first_index_of(h, ' ') {
                Some(i) => if h.take(i) == "Bearer"@ {
                    Ok(Some(h.skip(i + 1)))
                } else {
                    Err(())
                },
                None => Err(()),
            }
        },
    }
}

/// Reads the user-provided key from the `Authorization` header (given as
/// text; a header that is not visible ASCII counts as missing).
pub fn get_auth_key(authorization: Option<&str>) -> (r: Result<Option<String>, ApiError>)
    ensures
        match auth_key_of(
            match authorization {
                Some(h) => Some(h@),
                None => None,
            },
        ) {
            Ok(None) => r matches Ok(None),
            Ok(Some(k)) => r matches Ok(Some(key)) && key@ == k,
            Err(_) => r matches Err(ApiError::BadRequest(msg)) && msg@ == malformed_header_message(),
        },
{
    let header = match authorization {
        Some(h) => h,
        None => {
            return Ok(None);
        },
    };
    let v = chars_of(header);
    if v.len() == 0 {
        return Ok(None);
    }
    proof {
        lemma_first_index_of(header@, ' ');
        reveal_strlit("Bearer");
    }
    match char_position(header, ' ') {
        Some(i) => {
            let name = substring(&v, 0, i);
            assert(name@ == header@.take(i as int));
            if same_text(name.as_str(), "Bearer") {
                let content = substring(&v, i + 1, v.len());
                assert(content@ == header@.skip(i + 1));
                Ok(Some(content))
            } else {
                Err(ApiError::BadRequest(owned(
                    "Authentication header is malformed, please use `Authorization: Bearer sk_...`",
                )))
            }
        },
        None => Err(ApiError::BadRequest(owned(
            "Authentication header is malformed, please use `Authorization: Bearer sk_...`",
        ))),
    }
}

/// The `X-On-Behalf-Of` header as the transport layer read it.
pub enum OnBehalfOf {
    Absent,
    /// The header is not a visible-ASCII string.
    NotText,
    /// The header names no valid project id.
    Invalid,
    /// A valid project id.
    Project(String),
}

/// What the headers decide, before the key store is asked.
pub enum AuthStep {
    /// The caller's status is known.
    Done(AuthenticationStatus),
    /// The key must be checked against the key store.
    Verify(SecretApiKey),
}

/// Whether a list of strings holds a text.
pub open spec fn holds_text(list: Seq<String>, s: Seq<char>) -> bool {
    exists|i: int| 0 <= i < list.len() && list[i]@ == s
}

fn list_holds(list: &Vec<String>, s: &str) -> (r: bool)
    ensures
        r == holds_text(list@, s@),
{
    let mut i: usize = 0;
    while i < list.len()
        invariant
            i <= list@.len(),
            forall|j: int| 0 <= j < i ==> list@[j]@ != s@,
        decreases list@.len() - i,
    {
        if same_text(list[i].as_str(), s) {
            return true;
        }
        i = i + 1;
    }
    false
}

/// Decides who the caller is from the `Authorization` and `X-On-Behalf-Of`
/// headers: no key makes it unauthenticated; an admin key makes it an admin,
/// acting for the project the second header names; any other key that
/// parses must be checked against the key store, and one that does not
/// parse leaves the caller unauthenticated. A malformed `Authorization`
/// header, and for an admin an unreadable or invalid `X-On-Behalf-Of`
/// header, are bad requests; whether the key store fails is decided later
/// (see `get_auth_status`).
pub fn get_auth_status_step(authorization: Option<&str>, on_behalf_of: OnBehalfOf, config: &ApiSvcConfig) -> (r:
    Result<AuthStep, ApiError>)
    ensures
        match auth_key_of(
            match authorization {
                Some(h) => Some(h@),
                None => None,
            },
        ) {
            Err(_) => r matches Err(ApiError::BadRequest(msg)) && msg@ == malformed_header_message(),
            Ok(None) => r matches Ok(AuthStep::Done(AuthenticationStatus::Unauthenticated)),
            Ok(Some(k)) => if holds_text(config.admin_api_keys@, k) {
                match on_behalf_of {
                    OnBehalfOf::Absent => r matches Ok(AuthStep::Done(AuthenticationStatus::Admin(None))),
                    OnBehalfOf::NotText => r matches Err(ApiError::BadRequest(msg)) && msg@
                        == "X-On-Behalf-Of header is not a valid UTF-8 string"@,
                    OnBehalfOf::Invalid => r matches Err(ApiError::BadRequest(msg)) && msg@
                        == "Invalid project id in X-On-Behalf-Of header"@,
                    OnBehalfOf::Project(p) => r == Ok::<AuthStep, ApiError>(
                        AuthStep::Done(AuthenticationStatus::Admin(Some(p))),
                    ),
                }
            } else {
                match parse_secret_key(k) {
                    None => r matches Ok(AuthStep::Done(AuthenticationStatus::Unauthenticated)),
                    Some((id, secret)) => r matches Ok(AuthStep::Verify(key)) && key.spec_key_id() == id
                        && key.spec_secret() == secret,
                }
            },
        },
{
    let auth_key = match get_auth_key(authorization) {
        Ok(Some(k)) => k,
        Ok(None) => {
            return Ok(AuthStep::Done(AuthenticationStatus::Unauthenticated));
        },
        Err(e) => {
            return Err(e);
        },
    };
    if list_holds(&config.admin_api_keys, auth_key.as_str()) {
        return match on_behalf_of {
            OnBehalfOf::Absent => Ok(AuthStep::Done(AuthenticationStatus::Admin(None))),
            OnBehalfOf::NotText => Err(ApiError::BadRequest(owned(
                "X-On-Behalf-Of header is not a valid UTF-8 string",
            ))),
            OnBehalfOf::Invalid => Err(ApiError::BadRequest(owned(
                "Invalid project id in X-On-Behalf-Of header",
            ))),
            OnBehalfOf::Project(p) => Ok(AuthStep::Done(AuthenticationStatus::Admin(Some(p)))),
        };
    }
    match SecretApiKey::from_str(auth_key.as_str()) {
        Ok(key) => Ok(AuthStep::Verify(key)),
        Err(_) => Ok(AuthStep::Done(AuthenticationStatus::Unauthenticated)),
    }
}

/// The caller's status for the verdict on its key: the key's project when
/// it was accepted, else unauthenticated. A key that could not be checked
/// (the key store failed, or the record has an unknown hash version) is
/// not accepted: the middleware fails only on malformed headers.
pub open spec fn status_for_verdict(verdict: Result<String, AuthError>, r: Result<AuthenticationStatus, ApiError>) -> bool {
    match verdict {
        Ok(p) => r == Ok::<AuthenticationStatus, ApiError>(AuthenticationStatus::Authenticated(p)),
        Err(_) => r matches Ok(AuthenticationStatus::Unauthenticated),
    }
}

/// Turns the key store's verdict on a key into the caller's status: a
/// project, or unauthenticated when the key was refused or could not be
/// checked.
pub fn get_auth_status_finish(result: Result<String, AuthError>) -> (r: Result<
    AuthenticationStatus,
    ApiError,
>)
    ensures
        status_for_verdict(result, r),
{
    match result {
        Ok(project_id) => Ok(AuthenticationStatus::Authenticated(project_id)),
        Err(_) => Ok(AuthenticationStatus::Unauthenticated),
    }
}

/// The secret of the key an `Authorization` header presents, when it holds
/// one that parses.
pub open spec fn presented_secret(authorization: Option<&str>) -> Option<Seq<char>> {
    match auth_key_of(
        match authorization {
            Some(h) => Some(h@),
            None => None,
        },
    ) {
        Ok(Some(k)) => match parse_secret_key(k) {
            Some((_, secret)) => Some(secret),
            None => None,
        },
        _ => None,
    }
}

/// Whether the key store is asked about the key an `Authorization` header
/// presents: the key is no admin key and parses as a secret key.
pub open spec fn store_consulted(authorization: Option<&str>, admin_api_keys: Seq<String>) -> bool {
    match auth_key_of(
        match authorization {
            Some(h) => Some(h@),
            None => None,
        },
    ) {
        Ok(Some(k)) => !holds_text(admin_api_keys, k) && parse_secret_key(k) is Some,
        _ => false,
    }
}

/// Whether some key record accepts a secret for a project.
pub open spec fn accepted_for(secret: Seq<char>, project: String) -> bool {
    exists|m: StoredApiKey| #![trigger record_accepts(m, secret)] record_accepts(m, secret) && m.project_id == project
}

/// Decides who the caller is: the headers are read as in
/// `get_auth_status_step`, and a project key is checked against the key
/// store. The request fails only on a malformed `Authorization` header or
/// an admin's unreadable or invalid `X-On-Behalf-Of` header. A key the
/// store does not accept, or that could not be checked, leaves the caller
/// unauthenticated; a key is let through only when some record accepts its
/// secret, and then to that record's project.
pub fn get_auth_status<S: AuthStore>(state: &AuthenticationState<S>, authorization: Option<&str>, on_behalf_of: OnBehalfOf) -> (r:
    Result<AuthenticationStatus, ApiError>)
    ensures
        match auth_key_of(
            match authorization {
                Some(h) => Some(h@),
                None => None,
            },
        ) {
            Err(_) => r matches Err(ApiError::BadRequest(msg)) && msg@ == malformed_header_message(),
            Ok(None) => r matches Ok(AuthenticationStatus::Unauthenticated),
            Ok(Some(k)) => if holds_text(state.config.admin_api_keys@, k) {
                match on_behalf_of {
                    OnBehalfOf::Absent => r matches Ok(AuthenticationStatus::Admin(None)),
                    OnBehalfOf::NotText => r matches Err(ApiError::BadRequest(msg)) && msg@
                        == "X-On-Behalf-Of header is not a valid UTF-8 string"@,
                    OnBehalfOf::Invalid => r matches Err(ApiError::BadRequest(msg)) && msg@
                        == "Invalid project id in X-On-Behalf-Of header"@,
                    OnBehalfOf::Project(p) => r == Ok::<AuthenticationStatus, ApiError>(
                        AuthenticationStatus::Admin(Some(p)),
                    ),
                }
            } else {
                match parse_secret_key(k) {
                    None => r matches Ok(AuthenticationStatus::Unauthenticated),
                    Some((id, secret)) => {
                        &&& r is Ok
                        &&& !(r matches Ok(AuthenticationStatus::Admin(_)))
                    },
                }
            },
        },
        r matches Ok(AuthenticationStatus::Authenticated(p)) ==> (presented_secret(authorization) matches Some(
            secret,
        ) && accepted_for(secret, p)),
        store_consulted(authorization, state.config.admin_api_keys@) ==> exists|v: Result<String, AuthError>|
            #[trigger] authentication_outcome(presented_secret(authorization)->0, v) && status_for_verdict(v, r),
{
    let step = get_auth_status_step(authorization, on_behalf_of, &state.config);
    assert(!(step matches Ok(AuthStep::Verify(_))) ==> !store_consulted(authorization, state.config.admin_api_keys@));
    match step {
        Err(e) => {
            assert(!store_consulted(authorization, state.config.admin_api_keys@));
            Err(e)
        },
        Ok(AuthStep::Done(status)) => Ok(status),
        Ok(AuthStep::Verify(key)) => {
            let verdict = state.authenticator.authenticate(&key);
            proof {
                if let Ok(p) = &verdict {
                    let m = choose|m: StoredApiKey| record_accepts(m, key.spec_secret()) && m.project_id == *p;
                    assert(record_accepts(m, key.spec_secret()));
                    assert(accepted_for(key.spec_secret(), *p));
                }
            }
            let r = get_auth_status_finish(verdict);
            assert(store_consulted(authorization, state.config.admin_api_keys@) ==> presented_secret(authorization)
                == Some(key.spec_secret()));
            assert(authentication_outcome(key.spec_secret(), verdict) && status_for_verdict(verdict, r));
            proof {
                if store_consulted(authorization, state.config.admin_api_keys@) {
                    assert(authentication_outcome(presented_secret(authorization)->0, verdict));
                }
            }
            r
        },
    }
}

/// The message for an admin that names no project where one is needed.
pub open spec fn missing_privilege_message() -> Seq<char> {
    "Super privilege header(s) missing!"@
}

/// Whether `ensure_authenticated` lets a caller through: the caller acts
/// for a project.
pub open spec fn admitted_as_project_caller(auth: AuthenticationStatus) -> bool {
    auth.spec_project_id() is Some
}

/// Whether `ensure_admin_for_project` lets a caller through.
pub open spec fn admitted_as_admin_for_project(auth: AuthenticationStatus) -> bool {
    auth matches AuthenticationStatus::Admin(Some(_))
}

/// Whether `ensure_admin` lets a caller through.
pub open spec fn admitted_as_admin(auth: AuthenticationStatus) -> bool {
    auth is Admin
}

/// Lets through callers that act for a project: project keys, and admins
/// naming a project.
pub fn ensure_authenticated(auth: &AuthenticationStatus) -> (r: Result<(), ApiError>)
    ensures
        r is Ok <==> admitted_as_project_caller(*auth),
        match *auth {
            AuthenticationStatus::Admin(None) => r matches Err(ApiError::BadRequest(msg)) && msg@
                == missing_privilege_message(),
            AuthenticationStatus::Unauthenticated => r matches Err(ApiError::Unauthorized),
            _ => true,
        },
{
    match auth {
        AuthenticationStatus::Admin(None) => Err(ApiError::BadRequest(owned("Super privilege header(s) missing!"))),
        AuthenticationStatus::Authenticated(_) => Ok(()),
        AuthenticationStatus::Admin(Some(_)) => Ok(()),
        AuthenticationStatus::Unauthenticated => Err(ApiError::Unauthorized),
    }
}

/// Lets through only admins acting on behalf of a project.
pub fn ensure_admin_for_project(auth: &AuthenticationStatus) -> (r: Result<(), ApiError>)
    ensures
        r is Ok <==> admitted_as_admin_for_project(*auth),
        match *auth {
            AuthenticationStatus::Admin(None) => r matches Err(ApiError::BadRequest(msg)) && msg@
                == missing_privilege_message(),
            AuthenticationStatus::Authenticated(_) => r matches Err(ApiError::Forbidden),
            AuthenticationStatus::Unauthenticated => r matches Err(ApiError::Unauthorized),
            _ => true,
        },
{
    match auth {
        AuthenticationStatus::Admin(Some(_)) => Ok(()),
        AuthenticationStatus::Admin(None) => Err(ApiError::BadRequest(owned("Super privilege header(s) missing!"))),
        AuthenticationStatus::Authenticated(_) => Err(ApiError::Forbidden),
        AuthenticationStatus::Unauthenticated => Err(ApiError::Unauthorized),
    }
}

/// Lets through admins, with or without a project.
pub fn ensure_admin(auth: &AuthenticationStatus) -> (r: Result<(), ApiError>)
    ensures
        r is Ok <==> admitted_as_admin(*auth),
        match *auth {
            AuthenticationStatus::Authenticated(_) => r matches Err(ApiError::Forbidden),
            AuthenticationStatus::Unauthenticated => r matches Err(ApiError::Unauthorized),
            _ => true,
        },
{
    match auth {
        AuthenticationStatus::Admin(_) => Ok(()),
        AuthenticationStatus::Authenticated(_) => Err(ApiError::Forbidden),
        AuthenticationStatus::Unauthenticated => Err(ApiError::Unauthorized),
    }
}

/// The guards nest: the project-admin guard lets through exactly the callers
/// that both the admin guard and the project guard let through, and a caller
/// without a key gets past none of them.
pub proof fn lemma_guards_nest(auth: AuthenticationStatus)
    ensures
        admitted_as_admin_for_project(auth) == (admitted_as_admin(auth) && admitted_as_project_caller(auth)),
        auth is Unauthenticated ==> !admitted_as_project_caller(auth) && !admitted_as_admin(auth)
            && !admitted_as_admin_for_project(auth),
{
}

} // verus!
