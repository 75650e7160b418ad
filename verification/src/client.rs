//! The protocol layer itself: the requests each operation sends, the mapping
//! from transport outcomes to results, and the session state of a handle.
//!
//! Every operation is split at the network boundary. A request-building
//! function says exactly which method, URL, body and token header the
//! operation sends, and an outcome function says exactly what each status
//! code, decode failure or transport failure turns into. The surrounding
//! application only carries bytes between the two.

use vstd::prelude::*;
use vstd::string::*;
use vstd::utf8::encode_utf8;
use crate::error::AIDungeonError;
use crate::json::{encode_text_input, encode_user_auth, text_input_json, user_auth_json};
use crate::protocol::{HttpOutcome, HttpRequest, Method};
use crate::text::{dec_seq, push_dec};
use crate::types::{encode_start_options, start_options_wire, StartModesContainer, StartOptions,
    Story, StoryText, User};

verus! {

/// Whether one byte may appear in a header value: horizontal tab, or any byte
/// from 32 up, except delete.
pub open spec fn valid_header_byte(b: u8) -> bool {
    b == 9 || (32 <= b && b != 127)
}

/// Whether a byte string may stand as a header value.
pub open spec fn valid_header_value(bytes: Seq<u8>) -> bool {
    forall|i: int| 0 <= i < bytes.len() ==> valid_header_byte(bytes[i])
}

/// Whether an access token can be bound as the token header.
pub open spec fn token_ok(t: Seq<char>) -> bool {
    valid_header_value(encode_utf8(t))
}

/// Relies on `http::header::HeaderValue::from_str`, which succeeds exactly
/// when every byte of the string is a permitted header-value byte (tab, or
/// 32..=255 excluding 127).
#[verifier::external_body]
fn check_header_value(s: &str) -> (r: bool)
    ensures
        r == valid_header_value(s.spec_bytes()),
{
    http::header::HeaderValue::from_str(s).is_ok()
}

/// The URL the turn-advance request of session `id` is posted to.
pub open spec fn session_inputs_url(id: nat) -> Seq<char> {
    "https://api.aidungeon.io/sessions/"@ + dec_seq(id) + "/inputs"@
}

/// Builds a message that ends in the literal decimal status code.
fn status_message(prefix: &str, status: u16) -> (m: String)
    ensures
        m@ == prefix@ + dec_seq(status as nat),
{
    let mut m = prefix.to_owned();
    push_dec(&mut m, status as u64);
    m
}

/// A client handle: the access token every authenticated request carries, and
/// the identifier of the currently active session, absent until a session has
/// been started.
#[derive(Debug, Clone, PartialEq, Eq)]
pub struct AIDungeon {
    pub access_token: String,
    pub story_id: Option<u64>,
}

impl AIDungeon {
    /// The first request of registration: an existence check carrying only
    /// the email, sent unauthenticated.
    pub fn register_existence_request(email: &str) -> (r: HttpRequest)
        ensures
            r.method is Post,
            r.url@ == "https://api.aidungeon.io/users"@,
            r.token is None,
            r.body matches Some(b) && b@ == user_auth_json(Some(email.spec_bytes()), None, None),
    {
        HttpRequest {
            method: Method::Post,
            url: "https://api.aidungeon.io/users".to_owned(),
            body: Some(encode_user_auth(Some(email), None, None)),
            token: None,
        }
    }

    /// What the existence check's outcome means: the not-acceptable status is
    /// the email conflict and halts registration, the success status yields
    /// the account record, and anything else is unexpected and carries the
    /// status code.
    pub fn register_existence_outcome(outcome: HttpOutcome<User>) -> (r: Result<
        User,
        AIDungeonError,
    >)
        ensures
            outcome matches HttpOutcome::Failed { message } ==> r == Err::<User, AIDungeonError>(
                AIDungeonError::RequestFailed { message },
            ),
            outcome matches HttpOutcome::Response { status, body } ==> {
                &&& status == 406 ==> r == Err::<User, AIDungeonError>(
                    AIDungeonError::EmailAlreadyExists,
                )
                &&& status == 200 ==> ((body matches Ok(u) ==> r == Ok::<User, AIDungeonError>(u))
                    && (body matches Err(e) ==> r == Err::<User, AIDungeonError>(
                    AIDungeonError::InvalidResponseFromServer { message: e },
                )))
                &&& status != 200 && status != 406 ==> (r matches Err(
                    AIDungeonError::UnexpectedError { message },
                ) && message@
                    == "Bad request status code while checking whether user account exists: "@
                    + dec_seq(status as nat))
            },
    {
        match outcome {
            HttpOutcome::Failed { message } => Err(AIDungeonError::RequestFailed { message }),
            HttpOutcome::Response { status, body } => {
                if status == 406 {
                    Err(AIDungeonError::EmailAlreadyExists)
                } else if status == 200 {
                    match body {
                        Ok(u) => Ok(u),
                        Err(e) => Err(AIDungeonError::InvalidResponseFromServer { message: e }),
                    }
                } else {
                    Err(AIDungeonError::UnexpectedError {
                        message: status_message(
                            "Bad request status code while checking whether user account exists: ",
                            status,
                        ),
                    })
                }
            },
        }
    }

    /// Binds the access token of a fresh account record into a handle with no
    /// active session; fails when the token cannot stand as a header value.
    pub fn authenticate(user: User) -> (r: Result<AIDungeon, AIDungeonError>)
        ensures
            token_ok(user.access_token@) ==> r == Ok::<AIDungeon, AIDungeonError>(
                (AIDungeon { access_token: user.access_token, story_id: None }),
            ),
            !token_ok(user.access_token@) ==> (r matches Err(
                AIDungeonError::UnexpectedError { message },
            ) && message@ == "Bad access token received from server"@),
    {
        if check_header_value(user.access_token.as_str()) {
            Ok(AIDungeon { access_token: user.access_token, story_id: None })
        } else {
            Err(
                AIDungeonError::UnexpectedError {
                    message: "Bad access token received from server".to_owned(),
                },
            )
        }
    }

    /// The second request of registration: completing the account with the
    /// username and password, sent with the freshly bound token.
    pub fn register_completion_request(&self, username: &str, password: &str) -> (r: HttpRequest)
        ensures
            r.method is Patch,
            r.url@ == "https://api.aidungeon.io/users/@me"@,
            r.token == Some(self.access_token),
            r.body matches Some(b) && b@ == user_auth_json(
                None,
                Some(username.spec_bytes()),
                Some(password.spec_bytes()),
            ),
    {
        HttpRequest {
            method: Method::Patch,
            url: "https://api.aidungeon.io/users/@me".to_owned(),
            body: Some(encode_user_auth(None, Some(username), Some(password))),
            token: Some(self.access_token.clone()),
        }
    }

    /// What the completion outcome means: success keeps the handle, the
    /// bad-request status is the username conflict, and anything else is
    /// unexpected and carries the status code.
    pub fn register_completion_outcome(self, outcome: HttpOutcome<()>) -> (r: Result<
        AIDungeon,
        AIDungeonError,
    >)
        ensures
            outcome matches HttpOutcome::Failed { message } ==> r == Err::<
                AIDungeon,
                AIDungeonError,
            >(AIDungeonError::RequestFailed { message }),
            outcome matches HttpOutcome::Response { status, .. } ==> {
                &&& status == 200 ==> r == Ok::<AIDungeon, AIDungeonError>(self)
                &&& status == 400 ==> r == Err::<AIDungeon, AIDungeonError>(
                    AIDungeonError::UsernameAlreadyExists,
                )
                &&& status != 200 && status != 400 ==> (r matches Err(
                    AIDungeonError::UnexpectedError { message },
                ) && message@ == "Bad request status code while trying to register user: "@
                    + dec_seq(status as nat))
            },
    {
        match outcome {
            HttpOutcome::Failed { message } => Err(AIDungeonError::RequestFailed { message }),
            HttpOutcome::Response { status, body: _ } => {
                if status == 200 {
                    Ok(self)
                } else if status == 400 {
                    Err(AIDungeonError::UsernameAlreadyExists)
                } else {
                    Err(AIDungeonError::UnexpectedError {
                        message: status_message(
                            "Bad request status code while trying to register user: ",
                            status,
                        ),
                    })
                }
            },
        }
    }

    /// The one request of login: the email and password together, sent
    /// unauthenticated.
    pub fn login_request(email: &str, password: &str) -> (r: HttpRequest)
        ensures
            r.method is Post,
            r.url@ == "https://api.aidungeon.io/users"@,
            r.token is None,
            r.body matches Some(b) && b@ == user_auth_json(
                Some(email.spec_bytes()),
                None,
                Some(password.spec_bytes()),
            ),
    {
        HttpRequest {
            method: Method::Post,
            url: "https://api.aidungeon.io/users".to_owned(),
            body: Some(encode_user_auth(Some(email), None, Some(password))),
            token: None,
        }
    }

    /// What the login outcome means: success yields the account record, and
    /// any other status is unexpected and carries the status code.
    pub fn login_outcome(outcome: HttpOutcome<User>) -> (r: Result<User, AIDungeonError>)
        ensures
            outcome matches HttpOutcome::Failed { message } ==> r == Err::<User, AIDungeonError>(
                AIDungeonError::RequestFailed { message },
            ),
            outcome matches HttpOutcome::Response { status, body } ==> {
                &&& status == 200 ==> ((body matches Ok(u) ==> r == Ok::<User, AIDungeonError>(u))
                    && (body matches Err(e) ==> r == Err::<User, AIDungeonError>(
                    AIDungeonError::InvalidResponseFromServer { message: e },
                )))
                &&& status != 200 ==> (r matches Err(AIDungeonError::UnexpectedError { message })
                    && message@ == "Bad request status code while trying to log in: "@ + dec_seq(
                    status as nat,
                ))
            },
    {
        match outcome {
            HttpOutcome::Failed { message } => Err(AIDungeonError::RequestFailed { message }),
            HttpOutcome::Response { status, body } => {
                if status == 200 {
                    match body {
                        Ok(u) => Ok(u),
                        Err(e) => Err(AIDungeonError::InvalidResponseFromServer { message: e }),
                    }
                } else {
                    Err(AIDungeonError::UnexpectedError {
                        message: status_message(
                            "Bad request status code while trying to log in: ",
                            status,
                        ),
                    })
                }
            },
        }
    }

    /// The whole login decision sequence against a given transport outcome:
    /// decode the account record on success, bind its token, and hand back a
    /// handle with no active session.
    pub fn login(email: &str, password: &str, outcome: HttpOutcome<User>) -> (r: (
        Result<AIDungeon, AIDungeonError>,
        Vec<HttpRequest>,
    ))
        ensures
            r.1@.len() == 1,
            r.1@[0].method is Post,
            r.1@[0].url@ == "https://api.aidungeon.io/users"@,
            r.1@[0].token is None,
            r.1@[0].body matches Some(b) && b@ == user_auth_json(
                Some(email.spec_bytes()),
                None,
                Some(password.spec_bytes()),
            ),
            outcome matches HttpOutcome::Response { status: 200u16, body: Ok(u) } ==> {
                &&& token_ok(u.access_token@) ==> r.0 == Ok::<AIDungeon, AIDungeonError>(
                    (AIDungeon { access_token: u.access_token, story_id: None }),
                )
                &&& !token_ok(u.access_token@) ==> r.0 matches Err(
                    AIDungeonError::UnexpectedError { .. },
                )
            },
            outcome matches HttpOutcome::Response { status, .. } ==> (status != 200 ==> (r.0
                matches Err(AIDungeonError::UnexpectedError { message }) && message@
                == "Bad request status code while trying to log in: "@ + dec_seq(status as nat))),
            outcome matches HttpOutcome::Response { status: 200u16, body: Err(e) } ==> r.0
                == Err::<AIDungeon, AIDungeonError>(
                AIDungeonError::InvalidResponseFromServer { message: e },
            ),
            outcome matches HttpOutcome::Failed { message } ==> r.0 == Err::<
                AIDungeon,
                AIDungeonError,
            >(AIDungeonError::RequestFailed { message }),
    {
        let request = Self::login_request(email, password);
        let mut requests: Vec<HttpRequest> = Vec::new();
        requests.push(request);
        match Self::login_outcome(outcome) {
            Ok(user) => (Self::authenticate(user), requests),
            Err(e) => (Err(e), requests),
        }
    }

    /// The whole registration decision sequence against the two transport
    /// outcomes, together with the requests it sends, in order: the
    /// email conflict (and every other failure of the first step) halts the
    /// flow before the completion request is ever issued.
    pub fn register(
        email: &str,
        username: &str,
        password: &str,
        existence: HttpOutcome<User>,
        completion: HttpOutcome<()>,
    ) -> (r: (Result<AIDungeon, AIDungeonError>, Vec<HttpRequest>))
        ensures
            1 <= r.1@.len() <= 2,
            r.1@[0].method is Post,
            r.1@[0].url@ == "https://api.aidungeon.io/users"@,
            r.1@[0].token is None,
            r.1@[0].body matches Some(b) && b@ == user_auth_json(
                Some(email.spec_bytes()),
                None,
                None,
            ),
            existence matches HttpOutcome::Response { status: 406u16, .. } ==> r.0 == Err::<
                AIDungeon,
                AIDungeonError,
            >(AIDungeonError::EmailAlreadyExists) && r.1@.len() == 1,
            existence matches HttpOutcome::Response { status, .. } ==> ((status != 200 && status
                != 406) ==> (r.0 matches Err(AIDungeonError::UnexpectedError { .. }) && r.1@.len()
                == 1)),
            existence matches HttpOutcome::Failed { message } ==> r.0 == Err::<
                AIDungeon,
                AIDungeonError,
            >(AIDungeonError::RequestFailed { message }) && r.1@.len() == 1,
            existence matches HttpOutcome::Response { status: 200u16, body: Err(e) } ==> r.0
                == Err::<AIDungeon, AIDungeonError>(
                AIDungeonError::InvalidResponseFromServer { message: e },
            ) && r.1@.len() == 1,
            existence matches HttpOutcome::Response { status: 200u16, body: Ok(u) } ==> (
            !token_ok(u.access_token@) ==> (r.0 matches Err(
                AIDungeonError::UnexpectedError { .. },
            ) && r.1@.len() == 1)),
            existence matches HttpOutcome::Response { status: 200u16, body: Ok(u) } ==> (token_ok(
                u.access_token@,
            ) ==> {
                &&& r.1@.len() == 2
                &&& r.1@[1].method is Patch
                &&& r.1@[1].url@ == "https://api.aidungeon.io/users/@me"@
                &&& r.1@[1].token == Some(u.access_token)
                &&& r.1@[1].body matches Some(b) && b@ == user_auth_json(
                    None,
                    Some(username.spec_bytes()),
                    Some(password.spec_bytes()),
                )
                &&& (completion matches HttpOutcome::Response { status: 200u16, .. } ==> r.0
                    == Ok::<AIDungeon, AIDungeonError>(
                    (AIDungeon { access_token: u.access_token, story_id: None }),
                ))
                &&& (completion matches HttpOutcome::Response { status: 400u16, .. } ==> r.0
                    == Err::<AIDungeon, AIDungeonError>(AIDungeonError::UsernameAlreadyExists))
                &&& (completion matches HttpOutcome::Response { status, .. } ==> ((status != 200
                    && status != 400) ==> r.0 matches Err(
                    AIDungeonError::UnexpectedError { .. },
                )))
                &&& (completion matches HttpOutcome::Failed { message } ==> r.0 == Err::<
                    AIDungeon,
                    AIDungeonError,
                >(AIDungeonError::RequestFailed { message }))
            }),
    {
        let mut requests: Vec<HttpRequest> = Vec::new();
        requests.push(Self::register_existence_request(email));
        let user = match Self::register_existence_outcome(existence) {
            Ok(u) => u,
            Err(e) => {
                return (Err(e), requests);
            },
        };
        let handle = match Self::authenticate(user) {
            Ok(h) => h,
            Err(e) => {
                return (Err(e), requests);
            },
        };
        requests.push(handle.register_completion_request(username, password));
        (handle.register_completion_outcome(completion), requests)
    }

    /// The session-creation request for the given start options, sent with
    /// the handle's token.
    pub fn start_story_request(&self, options: &StartOptions) -> (r: HttpRequest)
        ensures
            r.method is Post,
            r.url@ == "https://api.aidungeon.io/sessions"@,
            r.token == Some(self.access_token),
            r.body matches Some(b) && b@ == start_options_wire(*options),
    {
        HttpRequest {
            method: Method::Post,
            url: "https://api.aidungeon.io/sessions".to_owned(),
            body: Some(encode_start_options(options)),
            token: Some(self.access_token.clone()),
        }
    }

    /// What the session-creation outcome means: on success the handle stores
    /// the decoded session identifier and hands back the opening transcript;
    /// on anything else the handle is unchanged and the status is reported.
    pub fn start_story(&mut self, outcome: HttpOutcome<Story>) -> (r: Result<
        Vec<StoryText>,
        AIDungeonError,
    >)
        ensures
            final(self).access_token == old(self).access_token,
            outcome matches HttpOutcome::Response { status: 200u16, body: Ok(story) } ==> (final(self).story_id == Some(story.id) && r == Ok::<Vec<StoryText>, AIDungeonError>(story.story)),
            !(outcome matches HttpOutcome::Response { status: 200u16, body: Ok(..) }) ==> *final(self) == *old(self),
            outcome matches HttpOutcome::Response { status: 200u16, body: Err(e) } ==> r == Err::<
                Vec<StoryText>,
                AIDungeonError,
            >(AIDungeonError::InvalidResponseFromServer { message: e }),
            outcome matches HttpOutcome::Response { status, .. } ==> (status != 200 ==> (r
                matches Err(AIDungeonError::UnexpectedError { message }) && message@
                == "Unexpected status code while starting story: "@ + dec_seq(status as nat))),
            outcome matches HttpOutcome::Failed { message } ==> r == Err::<
                Vec<StoryText>,
                AIDungeonError,
            >(AIDungeonError::RequestFailed { message }),
    {
        match outcome {
            HttpOutcome::Failed { message } => Err(AIDungeonError::RequestFailed { message }),
            HttpOutcome::Response { status, body } => {
                if status == 200 {
                    match body {
                        Ok(story) => {
                            self.story_id = Some(story.id);
                            Ok(story.story)
                        },
                        Err(e) => Err(AIDungeonError::InvalidResponseFromServer { message: e }),
                    }
                } else {
                    Err(AIDungeonError::UnexpectedError {
                        message: status_message(
                            "Unexpected status code while starting story: ",
                            status,
                        ),
                    })
                }
            },
        }
    }

    /// Decides a turn-advance: with no active session it fails at once,
    /// issuing no request at all; with one it yields the request that posts
    /// the player's text to the URL of exactly the stored session identifier.
    pub fn send_reply(&self, text: &str) -> (r: Result<HttpRequest, AIDungeonError>)
        ensures
            self.story_id is None ==> (r matches Err(AIDungeonError::UnexpectedError { message })
                && message@ == "There is no running story, but tried to send reply."@),
            self.story_id matches Some(id) ==> (r matches Ok(req) && ({
                &&& req.method is Post
                &&& req.url@ == session_inputs_url(id as nat)
                &&& req.token == Some(self.access_token)
                &&& req.body matches Some(b) && b@ == text_input_json(text.spec_bytes())
            })),
    {
        match self.story_id {
            None => Err(
                AIDungeonError::UnexpectedError {
                    message: "There is no running story, but tried to send reply.".to_owned(),
                },
            ),
            Some(id) => {
                let mut url = "https://api.aidungeon.io/sessions/".to_owned();
                push_dec(&mut url, id);
                url.append("/inputs");
                Ok(
                    HttpRequest {
                        method: Method::Post,
                        url,
                        body: Some(encode_text_input(text)),
                        token: Some(self.access_token.clone()),
                    },
                )
            },
        }
    }

    /// What a turn-advance outcome means: on success the updated transcript
    /// comes back exactly as decoded; the session identifier is never touched.
    pub fn send_reply_outcome(&self, outcome: HttpOutcome<Vec<StoryText>>) -> (r: Result<
        Vec<StoryText>,
        AIDungeonError,
    >)
        ensures
            outcome matches HttpOutcome::Response { status: 200u16, body: Ok(events) } ==> r
                == Ok::<Vec<StoryText>, AIDungeonError>(events),
            outcome matches HttpOutcome::Response { status: 200u16, body: Err(e) } ==> r == Err::<
                Vec<StoryText>,
                AIDungeonError,
            >(AIDungeonError::InvalidResponseFromServer { message: e }),
            outcome matches HttpOutcome::Response { status, .. } ==> (status != 200 ==> (r
                matches Err(AIDungeonError::UnexpectedError { message }) && message@
                == "Unexpected status code while sending reply: "@ + dec_seq(status as nat))),
            outcome matches HttpOutcome::Failed { message } ==> r == Err::<
                Vec<StoryText>,
                AIDungeonError,
            >(AIDungeonError::RequestFailed { message }),
    {
        match outcome {
            HttpOutcome::Failed { message } => Err(AIDungeonError::RequestFailed { message }),
            HttpOutcome::Response { status, body } => {
                if status == 200 {
                    match body {
                        Ok(events) => Ok(events),
                        Err(e) => Err(AIDungeonError::InvalidResponseFromServer { message: e }),
                    }
                } else {
                    Err(AIDungeonError::UnexpectedError {
                        message: status_message(
                            "Unexpected status code while sending reply: ",
                            status,
                        ),
                    })
                }
            },
        }
    }

    /// The catalog request: a plain authenticated read with no body and no
    /// session dependency.
    pub fn get_recommended_story_request(&self) -> (r: HttpRequest)
        ensures
            r.method is Get,
            r.url@ == "https://api.aidungeon.io/sessions/*/config"@,
            r.token == Some(self.access_token),
            r.body is None,
    {
        HttpRequest {
            method: Method::Get,
            url: "https://api.aidungeon.io/sessions/*/config".to_owned(),
            body: None,
            token: Some(self.access_token.clone()),
        }
    }

    /// What the catalog outcome means: on success the catalog comes back
    /// exactly as received, pass-through; any other status is unexpected and
    /// carries the status code.
    pub fn get_recommended_story(&self, outcome: HttpOutcome<StartModesContainer>) -> (r: Result<
        StartModesContainer,
        AIDungeonError,
    >)
        ensures
            outcome matches HttpOutcome::Response { status: 200u16, body: Ok(catalog) } ==> r
                == Ok::<StartModesContainer, AIDungeonError>(catalog),
            outcome matches HttpOutcome::Response { status: 200u16, body: Err(e) } ==> r == Err::<
                StartModesContainer,
                AIDungeonError,
            >(AIDungeonError::InvalidResponseFromServer { message: e }),
            outcome matches HttpOutcome::Response { status, .. } ==> (status != 200 ==> (r
                matches Err(AIDungeonError::UnexpectedError { message }) && message@
                == "Unexpected status code while trying to fetch premade stories: "@ + dec_seq(
                status as nat,
            ))),
            outcome matches HttpOutcome::Failed { message } ==> r == Err::<
                StartModesContainer,
                AIDungeonError,
            >(AIDungeonError::RequestFailed { message }),
    {
        match outcome {
            HttpOutcome::Failed { message } => Err(AIDungeonError::RequestFailed { message }),
            HttpOutcome::Response { status, body } => {
                if status == 200 {
                    match body {
                        Ok(catalog) => Ok(catalog),
                        Err(e) => Err(AIDungeonError::InvalidResponseFromServer { message: e }),
                    }
                } else {
                    Err(AIDungeonError::UnexpectedError {
                        message: status_message(
                            "Unexpected status code while trying to fetch premade stories: ",
                            status,
                        ),
                    })
                }
            },
        }
    }
}

} // verus!
