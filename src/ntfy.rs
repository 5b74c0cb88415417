//! The notification service's wire format and the request rules of the
//! transport: authentication, request URLs, response status, NDJSON framing.
use vstd::prelude::*;

use crate::config::api_base;
use crate::text::{
    chars_of, decimal, nonblank_pieces, nonblank_pieces_of, push_chars,
    push_decimal, same_chars, views,
};

verus! {

/// One message of the service, as a line of its NDJSON stream carries it.
#[derive(Debug, Clone, PartialEq)]
pub struct NtfyMessage {
    pub id: Option<String>,
    pub time: u64,
    pub event: Option<String>,
    pub topic: Option<String>,
    pub title: Option<String>,
    pub message: Option<String>,
    pub priority: Option<u8>,
    pub tags: Option<Vec<String>>,
    pub click: Option<String>,
    pub actions: Option<Vec<NtfyAction>>,
    pub icon: Option<String>,
}

/// A button attached to a message.
#[derive(Debug, Clone, PartialEq)]
pub struct NtfyAction {
    pub action: String,
    pub label: String,
    pub url: Option<String>,
    pub clear: Option<bool>,
}

/// Where and as whom the transport polls. The HTTP client itself belongs to
/// the caller, who performs the requests.
#[derive(Debug, Clone)]
pub struct NtfyClient {
    pub base_url: String,
    pub api_token: Option<String>,
    pub auth_user: Option<String>,
    pub auth_pass: Option<String>,
}

/// The authentication a request carries: a bearer token takes precedence over
/// user and password.
#[derive(Debug, Clone)]
pub enum Authorization {
    Bearer(String),
    Basic { user: String, pass: String },
    Anonymous,
}

/// Why a poll failed.
#[derive(Debug, Clone, Copy, PartialEq, Eq, Structural)]
pub enum PollError {
    /// The service answered 401.
    Unauthorized,
    /// The service answered 429.
    RateLimited,
    /// The service answered with another status outside 200..=299.
    Http(u16),
    /// No answer came: name resolution, connection or timeout failed.
    Connection,
}

/// The view of an optional string.
pub open spec fn opt_view(o: Option<String>) -> Option<Seq<char>> {
    match o {
        Some(s) => Some(s@),
        None => None,
    }
}

/// The value an optional credential takes from a configured one: present
/// exactly when not empty.
pub open spec fn credential(s: Seq<char>) -> Option<Seq<char>> {
    if s.len() == 0 {
        None
    } else {
        Some(s)
    }
}

/// Whether `a` is the authentication that `c` calls for.
pub open spec fn authorizes(c: NtfyClient, a: Authorization) -> bool {
    match a {
        Authorization::Bearer(t) => opt_view(c.api_token) == Some(t@),
        Authorization::Basic { user, pass } => {
            &&& c.api_token is None
            &&& opt_view(c.auth_user) == Some(user@)
            &&& pass@ == match c.auth_pass {
                Some(p) => p@,
                None => Seq::empty(),
            }
        },
        Authorization::Anonymous => c.api_token is None && c.auth_user is None,
    }
}

/// `{base}/{topics}/json?since={since}s&poll=1`.
pub open spec fn poll_url_of(base: Seq<char>, topics: Seq<char>, since: u64) -> Seq<char> {
    base + seq!['/'] + topics + "/json?since="@ + decimal(since as nat) + "s&poll=1"@
}

/// `{base}/{topic}/json?poll=1&since=0`.
pub open spec fn test_url_of(base: Seq<char>, topic: Seq<char>) -> Seq<char> {
    base + seq!['/'] + topic + "/json?poll=1&since=0"@
}

/// How the service's answer status decides a poll.
pub open spec fn status_outcome(status: u16) -> Result<(), PollError> {
    if status == 401 {
        Err(PollError::Unauthorized)
    } else if status == 429 {
        Err(PollError::RateLimited)
    } else if 200 <= status <= 299 {
        Ok(())
    } else {
        Err(PollError::Http(status))
    }
}

/// Whether `m` is an actual message rather than an open or keepalive event.
pub open spec fn is_message_event(m: NtfyMessage) -> bool {
    m.event matches Some(e) && e@ == "message"@
}

/// The messages of `batch` that are actual messages, in order.
pub open spec fn message_events(batch: Seq<NtfyMessage>) -> Seq<NtfyMessage>
    decreases batch.len(),
{
    if batch.len() == 0 {
        Seq::empty()
    } else if is_message_event(batch.last()) {
        message_events(batch.drop_last()).push(batch.last())
    } else {
        message_events(batch.drop_last())
    }
}

impl NtfyClient {
    /// Settings for the instance at `base_url`, normalised to its API base,
    /// without credentials.
    pub fn new(base_url: &str) -> (r: Self)
        ensures
            r.base_url@ == api_base(base_url@),
            r.api_token is None,
            r.auth_user is None,
            r.auth_pass is None,
    {
        NtfyClient {
            base_url: crate::config::normalize_base_url(base_url),
            api_token: None,
            auth_user: None,
            auth_pass: None,
        }
    }

    /// The same settings with a bearer token; an empty token changes nothing.
    pub fn with_token(self, token: String) -> (r: Self)
        ensures
            token@.len() == 0 ==> r == self,
            token@.len() > 0 ==> r == (NtfyClient { api_token: Some(token), ..self }),
    {
        if token.as_str().is_empty() {
            self
        } else {
            NtfyClient { api_token: Some(token), ..self }
        }
    }

    /// The same settings with user and password; an empty user changes
    /// nothing.
    pub fn with_basic_auth(self, user: String, pass: String) -> (r: Self)
        ensures
            user@.len() == 0 ==> r == self,
            user@.len() > 0 ==> r == (NtfyClient {
                auth_user: Some(user),
                auth_pass: Some(pass),
                ..self
            }),
    {
        if user.as_str().is_empty() {
            self
        } else {
            NtfyClient { auth_user: Some(user), auth_pass: Some(pass), ..self }
        }
    }

    /// Takes over a configuration snapshot: the API base as given, and each
    /// credential when it is not empty.
    pub fn update_from(&mut self, base_url: String, api_token: String, auth_user: String, auth_pass: String)
        ensures
            final(self).base_url == base_url,
            opt_view(final(self).api_token) == credential(api_token@),
            opt_view(final(self).auth_user) == credential(auth_user@),
            opt_view(final(self).auth_pass) == credential(auth_pass@),
    {
        self.base_url = base_url;
        self.api_token = if api_token.as_str().is_empty() { None } else { Some(api_token) };
        self.auth_user = if auth_user.as_str().is_empty() { None } else { Some(auth_user) };
        self.auth_pass = if auth_pass.as_str().is_empty() { None } else { Some(auth_pass) };
    }

    /// The authentication the requests carry: the token if one is set, else
    /// user and password (an absent password as empty), else none.
    pub fn authorization(&self) -> (r: Authorization)
        ensures
            authorizes(*self, r),
    {
        match &self.api_token {
            Some(token) => Authorization::Bearer(token.clone()),
            None => match &self.auth_user {
                Some(user) => {
                    let pass = match &self.auth_pass {
                        Some(p) => p.clone(),
                        None => String::new(),
                    };
                    Authorization::Basic { user: user.clone(), pass }
                },
                None => Authorization::Anonymous,
            },
        }
    }

    /// The long-poll request for `topics`, asking for what arrived in the
    /// last `since` seconds.
    pub fn poll_url(&self, topics: &str, since: u64) -> (r: String)
        ensures
            r@ == poll_url_of(self.base_url@, topics@, since),
    {
        let mut r = self.base_url.clone();
        let slash: Vec<char> = vec!['/'];
        push_chars(&mut r, slash.as_slice());
        push_chars(&mut r, chars_of(topics).as_slice());
        push_chars(&mut r, chars_of("/json?since=").as_slice());
        push_decimal(&mut r, since);
        push_chars(&mut r, chars_of("s&poll=1").as_slice());
        r
    }

    /// The request that checks reachability and credentials for `topic`.
    pub fn connection_test_url(&self, topic: &str) -> (r: String)
        ensures
            r@ == test_url_of(self.base_url@, topic@),
    {
        let mut r = self.base_url.clone();
        let slash: Vec<char> = vec!['/'];
        push_chars(&mut r, slash.as_slice());
        push_chars(&mut r, chars_of(topic).as_slice());
        push_chars(&mut r, chars_of("/json?poll=1&since=0").as_slice());
        r
    }
}

/// The settings for a one-off connection test: a non-empty token if given,
/// else a non-empty user with the password (empty if absent), else none.
pub fn client_for_test(server_url: &str, api_token: Option<String>, auth_user: Option<String>, auth_pass: Option<String>) -> (r: NtfyClient)
    ensures
        r.base_url@ == api_base(server_url@),
        r.auth_user is None ==> r.auth_pass is None,
        match opt_view(api_token) {
            Some(t) if t.len() > 0 => opt_view(r.api_token) == Some(t) && r.auth_user is None,
            _ => {
                &&& r.api_token is None
                &&& match opt_view(auth_user) {
                    Some(u) if u.len() > 0 => {
                        &&& opt_view(r.auth_user) == Some(u)
                        &&& opt_view(r.auth_pass) == Some(match opt_view(auth_pass) {
                            Some(p) => p,
                            None => Seq::<char>::empty(),
                        })
                    },
                    _ => r.auth_user is None,
                }
            },
        },
{
    let client = NtfyClient::new(server_url);
    let token = match api_token {
        Some(t) => if t.as_str().is_empty() { None } else { Some(t) },
        None => None,
    };
    match token {
        Some(t) => client.with_token(t),
        None => match auth_user {
            Some(u) => {
                let pass = match auth_pass {
                    Some(p) => p,
                    None => String::new(),
                };
                client.with_basic_auth(u, pass)
            },
            None => client,
        },
    }
}

/// The value of an `Authorization` header for a bearer token.
pub fn bearer_header(token: &str) -> (r: String)
    ensures
        r@ == "Bearer "@ + token@,
{
    let mut r = String::new();
    push_chars(&mut r, chars_of("Bearer ").as_slice());
    push_chars(&mut r, chars_of(token).as_slice());
    r
}

/// How the answer status decides a poll: 401 and 429 are told apart, any
/// other status outside 200..=299 is an HTTP error.
pub fn classify_status(status: u16) -> (r: Result<(), PollError>)
    ensures
        r == status_outcome(status),
{
    if status == 401 {
        Err(PollError::Unauthorized)
    } else if status == 429 {
        Err(PollError::RateLimited)
    } else if 200 <= status && status <= 299 {
        Ok(())
    } else {
        Err(PollError::Http(status))
    }
}

/// The outcome of a connection test from the answer status.
pub fn connection_test_outcome(status: u16) -> (r: Result<bool, PollError>)
    ensures
        200 <= status <= 299 ==> r == Ok::<bool, PollError>(true),
        !(200 <= status <= 299) ==> r == Err::<bool, PollError>(PollError::Http(status)),
{
    if 200 <= status && status <= 299 {
        Ok(true)
    } else {
        Err(PollError::Http(status))
    }
}

/// The lines of an NDJSON body that hold a record: each trimmed, blank ones
/// left out.
pub fn ndjson_lines(body: &str) -> (r: Vec<String>)
    ensures
        views(r@) == nonblank_pieces(body@, '\n'),
{
    nonblank_pieces_of(body, '\n')
}

/// Whether `m` is an actual message.
pub fn message_event(m: &NtfyMessage) -> (r: bool)
    ensures
        r == is_message_event(*m),
{
    match &m.event {
        Some(e) => same_chars(e.as_str(), "message"),
        None => false,
    }
}

/// The actual messages of `batch`, in order; opens and keepalives are
/// dropped.
pub fn retain_message_events(batch: Vec<NtfyMessage>) -> (r: Vec<NtfyMessage>)
    ensures
        r@ == message_events(batch@),
{
    let ghost all = batch@;
    let mut r: Vec<NtfyMessage> = Vec::new();
    for m in it: batch.into_iter()
        invariant
            it.seq() == all,
            r@ == message_events(all.take(it.index() as int)),
    {
        let ghost k = it.index();
        proof {
            assert(all.take(k + 1).drop_last() == all.take(k as int));
            assert(all.take(k + 1).last() == m);
        }
        if message_event(&m) {
            r.push(m);
        }
    }
    assert(all.take(all.len() as int) == all);
    r
}

} // verus!
