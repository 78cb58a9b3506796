//! Session state: the configured credentials and the current token, and what
//! each outgoing call carries because of them.

use vstd::prelude::*;
use crate::error::Error;

verus! {

/// A user name and password.
#[derive(Clone, Debug)]
pub struct Credentials {
    pub username: String,
    pub password: String,
}

/// One key and value of call metadata.
#[derive(Clone, Debug)]
pub struct MetadataEntry {
    pub key: String,
    pub value: String,
}

/// The kinds of unary call, as far as their routing differs.
#[derive(Clone, Copy, Debug, PartialEq, Eq, Structural)]
pub enum CallKind {
    /// The login that obtains a token.
    Authenticate,
    /// Auth status, enabling and disabling, and role management.
    AuthManagement,
    /// Every other unary call: key-value, lease and membership calls.
    Operation,
}

/// How a unary call reaches the transport.
#[derive(Clone, Copy, Debug, PartialEq, Eq, Structural)]
pub enum CallRoute {
    /// Through the retry policy, with the token attached.
    Retried,
    /// Straight to the transport, unauthenticated.
    Direct,
}

/// A character that call metadata can carry: a tab, or anything from the
/// space upwards but the delete character.
pub open spec fn is_metadata_char(c: char) -> bool {
    (c as u32 >= 32 && c as u32 != 127) || c == '\t'
}

/// Text that is representable as a metadata value.
pub open spec fn is_metadata_text(s: Seq<char>) -> bool {
    forall|i: int| 0 <= i < s.len() ==> is_metadata_char(#[trigger] s[i])
}

/// The keys and values of a list of entries.
pub open spec fn entry_views(entries: Seq<MetadataEntry>) -> Seq<(Seq<char>, Seq<char>)> {
    Seq::new(entries.len(), |i: int| (entries[i].key@, entries[i].value@))
}

/// Parses `token` with `tonic::metadata::MetadataValue::<Ascii>::try_from`,
/// which accepts a string exactly when each of its bytes is a tab or is at
/// least 32 and not 127; every byte of a character beyond ASCII is above 127,
/// so the test reads the same on characters. On failure the text is what the
/// parse error displays.
#[verifier::external_body]
fn parse_metadata_value(token: &str) -> (r: Result<(), String>)
    ensures
        r.is_ok() == is_metadata_text(token@),
        r matches Err(msg) ==> msg@ == "failed to parse metadata value"@,
{
    match tonic::metadata::MetadataValue::<tonic::metadata::Ascii>::try_from(token) {
        Ok(_) => Ok(()),
        Err(e) => Err(e.to_string()),
    }
}

/// The mathematical content of a session.
pub struct SessionView {
    pub credentials: Option<(Seq<char>, Seq<char>)>,
    pub token: Option<Seq<char>>,
}

impl SessionView {
    /// The session with its token replaced.
    pub open spec fn with_token(self, token: Seq<char>) -> SessionView {
        SessionView { credentials: self.credentials, token: Some(token) }
    }

    /// What a unary call carries: the token under `authorization` if there is
    /// one, nothing otherwise.
    pub open spec fn unary_entries(self) -> Seq<(Seq<char>, Seq<char>)> {
        match self.token {
            Some(t) => seq![("authorization"@, t)],
            None => Seq::empty(),
        }
    }

    /// What a watch stream carries: the unary entries, then the demand for a
    /// member that knows the leader.
    pub open spec fn watch_entries(self) -> Seq<(Seq<char>, Seq<char>)> {
        self.unary_entries().push(("hasleader"@, "true"@))
    }

    /// What a refresh sends: the credentials, if any are configured.
    pub open spec fn refresh_request(self) -> Option<(Seq<char>, Seq<char>)> {
        self.credentials
    }

    /// The route of a call of the given kind. The login never carries a
    /// token and is never retried; an auth-management call is retried when
    /// credentials are configured; every other call is always retried.
    pub open spec fn route(self, kind: CallKind) -> CallRoute {
        match kind {
            CallKind::Authenticate => CallRoute::Direct,
            CallKind::AuthManagement => if self.credentials is Some {
                CallRoute::Retried
            } else {
                CallRoute::Direct
            },
            CallKind::Operation => CallRoute::Retried,
        }
    }
}

/// The credentials and the token that all calls of one client share.
#[derive(Clone, Debug)]
pub struct Session {
    auth_user: Option<Credentials>,
    token: Option<String>,
}

impl View for Session {
    type V = SessionView;

    closed spec fn view(&self) -> SessionView {
        SessionView {
            credentials: match self.auth_user {
                Some(c) => Some((c.username@, c.password@)),
                None => None,
            },
            token: match self.token {
                Some(t) => Some(t@),
                None => None,
            },
        }
    }
}

impl Session {
    /// A held token is always representable as call metadata.
    pub open spec fn wf(&self) -> bool {
        self@.token matches Some(t) ==> is_metadata_text(t)
    }

    /// A session without a token.
    pub fn new(auth_user: Option<Credentials>) -> (s: Session)
        ensures
            s.wf(),
            s@.token is None,
            s@.credentials == match auth_user {
                Some(c) => Some((c.username@, c.password@)),
                None => None,
            },
    {
        Session { auth_user, token: None }
    }

    /// The credentials to authenticate with when the token is refreshed;
    /// `None` means that a refresh has nothing to do and succeeds.
    pub fn refresh_request(&self) -> (r: Option<Credentials>)
        ensures
            match r {
                Some(c) => self@.refresh_request() == Some((c.username@, c.password@)),
                None => self@.refresh_request() is None,
            },
    {
        match &self.auth_user {
            Some(c) => Some(Credentials { username: c.username.clone(), password: c.password.clone() }),
            None => None,
        }
    }

    /// Whether a client built on this session authenticates once before it is
    /// handed out.
    pub fn needs_bootstrap(&self) -> (b: bool)
        ensures
            b == (self@.credentials is Some),
    {
        self.auth_user.is_some()
    }

    /// The route of a call of the given kind.
    pub fn route(&self, kind: CallKind) -> (route: CallRoute)
        ensures
            route == self@.route(kind),
    {
        match kind {
            CallKind::Authenticate => CallRoute::Direct,
            CallKind::AuthManagement => {
                if self.auth_user.is_some() {
                    CallRoute::Retried
                } else {
                    CallRoute::Direct
                }
            },
            CallKind::Operation => CallRoute::Retried,
        }
    }

    /// The current token.
    pub fn token(&self) -> (t: Option<&String>)
        ensures
            match t {
                Some(s) => self@.token == Some(s@),
                None => self@.token is None,
            },
    {
        self.token.as_ref()
    }

    /// Replaces the token with the one a login returned. A token that call
    /// metadata cannot carry is refused and the session keeps what it had.
    pub fn install_token(&mut self, token: String) -> (r: Result<(), Error>)
        ensures
            old(self).wf() ==> final(self).wf(),
            is_metadata_text(token@) ==> r is Ok && final(self)@ == old(self)@.with_token(token@),
            !is_metadata_text(token@) ==> final(self)@ == old(self)@ && (r matches Err(
                Error::ParseMetadataToken(msg),
            ) && msg@ == "failed to parse metadata value"@),
    {
        match parse_metadata_value(token.as_str()) {
            Ok(_) => {
                self.token = Some(token);
                Ok(())
            },
            Err(msg) => Err(Error::ParseMetadataToken(msg)),
        }
    }

    /// The metadata of a unary call.
    pub fn unary_metadata(&self) -> (entries: Vec<MetadataEntry>)
        ensures
            entry_views(entries@) == self@.unary_entries(),
    {
        let mut entries: Vec<MetadataEntry> = Vec::new();
        match &self.token {
            Some(t) => {
                entries.push(MetadataEntry { key: "authorization".to_owned(), value: t.clone() });
            },
            None => {},
        }
        assert(entry_views(entries@) =~= self@.unary_entries());
        entries
    }

    /// The metadata of a watch stream.
    pub fn watch_metadata(&self) -> (entries: Vec<MetadataEntry>)
        ensures
            entry_views(entries@) == self@.watch_entries(),
    {
        let mut entries = self.unary_metadata();
        entries.push(MetadataEntry { key: "hasleader".to_owned(), value: "true".to_owned() });
        assert(entry_views(entries@) =~= self@.watch_entries());
        entries
    }
}

/// Once a refresh has replaced the token, every call that reads the session
/// carries the new token and none carries the one it replaced.
pub proof fn lemma_token_isolation(before: SessionView, stale: Seq<char>, fresh: Seq<char>)
    requires
        before.token == Some(stale),
        stale != fresh,
    ensures
        before.with_token(fresh).unary_entries() == seq![("authorization"@, fresh)],
        !before.with_token(fresh).unary_entries().contains(("authorization"@, stale)),
        !before.with_token(fresh).watch_entries().contains(("authorization"@, stale)),
        before.with_token(fresh).watch_entries()[0] == ("authorization"@, fresh),
{
    reveal_strlit("authorization");
    reveal_strlit("hasleader");
    let after = before.with_token(fresh);
    assert(after.unary_entries() =~= seq![("authorization"@, fresh)]);
    assert("authorization"@.len() != "hasleader"@.len());
}

} // verus!
