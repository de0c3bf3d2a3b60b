//! Controller configuration: HTTP listener settings, authentication
//! accounts and tokens, logging, storage backend and reforward tuning.
//!
//! Loading the configuration from a file and from environment variables is
//! the embedding application's business; this module holds the decoded
//! values, their documented fallback defaults, and the computation of
//! authorization header values from accounts and tokens.

use base64::Engine;
use vstd::prelude::*;
use vstd::string::StringExecFns;

verus! {

/// The base64 rendering (standard alphabet, padded) of the UTF-8 bytes of a
/// character sequence.
pub uninterp spec fn base64_of(s: Seq<char>) -> Seq<char>;

/// Relies on `base64::engine::general_purpose::STANDARD.encode`
/// (`base64::Engine::encode`): the standard-alphabet, padded base64 encoding
/// of the input bytes, a function of the characters alone.
#[verifier::external_body]
fn base64_encode(s: &str) -> (r: String)
    ensures
        r@ == base64_of(s@),
{
    base64::engine::general_purpose::STANDARD.encode(s)
}

/// The value of a `Basic` authorization header for one account:
/// `Basic` followed by the base64 rendering of `username:password`.
pub open spec fn basic_authorization_of(username: Seq<char>, password: Seq<char>) -> Seq<char> {
    "Basic "@ + base64_of(username + ":"@ + password)
}

/// The value of a `Bearer` authorization header for one token.
pub open spec fn bearer_authorization_of(token: Seq<char>) -> Seq<char> {
    "Bearer "@ + token
}

/// One username/password account accepted by the controller.
#[derive(Debug, Clone)]
pub struct Account {
    pub username: String,
    pub password: String,
}

impl Account {
    /// Renders this account as a `Basic` authorization header value.
    pub fn to_authorization(&self) -> (r: String)
        ensures
            r@ == basic_authorization_of(self.username@, self.password@),
    {
        let mut joined = self.username.clone();
        joined.append(":");
        joined.append(self.password.as_str());
        assert(joined@ =~= self.username@ + ":"@ + self.password@);
        let encoded = base64_encode(joined.as_str());
        let mut r = String::from_str("Basic ");
        r.append(encoded.as_str());
        r
    }
}

/// Authentication inputs: explicit accounts and bearer tokens.
#[derive(Debug, Clone)]
pub struct Auth {
    pub accounts: Vec<Account>,
    pub tokens: Vec<String>,
}

impl Auth {
    /// Renders every account and then every token as an authorization
    /// header value, accounts first, each list in its own order.
    pub fn to_authorizations(&self) -> (r: Vec<String>)
        ensures
            r@.len() == self.accounts@.len() + self.tokens@.len(),
            forall|i: int|
                0 <= i < self.accounts@.len() ==> r@[i]@ == basic_authorization_of(
                    self.accounts@[i].username@,
                    self.accounts@[i].password@,
                ),
            forall|i: int|
                0 <= i < self.tokens@.len() ==> r@[self.accounts@.len() + i]@
                    == bearer_authorization_of(self.tokens@[i]@),
    {
        let mut authorizations: Vec<String> = Vec::new();
        for k in 0..self.accounts.len()
            invariant
                authorizations@.len() == k,
                forall|i: int|
                    0 <= i < k ==> authorizations@[i]@ == basic_authorization_of(
                        self.accounts@[i].username@,
                        self.accounts@[i].password@,
                    ),
        {
            authorizations.push(self.accounts[k].to_authorization());
        }
        for k in 0..self.tokens.len()
            invariant
                authorizations@.len() == self.accounts@.len() + k,
                forall|i: int|
                    0 <= i < self.accounts@.len() ==> authorizations@[i]@
                        == basic_authorization_of(
                        self.accounts@[i].username@,
                        self.accounts@[i].password@,
                    ),
                forall|i: int|
                    0 <= i < k ==> authorizations@[self.accounts@.len() + i]@
                        == bearer_authorization_of(self.tokens@[i]@),
        {
            let mut value = String::from_str("Bearer ");
            value.append(self.tokens[k].as_str());
            authorizations.push(value);
        }
        authorizations
    }
}

impl Default for Auth {
    /// No accounts and no tokens.
    fn default() -> (r: Self)
        ensures
            r.accounts@.len() == 0,
            r.tokens@.len() == 0,
    {
        Auth { accounts: Vec::new(), tokens: Vec::new() }
    }
}

/// HTTP listener settings.
#[derive(Debug, Clone)]
pub struct Http {
    pub listen: String,
    pub cors: bool,
}

impl Default for Http {
    /// The documented fallback: listen on every interface at port 8080,
    /// CORS off. The embedding application may override the port from its
    /// environment before use.
    fn default() -> (r: Self)
        ensures
            r.listen@ == "0.0.0.0:8080"@,
            !r.cors,
    {
        Http { listen: String::from_str("0.0.0.0:8080"), cors: false }
    }
}

/// Logging settings.
#[derive(Debug, Clone)]
pub struct Log {
    pub level: String,
}

impl Default for Log {
    /// The documented fallback level. The embedding application may
    /// override it from its environment before use.
    fn default() -> (r: Self)
        ensures
            r.level@ == "info"@,
    {
        Log { level: String::from_str("info") }
    }
}

/// How long a publisher may be absent before its stream is dropped,
/// in milliseconds.
#[derive(Debug, Clone)]
pub struct PublishLeaveTimeout(pub u64);

impl Default for PublishLeaveTimeout {
    fn default() -> (r: Self)
        ensures
            r.0 == 15000,
    {
        PublishLeaveTimeout(15000)
    }
}

/// The storage backend the controller reads node state from.
#[derive(Debug, Clone)]
pub enum StorageModel {
    RedisStandalone { addr: String },
}

impl Default for StorageModel {
    /// A standalone Redis on the local host's default port.
    fn default() -> (r: Self)
        ensures
            r matches StorageModel::RedisStandalone { addr } && addr@ == "redis://127.0.0.1:6379"@,
    {
        StorageModel::RedisStandalone { addr: String::from_str("redis://127.0.0.1:6379") }
    }
}

/// How many subscribers a stream must have before it is reforwarded.
#[derive(Debug, Clone)]
pub struct ReforwardCheckFrequency(pub u8);

impl Default for ReforwardCheckFrequency {
    fn default() -> (r: Self)
        ensures
            r.0 == 5,
    {
        ReforwardCheckFrequency(5)
    }
}

/// The interval between reforward checks, in milliseconds.
#[derive(Debug, Clone)]
pub struct CheckReforwardTickTime(pub u64);

impl Default for CheckReforwardTickTime {
    fn default() -> (r: Self)
        ensures
            r.0 == 3000,
    {
        CheckReforwardTickTime(3000)
    }
}

/// Reforward tuning knobs.
#[derive(Debug, Clone)]
pub struct Reforward {
    pub reforward_check_frequency: ReforwardCheckFrequency,
    pub check_reforward_tick_time: CheckReforwardTickTime,
}

impl Default for Reforward {
    fn default() -> (r: Self)
        ensures
            r.reforward_check_frequency.0 == 5,
            r.check_reforward_tick_time.0 == 3000,
    {
        Reforward {
            reforward_check_frequency: ReforwardCheckFrequency::default(),
            check_reforward_tick_time: CheckReforwardTickTime::default(),
        }
    }
}

/// The controller's whole configuration.
#[derive(Debug, Clone)]
pub struct Config {
    pub http: Http,
    pub auth: Auth,
    pub log: Log,
    pub storage: StorageModel,
    pub reforward: Reforward,
}

impl Default for Config {
    /// Every section at its documented fallback.
    fn default() -> (r: Self)
        ensures
            r.http.listen@ == "0.0.0.0:8080"@,
            !r.http.cors,
            r.auth.accounts@.len() == 0,
            r.auth.tokens@.len() == 0,
            r.log.level@ == "info"@,
            r.storage matches StorageModel::RedisStandalone { addr } && addr@
                == "redis://127.0.0.1:6379"@,
            r.reforward.reforward_check_frequency.0 == 5,
            r.reforward.check_reforward_tick_time.0 == 3000,
    {
        Config {
            http: Http::default(),
            auth: Auth::default(),
            log: Log::default(),
            storage: StorageModel::default(),
            reforward: Reforward::default(),
        }
    }
}

} // verus!
