//! Relay configuration: server settings, logging settings and the user table,
//! with the validation that every loaded configuration must pass.
use vstd::prelude::*;
use crate::text::{is_blank, is_blank_str};

verus! {

/// One authorised client: a display name and the bearer token it presents.
#[derive(Debug, Clone)]
pub struct User {
    pub name: String,
    pub token: String,
}

/// Settings of the listener and of every session.
#[derive(Debug, Clone)]
pub struct ServerConfig {
    pub host: String,
    pub port: u16,
    pub enable_tls: bool,
    pub tls_cert: Option<String>,
    pub tls_key: Option<String>,
    pub auth_timeout_secs: u64,
    pub idle_timeout_secs: u64,
    pub insecure_skip_verify: bool,
}

/// Settings of the log sink.
#[derive(Debug, Clone)]
pub struct LoggingConfig {
    pub level: String,
    pub directory: String,
    pub file_prefix: String,
    pub rotation: String,
    pub console_output: bool,
}

/// A complete configuration snapshot.
#[derive(Debug, Clone)]
pub struct Config {
    pub server: ServerConfig,
    pub logging: LoggingConfig,
    pub users: Vec<User>,
}

/// Why a configuration was refused.
#[derive(Debug, Clone)]
pub enum ConfigError {
    /// The user table is empty.
    NoUsers,
    /// The named user repeats a token that an earlier user already holds.
    DuplicateToken { name: String },
    /// Some user has a blank name.
    BlankName,
    /// The named user has a blank token.
    BlankToken { name: String },
}

/// How often the log file is rotated.
#[derive(Debug, Clone, Copy, PartialEq, Eq, Structural)]
pub enum Rotation {
    Daily,
    Hourly,
    Never,
}

pub fn default_host() -> (r: String)
    ensures
        r@ == "0.0.0.0"@,
{
    String::from_str("0.0.0.0")
}

pub fn default_port() -> (r: u16)
    ensures
        r == 443,
{
    443
}

pub fn default_enable_tls() -> (r: bool)
    ensures
        r,
{
    true
}

pub fn default_auth_timeout() -> (r: u64)
    ensures
        r == 10,
{
    10
}

pub fn default_idle_timeout() -> (r: u64)
    ensures
        r == 600,
{
    600
}

pub fn default_log_level() -> (r: String)
    ensures
        r@ == "info"@,
{
    String::from_str("info")
}

pub fn default_log_directory() -> (r: String)
    ensures
        r@ == "logs"@,
{
    String::from_str("logs")
}

pub fn default_log_prefix() -> (r: String)
    ensures
        r@ == "ws-relay"@,
{
    String::from_str("ws-relay")
}

pub fn default_log_rotation() -> (r: String)
    ensures
        r@ == "daily"@,
{
    String::from_str("daily")
}

pub fn default_console_output() -> (r: bool)
    ensures
        r,
{
    true
}

impl Default for LoggingConfig {
    fn default() -> (r: Self)
        ensures
            r.level@ == "info"@,
            r.directory@ == "logs"@,
            r.file_prefix@ == "ws-relay"@,
            r.rotation@ == "daily"@,
            r.console_output,
    {
        LoggingConfig {
            level: default_log_level(),
            directory: default_log_directory(),
            file_prefix: default_log_prefix(),
            rotation: default_log_rotation(),
            console_output: default_console_output(),
        }
    }
}

impl ServerConfig {
    /// Server settings with every documented default and no TLS material.
    pub fn with_defaults() -> (r: Self)
        ensures
            r.host@ == "0.0.0.0"@,
            r.port == 443,
            r.enable_tls,
            r.tls_cert is None,
            r.tls_key is None,
            r.auth_timeout_secs == 10,
            r.idle_timeout_secs == 600,
            !r.insecure_skip_verify,
    {
        ServerConfig {
            host: default_host(),
            port: default_port(),
            enable_tls: default_enable_tls(),
            tls_cert: None,
            tls_key: None,
            auth_timeout_secs: default_auth_timeout(),
            idle_timeout_secs: default_idle_timeout(),
            insecure_skip_verify: false,
        }
    }
}

/// The user at `j` presents a token that some earlier user already holds.
pub open spec fn repeats_token(users: Seq<User>, j: int) -> bool {
    exists|i: int| 0 <= i < j && #[trigger] users[i].token@ == users[j].token@
}

/// `j` is the first user whose token repeats an earlier one.
pub open spec fn is_first_repeat(users: Seq<User>, j: int) -> bool {
    &&& 0 <= j < users.len()
    &&& repeats_token(users, j)
    &&& forall|k: int| 0 <= k < j ==> !repeats_token(users, k)
}

/// No two users share a token.
pub open spec fn tokens_unique(users: Seq<User>) -> bool {
    forall|j: int| 0 <= j < users.len() ==> !repeats_token(users, j)
}

/// The user has a blank name or a blank token.
pub open spec fn has_blank(u: User) -> bool {
    is_blank(u.name@) || is_blank(u.token@)
}

/// `k` is the first user with a blank name or token.
pub open spec fn is_first_blank(users: Seq<User>, k: int) -> bool {
    &&& 0 <= k < users.len()
    &&& has_blank(users[k])
    &&& forall|m: int| 0 <= m < k ==> !has_blank(#[trigger] users[m])
}

/// No user has a blank name or token.
pub open spec fn none_blank(users: Seq<User>) -> bool {
    forall|k: int| 0 <= k < users.len() ==> !has_blank(#[trigger] users[k])
}

/// A user table that a configuration may carry.
pub open spec fn users_valid(users: Seq<User>) -> bool {
    users.len() > 0 && tokens_unique(users) && none_blank(users)
}

/// The rotation that a rotation setting selects; unknown names rotate daily.
pub open spec fn rotation_of(name: Seq<char>) -> Rotation {
    if name == "hourly"@ {
        Rotation::Hourly
    } else if name == "never"@ {
        Rotation::Never
    } else {
        Rotation::Daily
    }
}

impl User {
    /// A field-by-field copy of the user.
    pub fn copy(&self) -> (r: User)
        ensures
            r == *self,
    {
        User { name: self.name.clone(), token: self.token.clone() }
    }
}

impl Config {
    /// Checks the user table: it must not be empty, no token may repeat, and no
    /// user may have a blank name or token. The checks run in that order, each
    /// over the users in order, and the first violation is reported.
    pub fn validate(&self) -> (r: Result<(), ConfigError>)
        ensures
            r is Ok <==> users_valid(self.users@),
            self.users@.len() == 0 ==> r == Err::<(), ConfigError>(ConfigError::NoUsers),
            forall|j: int|
                is_first_repeat(self.users@, j) ==> (match r {
                    Err(ConfigError::DuplicateToken { name }) => name@ == self.users@[j].name@,
                    _ => false,
                }),
            forall|k: int|
                tokens_unique(self.users@) && is_first_blank(self.users@, k) ==> (match r {
                    Err(ConfigError::BlankName) => is_blank(self.users@[k].name@),
                    Err(ConfigError::BlankToken { name }) => !is_blank(self.users@[k].name@)
                        && name@ == self.users@[k].name@,
                    _ => false,
                }),
    {
        let users = &self.users;
        let n = users.len();
        if n == 0 {
            return Err(ConfigError::NoUsers);
        }
        let mut j: usize = 0;
        while j < n
            invariant
                n == users@.len(),
                users == &self.users,
                j <= n,
                forall|k: int| 0 <= k < j ==> !repeats_token(users@, k),
            decreases n - j,
        {
            let mut i: usize = 0;
            while i < j
                invariant
                    n == users@.len(),
                    users == &self.users,
                    i <= j < n,
                    forall|k: int| 0 <= k < j ==> !repeats_token(users@, k),
                    forall|m: int| 0 <= m < i ==> users@[m].token@ != users@[j as int].token@,
                decreases j - i,
            {
                if users[i].token == users[j].token {
                    let ghost jj = j as int;
                    assert(repeats_token(users@, jj));
                    assert forall|j2: int| is_first_repeat(users@, j2) implies j2 == jj by {
                        if j2 < jj {
                        } else if j2 > jj {
                        }
                    }
                    return Err(ConfigError::DuplicateToken { name: users[j].name.clone() });
                }
                i = i + 1;
            }
            j = j + 1;
        }
        assert(tokens_unique(users@));
        let mut k: usize = 0;
        while k < n
            invariant
                n == users@.len(),
                users == &self.users,
                tokens_unique(users@),
                k <= n,
                forall|m: int| 0 <= m < k ==> !has_blank(#[trigger] users@[m]),
            decreases n - k,
        {
            let name_blank = is_blank_str(users[k].name.as_str());
            if name_blank {
                assert(is_first_blank(users@, k as int));
                assert forall|k2: int| is_first_blank(users@, k2) implies k2 == k by {
                    if k2 < k {
                    } else if k2 > k {
                        assert(!has_blank(users@[k as int]));
                    }
                }
                return Err(ConfigError::BlankName);
            }
            if is_blank_str(users[k].token.as_str()) {
                assert forall|k2: int| is_first_blank(users@, k2) implies k2 == k by {
                    if k2 < k {
                    } else if k2 > k {
                        assert(!has_blank(users@[k as int]));
                    }
                }
                return Err(ConfigError::BlankToken { name: users[k].name.clone() });
            }
            k = k + 1;
        }
        Ok(())
    }
}

/// The rotation that the logging settings ask for.
pub fn rotation_for(name: &String) -> (r: Rotation)
    ensures
        r == rotation_of(name@),
{
    let hourly = String::from_str("hourly");
    let never = String::from_str("never");
    if *name == hourly {
        Rotation::Hourly
    } else if *name == never {
        Rotation::Never
    } else {
        Rotation::Daily
    }
}

} // verus!
