//! Client settings: encryption modes, and the defaults used when CUPS reports
//! no server, user or user agent.

use vstd::prelude::*;
use vstd::string::StringExecFns;
use vstd::std_specs::convert::FromSpecImpl;

verus! {

/// `HTTP_ENCRYPTION_IF_REQUESTED` in CUPS.
pub const HTTP_ENCRYPTION_IF_REQUESTED: u32 = 0;
/// `HTTP_ENCRYPTION_NEVER` in CUPS.
pub const HTTP_ENCRYPTION_NEVER: u32 = 1;
/// `HTTP_ENCRYPTION_REQUIRED` in CUPS.
pub const HTTP_ENCRYPTION_REQUIRED: u32 = 2;
/// `HTTP_ENCRYPTION_ALWAYS` in CUPS.
pub const HTTP_ENCRYPTION_ALWAYS: u32 = 3;

/// Encryption modes for CUPS connections
#[derive(Debug, Clone, Copy, PartialEq, Eq, Structural)]
pub enum EncryptionMode {
    /// Never use encryption
    Never,
    /// Use encryption if requested by the server
    IfRequested,
    /// Require encryption for all connections
    Required,
    /// Always use encryption
    Always,
}

/// The mode that a CUPS `http_encryption_t` value stands for; unknown values
/// fall back to encrypting when the server asks for it.
pub open spec fn mode_of_http_encryption(v: u32) -> EncryptionMode {
    if v == HTTP_ENCRYPTION_NEVER {
        EncryptionMode::Never
    } else if v == HTTP_ENCRYPTION_IF_REQUESTED {
        EncryptionMode::IfRequested
    } else if v == HTTP_ENCRYPTION_REQUIRED {
        EncryptionMode::Required
    } else if v == HTTP_ENCRYPTION_ALWAYS {
        EncryptionMode::Always
    } else {
        EncryptionMode::IfRequested
    }
}

/// The CUPS `http_encryption_t` value of a mode.
pub open spec fn http_encryption_of_mode(m: EncryptionMode) -> u32 {
    match m {
        EncryptionMode::Never => HTTP_ENCRYPTION_NEVER,
        EncryptionMode::IfRequested => HTTP_ENCRYPTION_IF_REQUESTED,
        EncryptionMode::Required => HTTP_ENCRYPTION_REQUIRED,
        EncryptionMode::Always => HTTP_ENCRYPTION_ALWAYS,
    }
}

impl EncryptionMode {
    /// The variant's name, as `{:?}` writes it.
    pub open spec fn name(self) -> Seq<char> {
        match self {
            EncryptionMode::Never => "Never"@,
            EncryptionMode::IfRequested => "IfRequested"@,
            EncryptionMode::Required => "Required"@,
            EncryptionMode::Always => "Always"@,
        }
    }

    /// The variant's name, as `{:?}` writes it.
    pub fn debug_name(&self) -> (r: &'static str)
        ensures
            r@ == self.name(),
    {
        match self {
            EncryptionMode::Never => "Never",
            EncryptionMode::IfRequested => "IfRequested",
            EncryptionMode::Required => "Required",
            EncryptionMode::Always => "Always",
        }
    }
}

impl From<u32> for EncryptionMode {
    fn from(encryption: u32) -> (r: Self)
        ensures
            r == mode_of_http_encryption(encryption),
    {
        if encryption == HTTP_ENCRYPTION_NEVER {
            EncryptionMode::Never
        } else if encryption == HTTP_ENCRYPTION_IF_REQUESTED {
            EncryptionMode::IfRequested
        } else if encryption == HTTP_ENCRYPTION_REQUIRED {
            EncryptionMode::Required
        } else if encryption == HTTP_ENCRYPTION_ALWAYS {
            EncryptionMode::Always
        } else {
            EncryptionMode::IfRequested
        }
    }
}

impl FromSpecImpl<u32> for EncryptionMode {
    open spec fn obeys_from_spec() -> bool {
        true
    }

    open spec fn from_spec(v: u32) -> Self {
        mode_of_http_encryption(v)
    }
}

impl From<EncryptionMode> for u32 {
    fn from(mode: EncryptionMode) -> (r: u32)
        ensures
            r == http_encryption_of_mode(mode),
    {
        match mode {
            EncryptionMode::Never => HTTP_ENCRYPTION_NEVER,
            EncryptionMode::IfRequested => HTTP_ENCRYPTION_IF_REQUESTED,
            EncryptionMode::Required => HTTP_ENCRYPTION_REQUIRED,
            EncryptionMode::Always => HTTP_ENCRYPTION_ALWAYS,
        }
    }
}

impl FromSpecImpl<EncryptionMode> for u32 {
    open spec fn obeys_from_spec() -> bool {
        true
    }

    open spec fn from_spec(v: EncryptionMode) -> Self {
        http_encryption_of_mode(v)
    }
}

/// A mode is shown by its own variant's name, as `{:?}` writes it (Never,
/// IfRequested, Required, Always), and so distinct modes are shown by
/// distinct names.
pub proof fn lemma_encryption_names(m: EncryptionMode, n: EncryptionMode)
    ensures
        (m.name() == "Never"@) <==> (m == EncryptionMode::Never),
        (m.name() == "IfRequested"@) <==> (m == EncryptionMode::IfRequested),
        (m.name() == "Required"@) <==> (m == EncryptionMode::Required),
        (m.name() == "Always"@) <==> (m == EncryptionMode::Always),
        m.name() == n.name() ==> m == n,
{
    reveal_strlit("Never");
    reveal_strlit("IfRequested");
    reveal_strlit("Required");
    reveal_strlit("Always");
    assert("Never"@.len() != "IfRequested"@.len() && "Never"@.len() != "Required"@.len());
    assert("IfRequested"@.len() != "Required"@.len() && "IfRequested"@.len() != "Always"@.len());
    assert("Required"@.len() != "Always"@.len());
    assert("Never"@[0] != "Always"@[0]);
}

/// A mode survives the trip to its CUPS value and back, and so does every
/// CUPS value that names a mode.
pub proof fn lemma_encryption_round_trip(m: EncryptionMode, v: u32)
    ensures
        mode_of_http_encryption(http_encryption_of_mode(m)) == m,
        v <= 3 ==> http_encryption_of_mode(mode_of_http_encryption(v)) == v,
        v > 3 ==> mode_of_http_encryption(v) == EncryptionMode::IfRequested,
{
}

/// Summary of current CUPS configuration
#[derive(Debug, Clone)]
pub struct ConfigSummary {
    pub server: String,
    pub user: String,
    pub encryption: EncryptionMode,
    pub user_agent: String,
}

impl ConfigSummary {
    pub open spec fn text(&self) -> Seq<char> {
        "Server: "@ + self.server@ + ", User: "@ + self.user@ + ", Encryption: "@
            + self.encryption.name() + ", User-Agent: "@ + self.user_agent@
    }

    /// One line that shows every setting.
    pub fn to_string(&self) -> (r: String)
        ensures
            r@ == self.text(),
    {
        let mut s = String::from_str("Server: ");
        s.append(self.server.as_str());
        s.append(", User: ");
        s.append(self.user.as_str());
        s.append(", Encryption: ");
        s.append(self.encryption.debug_name());
        s.append(", User-Agent: ");
        s.append(self.user_agent.as_str());
        s
    }
}

/// The server name to report: the one CUPS gives, else `localhost`.
pub fn server_or_default(reported: Option<String>) -> (r: String)
    ensures
        r@ == match reported {
            Some(s) => s@,
            None => "localhost"@,
        },
{
    match reported {
        Some(s) => s,
        None => String::from_str("localhost"),
    }
}

/// The user name to report: the one CUPS gives, else the `USER` or
/// `USERNAME` environment variable, else `anonymous`.
pub fn user_or_default(reported: Option<String>, env_user: Option<String>, env_username: Option<String>) -> (r: String)
    ensures
        r@ == match (reported, env_user, env_username) {
            (Some(s), _, _) => s@,
            (None, Some(u), _) => u@,
            (None, None, Some(u)) => u@,
            (None, None, None) => "anonymous"@,
        },
{
    match reported {
        Some(s) => s,
        None => match env_user {
            Some(u) => u,
            None => match env_username {
                Some(u) => u,
                None => String::from_str("anonymous"),
            },
        },
    }
}

/// The User-Agent to report: the one CUPS gives, else one naming this
/// library's version.
pub fn user_agent_or_default(reported: Option<String>, version: &str) -> (r: String)
    ensures
        r@ == match reported {
            Some(s) => s@,
            None => "CUPS/2.4 (cups-rs/"@ + version@ + ")"@,
        },
{
    match reported {
        Some(s) => s,
        None => {
            let mut s = String::from_str("CUPS/2.4 (cups-rs/");
            s.append(version);
            s.append(")");
            s
        },
    }
}

} // verus!
