//! Connection descriptor for the remote build host, its validation, and
//! the error taxonomy of a build session.
//!
//! Validation is a pure decision: an empty address or username, or a
//! descriptor with neither a key path nor a password, is rejected here,
//! before any socket is opened. When both credentials are present the
//! key takes precedence.

use vstd::prelude::*;
use crate::strutil::{i32_to_string, spec_signed_decimal};

verus! {

/// Transport target of a remote build: `host[:port]`, a user, and either
/// a key-file path or a password.
pub struct MacConfig {
    pub ip: String,
    pub username: String,
    pub password: Option<String>,
    pub ssh_key_path: Option<String>,
}

/// Index of the first colon in the sequence, or -1 when there is none.
pub open spec fn spec_first_colon(s: Seq<char>) -> int
    decreases s.len(),
{
    if s.len() == 0 {
        -1
    } else if s[0] == ':' {
        0
    } else if spec_first_colon(s.skip(1)) == -1 {
        -1
    } else {
        spec_first_colon(s.skip(1)) + 1
    }
}

/// The host part of `host[:port]`: everything before the first colon.
pub open spec fn spec_host_part(s: Seq<char>) -> Seq<char> {
    if spec_first_colon(s) == -1 {
        s
    } else {
        s.take(spec_first_colon(s))
    }
}

/// The port part of `host[:port]`: everything after the first colon, or
/// the default port 22.
pub open spec fn spec_port_part(s: Seq<char>) -> Seq<char> {
    if spec_first_colon(s) == -1 {
        "22"@
    } else {
        s.skip(spec_first_colon(s) + 1)
    }
}

proof fn lemma_first_colon_at(s: Seq<char>, i: int)
    requires
        0 <= i < s.len(),
        s[i] == ':',
        forall|j: int| 0 <= j < i ==> s[j] != ':',
    ensures
        spec_first_colon(s) == i,
    decreases s.len(),
{
    if i > 0 {
        assert forall|j: int| 0 <= j < i - 1 implies s.skip(1)[j] != ':' by {
            assert(s.skip(1)[j] == s[j + 1]);
        }
        assert(s.skip(1)[i - 1] == s[i]);
        lemma_first_colon_at(s.skip(1), i - 1);
    }
}

proof fn lemma_no_colon(s: Seq<char>)
    requires
        forall|j: int| 0 <= j < s.len() ==> s[j] != ':',
    ensures
        spec_first_colon(s) == -1,
    decreases s.len(),
{
    if s.len() > 0 {
        assert forall|j: int| 0 <= j < s.skip(1).len() implies s.skip(1)[j] != ':' by {
            assert(s.skip(1)[j] == s[j + 1]);
        }
        lemma_no_colon(s.skip(1));
    }
}

/// Splits `host[:port]` at the first colon; without a colon the port
/// defaults to 22.
pub fn parse_ip_and_port(input: &str) -> (r: (&str, &str))
    ensures
        r.0@ == spec_host_part(input@),
        r.1@ == spec_port_part(input@),
{
    let len = input.unicode_len();
    let mut i: usize = 0;
    while i < len
        invariant
            i <= len,
            len == input@.len(),
            forall|j: int| 0 <= j < i ==> input@[j] != ':',
        decreases len - i,
    {
        if input.get_char(i) == ':' {
            proof {
                lemma_first_colon_at(input@, i as int);
            }
            let host = input.substring_char(0, i);
            let port = input.substring_char(i + 1, len);
            return (host, port);
        }
        i = i + 1;
    }
    proof {
        lemma_no_colon(input@);
    }
    (input, "22")
}

/// A key-file path is configured and non-empty.
pub open spec fn spec_has_key(config: &MacConfig) -> bool {
    match config.ssh_key_path {
        Some(k) => k@.len() > 0,
        None => false,
    }
}

/// A password is configured and non-empty.
pub open spec fn spec_has_password(config: &MacConfig) -> bool {
    match config.password {
        Some(p) => p@.len() > 0,
        None => false,
    }
}

/// The credential chosen for authentication: the key file wins when both
/// are present.
pub enum AuthChoice {
    KeyFile(String),
    Password(String),
}

/// Everything a transport needs to open the remote session: the parsed
/// host and port and the chosen credential.
pub struct ConnectionPlan {
    pub host: String,
    pub port: String,
    pub auth: AuthChoice,
}

/// What can go wrong in a build session, from connection to command.
pub enum SessionError {
    /// The descriptor's address is empty.
    EmptyAddress,
    /// The descriptor's username is empty.
    EmptyUsername,
    /// Neither a key path nor a password is configured.
    NoCredentials,
    /// The configured key file does not exist on local disk.
    KeyFileMissing { path: String },
    /// The host could not be reached within the connect timeout.
    ConnectFailed { addr: String, detail: String },
    /// The protocol handshake failed.
    HandshakeFailed { host: String, detail: String },
    /// Key-based authentication was rejected.
    KeyAuthFailed { username: String, detail: String },
    /// Password authentication was rejected.
    PasswordAuthFailed { username: String, detail: String },
    /// The session does not report authenticated state even though no
    /// protocol error surfaced.
    AuthRejected { username: String, host: String },
    /// A command channel could not be opened on the session.
    ChannelOpenFailed { detail: String },
    /// The command could not be submitted on an open channel.
    ExecFailed { detail: String },
    /// The remote toolchain is missing: the pre-flight check failed.
    EnvironmentInvalid,
    /// The command ran and exited with a nonzero status.
    CommandFailed { exit_code: i32 },
}

/// Validates the descriptor and fixes the transport plan, before any
/// network work: an empty host or username and missing credentials are
/// rejected here, and the key file takes precedence over a password.
pub fn connection_plan(config: &MacConfig) -> (r: Result<ConnectionPlan, SessionError>)
    ensures
        spec_host_part(config.ip@).len() == 0 ==> (r matches Err(e) && e is EmptyAddress),
        spec_host_part(config.ip@).len() > 0 && config.username@.len() == 0 ==> (r matches Err(e)
            && e is EmptyUsername),
        spec_host_part(config.ip@).len() > 0 && config.username@.len() > 0 && spec_has_key(config)
            ==> (r matches Ok(p) && p.host@ == spec_host_part(config.ip@) && p.port@
            == spec_port_part(config.ip@) && (p.auth matches AuthChoice::KeyFile(k)
            && Some(k) == config.ssh_key_path)),
        spec_host_part(config.ip@).len() > 0 && config.username@.len() > 0 && !spec_has_key(config)
            && spec_has_password(config) ==> (r matches Ok(p) && p.host@ == spec_host_part(
            config.ip@,
        ) && p.port@ == spec_port_part(config.ip@) && (p.auth matches AuthChoice::Password(w)
            && Some(w) == config.password)),
        spec_host_part(config.ip@).len() > 0 && config.username@.len() > 0 && !spec_has_key(config)
            && !spec_has_password(config) ==> (r matches Err(e) && e is NoCredentials),
{
    let (host, port) = parse_ip_and_port(config.ip.as_str());
    if host.is_empty() {
        return Err(SessionError::EmptyAddress);
    }
    if config.username.as_str().is_empty() {
        return Err(SessionError::EmptyUsername);
    }
    let has_key = match &config.ssh_key_path {
        Some(k) => !k.as_str().is_empty(),
        None => false,
    };
    if has_key {
        let key = match &config.ssh_key_path {
            Some(k) => k.clone(),
            None => String::new(),
        };
        return Ok(
            ConnectionPlan {
                host: host.to_owned(),
                port: port.to_owned(),
                auth: AuthChoice::KeyFile(key),
            },
        );
    }
    let has_password = match &config.password {
        Some(p) => !p.as_str().is_empty(),
        None => false,
    };
    if has_password {
        let password = match &config.password {
            Some(p) => p.clone(),
            None => String::new(),
        };
        return Ok(
            ConnectionPlan {
                host: host.to_owned(),
                port: port.to_owned(),
                auth: AuthChoice::Password(password),
            },
        );
    }
    Err(SessionError::NoCredentials)
}

/// The option string handed to a command-line `ssh` invocation: port,
/// relaxed host-key checking, a bounded connect timeout, and the key
/// file when one is configured.
pub open spec fn spec_ssh_options(port: Seq<char>, key_path: Option<Seq<char>>) -> Seq<char> {
    let base = "-p "@ + port
        + " -o StrictHostKeyChecking=no -o UserKnownHostsFile=/dev/null -o ConnectTimeout=30"@;
    match key_path {
        Some(k) => if k.len() > 0 {
            base + " -i \""@ + k + "\""@
        } else {
            base
        },
        None => base,
    }
}

/// Builds the option string for command-line `ssh` operations, quoting
/// the key-file path when one is configured and non-empty.
pub fn get_ssh_options(port: &str, key_path: &Option<String>) -> (r: String)
    ensures
        r@ == spec_ssh_options(
            port@,
            match key_path {
                Some(k) => Some(k@),
                None => None,
            },
        ),
{
    let mut opts = String::from_str("-p ");
    opts.append(port);
    opts.append(" -o StrictHostKeyChecking=no -o UserKnownHostsFile=/dev/null -o ConnectTimeout=30");
    if let Some(path) = key_path {
        if !path.as_str().is_empty() {
            opts.append(" -i \"");
            opts.append(path.as_str());
            opts.append("\"");
        }
    }
    opts
}

/// The user-facing description of a session error, matching the wording
/// the observer reports.
pub open spec fn spec_message(e: SessionError) -> Seq<char> {
    match e {
        SessionError::EmptyAddress => "Connection failed: IP address is empty"@,
        SessionError::EmptyUsername => "Connection failed: Username is empty"@,
        SessionError::NoCredentials => "No credentials provided: Enter either SSH Key Path OR Password"@,
        SessionError::KeyFileMissing { path } => "SSH Key file not found: '"@ + path@
            + "' (Check path)"@,
        SessionError::ConnectFailed { addr, detail } => "Connection failed: Cannot reach '"@
            + addr@ + "' - "@ + detail@ + " (Check IP/Port)"@,
        SessionError::HandshakeFailed { host, detail } => "SSH Handshake failed with '"@ + host@
            + "' - "@ + detail@,
        SessionError::KeyAuthFailed { username, detail } => "SSH Key auth failed for user '"@
            + username@ + "': "@ + detail@ + " (Check username, key path, and permissions)"@,
        SessionError::PasswordAuthFailed { username, detail } => "Password auth failed for user '"@
            + username@ + "': "@ + detail@ + " (Check username and password)"@,
        SessionError::AuthRejected { username, host } => "Authentication failed for user '"@
            + username@ + "' at '"@ + host@ + "' (Credentials rejected)"@,
        SessionError::ChannelOpenFailed { detail } => "Failed to open channel: "@ + detail@,
        SessionError::ExecFailed { detail } => "Failed to exec command: "@ + detail@,
        SessionError::EnvironmentInvalid => "Remote environment invalid: 'xcodebuild' not found in PATH. Check if Xcode is installed and CLI tools are configured."@,
        SessionError::CommandFailed { exit_code } => "Command failed with exit code: "@
            + spec_signed_decimal(exit_code as int),
    }
}

impl SessionError {
    /// Renders the error for the user; kept as a method because the
    /// library's types carry no `Display`.
    pub fn message(&self) -> (r: String)
        ensures
            r@ == spec_message(*self),
    {
        match self {
            SessionError::EmptyAddress => String::from_str(
                "Connection failed: IP address is empty",
            ),
            SessionError::EmptyUsername => String::from_str("Connection failed: Username is empty"),
            SessionError::NoCredentials => String::from_str(
                "No credentials provided: Enter either SSH Key Path OR Password",
            ),
            SessionError::KeyFileMissing { path } => {
                let mut s = String::from_str("SSH Key file not found: '");
                s.append(path.as_str());
                s.append("' (Check path)");
                s
            },
            SessionError::ConnectFailed { addr, detail } => {
                let mut s = String::from_str("Connection failed: Cannot reach '");
                s.append(addr.as_str());
                s.append("' - ");
                s.append(detail.as_str());
                s.append(" (Check IP/Port)");
                s
            },
            SessionError::HandshakeFailed { host, detail } => {
                let mut s = String::from_str("SSH Handshake failed with '");
                s.append(host.as_str());
                s.append("' - ");
                s.append(detail.as_str());
                s
            },
            SessionError::KeyAuthFailed { username, detail } => {
                let mut s = String::from_str("SSH Key auth failed for user '");
                s.append(username.as_str());
                s.append("': ");
                s.append(detail.as_str());
                s.append(" (Check username, key path, and permissions)");
                s
            },
            SessionError::PasswordAuthFailed { username, detail } => {
                let mut s = String::from_str("Password auth failed for user '");
                s.append(username.as_str());
                s.append("': ");
                s.append(detail.as_str());
                s.append(" (Check username and password)");
                s
            },
            SessionError::AuthRejected { username, host } => {
                let mut s = String::from_str("Authentication failed for user '");
                s.append(username.as_str());
                s.append("' at '");
                s.append(host.as_str());
                s.append("' (Credentials rejected)");
                s
            },
            SessionError::ChannelOpenFailed { detail } => {
                let mut s = String::from_str("Failed to open channel: ");
                s.append(detail.as_str());
                s
            },
            SessionError::ExecFailed { detail } => {
                let mut s = String::from_str("Failed to exec command: ");
                s.append(detail.as_str());
                s
            },
            SessionError::EnvironmentInvalid => String::from_str(
                "Remote environment invalid: 'xcodebuild' not found in PATH. Check if Xcode is installed and CLI tools are configured.",
            ),
            SessionError::CommandFailed { exit_code } => {
                let mut s = String::from_str("Command failed with exit code: ");
                s.append(i32_to_string(*exit_code).as_str());
                s
            },
        }
    }
}

} // verus!
