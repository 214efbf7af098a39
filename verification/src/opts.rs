//! The configuration of one launch attempt.

use vstd::prelude::*;

verus! {

/// The per-call and per-launch time limit, in milliseconds, used where the
/// caller names none.
pub const DEFAULT_TIMEOUT_MS: u64 = 15000;

/// Which transport the final session runs over.
#[derive(Clone, Copy, Debug, PartialEq, Eq, Structural)]
pub enum Method {
    /// An agent is started over SSH and the session reconnects to it
    /// directly.
    Distant,
    /// The authenticated SSH session is the final session.
    Ssh,
}

impl Default for Method {
    fn default() -> (method: Method)
        ensures
            method == Method::Distant,
    {
        Method::Distant
    }
}

/// Options for the SSH connection that every launch starts with.
#[derive(Clone, Debug, PartialEq, Eq)]
pub struct SshOpts {
    /// Key files to offer.
    pub identity_files: Vec<String>,
    /// Whether to offer the listed identities only.
    pub identities_only: Option<bool>,
    /// The port to connect to instead of the configured one.
    pub port: Option<u16>,
    /// The command to connect through.
    pub proxy_command: Option<String>,
    /// The user to log in as.
    pub user: Option<String>,
    /// Known-hosts files to consult.
    pub user_known_hosts_files: Vec<String>,
}

impl SshOpts {
    /// Whether nothing is set: no files listed, no override given.
    pub open spec fn is_unset(&self) -> bool {
        &&& self.identity_files@.len() == 0
        &&& self.identities_only is None
        &&& self.port is None
        &&& self.proxy_command is None
        &&& self.user is None
        &&& self.user_known_hosts_files@.len() == 0
    }
}

impl Default for SshOpts {
    fn default() -> (ssh: SshOpts)
        ensures
            ssh.is_unset(),
    {
        SshOpts {
            identity_files: Vec::new(),
            identities_only: None,
            port: None,
            proxy_command: None,
            user: None,
            user_known_hosts_files: Vec::new(),
        }
    }
}

/// What one launch attempt is given. `H` is the caller's set of
/// authentication capabilities (answering prompts, accepting a host key,
/// taking banner and error notices); it is carried to the connection step
/// untouched.
pub struct LaunchOpts<H> {
    /// The address of the target machine.
    pub host: String,
    /// The transport of the final session.
    pub method: Method,
    /// The caller's authentication capabilities.
    pub handler: H,
    /// Options for the SSH connection.
    pub ssh: SshOpts,
    /// The bound on the launch as a whole, in milliseconds.
    pub timeout: u64,
}

/// The kinds of dynamically typed value, other than a table, in which a
/// caller may hand over what should have been a launch configuration.
#[derive(Clone, Copy, Debug, PartialEq, Eq, Structural)]
pub enum ValueKind {
    Nil,
    Boolean,
    LightUserData,
    Integer,
    Number,
    String,
    Function,
    Thread,
    UserData,
    Error,
}

/// The name under which a kind of value is reported.
pub open spec fn kind_name(kind: ValueKind) -> Seq<char> {
    match kind {
        ValueKind::Nil => "Nil"@,
        ValueKind::Boolean => "Boolean"@,
        ValueKind::LightUserData => "LightUserData"@,
        ValueKind::Integer => "Integer"@,
        ValueKind::Number => "Number"@,
        ValueKind::String => "String"@,
        ValueKind::Function => "Function"@,
        ValueKind::Thread => "Thread"@,
        ValueKind::UserData => "UserData"@,
        ValueKind::Error => "Error"@,
    }
}

impl ValueKind {
    /// The name under which this kind of value is reported.
    pub fn name(&self) -> (name: &'static str)
        ensures
            name@ == kind_name(*self),
    {
        match self {
            ValueKind::Nil => "Nil",
            ValueKind::Boolean => "Boolean",
            ValueKind::LightUserData => "LightUserData",
            ValueKind::Integer => "Integer",
            ValueKind::Number => "Number",
            ValueKind::String => "String",
            ValueKind::Function => "Function",
            ValueKind::Thread => "Thread",
            ValueKind::UserData => "UserData",
            ValueKind::Error => "Error",
        }
    }
}

/// A value that could not be read as a launch configuration: the kind of
/// value that was given, and the type that was asked for.
#[derive(Clone, Copy, Debug, PartialEq, Eq)]
pub struct ConversionError {
    pub from: &'static str,
    pub to: &'static str,
}

/// The fields of a launch configuration as the caller wrote them: what was
/// left out is absent.
pub struct LaunchFields<H> {
    pub host: String,
    pub method: Option<Method>,
    pub handler: H,
    pub ssh: Option<SshOpts>,
    pub timeout: Option<u64>,
}

/// A dynamically typed value that is to be read as a launch configuration.
pub enum ConfigValue<H> {
    /// A table, with the fields found in it.
    Table(LaunchFields<H>),
    /// Any other kind of value.
    Other(ValueKind),
}

impl<H> LaunchOpts<H> {
    /// Reads a launch configuration. A table gives the options it names,
    /// with the default for each one it leaves out: the `Distant` method,
    /// no SSH option set, the default time limit. Any other value is
    /// refused, and the refusal names its kind.
    pub fn from_value(value: ConfigValue<H>) -> (read: Result<LaunchOpts<H>, ConversionError>)
        ensures
            match value {
                ConfigValue::Table(fields) => {
                    &&& read matches Ok(opts)
                    &&& opts.host == fields.host
                    &&& opts.handler == fields.handler
                    &&& opts.method == match fields.method {
                        Some(method) => method,
                        None => Method::Distant,
                    }
                    &&& match fields.ssh {
                        Some(ssh) => opts.ssh == ssh,
                        None => opts.ssh.is_unset(),
                    }
                    &&& opts.timeout == match fields.timeout {
                        Some(millis) => millis,
                        None => DEFAULT_TIMEOUT_MS,
                    }
                },
                ConfigValue::Other(kind) => {
                    &&& read matches Err(refusal)
                    &&& refusal.from@ == kind_name(kind)
                    &&& refusal.to@ == "LaunchOpts"@
                },
            },
    {
        match value {
            ConfigValue::Table(fields) => {
                let LaunchFields { host, method, handler, ssh, timeout } = fields;
                Ok(
                    LaunchOpts {
                        host,
                        method: match method {
                            Some(method) => method,
                            None => Method::default(),
                        },
                        handler,
                        ssh: match ssh {
                            Some(ssh) => ssh,
                            None => SshOpts::default(),
                        },
                        timeout: match timeout {
                            Some(millis) => millis,
                            None => DEFAULT_TIMEOUT_MS,
                        },
                    },
                )
            },
            ConfigValue::Other(kind) => Err(ConversionError { from: kind.name(), to: "LaunchOpts" }),
        }
    }

    /// Options for `host` with every default in place: the `Distant`
    /// method, no SSH option set, and the default time limit.
    pub fn new(host: String, handler: H) -> (opts: LaunchOpts<H>)
        ensures
            opts.host == host,
            opts.handler == handler,
            opts.method == Method::Distant,
            opts.ssh.is_unset(),
            opts.timeout == DEFAULT_TIMEOUT_MS,
    {
        LaunchOpts {
            host,
            method: Method::default(),
            handler,
            ssh: SshOpts::default(),
            timeout: DEFAULT_TIMEOUT_MS,
        }
    }
}

} // verus!
