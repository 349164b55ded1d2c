//! How the engine reaches a host: connection descriptions, privilege
//! levels, and the exact shell text a command is wrapped in before it
//! runs on the target.
//!
//! The engine never opens the connection itself. It describes what to
//! run ([`Cmd`]) and consumes what came back ([`CmdResult`]); the
//! caller owns the channel (a local shell or an SSH session) and is the
//! only party doing I/O. One channel serves one job, sequentially: it
//! is not meant for concurrent use.

use vstd::prelude::*;
use crate::strutil::concat3;
use crate::strutil::concat5;

verus! {

/// The elevation a command runs under on the target.
#[derive(Debug)]
pub enum Privilege {
    /// Run as the authenticated user.
    Usual,
    /// Run as root through sudo.
    WithSudo,
    /// Run as the named user through sudo.
    AsUser(String),
}

impl Clone for Privilege {
    /// The copy carries the same elevation.
    fn clone(&self) -> (r: Privilege)
        ensures
            r@ == self@,
    {
        match self {
            Privilege::Usual => Privilege::Usual,
            Privilege::WithSudo => Privilege::WithSudo,
            Privilege::AsUser(u) => Privilege::AsUser(u.clone()),
        }
    }
}

impl PartialEq for Privilege {
    fn eq(&self, other: &Privilege) -> (r: bool) {
        match (self, other) {
            (Privilege::Usual, Privilege::Usual) => true,
            (Privilege::WithSudo, Privilege::WithSudo) => true,
            (Privilege::AsUser(a), Privilege::AsUser(b)) => crate::strutil::str_eq(
                a.as_str(),
                b.as_str(),
            ),
            _ => false,
        }
    }
}

impl vstd::std_specs::cmp::PartialEqSpecImpl for Privilege {
    open spec fn obeys_eq_spec() -> bool {
        true
    }

    open spec fn eq_spec(&self, other: &Privilege) -> bool {
        self@ == other@
    }
}

/// Spec mirror of [`Privilege`].
pub enum PrivilegeV {
    Usual,
    WithSudo,
    AsUser(Seq<char>),
}

impl View for Privilege {
    type V = PrivilegeV;

    open spec fn view(&self) -> PrivilegeV {
        match self {
            Privilege::Usual => PrivilegeV::Usual,
            Privilege::WithSudo => PrivilegeV::WithSudo,
            Privilege::AsUser(u) => PrivilegeV::AsUser(u@),
        }
    }
}

/// A username / password pair.
#[derive(Clone)]
pub struct Credentials {
    pub username: String,
    pub password: String,
}

impl Credentials {
    pub fn from(username: String, password: String) -> (r: Credentials)
        ensures
            r.username@ == username@,
            r.password@ == password@,
    {
        Credentials { username, password }
    }

    /// A printable projection; the password never appears in it.
    pub fn describe(&self) -> (r: String)
        ensures
            r@ == self.username@ + "/(password hidden)"@,
    {
        crate::strutil::concat2(self.username.as_str(), "/(password hidden)")
    }
}

/// Which local user commands run as, for a local channel.
#[derive(Clone)]
pub enum WhichUser {
    CurrentUser,
    PasswordLessUser(String),
    UsernamePassword(Credentials),
}

/// How to authenticate an SSH session. Key material is carried as
/// plain text (a path, or the PEM text itself); the caller feeds it to
/// its SSH library.
#[derive(Clone)]
pub enum Ssh2AuthMode {
    Unset,
    UsernamePassword(Credentials),
    KeyFile(String, String),
    KeyMemory(String, String),
    Agent(String),
}

impl Ssh2AuthMode {
    /// A printable projection; passwords and key material are replaced
    /// by a fixed placeholder.
    pub fn describe(&self) -> (r: String)
        ensures
            match self {
                Ssh2AuthMode::Unset => r@ == "unset"@,
                Ssh2AuthMode::UsernamePassword(c) => r@ == "user "@ + c.username@
                    + " (password hidden)"@,
                Ssh2AuthMode::KeyFile(u, p) => r@ == "user "@ + u@ + " with key file "@ + p@,
                Ssh2AuthMode::KeyMemory(u, _) => r@ == "user "@ + u@
                    + " (key content hidden)"@,
                Ssh2AuthMode::Agent(a) => r@ == "agent "@ + a@,
            },
    {
        match self {
            Ssh2AuthMode::Unset => "unset".to_owned(),
            Ssh2AuthMode::UsernamePassword(c) => concat3(
                "user ",
                c.username.as_str(),
                " (password hidden)",
            ),
            Ssh2AuthMode::KeyFile(u, p) => {
                let head = concat3("user ", u.as_str(), " with key file ");
                crate::strutil::concat2(head.as_str(), p.as_str())
            },
            Ssh2AuthMode::KeyMemory(u, _) => concat3(
                "user ",
                u.as_str(),
                " (key content hidden)",
            ),
            Ssh2AuthMode::Agent(a) => crate::strutil::concat2("agent ", a.as_str()),
        }
    }
}

/// How a job reaches its host.
#[derive(Clone)]
pub enum HostConnectionInfo {
    Unset,
    LocalHost(WhichUser),
    Ssh2(Ssh2AuthMode),
}

impl HostConnectionInfo {
    /// Commands run locally as the user running the caller.
    pub fn localhost_current_user() -> (r: HostConnectionInfo)
        ensures
            r is LocalHost,
    {
        HostConnectionInfo::LocalHost(WhichUser::CurrentUser)
    }

    /// Commands run locally as the given user; the password is optional
    /// for passwordless setups.
    pub fn localhost_as_user(username: String, password: Option<String>) -> (r:
        HostConnectionInfo)
        ensures
            r is LocalHost,
    {
        match password {
            Some(password_content) => HostConnectionInfo::LocalHost(
                WhichUser::UsernamePassword(Credentials::from(username, password_content)),
            ),
            None => HostConnectionInfo::LocalHost(WhichUser::PasswordLessUser(username)),
        }
    }

    /// Commands run over SSH with username and password.
    pub fn ssh2_with_username_password(username: String, password: String) -> (r:
        HostConnectionInfo)
        ensures
            r is Ssh2,
    {
        HostConnectionInfo::Ssh2(
            Ssh2AuthMode::UsernamePassword(Credentials::from(username, password)),
        )
    }

    /// Commands run over SSH with a private key read from this path.
    pub fn ssh2_with_key_file(username: &str, key_file_path: &str) -> (r: HostConnectionInfo)
        ensures
            r is Ssh2,
    {
        HostConnectionInfo::Ssh2(
            Ssh2AuthMode::KeyFile(username.to_owned(), key_file_path.to_owned()),
        )
    }

    /// Commands run over SSH with this PEM-encoded key text.
    pub fn ssh2_with_key_in_memory(username: String, key_content: String) -> (r:
        HostConnectionInfo)
        ensures
            r is Ssh2,
    {
        HostConnectionInfo::Ssh2(Ssh2AuthMode::KeyMemory(username, key_content))
    }

    /// Commands run over SSH through the named agent.
    pub fn ssh2_with_agent(agent_name: String) -> (r: HostConnectionInfo)
        ensures
            r is Ssh2,
    {
        HostConnectionInfo::Ssh2(Ssh2AuthMode::Agent(agent_name))
    }
}

/// What running one command on the target returned: its exit code and
/// its output, stderr folded in by the shell wrapping.
pub struct CmdResult {
    pub exit_code: i32,
    pub stdout: String,
}

impl Clone for CmdResult {
    /// The copy carries the same exit code and output.
    fn clone(&self) -> (r: CmdResult)
        ensures
            r.exit_code == self.exit_code,
            r.stdout@ == self.stdout@,
    {
        CmdResult { exit_code: self.exit_code, stdout: self.stdout.clone() }
    }
}

impl CmdResult {
    pub fn new() -> (r: CmdResult)
        ensures
            r.exit_code == 0,
            r.stdout@ == Seq::<char>::empty(),
    {
        CmdResult { exit_code: 0, stdout: String::new() }
    }

    pub fn from(exit_code: i32, stdout: String) -> (r: CmdResult)
        ensures
            r.exit_code == exit_code,
            r.stdout == stdout,
    {
        CmdResult { exit_code, stdout }
    }
}

/// One command the engine wants run on the target.
pub struct Cmd {
    /// The command text, before privilege wrapping.
    pub content: String,
    /// The elevation to wrap it in.
    pub privilege: Privilege,
}

/// Spec mirror of [`Cmd`].
pub struct CmdV {
    pub content: Seq<char>,
    pub privilege: PrivilegeV,
}

impl View for Cmd {
    type V = CmdV;

    open spec fn view(&self) -> CmdV {
        CmdV { content: self.content@, privilege: self.privilege@ }
    }
}

/// The views of a list of commands.
pub open spec fn cmd_views(s: Seq<Cmd>) -> Seq<CmdV> {
    s.map_values(|c: Cmd| c@)
}

/// The final spec-level shell text for a command under a privilege.
pub open spec fn final_cmd_text(cmd: Seq<char>, privilege: PrivilegeV) -> Seq<char> {
    match privilege {
        PrivilegeV::Usual => cmd + " 2>&1"@,
        PrivilegeV::WithSudo => "sudo -u root "@ + cmd + " 2>&1"@,
        PrivilegeV::AsUser(username) => "sudo -u "@ + username + " "@ + cmd + " 2>&1"@,
    }
}

impl Clone for Cmd {
    /// The copy carries the same command text and privilege.
    fn clone(&self) -> (r: Cmd)
        ensures
            r.content@ == self.content@,
            r.privilege@ == self.privilege@,
    {
        Cmd { content: self.content.clone(), privilege: self.privilege.clone() }
    }
}

impl Cmd {
    pub fn from(content: String, privilege: Privilege) -> (r: Cmd)
        ensures
            r.content == content,
            r.privilege == privilege,
    {
        Cmd { content, privilege }
    }

    /// The shell text to hand to the channel: [`final_cmd`] of this
    /// command's parts.
    pub fn final_text(&self) -> (r: String)
        ensures
            r@ == final_cmd_text(self.content@, self.privilege@),
    {
        final_cmd(self.content.clone(), self.privilege.clone())
    }
}

/// Wraps a command for the target's POSIX shell: stderr folded into
/// stdout, and sudo elevation prepended as the privilege asks.
pub fn final_cmd(cmd: String, privilege: Privilege) -> (r: String)
    ensures
        r@ == final_cmd_text(cmd@, privilege@),
{
    match privilege {
        Privilege::Usual => crate::strutil::concat2(cmd.as_str(), " 2>&1"),
        Privilege::WithSudo => concat3("sudo -u root ", cmd.as_str(), " 2>&1"),
        Privilege::AsUser(username) => concat5(
            "sudo -u ",
            username.as_str(),
            " ",
            cmd.as_str(),
            " 2>&1",
        ),
    }
}

} // verus!
