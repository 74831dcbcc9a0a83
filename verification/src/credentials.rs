//! Which sources of credentials a transfer tries, in which order, and how the
//! reply of the credential helper is read. The sources themselves are asked
//! elsewhere; these functions decide on plain values.

use crate::text::{join, starts_with};
use vstd::prelude::*;

verus! {

/// The error of a transfer for which no source had credentials.
pub const NO_CREDENTIALS: &'static str = "No valid credentials found";

/// The user under which the SSH agent is asked when the remote names none.
pub const DEFAULT_SSH_USER: &'static str = "git";

/// Where credentials can come from.
#[derive(Debug, Clone, Copy, PartialEq, Eq, Structural)]
pub enum CredentialSource {
    /// The credential helper that the repository configures.
    Helper,
    /// The `git credential fill` command.
    CredentialFill,
    /// A key held by the SSH agent.
    SshAgent,
    /// The default credentials of the platform.
    Default,
}

/// One entry of a plan.
#[derive(Debug, Clone, Copy, PartialEq, Eq, Structural)]
pub enum Attempt {
    /// Ask the source; if it has nothing, go on with the next entry.
    Try(CredentialSource),
    /// Ask the source and take its answer, credentials or failure, as the result.
    Settle(CredentialSource),
}

/// The kinds of credentials that the remote accepts.
#[derive(Debug, Clone, Copy, PartialEq, Eq, Structural)]
pub struct Allowed {
    pub user_pass_plaintext: bool,
    pub ssh_key: bool,
    pub default: bool,
}

/// A remote that is reached over HTTPS.
pub open spec fn is_https(url: Seq<char>) -> bool {
    "https://"@.is_prefix_of(url)
}

/// A remote that is reached over SSH.
pub open spec fn is_ssh(url: Seq<char>) -> bool {
    "git@"@.is_prefix_of(url) || "ssh://"@.is_prefix_of(url)
}

/// The entry, if the condition holds.
pub open spec fn when(condition: bool, attempt: Attempt) -> Seq<Attempt> {
    if condition {
        seq![attempt]
    } else {
        Seq::empty()
    }
}

/// The plan of a fetch: the helper for an HTTPS remote, the agent for an SSH
/// remote, then whatever the remote accepts; nothing settles, so a transfer
/// for which every entry has nothing ends without credentials.
pub open spec fn pull_plan_of(url: Seq<char>, allowed: Allowed) -> Seq<Attempt> {
    when(is_https(url), Attempt::Try(CredentialSource::Helper)) + when(
        is_ssh(url),
        Attempt::Try(CredentialSource::SshAgent),
    ) + when(allowed.user_pass_plaintext, Attempt::Try(CredentialSource::Helper)) + when(
        allowed.ssh_key,
        Attempt::Try(CredentialSource::SshAgent),
    ) + when(allowed.default, Attempt::Try(CredentialSource::Default))
}

/// The plan of a push: `git credential fill` for an HTTPS remote that takes a
/// password, the agent for an SSH remote or one that takes a key, and last
/// the default credentials, whose answer settles the matter.
pub open spec fn push_plan_of(url: Seq<char>, allowed: Allowed) -> Seq<Attempt> {
    when(
        is_https(url) && allowed.user_pass_plaintext,
        Attempt::Try(CredentialSource::CredentialFill),
    ) + when(is_ssh(url) || allowed.ssh_key, Attempt::Try(CredentialSource::SshAgent)) + when(
        allowed.default,
        Attempt::Settle(CredentialSource::Default),
    )
}

/// What follows `key` on a line that starts with it.
pub open spec fn value_after(line: Seq<char>, key: Seq<char>) -> Option<Seq<char>> {
    if key.is_prefix_of(line) {
        Some(line.skip(key.len() as int))
    } else {
        None
    }
}

/// The value of the last line that starts with `key`; empty if there is none.
pub open spec fn field_of(lines: Seq<Seq<char>>, key: Seq<char>) -> Seq<char>
    decreases lines.len(),
{
    if lines.len() == 0 {
        Seq::empty()
    } else {
        match value_after(lines.last(), key) {
            Some(value) => value,
            None => field_of(lines.drop_last(), key),
        }
    }
}

/// The user name and the password of a reply, if it gives both.
pub open spec fn credentials_of(lines: Seq<Seq<char>>) -> Option<(Seq<char>, Seq<char>)> {
    let username = field_of(lines, "username="@);
    let password = field_of(lines, "password="@);
    if username.len() > 0 && password.len() > 0 {
        Some((username, password))
    } else {
        None
    }
}

/// The request that is written to the credential command.
pub open spec fn credential_request_of(username: Option<Seq<char>>) -> Seq<char> {
    "protocol=https\nhost=github.com\n"@ + (match username {
        Some(name) => "username="@ + name + "\n"@,
        None => Seq::empty(),
    }) + "\n"@
}

/// Returns what follows `key` on a line that starts with it.
pub fn strip_key(line: &str, key: &str) -> (value: Option<String>)
    ensures
        value.deep_view() == value_after(line@, key@),
{
    if starts_with(line, key) {
        let from = key.unicode_len();
        let to = line.unicode_len();
        assert(line@.subrange(from as int, to as int) =~= line@.skip(from as int));
        Some(line.substring_char(from, to).to_owned())
    } else {
        None
    }
}

/// Returns the value of the last line that starts with `key`.
pub fn field(lines: &Vec<String>, key: &str) -> (value: String)
    ensures
        value@ == field_of(lines.deep_view(), key@),
{
    let mut i: usize = lines.len();
    assert(lines.deep_view().take(i as int) =~= lines.deep_view());
    while i > 0
        invariant
            i <= lines.len(),
            field_of(lines.deep_view(), key@) == field_of(lines.deep_view().take(i as int), key@),
        decreases i,
    {
        proof {
            let head = lines.deep_view().take(i as int);
            assert(head.last() == lines[i - 1]@);
            assert(head.drop_last() =~= lines.deep_view().take(i - 1));
        }
        match strip_key(lines[i - 1].as_str(), key) {
            Some(value) => {
                return value;
            },
            None => {},
        }
        i -= 1;
    }
    String::new()
}

/// Reads the reply of the credential command: the user name and the password
/// it gives, or nothing if either is missing or empty.
pub fn parse_credentials(lines: &Vec<String>) -> (found: Option<(String, String)>)
    ensures
        match found {
            Some((username, password)) => credentials_of(lines.deep_view()) == Some(
                (username@, password@),
            ),
            None => credentials_of(lines.deep_view()) is None,
        },
{
    let username = field(lines, "username=");
    let password = field(lines, "password=");
    if !username.as_str().is_empty() && !password.as_str().is_empty() {
        Some((username, password))
    } else {
        None
    }
}

/// Returns the request that is written to the credential command.
pub fn credential_request(username: Option<&str>) -> (request: String)
    ensures
        request@ == credential_request_of(
            match username {
                Some(name) => Some(name@),
                None => None,
            },
        ),
{
    let mut request = "protocol=https\nhost=github.com\n".to_owned();
    match username {
        Some(name) => {
            request.append("username=");
            request.append(name);
            request.append("\n");
            assert(request@ =~= "protocol=https\nhost=github.com\n"@ + ("username="@ + name@
                + "\n"@));
        },
        None => {
            assert(request@ =~= "protocol=https\nhost=github.com\n"@ + Seq::<char>::empty());
        },
    }
    request.append("\n");
    request
}

/// Whether the remote is reached over HTTPS.
pub fn remote_is_https(url: &str) -> (r: bool)
    ensures
        r == is_https(url@),
{
    starts_with(url, "https://")
}

/// Whether the remote is reached over SSH.
pub fn remote_is_ssh(url: &str) -> (r: bool)
    ensures
        r == is_ssh(url@),
{
    starts_with(url, "git@") || starts_with(url, "ssh://")
}

/// Returns the sources that a fetch asks, in order.
pub fn pull_plan(url: &str, allowed: Allowed) -> (plan: Vec<Attempt>)
    ensures
        plan@ == pull_plan_of(url@, allowed),
{
    let mut plan: Vec<Attempt> = Vec::new();
    if remote_is_https(url) {
        plan.push(Attempt::Try(CredentialSource::Helper));
    }
    if remote_is_ssh(url) {
        plan.push(Attempt::Try(CredentialSource::SshAgent));
    }
    if allowed.user_pass_plaintext {
        plan.push(Attempt::Try(CredentialSource::Helper));
    }
    if allowed.ssh_key {
        plan.push(Attempt::Try(CredentialSource::SshAgent));
    }
    if allowed.default {
        plan.push(Attempt::Try(CredentialSource::Default));
    }
    assert(plan@ =~= pull_plan_of(url@, allowed));
    plan
}

/// Returns the sources that a push asks, in order.
pub fn push_plan(url: &str, allowed: Allowed) -> (plan: Vec<Attempt>)
    ensures
        plan@ == push_plan_of(url@, allowed),
{
    let mut plan: Vec<Attempt> = Vec::new();
    if remote_is_https(url) && allowed.user_pass_plaintext {
        plan.push(Attempt::Try(CredentialSource::CredentialFill));
    }
    if remote_is_ssh(url) || allowed.ssh_key {
        plan.push(Attempt::Try(CredentialSource::SshAgent));
    }
    if allowed.default {
        plan.push(Attempt::Settle(CredentialSource::Default));
    }
    assert(plan@ =~= push_plan_of(url@, allowed));
    plan
}

/// Returns the user under which the SSH agent is asked: the one that the
/// remote names, or `git`.
pub fn ssh_user(username: Option<&str>) -> (user: String)
    ensures
        user@ == (match username {
            Some(name) => name@,
            None => DEFAULT_SSH_USER@,
        }),
{
    match username {
        Some(name) => name.to_owned(),
        None => DEFAULT_SSH_USER.to_owned(),
    }
}

/// Returns the full name of the reference of a local branch.
pub fn branch_ref(branch: &str) -> (name: String)
    ensures
        name@ == "refs/heads/"@ + branch@,
{
    join("refs/heads/", branch)
}

} // verus!
