//! Configuration of a [`MasshClient`](crate::massh_client::MasshClient), and
//! the reading of a host written as a string.
//!
//! A host may be written `address`, `user@address` or `user@address:port`.
//! The part before the first `@` is the user. What follows has to be resolved
//! to an address, which only the embedding program can do; [`HostLookup`]
//! says what to resolve and takes the answers. What follows the `@` is tried
//! as it stands first, then with the standard port appended.

use vstd::prelude::*;
use vstd::string::*;
use crate::failure::{Failure, FailureKind, FailureView};
use crate::host::{Endpoint, HostAddr};
use crate::ssh_client::{AuthView, SshAuth};
use crate::text::find_char;

verus! {

/// The standard port of the protocol, meant where a host string names none.
pub const SSH_PORT: u16 = 22;

/// Configuration for a target host.
#[derive(Debug, PartialEq, Eq)]
pub struct MasshHostConfig {
    /// Numeric address, either IPv4 or IPv6.
    pub addr: HostAddr,
    /// Optional authentication method to override the default.
    pub auth: Option<SshAuth>,
    /// Optional port number to override the default.
    pub port: Option<u16>,
    /// Optional username to override the default.
    pub user: Option<String>,
}

/// Mathematical value of a [`MasshHostConfig`].
pub struct HostConfigView {
    pub addr: Seq<char>,
    pub auth: Option<AuthView>,
    pub port: Option<nat>,
    pub user: Option<Seq<char>>,
}

impl View for MasshHostConfig {
    type V = HostConfigView;

    open spec fn view(&self) -> HostConfigView {
        HostConfigView {
            addr: self.addr@,
            auth: match self.auth {
                Some(auth) => Some(auth@),
                None => None,
            },
            port: match self.port {
                Some(port) => Some(port as nat),
                None => None,
            },
            user: match self.user {
                Some(user) => Some(user@),
                None => None,
            },
        }
    }
}

/// Configuration for a `MasshClient`.
#[derive(Debug, PartialEq, Eq)]
pub struct MasshConfig {
    /// Default authentication method for all configured hosts.
    pub default_auth: SshAuth,
    /// Default port number for all configured hosts.
    pub default_port: u16,
    /// Default username for all configured hosts.
    pub default_user: String,
    /// Number of workers that share the hosts' tasks.
    ///
    /// A value of zero signifies one worker per configured host.
    pub threads: u64,
    /// Timeout, in milliseconds, for blocking calls.
    ///
    /// A value of zero signifies no timeout.
    pub timeout: u64,
    /// List of configured hosts.
    ///
    /// Every host is uniquely identified by the triple of user name, address
    /// and port. Of the hosts with one identity, the last one stands.
    pub hosts: Vec<MasshHostConfig>,
}

/// Mathematical value of a [`MasshConfig`].
pub struct ConfigView {
    pub default_auth: AuthView,
    pub default_port: nat,
    pub default_user: Seq<char>,
    pub threads: nat,
    pub timeout: nat,
    pub hosts: Seq<HostConfigView>,
}

impl View for MasshConfig {
    type V = ConfigView;

    open spec fn view(&self) -> ConfigView {
        ConfigView {
            default_auth: self.default_auth@,
            default_port: self.default_port as nat,
            default_user: self.default_user@,
            threads: self.threads as nat,
            timeout: self.timeout as nat,
            hosts: self.hosts@.map_values(|host: MasshHostConfig| host@),
        }
    }
}

/// Whether `text` holds an `@`.
pub open spec fn has_at(text: Seq<char>) -> bool {
    exists|i: int| 0 <= i < text.len() && text[i] == '@'
}

/// The place of the first `@` in a text that holds one.
pub open spec fn first_at(text: Seq<char>) -> int {
    choose|i: int|
        0 <= i < text.len() && text[i] == '@' && forall|j: int| 0 <= j < i ==> text[j] != '@'
}

/// The user that a host string names: what stands before its first `@`, if it
/// has one.
pub open spec fn host_string_user(text: Seq<char>) -> Option<Seq<char>> {
    if has_at(text) {
        Some(text.subrange(0, first_at(text)))
    } else {
        None
    }
}

/// The target that a host string names: what stands after its first `@`, or
/// all of it if it has none.
pub open spec fn host_string_target(text: Seq<char>) -> Seq<char> {
    if has_at(text) {
        text.subrange(first_at(text) + 1, text.len() as int)
    } else {
        text
    }
}

/// `target`, a colon and the standard port.
pub open spec fn with_standard_port(target: Seq<char>) -> Seq<char> {
    target + seq![':', '2', '2']
}

/// The reading of one host string, as far as it has come.
#[derive(Debug, PartialEq, Eq)]
pub enum HostLookup {
    /// The target is still to be resolved: as it stands, or, once that has
    /// failed, with the standard port appended.
    Pending { user: Option<String>, target: String, standard_port: bool },
    /// The host that the string names.
    Found(MasshHostConfig),
    /// The string names no host.
    Failed(Failure),
}

/// Mathematical value of a [`HostLookup`].
pub enum LookupView {
    Pending { user: Option<Seq<char>>, target: Seq<char>, standard_port: bool },
    Found(HostConfigView),
    Failed(FailureView),
}

/// The failure of a reading whose target did not resolve.
pub open spec fn unresolved() -> FailureView {
    FailureView {
        kind: FailureKind::AddressResolution,
        message: "String deserialization failed"@,
    }
}

impl View for HostLookup {
    type V = LookupView;

    open spec fn view(&self) -> LookupView {
        match self {
            HostLookup::Pending { user, target, standard_port } => LookupView::Pending {
                user: match user {
                    Some(user) => Some(user@),
                    None => None,
                },
                target: target@,
                standard_port: *standard_port,
            },
            HostLookup::Found(host) => LookupView::Found(host@),
            HostLookup::Failed(failure) => LookupView::Failed(failure@),
        }
    }
}

impl LookupView {
    /// The reading of `text` before anything was resolved.
    pub open spec fn start(text: Seq<char>) -> LookupView {
        LookupView::Pending {
            user: host_string_user(text),
            target: host_string_target(text),
            standard_port: false,
        }
    }

    /// What is to be resolved next, if anything.
    pub open spec fn query(self) -> Option<Seq<char>> {
        match self {
            LookupView::Pending { target, standard_port, .. } => if standard_port {
                Some(with_standard_port(target))
            } else {
                Some(target)
            },
            _ => None,
        }
    }

    /// The reading after the query was answered: with the endpoints that the
    /// target resolved to, each given by its address and port, or with
    /// nothing if it did not resolve. The first endpoint is the host's. One
    /// found for the target as it stands gives the host its port; one found
    /// with the standard port appended gives it the standard port. A target
    /// that resolved to no endpoint at all names no host. One that did not
    /// resolve as it stands is tried with the standard port, and names no
    /// host if it does not resolve then either.
    pub open spec fn answer(self, resolved: Option<Seq<(Seq<char>, nat)>>) -> LookupView {
        match self {
            LookupView::Pending { user, target, standard_port } => match resolved {
                Some(found) => if found.len() > 0 {
                    LookupView::Found(
                        HostConfigView {
                            addr: found[0].0,
                            auth: None,
                            port: if standard_port {
                                Some(SSH_PORT as nat)
                            } else {
                                Some(found[0].1)
                            },
                            user,
                        },
                    )
                } else {
                    LookupView::Failed(unresolved())
                },
                None => if standard_port {
                    LookupView::Failed(unresolved())
                } else {
                    LookupView::Pending { user, target, standard_port: true }
                },
            },
            done => done,
        }
    }
}

/// The value of the answer to a query.
pub open spec fn resolved_view(resolved: Result<Vec<Endpoint>, Failure>) -> Option<
    Seq<(Seq<char>, nat)>,
> {
    match resolved {
        Ok(found) => Some(found@.map_values(|e: Endpoint| (e.addr@, e.port as nat))),
        Err(_) => None,
    }
}

impl HostLookup {
    /// Begins to read `text`: splits off the user, and leaves the rest to be
    /// resolved as it stands.
    pub fn start(text: &str) -> (lookup: HostLookup)
        ensures
            lookup@ == LookupView::start(text@),
    {
        match find_char(text, '@') {
            Some(at) => {
                let n: usize = text.unicode_len();
                let user: String = String::from_str(text.substring_char(0, at));
                let target: String = String::from_str(text.substring_char(at + 1, n));
                proof {
                    assert(has_at(text@));
                    let first = first_at(text@);
                    assert(first == at) by {
                        if first < at {
                            assert(text@[first] != '@');
                        } else if at < first {
                            assert(text@[at as int] != '@');
                        }
                    }
                }
                HostLookup::Pending { user: Some(user), target, standard_port: false }
            },
            None => {
                assert(!has_at(text@));
                HostLookup::Pending {
                    user: None,
                    target: String::from_str(text),
                    standard_port: false,
                }
            },
        }
    }

    /// Returns what is to be resolved next, or nothing once the reading has
    /// ended.
    pub fn query(&self) -> (query: Option<String>)
        ensures
            match query {
                Some(q) => self@.query() == Some(q@),
                None => self@.query() is None,
            },
    {
        match self {
            HostLookup::Pending { target, standard_port, .. } => {
                let mut q: String = target.clone();
                if *standard_port {
                    q.append(":22");
                    proof {
                        reveal_strlit(":22");
                        assert(q@ =~= with_standard_port(target@));
                    }
                }
                Some(q)
            },
            _ => None,
        }
    }

    /// Takes the answer to the query: the endpoints that the target
    /// resolved to, or the failure to resolve it.
    pub fn answer(self, resolved: Result<Vec<Endpoint>, Failure>) -> (next: HostLookup)
        ensures
            next@ == self@.answer(resolved_view(resolved)),
    {
        match self {
            HostLookup::Pending { user, target, standard_port } => match resolved {
                Ok(mut found) => {
                    if found.len() > 0 {
                        let first: Endpoint = found.swap_remove(0);
                        let port: u16 = if standard_port {
                            SSH_PORT
                        } else {
                            first.port
                        };
                        HostLookup::Found(
                            MasshHostConfig { addr: first.addr, auth: None, port: Some(port), user },
                        )
                    } else {
                        HostLookup::Failed(
                            Failure::new(
                                FailureKind::AddressResolution,
                                "String deserialization failed",
                            ),
                        )
                    }
                },
                Err(_) => {
                    if standard_port {
                        HostLookup::Failed(
                            Failure::new(
                                FailureKind::AddressResolution,
                                "String deserialization failed",
                            ),
                        )
                    } else {
                        HostLookup::Pending { user, target, standard_port: true }
                    }
                },
            },
            done => done,
        }
    }
}

/// Whether an answer holds an endpoint.
pub open spec fn finds(resolved: Option<Seq<(Seq<char>, nat)>>) -> bool {
    match resolved {
        Some(found) => found.len() > 0,
        None => false,
    }
}

/// A reading ends after two answers at most. It asks for the target as it
/// stands, and again only if that did not resolve; it finds a host exactly
/// if the first query that resolved found an endpoint.
pub proof fn lemma_lookup_ends(
    text: Seq<char>,
    first: Option<Seq<(Seq<char>, nat)>>,
    second: Option<Seq<(Seq<char>, nat)>>,
)
    ensures
        LookupView::start(text).query() == Some(host_string_target(text)),
        first is Some ==> LookupView::start(text).answer(first).query() is None,
        first is None ==> LookupView::start(text).answer(first).query() == Some(
            with_standard_port(host_string_target(text)),
        ),
        LookupView::start(text).answer(first).answer(second).query() is None,
        LookupView::start(text).answer(first).answer(second) is Found <==> finds(first) || (
        first is None && finds(second)),
        !(LookupView::start(text).answer(first).answer(second) is Found)
            ==> LookupView::start(text).answer(first).answer(second) == LookupView::Failed(
            unresolved(),
        ),
{
}

} // verus!
