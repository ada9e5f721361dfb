//! Many hosts: the registry of distinct targets and the tasks of an
//! operation.
//!
//! [`MasshClient::from`] turns a configuration into the registry: every
//! configured host is resolved against the defaults, and of the hosts with
//! one identity the last one stands, at the place of the first.
//! [`MasshClient::execute`], [`MasshClient::scp_download`] and
//! [`MasshClient::scp_upload`] turn the registry and an operation into one
//! [`HostTask`] per host. [`HostTask::run`] does the work of one task on its
//! host's [`SshClient`] and makes the one message of it. On which worker a
//! task runs, and when, is left to the embedding program; the tasks do not
//! depend on one another.

use vstd::prelude::*;
use vstd::string::*;
use crate::config::{ConfigView, HostConfigView, MasshConfig, MasshHostConfig};
use crate::host::{
    host_name, host_text, is_addr_text, lemma_host_text_injective, Endpoint, MasshHost,
};
use crate::failure::Failure;
use crate::ssh_client::{
    carried_out, AuthView, ClientView, ConnectStep, Request, RequestView, SshAuth, SshClient,
};
use crate::text::{collide, is_absolute, join_path, join_text, lemma_join_collision};

verus! {

/// A configured host with every default filled in.
#[derive(Debug, PartialEq, Eq)]
pub struct EffectiveHost {
    name: MasshHost,
    user: String,
    addr: Endpoint,
    auth: SshAuth,
    timeout: u64,
}

/// Mathematical value of an [`EffectiveHost`].
pub struct EffectiveHostView {
    pub user: Seq<char>,
    pub addr: Seq<char>,
    pub port: nat,
    pub auth: AuthView,
    pub timeout: nat,
}

impl EffectiveHostView {
    /// The written identity of the host, `user@address:port`.
    pub open spec fn name(self) -> Seq<char> {
        host_text(self.user, self.addr, self.port)
    }

    /// Whether the address is one: what holds of every host that was made.
    pub open spec fn valid(self) -> bool {
        is_addr_text(self.addr)
    }

    /// The client for this host before its first connection.
    pub open spec fn client<S>(self) -> ClientView<S> {
        ClientView {
            user: self.user,
            addr: self.addr,
            port: self.port,
            auth: self.auth,
            timeout: self.timeout,
            session: None,
        }
    }
}

impl View for EffectiveHost {
    type V = EffectiveHostView;

    closed spec fn view(&self) -> EffectiveHostView {
        EffectiveHostView {
            user: self.user@,
            addr: self.addr.addr@,
            port: self.addr.port as nat,
            auth: self.auth@,
            timeout: self.timeout as nat,
        }
    }
}

/// The host that `host` stands for under the defaults of `config`.
pub open spec fn effective(config: ConfigView, host: HostConfigView) -> EffectiveHostView {
    EffectiveHostView {
        user: match host.user {
            Some(user) => user,
            None => config.default_user,
        },
        addr: host.addr,
        port: match host.port {
            Some(port) => port,
            None => config.default_port,
        },
        auth: match host.auth {
            Some(auth) => auth,
            None => config.default_auth,
        },
        timeout: config.timeout,
    }
}

/// The configured hosts of `config`, in order, each with the defaults
/// filled in.
pub open spec fn effective_hosts(config: ConfigView) -> Seq<EffectiveHostView> {
    config.hosts.map_values(|host: HostConfigView| effective(config, host))
}

/// Whether one of `hosts` has the written identity `name`.
pub open spec fn has_name(hosts: Seq<EffectiveHostView>, name: Seq<char>) -> bool {
    exists|i: int| 0 <= i < hosts.len() && (#[trigger] hosts[i]).name() == name
}

/// The place of a host with the written identity `name` among `hosts`.
pub open spec fn position(hosts: Seq<EffectiveHostView>, name: Seq<char>) -> int {
    choose|i: int| 0 <= i < hosts.len() && (#[trigger] hosts[i]).name() == name
}

/// Whether no two of `hosts` have the same written identity.
pub open spec fn distinct_names(hosts: Seq<EffectiveHostView>) -> bool {
    forall|i: int, j: int|
        0 <= i < j < hosts.len() ==> (#[trigger] hosts[i]).name() != (#[trigger] hosts[j]).name()
}

/// Whether every one of `hosts` has an address.
pub open spec fn all_valid(hosts: Seq<EffectiveHostView>) -> bool {
    forall|i: int| 0 <= i < hosts.len() ==> (#[trigger] hosts[i]).valid()
}

/// `hosts` with `host` put in: in place of the host with the same written
/// identity if there is one, else at the end.
pub open spec fn upsert(hosts: Seq<EffectiveHostView>, host: EffectiveHostView) -> Seq<
    EffectiveHostView,
> {
    if has_name(hosts, host.name()) {
        hosts.update(position(hosts, host.name()), host)
    } else {
        hosts.push(host)
    }
}

/// The registry of `hosts`: the hosts put in one after the other.
pub open spec fn registry(hosts: Seq<EffectiveHostView>) -> Seq<EffectiveHostView>
    decreases hosts.len(),
{
    if hosts.len() == 0 {
        Seq::empty()
    } else {
        upsert(registry(hosts.drop_last()), hosts.last())
    }
}

/// The values of a list of hosts.
pub open spec fn hosts_view(hosts: Seq<EffectiveHost>) -> Seq<EffectiveHostView> {
    hosts.map_values(|host: EffectiveHost| host@)
}

/// Among hosts with distinct identities, a name has one place.
pub proof fn lemma_position(hosts: Seq<EffectiveHostView>, i: int)
    requires
        distinct_names(hosts),
        0 <= i < hosts.len(),
    ensures
        has_name(hosts, hosts[i].name()),
        position(hosts, hosts[i].name()) == i,
{
    let p = position(hosts, hosts[i].name());
    if p < i {
        assert(hosts[p].name() != hosts[i].name());
    } else if i < p {
        assert(hosts[i].name() != hosts[p].name());
    }
}

/// Putting a host in keeps the identities distinct.
pub proof fn lemma_upsert_distinct(hosts: Seq<EffectiveHostView>, host: EffectiveHostView)
    requires
        distinct_names(hosts),
    ensures
        distinct_names(upsert(hosts, host)),
{
    let next = upsert(hosts, host);
    if has_name(hosts, host.name()) {
        let p = position(hosts, host.name());
        assert forall|i: int, j: int| 0 <= i < j < next.len() implies (#[trigger] next[i]).name()
            != (#[trigger] next[j]).name() by {
            assert(next[i].name() == hosts[i].name());
            assert(next[j].name() == hosts[j].name());
        }
    } else {
        assert forall|i: int, j: int| 0 <= i < j < next.len() implies (#[trigger] next[i]).name()
            != (#[trigger] next[j]).name() by {
            if j == hosts.len() {
                assert(next[i] == hosts[i]);
            } else {
                assert(next[i] == hosts[i]);
                assert(next[j] == hosts[j]);
            }
        }
    }
}

impl EffectiveHost {
    #[verifier::type_invariant]
    spec fn inv(&self) -> bool {
        self.name@ == host_text(self.user@, self.addr.addr@, self.addr.port as nat)
    }

    /// Fills in the defaults of `config` for `host`.
    pub fn resolve(config: &MasshConfig, host: &MasshHostConfig) -> (resolved: EffectiveHost)
        ensures
            resolved@ == effective(config@, host@),
            resolved@.valid(),
    {
        proof {
            use_type_invariant(&host.addr);
        }
        let user: String = match &host.user {
            Some(user) => user.clone(),
            None => config.default_user.clone(),
        };
        let port: u16 = match host.port {
            Some(port) => port,
            None => config.default_port,
        };
        let auth: SshAuth = match &host.auth {
            Some(auth) => auth.clone(),
            None => config.default_auth.clone(),
        };
        let addr: Endpoint = Endpoint { addr: host.addr.clone(), port };
        let name: MasshHost = host_name(user.as_str(), &addr);
        EffectiveHost { name, user, addr, auth, timeout: config.timeout }
    }

    /// The written identity of the host, `user@address:port`.
    pub fn host(&self) -> (name: &str)
        ensures
            name@ == self@.name(),
            self@.valid(),
    {
        proof {
            use_type_invariant(self);
            use_type_invariant(&self.addr.addr);
        }
        self.name.as_str()
    }

    /// The user name.
    pub fn user(&self) -> (user: &str)
        ensures
            user@ == self@.user,
    {
        self.user.as_str()
    }

    /// The address and port.
    pub fn addr(&self) -> (addr: &Endpoint)
        ensures
            addr.addr@ == self@.addr,
            addr.port == self@.port,
    {
        &self.addr
    }

    /// The authentication method.
    pub fn auth(&self) -> (auth: &SshAuth)
        ensures
            auth@ == self@.auth,
    {
        &self.auth
    }

    /// The timeout in milliseconds; zero means none.
    pub fn timeout(&self) -> (timeout_ms: u64)
        ensures
            timeout_ms == self@.timeout,
    {
        self.timeout
    }

    /// Makes the client for this host: configured as the host is, and
    /// without a session.
    pub fn client<S>(&self) -> (client: SshClient<S>)
        ensures
            client@ == self@.client::<S>(),
    {
        let mut ssh: SshClient<S> = SshClient::from(self.user.as_str(), self.addr.clone());
        match &self.auth {
            SshAuth::Agent => {
                ssh.set_auth_agent();
            },
            SshAuth::Password(password) => {
                ssh.set_auth_password(password.as_str());
            },
            SshAuth::Pubkey(path) => {
                ssh.set_auth_pubkey(path.as_str());
            },
        }
        ssh.set_timeout(self.timeout);
        ssh
    }
}

/// How the tasks of one operation share the machine.
#[derive(Debug, Clone, Copy, PartialEq, Eq, Structural)]
pub enum Concurrency {
    /// Every host's task has a worker of its own.
    PerHost,
    /// So many workers share the tasks; a task waits until one is free.
    Pool(u64),
}

impl Concurrency {
    /// The policy for a configured number of workers: zero asks for one
    /// worker per host.
    pub open spec fn of(threads: nat) -> Concurrency {
        if threads == 0 {
            Concurrency::PerHost
        } else {
            Concurrency::Pool(threads as u64)
        }
    }
}

/// The work of one operation on one host.
#[derive(Debug, PartialEq, Eq)]
pub struct HostTask {
    /// Place of the host in the registry.
    pub index: usize,
    /// Written identity of the host.
    pub host: MasshHost,
    /// What to do on the host.
    pub request: Request,
}

/// Mathematical value of a [`HostTask`].
pub struct TaskView {
    pub index: nat,
    pub host: Seq<char>,
    pub request: RequestView,
}

impl View for HostTask {
    type V = TaskView;

    open spec fn view(&self) -> TaskView {
        TaskView { index: self.index as nat, host: self.host@, request: self.request@ }
    }
}

/// The values of a list of tasks.
pub open spec fn tasks_view(tasks: Seq<HostTask>) -> Seq<TaskView> {
    tasks.map_values(|task: HostTask| task@)
}

/// What `request` asks of the host called `host`. A download goes to a file
/// of its own: the one named after the host in the directory that the
/// request names. Other requests are the same for every host.
pub open spec fn request_for(request: RequestView, host: Seq<char>) -> RequestView {
    match request {
        RequestView::Download { remote_path, local_path } => RequestView::Download {
            remote_path,
            local_path: join_text(local_path, host),
        },
        other => other,
    }
}

/// The tasks of `request` on `hosts`: one for each host, in order.
pub open spec fn tasks(hosts: Seq<EffectiveHostView>, request: RequestView) -> Seq<TaskView> {
    Seq::new(
        hosts.len(),
        |i: int|
            TaskView {
                index: i as nat,
                host: hosts[i].name(),
                request: request_for(request, hosts[i].name()),
            },
    )
}

impl HostTask {
    /// Makes the one message of the work on a host: the host's identity with the
    /// outcome of the operation, be it success or failure.
    pub fn into_message<T>(self, outcome: Result<T, Failure>) -> (message: (
        MasshHost,
        Result<T, Failure>,
    ))
        ensures
            message.0 == self.host,
            message.1 == outcome,
    {
        (self.host, outcome)
    }

    /// Does the work on the host's client and makes the one message of it.
    /// The request is carried out as [`SshClient::run`] does, with `dial`
    /// to connect and `perform` to do what is asked; however that ends, the
    /// message is the host's identity with the outcome.
    pub fn run<S, T, C, P>(self, client: &mut SshClient<S>, dial: C, perform: P) -> (message: (
        MasshHost,
        Result<T, Failure>,
    )) where
        C: FnOnce(Vec<ConnectStep>) -> Result<S, Failure>,
        P: FnOnce(&S, Request) -> Result<T, Failure>,

        requires
            old(client)@.session is None ==> forall|plan: Vec<ConnectStep>| dial.requires((plan,)),
            forall|session: &S, asked: Request| perform.requires((session, asked)),
        ensures
            message.0 == self.host,
            carried_out(
                old(client)@,
                final(client)@,
                dial,
                message.1,
                |session: S| perform.ensures((&session, self.request), message.1),
            ),
    {
        let outcome: Result<T, Failure> = client.run(self.request, dial, perform);
        (self.host, outcome)
    }
}

/// Client for many hosts: the registry of its distinct targets.
pub struct MasshClient {
    hosts: Vec<EffectiveHost>,
    threads: u64,
}

/// Mathematical value of a [`MasshClient`].
pub struct MasshView {
    pub hosts: Seq<EffectiveHostView>,
    pub threads: nat,
}

impl View for MasshClient {
    type V = MasshView;

    closed spec fn view(&self) -> MasshView {
        MasshView { hosts: hosts_view(self.hosts@), threads: self.threads as nat }
    }
}

fn find_host(hosts: &Vec<EffectiveHost>, name: &String) -> (found: Option<usize>)
    ensures
        match found {
            Some(i) => i < hosts@.len() && hosts@[i as int]@.name() == name@,
            None => !has_name(hosts_view(hosts@), name@),
        },
{
    let mut i: usize = 0;
    while i < hosts.len()
        invariant
            i <= hosts@.len(),
            forall|j: int| 0 <= j < i ==> (#[trigger] hosts@[j])@.name() != name@,
        decreases hosts@.len() - i,
    {
        let host: &EffectiveHost = &hosts[i];
        proof {
            use_type_invariant(host);
        }
        if host.name == *name {
            return Some(i);
        }
        i = i + 1;
    }
    proof {
        let views = hosts_view(hosts@);
        assert forall|j: int| 0 <= j < views.len() implies (#[trigger] views[j]).name()
            != name@ by {
            assert(views[j] == hosts@[j]@);
        }
    }
    None
}

impl MasshClient {
    /// What holds of every registry: each of its hosts has an address, and
    /// no two of them have the same written identity.
    #[verifier::type_invariant]
    pub open spec fn wf(&self) -> bool {
        all_valid(self@.hosts) && distinct_names(self@.hosts)
    }

    /// Constructs the client for a configuration: the registry of its
    /// hosts.
    pub fn from(config: &MasshConfig) -> (client: MasshClient)
        ensures
            client@.hosts == registry(effective_hosts(config@)),
            client@.threads == config.threads,
    {
        let ghost all = effective_hosts(config@);
        let n: usize = config.hosts.len();
        let mut hosts: Vec<EffectiveHost> = Vec::new();
        let mut k: usize = 0;
        assert(all.take(0) =~= Seq::empty());
        assert(hosts_view(hosts@) =~= Seq::empty());
        while k < n
            invariant
                n == config.hosts@.len(),
                k <= n,
                all == effective_hosts(config@),
                hosts_view(hosts@) == registry(all.take(k as int)),
                distinct_names(hosts_view(hosts@)),
                all_valid(hosts_view(hosts@)),
            decreases n - k,
        {
            let resolved: EffectiveHost = EffectiveHost::resolve(config, &config.hosts[k]);
            let ghost before = hosts_view(hosts@);
            proof {
                assert(resolved@ == all[k as int]);
                assert(all.take(k + 1).drop_last() =~= all.take(k as int));
                assert(all.take(k + 1).last() == all[k as int]);
                lemma_upsert_distinct(before, resolved@);
            }
            proof {
                use_type_invariant(&resolved);
            }
            match find_host(&hosts, &resolved.name) {
                Some(i) => {
                    proof {
                        assert(before[i as int] == hosts@[i as int]@);
                        lemma_position(before, i as int);
                    }
                    hosts.set(i, resolved);
                    assert(hosts_view(hosts@) =~= before.update(i as int, resolved@));
                },
                None => {
                    hosts.push(resolved);
                    assert(hosts_view(hosts@) =~= before.push(resolved@));
                },
            }
            k = k + 1;
        }
        assert(all.take(n as int) =~= all);
        MasshClient { hosts, threads: config.threads }
    }

    /// The number of hosts in the registry.
    pub fn len(&self) -> (n: usize)
        ensures
            n == self@.hosts.len(),
    {
        self.hosts.len()
    }

    /// The host at place `index` of the registry, if there is one.
    pub fn host(&self, index: usize) -> (host: Option<&EffectiveHost>)
        ensures
            match host {
                Some(h) => index < self@.hosts.len() && h@ == self@.hosts[index as int],
                None => index >= self@.hosts.len(),
            },
    {
        if index < self.hosts.len() {
            Some(&self.hosts[index])
        } else {
            None
        }
    }

    /// Makes the tasks of `request`: one for each host of the registry.
    pub fn dispatch(&self, request: &Request) -> (made: Vec<HostTask>)
        ensures
            made@.len() == self@.hosts.len(),
            tasks_view(made@) == tasks(self@.hosts, request@),
    {
        let n: usize = self.hosts.len();
        let mut made: Vec<HostTask> = Vec::new();
        let mut i: usize = 0;
        while i < n
            invariant
                n == self.hosts@.len(),
                i <= n,
                made@.len() == i,
                forall|j: int| 0 <= j < i ==> (#[trigger] made@[j])@ == tasks(self@.hosts, request@)[j],
            decreases n - i,
        {
            let host: &EffectiveHost = &self.hosts[i];
            let name: &str = host.host();
            let asked: Request = match request {
                Request::Download { remote_path, local_path } => Request::Download {
                    remote_path: remote_path.clone(),
                    local_path: join_path(local_path.as_str(), name),
                },
                other => other.clone(),
            };
            assert(hosts_view(self.hosts@)[i as int] == host@);
            made.push(HostTask { index: i, host: String::from_str(name), request: asked });
            i = i + 1;
        }
        assert(tasks_view(made@) =~= tasks(self@.hosts, request@));
        made
    }

    /// Makes the tasks of running `command` on every host.
    pub fn execute(&self, command: &str) -> (made: Vec<HostTask>)
        ensures
            made@.len() == self@.hosts.len(),
            tasks_view(made@) == tasks(self@.hosts, RequestView::Execute { command: command@ }),
    {
        self.dispatch(&Request::Execute { command: String::from_str(command) })
    }

    /// Makes the tasks of downloading the file at `remote_path` from every
    /// host. Each host's copy goes to the file named after the host in the
    /// directory `local_path`.
    pub fn scp_download(&self, remote_path: &str, local_path: &str) -> (made: Vec<HostTask>)
        ensures
            made@.len() == self@.hosts.len(),
            tasks_view(made@) == tasks(
                self@.hosts,
                RequestView::Download { remote_path: remote_path@, local_path: local_path@ },
            ),
    {
        self.dispatch(
            &Request::Download {
                remote_path: String::from_str(remote_path),
                local_path: String::from_str(local_path),
            },
        )
    }

    /// Makes the tasks of uploading the file at `local_path` to
    /// `remote_path` on every host.
    pub fn scp_upload(&self, local_path: &str, remote_path: &str) -> (made: Vec<HostTask>)
        ensures
            made@.len() == self@.hosts.len(),
            tasks_view(made@) == tasks(
                self@.hosts,
                RequestView::Upload { local_path: local_path@, remote_path: remote_path@ },
            ),
    {
        self.dispatch(
            &Request::Upload {
                local_path: String::from_str(local_path),
                remote_path: String::from_str(remote_path),
            },
        )
    }

    /// How the tasks of an operation share the machine: a pool of the
    /// configured number of workers, or one worker per host if that number
    /// is zero.
    pub fn concurrency(&self) -> (policy: Concurrency)
        ensures
            policy == Concurrency::of(self@.threads),
    {
        if self.threads == 0 {
            Concurrency::PerHost
        } else {
            Concurrency::Pool(self.threads)
        }
    }
}

/// The written identity stands for the identity: two hosts have the same
/// written identity exactly if they have the same user, address and port.
pub proof fn lemma_name_is_identity(a: EffectiveHostView, b: EffectiveHostView)
    requires
        a.valid(),
        b.valid(),
    ensures
        a.name() == b.name() <==> a.user == b.user && a.addr == b.addr && a.port == b.port,
{
    if a.name() == b.name() {
        lemma_host_text_injective(a.user, a.addr, a.port, b.user, b.addr, b.port);
    }
}

/// Whether `hosts[k]` is the last of `hosts` with its written identity.
pub open spec fn last_of(hosts: Seq<EffectiveHostView>, k: int) -> bool {
    &&& 0 <= k < hosts.len()
    &&& forall|j: int| k < j < hosts.len() ==> (#[trigger] hosts[j]).name() != hosts[k].name()
}

/// The written identities of `hosts`, as a set.
pub open spec fn name_set(hosts: Seq<EffectiveHostView>) -> Set<Seq<char>> {
    Set::new(|name: Seq<char>| has_name(hosts, name))
}

/// No two hosts of a registry have the same written identity.
pub proof fn lemma_registry_distinct(hosts: Seq<EffectiveHostView>)
    ensures
        distinct_names(registry(hosts)),
    decreases hosts.len(),
{
    if hosts.len() > 0 {
        lemma_registry_distinct(hosts.drop_last());
        lemma_upsert_distinct(registry(hosts.drop_last()), hosts.last());
    }
}

/// Hosts whose identities are all distinct are their own registry: each
/// stands, in its place.
pub proof fn lemma_registry_of_distinct(hosts: Seq<EffectiveHostView>)
    requires
        distinct_names(hosts),
    ensures
        registry(hosts) == hosts,
    decreases hosts.len(),
{
    if hosts.len() > 0 {
        let before = hosts.drop_last();
        assert(distinct_names(before)) by {
            assert forall|i: int, j: int| 0 <= i < j < before.len() implies (
            #[trigger] before[i]).name() != (#[trigger] before[j]).name() by {
                assert(before[i] == hosts[i]);
                assert(before[j] == hosts[j]);
            }
        }
        lemma_registry_of_distinct(before);
        assert(!has_name(before, hosts.last().name())) by {
            assert forall|i: int| 0 <= i < before.len() implies (#[trigger] before[i]).name()
                != hosts.last().name() by {
                assert(before[i] == hosts[i]);
                assert(hosts[i].name() != hosts[hosts.len() - 1].name());
            }
        }
        assert(before.push(hosts.last()) =~= hosts);
    }
}

/// Last wins: a configured host that no later one shares its identity with
/// stands in the registry, under that identity.
pub proof fn lemma_registry_last_wins(hosts: Seq<EffectiveHostView>, k: int)
    requires
        last_of(hosts, k),
    ensures
        has_name(registry(hosts), hosts[k].name()),
        registry(hosts)[position(registry(hosts), hosts[k].name())] == hosts[k],
    decreases hosts.len(),
{
    let before = hosts.drop_last();
    let old_reg = registry(before);
    let last = hosts.last();
    let reg = registry(hosts);
    let name = hosts[k].name();
    lemma_registry_distinct(before);
    lemma_registry_distinct(hosts);
    if k == hosts.len() - 1 {
        if has_name(old_reg, last.name()) {
            let p = position(old_reg, last.name());
            assert(reg[p] == last);
            lemma_position(reg, p);
        } else {
            assert(reg[old_reg.len() as int] == last);
            lemma_position(reg, old_reg.len() as int);
        }
    } else {
        assert(last_of(before, k)) by {
            assert forall|j: int| k < j < before.len() implies (#[trigger] before[j]).name()
                != before[k].name() by {
                assert(before[j] == hosts[j]);
            }
        }
        lemma_registry_last_wins(before, k);
        let q = position(old_reg, name);
        assert(hosts[hosts.len() - 1].name() != name);
        assert(reg[q] == old_reg[q]);
        lemma_position(reg, q);
    }
}

/// Every host of a registry is a configured host, the last with its
/// identity.
pub proof fn lemma_registry_sound(hosts: Seq<EffectiveHostView>, i: int)
    requires
        0 <= i < registry(hosts).len(),
    ensures
        exists|k: int| #[trigger] last_of(hosts, k) && hosts[k] == registry(hosts)[i],
    decreases hosts.len(),
{
    let before = hosts.drop_last();
    let old_reg = registry(before);
    let last = hosts.last();
    let reg = registry(hosts);
    let n = hosts.len() - 1;
    lemma_registry_distinct(before);
    if reg[i] == last {
        assert(last_of(hosts, n));
    } else {
        assert(0 <= i < old_reg.len() && reg[i] == old_reg[i]);
        assert(old_reg[i].name() != last.name()) by {
            if has_name(old_reg, last.name()) {
                let p = position(old_reg, last.name());
                if p < i {
                    assert(old_reg[p].name() != old_reg[i].name());
                } else if i < p {
                    assert(old_reg[i].name() != old_reg[p].name());
                }
            }
        }
        lemma_registry_sound(before, i);
        let k = choose|k: int| #[trigger] last_of(before, k) && before[k] == old_reg[i];
        assert(last_of(hosts, k)) by {
            assert forall|j: int| k < j < hosts.len() implies (#[trigger] hosts[j]).name()
                != hosts[k].name() by {
                if j < n {
                    assert(before[j] == hosts[j]);
                }
            }
        }
    }
}

/// Putting a host in adds its identity to those already there.
pub proof fn lemma_upsert_names(hosts: Seq<EffectiveHostView>, host: EffectiveHostView)
    ensures
        name_set(upsert(hosts, host)) == name_set(hosts).insert(host.name()),
{
    let next = upsert(hosts, host);
    assert forall|name: Seq<char>| has_name(next, name) <==> has_name(hosts, name) || name
        == host.name() by {
        if has_name(hosts, host.name()) {
            let p = position(hosts, host.name());
            if has_name(next, name) {
                let i = choose|i: int| 0 <= i < next.len() && (#[trigger] next[i]).name() == name;
                if i != p {
                    assert(hosts[i].name() == name);
                }
            }
            if has_name(hosts, name) {
                let i = choose|i: int| 0 <= i < hosts.len() && (#[trigger] hosts[i]).name() == name;
                assert(next[i].name() == name);
            }
            if name == host.name() {
                assert(next[p].name() == name);
            }
        } else {
            if has_name(next, name) {
                let i = choose|i: int| 0 <= i < next.len() && (#[trigger] next[i]).name() == name;
                if i < hosts.len() {
                    assert(hosts[i].name() == name);
                }
            }
            if has_name(hosts, name) {
                let i = choose|i: int| 0 <= i < hosts.len() && (#[trigger] hosts[i]).name() == name;
                assert(next[i].name() == name);
            }
            if name == host.name() {
                assert(next[hosts.len() as int].name() == name);
            }
        }
    }
    assert(name_set(next) =~= name_set(hosts).insert(host.name()));
}

/// A registry holds the identities of the configured hosts, all of them
/// and no other.
pub proof fn lemma_registry_names(hosts: Seq<EffectiveHostView>)
    ensures
        name_set(registry(hosts)) == name_set(hosts),
    decreases hosts.len(),
{
    if hosts.len() == 0 {
        assert(name_set(registry(hosts)) =~= name_set(hosts));
    } else {
        let before = hosts.drop_last();
        let last = hosts.last();
        lemma_registry_names(before);
        lemma_upsert_names(registry(before), last);
        assert forall|name: Seq<char>| has_name(hosts, name) <==> has_name(before, name) || name
            == last.name() by {
            if has_name(hosts, name) {
                let i = choose|i: int| 0 <= i < hosts.len() && (#[trigger] hosts[i]).name() == name;
                if i < before.len() {
                    assert(before[i].name() == name);
                }
            }
            if has_name(before, name) {
                let i = choose|i: int|
                    0 <= i < before.len() && (#[trigger] before[i]).name() == name;
                assert(hosts[i].name() == name);
            }
            if name == last.name() {
                assert(hosts[hosts.len() - 1].name() == name);
            }
        }
        assert(name_set(hosts) =~= name_set(before).insert(last.name()));
    }
}

/// Hosts with distinct identities have as many identities as there are
/// hosts.
pub proof fn lemma_distinct_count(hosts: Seq<EffectiveHostView>)
    requires
        distinct_names(hosts),
    ensures
        name_set(hosts).finite(),
        name_set(hosts).len() == hosts.len(),
    decreases hosts.len(),
{
    if hosts.len() == 0 {
        assert(name_set(hosts) =~= Set::empty());
    } else {
        let before = hosts.drop_last();
        let last = hosts.last();
        assert(distinct_names(before)) by {
            assert forall|i: int, j: int| 0 <= i < j < before.len() implies (
            #[trigger] before[i]).name() != (#[trigger] before[j]).name() by {
                assert(before[i] == hosts[i]);
                assert(before[j] == hosts[j]);
            }
        }
        lemma_distinct_count(before);
        assert(!has_name(before, last.name())) by {
            assert forall|i: int| 0 <= i < before.len() implies (#[trigger] before[i]).name()
                != last.name() by {
                assert(before[i] == hosts[i]);
                assert(hosts[i].name() != hosts[hosts.len() - 1].name());
            }
        }
        assert(upsert(before, last) =~= hosts);
        lemma_upsert_names(before, last);
    }
}

/// Duplicates collapse: a registry has one host for each identity that is
/// configured, however often it is configured.
pub proof fn lemma_registry_count(hosts: Seq<EffectiveHostView>)
    ensures
        name_set(hosts).finite(),
        registry(hosts).len() == name_set(hosts).len(),
        registry(hosts).len() <= hosts.len(),
    decreases hosts.len(),
{
    lemma_registry_distinct(hosts);
    lemma_distinct_count(registry(hosts));
    lemma_registry_names(hosts);
    if hosts.len() > 0 {
        lemma_registry_count(hosts.drop_last());
    }
}

/// One task per identity: for a configuration whose hosts have distinct
/// identities, an operation has exactly as many tasks as there are hosts,
/// the task at each place is that of the host configured at that place, and
/// no two tasks are for the same host.
pub proof fn lemma_one_task_per_host(config: ConfigView, request: RequestView)
    requires
        distinct_names(effective_hosts(config)),
    ensures
        ({
            let made = tasks(registry(effective_hosts(config)), request);
            &&& made.len() == config.hosts.len()
            &&& forall|k: int|
                0 <= k < made.len() ==> (#[trigger] made[k]).host == effective(
                    config,
                    config.hosts[k],
                ).name() && made[k].index == k
            &&& forall|i: int, j: int|
                0 <= i < j < made.len() ==> (#[trigger] made[i]).host != (#[trigger] made[j]).host
        }),
{
    let hosts = effective_hosts(config);
    lemma_registry_of_distinct(hosts);
    let made = tasks(hosts, request);
    assert forall|i: int, j: int| 0 <= i < j < made.len() implies (#[trigger] made[i]).host != (
    #[trigger] made[j]).host by {
        assert(hosts[i].name() != hosts[j].name());
    }
}

/// Whatever the configuration, an operation has one task for each host of
/// the registry, and no two tasks are for the same host.
pub proof fn lemma_tasks_distinct(hosts: Seq<EffectiveHostView>, request: RequestView)
    ensures
        ({
            let made = tasks(registry(hosts), request);
            &&& made.len() == registry(hosts).len()
            &&& made.len() == name_set(hosts).len()
            &&& forall|i: int, j: int|
                0 <= i < j < made.len() ==> (#[trigger] made[i]).host != (#[trigger] made[j]).host
        }),
{
    let reg = registry(hosts);
    lemma_registry_distinct(hosts);
    lemma_registry_count(hosts);
    let made = tasks(reg, request);
    assert forall|i: int, j: int| 0 <= i < j < made.len() implies (#[trigger] made[i]).host != (
    #[trigger] made[j]).host by {
        assert(reg[i].name() != reg[j].name());
    }
}

/// Downloads do not collide: the tasks of a download for two hosts of a
/// registry name the same local file only if one host's identity is an
/// absolute path, namely the very path that the other host's file has in
/// the directory. Two hosts whose user names do not begin with `/` never
/// share a file.
pub proof fn lemma_download_paths(
    hosts: Seq<EffectiveHostView>,
    remote_path: Seq<char>,
    local_path: Seq<char>,
    i: int,
    j: int,
)
    requires
        distinct_names(hosts),
        0 <= i < hosts.len(),
        0 <= j < hosts.len(),
        i != j,
    ensures
        ({
            let made = tasks(hosts, RequestView::Download { remote_path, local_path });
            let a = hosts[i].name();
            let b = hosts[j].name();
            &&& made[i].request == (RequestView::Download {
                remote_path,
                local_path: join_text(local_path, a),
            })
            &&& made[j].request == (RequestView::Download {
                remote_path,
                local_path: join_text(local_path, b),
            })
            &&& join_text(local_path, a) == join_text(local_path, b) <==> collide(local_path, a, b)
                || collide(local_path, b, a)
            &&& !is_absolute(hosts[i].user) && !is_absolute(hosts[j].user) ==> join_text(
                local_path,
                a,
            ) != join_text(local_path, b)
        }),
{
    let a = hosts[i].name();
    let b = hosts[j].name();
    if i < j {
        assert(hosts[i].name() != hosts[j].name());
    } else {
        assert(hosts[j].name() != hosts[i].name());
    }
    lemma_join_collision(local_path, a, b);
    assert(!is_absolute(hosts[i].user) ==> !is_absolute(a));
    assert(!is_absolute(hosts[j].user) ==> !is_absolute(b));
}

} // verus!
