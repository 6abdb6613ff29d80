//! The registry of managed hosts, keyed by a unique alias.
use crate::text::same_text;
use vstd::prelude::*;
use vstd::string::*;

verus! {

/// Connection details of a managed host.
#[derive(Debug)]
pub struct ManagedServer {
    pub id: String,
    pub hostname: String,
    pub ip_address: String,
    pub port: u16,
    pub ssh_user: String,
    pub password: Option<String>,
}

pub struct ServerView {
    pub id: Seq<char>,
    pub hostname: Seq<char>,
    pub ip_address: Seq<char>,
    pub port: u16,
    pub ssh_user: Seq<char>,
    pub password: Option<Seq<char>>,
}

impl View for ManagedServer {
    type V = ServerView;

    open spec fn view(&self) -> ServerView {
        ServerView {
            id: self.id@,
            hostname: self.hostname@,
            ip_address: self.ip_address@,
            port: self.port,
            ssh_user: self.ssh_user@,
            password: match self.password {
                Some(p) => Some(p@),
                None => None,
            },
        }
    }
}

impl ManagedServer {
    /// An exact copy of these details.
    pub fn copy(&self) -> (r: ManagedServer)
        ensures
            r@ == self@,
    {
        ManagedServer {
            id: String::from_str(self.id.as_str()),
            hostname: String::from_str(self.hostname.as_str()),
            ip_address: String::from_str(self.ip_address.as_str()),
            port: self.port,
            ssh_user: String::from_str(self.ssh_user.as_str()),
            password: match &self.password {
                Some(p) => Some(String::from_str(p.as_str())),
                None => None,
            },
        }
    }
}

/// The hosts, in the order they were added, each under its own alias.
pub struct ServerManager {
    servers: Vec<(String, ManagedServer)>,
}

pub open spec fn entry_view(e: (String, ManagedServer)) -> (Seq<char>, ServerView) {
    (e.0@, e.1@)
}

impl View for ServerManager {
    type V = Seq<(Seq<char>, ServerView)>;

    closed spec fn view(&self) -> Seq<(Seq<char>, ServerView)> {
        self.servers@.map_values(|e: (String, ManagedServer)| entry_view(e))
    }
}

/// No alias occurs twice.
pub open spec fn unique_aliases(s: Seq<(Seq<char>, ServerView)>) -> bool {
    forall|i: int, j: int| 0 <= i < s.len() && 0 <= j < s.len() && i != j ==> s[i].0 != s[j].0
}

/// Where alias `a` stands in `s`, if it does.
pub open spec fn has_alias(s: Seq<(Seq<char>, ServerView)>, a: Seq<char>) -> bool {
    exists|i: int| 0 <= i < s.len() && s[i].0 == a
}

/// The details of the automatically configured local host for login `user`.
pub open spec fn local_server(user: Seq<char>) -> ServerView {
    ServerView {
        id: "local-auto"@,
        hostname: "127.0.0.1"@,
        ip_address: "127.0.0.1"@,
        port: 22,
        ssh_user: user,
        password: None,
    }
}

/// The details of a host added with these values; its address is its hostname.
pub open spec fn new_server(
    id: Seq<char>,
    host: Seq<char>,
    user: Seq<char>,
    port: u16,
    password: Option<String>,
) -> ServerView {
    ServerView {
        id,
        hostname: host,
        ip_address: host,
        port,
        ssh_user: user,
        password: match password {
            Some(p) => Some(p@),
            None => None,
        },
    }
}

/// Relies on `uuid::Uuid::new_v4` and its `Display`, which writes the
/// hyphenated lower-case form: a random identifier of 36 characters.
#[verifier::external_body]
fn fresh_server_id() -> (r: String)
    ensures
        r@.len() == 36,
{
    uuid::Uuid::new_v4().to_string()
}

impl ServerManager {
    pub open spec fn wf(&self) -> bool {
        unique_aliases(self@)
    }

    /// A registry with no hosts.
    pub fn new() -> (r: Self)
        ensures
            r@ == Seq::<(Seq<char>, ServerView)>::empty(),
            r.wf(),
    {
        let r = ServerManager { servers: Vec::new() };
        assert(r@ =~= Seq::<(Seq<char>, ServerView)>::empty());
        r
    }

    fn position(&self, alias: &str) -> (r: Option<usize>)
        requires
            self.wf(),
        ensures
            match r {
                Some(i) => i < self@.len() && self@[i as int].0 == alias@,
                None => !has_alias(self@, alias@),
            },
    {
        let mut i: usize = 0;
        while i < self.servers.len()
            invariant
                i <= self@.len(),
                self@.len() == self.servers@.len(),
                forall|j: int| 0 <= j < i ==> self@[j].0 != alias@,
            decreases self.servers@.len() - i,
        {
            assert(self@[i as int] == entry_view(self.servers@[i as int]));
            if same_text(self.servers[i].0.as_str(), alias) {
                return Some(i);
            }
            i = i + 1;
        }
        None
    }

    /// Adds a host with identifier `id` under `alias`, replacing a host of that
    /// alias in place. Its address is its hostname.
    pub fn insert_server(
        &mut self,
        alias: String,
        host: String,
        user: String,
        port: u16,
        password: Option<String>,
        id: String,
    )
        requires
            old(self).wf(),
        ensures
            final(self).wf(),
            has_alias(old(self)@, alias@) ==> exists|i: int|
                0 <= i < old(self)@.len() && old(self)@[i].0 == alias@ && final(self)@ == old(
                    self,
                )@.update(i, (alias@, new_server(id@, host@, user@, port, password))),
            !has_alias(old(self)@, alias@) ==> final(self)@ == old(self)@.push(
                (alias@, new_server(id@, host@, user@, port, password)),
            ),
    {
        let ip = String::from_str(host.as_str());
        let server = ManagedServer { id, hostname: host, ip_address: ip, port, ssh_user: user, password };
        let ghost v = server@;
        match self.position(alias.as_str()) {
            Some(i) => {
                let ghost a = alias@;
                self.servers.set(i, (alias, server));
                assert(self@ =~= old(self)@.update(i as int, (a, v)));
                assert(old(self)@[i as int].0 == a);
            },
            None => {
                let ghost a = alias@;
                self.servers.push((alias, server));
                assert(self@ =~= old(self)@.push((a, v)));
            },
        }
    }

    /// Adds a host under `alias` with a fresh random identifier, replacing a host
    /// of that alias in place. Its address is its hostname.
    pub fn add_server(&mut self, alias: String, host: String, user: String, port: u16, password: Option<String>)
        requires
            old(self).wf(),
        ensures
            final(self).wf(),
            exists|id: Seq<char>|
                {
                    &&& id.len() == 36
                    &&& has_alias(old(self)@, alias@) ==> exists|i: int|
                        0 <= i < old(self)@.len() && old(self)@[i].0 == alias@ && final(self)@
                            == old(self)@.update(i, (alias@, new_server(id, host@, user@, port, password)))
                    &&& !has_alias(old(self)@, alias@) ==> final(self)@ == old(self)@.push(
                        (alias@, new_server(id, host@, user@, port, password)),
                    )
                },
    {
        let id = fresh_server_id();
        let ghost idv = id@;
        let ghost pw = password;
        let ghost a = alias@;
        let ghost h = host@;
        let ghost u = user@;
        self.insert_server(alias, host, user, port, password, id);
        assert(has_alias(old(self)@, a) ==> exists|i: int|
            0 <= i < old(self)@.len() && old(self)@[i].0 == a && self@ == old(self)@.update(
                i,
                (a, new_server(idv, h, u, port, pw)),
            ));
    }

    /// Adds a host with the given details under `alias`, replacing a host of
    /// that alias in place.
    pub fn put_server(&mut self, alias: String, server: ManagedServer)
        requires
            old(self).wf(),
        ensures
            final(self).wf(),
            has_alias(old(self)@, alias@) ==> exists|i: int|
                0 <= i < old(self)@.len() && old(self)@[i].0 == alias@ && final(self)@ == old(
                    self,
                )@.update(i, (alias@, server@)),
            !has_alias(old(self)@, alias@) ==> final(self)@ == old(self)@.push((alias@, server@)),
    {
        let ghost v = server@;
        let ghost a = alias@;
        match self.position(alias.as_str()) {
            Some(i) => {
                self.servers.set(i, (alias, server));
                assert(self@ =~= old(self)@.update(i as int, (a, v)));
                assert(old(self)@[i as int].0 == a);
            },
            None => {
                self.servers.push((alias, server));
                assert(self@ =~= old(self)@.push((a, v)));
            },
        }
    }

    /// Adds the local host under the alias `local` for login `user`, unless a
    /// host of that alias exists.
    pub fn ensure_local(&mut self, user: String)
        requires
            old(self).wf(),
        ensures
            final(self).wf(),
            has_alias(old(self)@, "local"@) ==> final(self)@ == old(self)@,
            !has_alias(old(self)@, "local"@) ==> final(self)@ == old(self)@.push(
                ("local"@, local_server(user@)),
            ),
    {
        if self.position("local").is_none() {
            let server = ManagedServer {
                id: String::from_str("local-auto"),
                hostname: String::from_str("127.0.0.1"),
                ip_address: String::from_str("127.0.0.1"),
                port: 22,
                ssh_user: user,
                password: None,
            };
            let ghost v = server@;
            self.servers.push((String::from_str("local"), server));
            assert(self@ =~= old(self)@.push(("local"@, v)));
        }
    }

    /// Removes the host of an alias; whether there was one.
    pub fn remove_server(&mut self, alias: &str) -> (r: bool)
        requires
            old(self).wf(),
        ensures
            final(self).wf(),
            r == has_alias(old(self)@, alias@),
            !r ==> final(self)@ == old(self)@,
            r ==> exists|i: int|
                0 <= i < old(self)@.len() && old(self)@[i].0 == alias@ && final(self)@ == old(
                    self,
                )@.remove(i),
    {
        match self.position(alias) {
            Some(i) => {
                self.servers.remove(i);
                assert(self@ =~= old(self)@.remove(i as int));
                true
            },
            None => false,
        }
    }

    /// The details of the host of an alias.
    pub fn get_server(&self, alias: &str) -> (r: Option<ManagedServer>)
        requires
            self.wf(),
        ensures
            r is Some <==> has_alias(self@, alias@),
            r matches Some(s) ==> exists|i: int|
                0 <= i < self@.len() && self@[i].0 == alias@ && s@ == self@[i].1,
    {
        match self.position(alias) {
            Some(i) => {
                assert(self@[i as int] == entry_view(self.servers@[i as int]));
                Some(self.servers[i].1.copy())
            },
            None => None,
        }
    }

    /// Every alias with its host, in the order they were added.
    pub fn list_servers(&self) -> (r: Vec<(String, ManagedServer)>)
        ensures
            r@.map_values(|e: (String, ManagedServer)| entry_view(e)) == self@,
    {
        let n = self.servers.len();
        let mut out: Vec<(String, ManagedServer)> = Vec::new();
        let mut i: usize = 0;
        while i < n
            invariant
                n == self.servers@.len(),
                i <= n,
                out@.map_values(|e: (String, ManagedServer)| entry_view(e)) =~= self@.take(i as int),
            decreases n - i,
        {
            let e = &self.servers[i];
            let ghost before = out@;
            out.push((String::from_str(e.0.as_str()), e.1.copy()));
            assert(out@.map_values(|e: (String, ManagedServer)| entry_view(e)) =~= before.map_values(
                |e: (String, ManagedServer)| entry_view(e),
            ).push(entry_view(self.servers@[i as int])));
            assert(self@.take(i + 1) =~= self@.take(i as int).push(self@[i as int]));
            i = i + 1;
        }
        assert(self@.take(n as int) =~= self@);
        out
    }
}

} // verus!
