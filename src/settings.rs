//! The validated, read-only settings: server whitelist with default VLANs,
//! the user directory, the shared secret and the listen endpoint.
use vstd::prelude::*;
use vstd::utf8::encode_utf8;
use vstd::string::StringExecFns;
use crate::digest::{digest_matches_hex, hex_bytes, is_hex_text, sha512, sha512_of};

verus! {

/// Highest VLAN id that may be assigned.
pub const MAX_VLAN: u16 = 4094;

/// Port to listen on when none is configured.
pub const DEFAULT_LISTEN_PORT: u16 = 1812;

/// IP address of a RADIUS client (a network access server), as a number.
#[derive(Clone, Copy, Debug, PartialEq, Eq, Structural)]
pub enum ServerAddr {
    V4(u32),
    V6(u128),
}

/// One configured server entry as it was read, before validation.
/// `ip` is `None` where the configured text is not an IP address.
pub struct ServerRecord {
    pub ip: Option<ServerAddr>,
    pub default_vlan_enabled: bool,
    pub vlan_id: u16,
}

/// One configured user entry as it was read, before validation.
/// An empty string stands for a field that was not given.
pub struct UserRecord {
    pub username: String,
    pub hash: String,
    pub mac_address: String,
    pub vlan_enabled: bool,
    pub vlan_id: u16,
}

/// The whole configuration as it was read, before validation.
/// `listen_address_parses` says whether `listen_address` is an IP address.
pub struct SettingsRecord {
    pub listen_address: String,
    pub listen_address_parses: bool,
    pub listen_port: u16,
    pub secret: String,
    pub servers: Vec<ServerRecord>,
    pub users: Vec<UserRecord>,
}

/// A configuration that must keep the server from starting.
#[derive(Clone, Copy, Debug, PartialEq, Eq, Structural)]
pub enum SettingsError {
    /// A server entry whose IP does not parse.
    ServerAddress,
    /// A user entry with neither a MAC address nor both username and hash.
    MissingIdentity,
    /// A user entry with its VLAN enabled and an id above `MAX_VLAN`.
    VlanOutOfRange,
}

/// How a user entry checks the presented credential.
#[derive(Clone, Copy, Debug, PartialEq, Eq, Structural)]
pub enum AuthKinds {
    /// `password` is the hex SHA-512 digest of the password.
    User,
    /// `password` is the MAC address, compared exactly.
    Mac,
}

/// A whitelisted server.
pub struct AuthenticationServerEntry {
    pub ip: ServerAddr,
    pub default_vlan_enabled: bool,
    pub vlan: u16,
}

/// A user of the directory, keyed by `identity`.
pub struct AuthenticationEntry {
    pub identity: String,
    pub kind: AuthKinds,
    pub password: String,
    pub vlan_enabled: bool,
    pub vlan: u16,
}

/// Validated settings. Later entries for the same key take precedence.
pub struct OxideSettings {
    listen_address: String,
    listen_port: u16,
    users: Vec<AuthenticationEntry>,
    servers: Vec<AuthenticationServerEntry>,
    secret: String,
}

// ---------------------------------------------------------------- user entries

/// The error that a user record gives, if any.
pub open spec fn user_record_error(c: UserRecord) -> Option<SettingsError> {
    if c.mac_address@.len() == 0 && (c.username@.len() == 0 || c.hash@.len() == 0) {
        Some(SettingsError::MissingIdentity)
    } else if c.vlan_enabled && c.vlan_id != 0 && c.vlan_id > MAX_VLAN {
        Some(SettingsError::VlanOutOfRange)
    } else {
        None
    }
}

/// The entry built from a valid user record: a MAC address, when given, is the
/// identity and the credential; a VLAN id of 0 disables the VLAN.
pub open spec fn entry_from_record(e: AuthenticationEntry, c: UserRecord) -> bool {
    &&& if c.mac_address@.len() == 0 {
        &&& e.kind == AuthKinds::User
        &&& e.identity@ == c.username@
        &&& e.password@ == c.hash@
    } else {
        &&& e.kind == AuthKinds::Mac
        &&& e.identity@ == c.mac_address@
        &&& e.password@ == c.mac_address@
    }
    &&& e.vlan_enabled == (c.vlan_enabled && c.vlan_id != 0)
    &&& e.vlan == (if e.vlan_enabled { c.vlan_id } else { 0 })
}

/// A user entry is well formed when its VLAN, if enabled, is in [1, MAX_VLAN],
/// and a MAC entry's credential is its identity.
pub open spec fn entry_wf(e: AuthenticationEntry) -> bool {
    &&& e.vlan_enabled ==> 1 <= e.vlan <= MAX_VLAN
    &&& e.kind == AuthKinds::Mac ==> e.password@ == e.identity@
}

/// Whether `presented` is the right credential for entry `e`.
pub open spec fn credential_matches(e: AuthenticationEntry, presented: Seq<char>) -> bool {
    match e.kind {
        AuthKinds::Mac => e.password@ == presented,
        AuthKinds::User => {
            &&& is_hex_text(encode_utf8(e.password@))
            &&& sha512_of(encode_utf8(presented)) == hex_bytes(encode_utf8(e.password@))
        },
    }
}

/// The VLAN that an entry assigns.
pub open spec fn entry_vlan(e: AuthenticationEntry) -> Option<u16> {
    if e.vlan_enabled {
        Some(e.vlan)
    } else {
        None
    }
}

impl AuthenticationEntry {
    /// Validates one user record.
    pub fn from_config(config: UserRecord) -> (r: Result<AuthenticationEntry, SettingsError>)
        ensures
            r is Err <==> user_record_error(config) is Some,
            r matches Err(e) ==> user_record_error(config) == Some(e),
            r matches Ok(e) ==> entry_from_record(e, config) && entry_wf(e),
    {
        let kind;
        let identity;
        let password;
        if config.mac_address.as_str().is_empty() {
            if config.username.as_str().is_empty() || config.hash.as_str().is_empty() {
                return Err(SettingsError::MissingIdentity);
            }
            kind = AuthKinds::User;
            identity = config.username;
            password = config.hash;
        } else {
            kind = AuthKinds::Mac;
            password = config.mac_address.clone();
            identity = config.mac_address;
        }
        let mut vlan_enabled = config.vlan_enabled;
        let mut vlan: u16 = 0;
        if vlan_enabled {
            if config.vlan_id == 0 {
                vlan_enabled = false;
            } else {
                if config.vlan_id > MAX_VLAN {
                    return Err(SettingsError::VlanOutOfRange);
                }
                vlan = config.vlan_id;
            }
        }
        Ok(AuthenticationEntry { identity, kind, password, vlan_enabled, vlan })
    }

    pub fn get_vlan(&self) -> (r: Option<u16>)
        ensures
            r == entry_vlan(*self),
    {
        if self.vlan_enabled {
            Some(self.vlan)
        } else {
            None
        }
    }

    /// Checks a presented credential by the entry's kind.
    pub fn authenticate(&self, password: &str) -> (r: bool)
        ensures
            r == credential_matches(*self, password@),
    {
        match self.kind {
            AuthKinds::User => self.authenticate_user(password),
            AuthKinds::Mac => self.authenticate_mac(password),
        }
    }

    /// Exact comparison with the configured MAC address.
    pub fn authenticate_mac(&self, mac: &str) -> (r: bool)
        ensures
            r == (self.password@ == mac@),
    {
        let presented = String::from_str(mac);
        self.password == presented
    }

    /// Compares the SHA-512 digest of the password with the configured hex digest;
    /// a configured value that is not hex never matches.
    pub fn authenticate_user(&self, password: &str) -> (r: bool)
        ensures
            r == (is_hex_text(encode_utf8(self.password@)) && sha512_of(encode_utf8(password@))
                == hex_bytes(encode_utf8(self.password@))),
            sha512_of(encode_utf8(password@)).len() == 64,
    {
        let digest = sha512(password.as_bytes());
        digest_matches_hex(digest.as_slice(), self.password.as_str())
    }
}

// ------------------------------------------------------------- server entries

/// The entry built from a server record whose IP parsed: a default VLAN id
/// outside [1, MAX_VLAN] disables the default VLAN.
pub open spec fn server_from_record(c: ServerRecord) -> AuthenticationServerEntry {
    AuthenticationServerEntry {
        ip: c.ip->Some_0,
        default_vlan_enabled: c.default_vlan_enabled && 1 <= c.vlan_id <= MAX_VLAN,
        vlan: c.vlan_id,
    }
}

/// Some server record has an IP that did not parse.
pub open spec fn has_bad_server(servers: Seq<ServerRecord>) -> bool {
    exists|i: int| 0 <= i < servers.len() && (#[trigger] servers[i]).ip is None
}

/// The error of the first user record that has one.
pub open spec fn first_user_error(users: Seq<UserRecord>) -> Option<SettingsError>
    decreases users.len(),
{
    if users.len() == 0 {
        None
    } else if user_record_error(users[0]) is Some {
        user_record_error(users[0])
    } else {
        first_user_error(users.drop_first())
    }
}

/// The error that a whole configuration gives, if any: server entries are checked first.
pub open spec fn settings_error(raw: SettingsRecord) -> Option<SettingsError> {
    if has_bad_server(raw.servers@) {
        Some(SettingsError::ServerAddress)
    } else {
        first_user_error(raw.users@)
    }
}

/// The last user entry with the given identity.
pub open spec fn find_user(users: Seq<AuthenticationEntry>, id: Seq<char>) -> Option<AuthenticationEntry>
    decreases users.len(),
{
    if users.len() == 0 {
        None
    } else if users.last().identity@ == id {
        Some(users.last())
    } else {
        find_user(users.drop_last(), id)
    }
}

/// The last server entry with the given address.
pub open spec fn find_server(servers: Seq<AuthenticationServerEntry>, ip: ServerAddr) -> Option<AuthenticationServerEntry>
    decreases servers.len(),
{
    if servers.len() == 0 {
        None
    } else if servers.last().ip == ip {
        Some(servers.last())
    } else {
        find_server(servers.drop_last(), ip)
    }
}

/// The outcome of authenticating against an entry, or against no entry.
pub open spec fn outcome(entry: Option<AuthenticationEntry>, presented: Seq<char>) -> (bool, Option<u16>) {
    match entry {
        Some(e) => if credential_matches(e, presented) {
            (true, entry_vlan(e))
        } else {
            (false, None)
        },
        None => (false, None),
    }
}

/// The default VLAN of a server entry, where it is enabled.
pub open spec fn server_default_vlan(entry: Option<AuthenticationServerEntry>) -> Option<u16> {
    match entry {
        Some(s) => if s.default_vlan_enabled {
            Some(s.vlan)
        } else {
            None
        },
        None => None,
    }
}

/// A found user entry has the identity looked for and is one of the entries.
pub proof fn lemma_find_user_in(users: Seq<AuthenticationEntry>, id: Seq<char>)
    ensures
        find_user(users, id) matches Some(e) ==> e.identity@ == id && users.contains(e),
    decreases users.len(),
{
    if users.len() > 0 && users.last().identity@ != id {
        lemma_find_user_in(users.drop_last(), id);
        if find_user(users, id) is Some {
            let e = find_user(users, id)->Some_0;
            let j = choose|j: int| 0 <= j < users.drop_last().len() && users.drop_last()[j] == e;
            assert(users[j] == e);
        }
    } else if users.len() > 0 {
        assert(users[users.len() - 1] == users.last());
    }
}

/// A found server entry has the address looked for and is one of the entries.
pub proof fn lemma_find_server_in(servers: Seq<AuthenticationServerEntry>, ip: ServerAddr)
    ensures
        find_server(servers, ip) matches Some(e) ==> e.ip == ip && servers.contains(e),
    decreases servers.len(),
{
    if servers.len() > 0 && servers.last().ip != ip {
        lemma_find_server_in(servers.drop_last(), ip);
        if find_server(servers, ip) is Some {
            let e = find_server(servers, ip)->Some_0;
            let j = choose|j: int| 0 <= j < servers.drop_last().len() && servers.drop_last()[j] == e;
            assert(servers[j] == e);
        }
    } else if servers.len() > 0 {
        assert(servers[servers.len() - 1] == servers.last());
    }
}

/// A configured MAC user authenticates with its own MAC address, and gets its
/// VLAN where enabled; with any other credential it does not authenticate.
pub proof fn lemma_mac_user(settings: OxideSettings, mac: Seq<char>, other: Seq<char>)
    requires
        settings.wf(),
        find_user(settings.spec_users(), mac) matches Some(e) && e.kind == AuthKinds::Mac,
    ensures
        settings.spec_authenticate(mac, mac) == (true, entry_vlan(find_user(settings.spec_users(), mac)->Some_0)),
        other != mac ==> settings.spec_authenticate(mac, other) == (false, None::<u16>),
{
    lemma_find_user_in(settings.spec_users(), mac);
}

/// A configured hash user authenticates exactly when the SHA-512 digest of the
/// password equals the configured hex digest; a password whose digest differs
/// from that of an accepted one is refused.
pub proof fn lemma_hash_user(settings: OxideSettings, user: Seq<char>, password: Seq<char>, other: Seq<char>)
    requires
        find_user(settings.spec_users(), user) matches Some(e) && e.kind == AuthKinds::User,
    ensures
        settings.spec_authenticate(user, password).0 == ({
            let configured = encode_utf8(find_user(settings.spec_users(), user)->Some_0.password@);
            is_hex_text(configured) && sha512_of(encode_utf8(password)) == hex_bytes(configured)
        }),
        settings.spec_authenticate(user, password).0 && sha512_of(encode_utf8(other)) != sha512_of(
            encode_utf8(password),
        ) ==> !settings.spec_authenticate(user, other).0,
{
}

impl OxideSettings {
    pub closed spec fn spec_users(&self) -> Seq<AuthenticationEntry> {
        self.users@
    }

    pub closed spec fn spec_servers(&self) -> Seq<AuthenticationServerEntry> {
        self.servers@
    }

    pub closed spec fn spec_secret(&self) -> Seq<char> {
        self.secret@
    }

    pub closed spec fn spec_listen_address(&self) -> Seq<char> {
        self.listen_address@
    }

    pub closed spec fn spec_listen_port(&self) -> u16 {
        self.listen_port
    }

    /// Every entry's VLAN, where enabled, is in [1, MAX_VLAN].
    pub open spec fn wf(&self) -> bool {
        &&& forall|i: int| 0 <= i < self.spec_users().len() ==> entry_wf(#[trigger] self.spec_users()[i])
        &&& forall|i: int| 0 <= i < self.spec_servers().len()
            ==> (#[trigger] self.spec_servers()[i]).default_vlan_enabled
            ==> 1 <= self.spec_servers()[i].vlan <= MAX_VLAN
    }

    /// What `authenticate` returns.
    pub open spec fn spec_authenticate(&self, user: Seq<char>, pass: Seq<char>) -> (bool, Option<u16>) {
        outcome(find_user(self.spec_users(), user), pass)
    }

    /// Whether the server is whitelisted.
    pub open spec fn spec_valid_server(&self, server: ServerAddr) -> bool {
        find_server(self.spec_servers(), server) is Some
    }

    /// The server's default VLAN, where it is whitelisted and has one.
    pub open spec fn spec_default_vlan(&self, server: ServerAddr) -> Option<u16> {
        server_default_vlan(find_server(self.spec_servers(), server))
    }

    /// Validates a configuration. An empty listen address, or one that is not an
    /// IP address, becomes `0.0.0.0`; a zero port becomes `DEFAULT_LISTEN_PORT`.
    pub fn new(raw: SettingsRecord) -> (r: Result<OxideSettings, SettingsError>)
        ensures
            r is Err <==> settings_error(raw) is Some,
            r matches Err(e) ==> settings_error(raw) == Some(e),
            r matches Ok(s) ==> {
                &&& s.wf()
                &&& s.spec_listen_address() == (if raw.listen_address@.len() == 0
                    || !raw.listen_address_parses {
                    "0.0.0.0"@
                } else {
                    raw.listen_address@
                })
                &&& s.spec_listen_port() == (if raw.listen_port == 0 {
                    DEFAULT_LISTEN_PORT
                } else {
                    raw.listen_port
                })
                &&& s.spec_secret() == raw.secret@
                &&& s.spec_servers().len() == raw.servers@.len()
                &&& forall|i: int| 0 <= i < raw.servers@.len()
                    ==> #[trigger] s.spec_servers()[i] == server_from_record(raw.servers@[i])
                &&& s.spec_users().len() == raw.users@.len()
                &&& forall|i: int| 0 <= i < raw.users@.len()
                    ==> entry_from_record(#[trigger] s.spec_users()[i], raw.users@[i])
            },
    {
        let SettingsRecord {
            listen_address,
            listen_address_parses,
            listen_port,
            secret,
            servers: server_records,
            users: user_records,
        } = raw;
        let listen_address = if listen_address.as_str().is_empty() || !listen_address_parses {
            String::from_str("0.0.0.0")
        } else {
            listen_address
        };
        let listen_port = if listen_port == 0 {
            DEFAULT_LISTEN_PORT
        } else {
            listen_port
        };

        let mut servers: Vec<AuthenticationServerEntry> = Vec::new();
        let mut i: usize = 0;
        while i < server_records.len()
            invariant
                0 <= i <= server_records@.len(),
                server_records@ == raw.servers@,
                servers@.len() == i,
                forall|j: int| 0 <= j < i ==> (#[trigger] server_records@[j]).ip is Some,
                forall|j: int| 0 <= j < i ==> #[trigger] servers@[j] == server_from_record(server_records@[j]),
            decreases server_records@.len() - i,
        {
            let record = &server_records[i];
            let ip = match record.ip {
                Some(ip) => ip,
                None => {
                    assert(server_records@[i as int].ip is None);
                    assert(has_bad_server(raw.servers@));
                    return Err(SettingsError::ServerAddress);
                },
            };
            let default_vlan_enabled = record.default_vlan_enabled && 1 <= record.vlan_id
                && record.vlan_id <= MAX_VLAN;
            servers.push(AuthenticationServerEntry { ip, default_vlan_enabled, vlan: record.vlan_id });
            i = i + 1;
        }
        assert(!has_bad_server(server_records@));

        let mut users: Vec<AuthenticationEntry> = Vec::new();
        let mut records = user_records;
        let ghost all = records@;
        assert(all == raw.users@);
        assert(all.subrange(0, all.len() as int) =~= all);
        let n: usize = records.len();
        let mut k: usize = 0;
        while records.len() > 0
            invariant
                k + records@.len() == all.len(),
                all.len() == n,
                all == raw.users@,
                !has_bad_server(raw.servers@),
                users@.len() == k,
                records@ == all.subrange(k as int, all.len() as int),
                first_user_error(all) == first_user_error(all.subrange(k as int, all.len() as int)),
                forall|j: int| 0 <= j < k ==> entry_from_record(#[trigger] users@[j], all[j]),
                forall|j: int| 0 <= j < k ==> entry_wf(#[trigger] users@[j]),
            decreases records@.len(),
        {
            let record = records.remove(0);
            proof {
                let rest = all.subrange(k as int, all.len() as int);
                assert(record == rest[0]);
                assert(rest.drop_first() =~= all.subrange(k + 1, all.len() as int));
            }
            match AuthenticationEntry::from_config(record) {
                Ok(entry) => users.push(entry),
                Err(e) => {
                    assert(settings_error(raw) == first_user_error(all.subrange(k as int, all.len() as int)));
                    return Err(e);
                },
            }
            k = k + 1;
        }
        assert(all.subrange(k as int, all.len() as int).len() == 0);
        Ok(OxideSettings { listen_address, listen_port, users, servers, secret })
    }

    pub fn get_secret(&self) -> (r: &str)
        ensures
            r@ == self.spec_secret(),
    {
        self.secret.as_str()
    }

    pub fn get_listen_address(&self) -> (r: String)
        ensures
            r@ == self.spec_listen_address(),
    {
        self.listen_address.clone()
    }

    pub fn get_listen_port(&self) -> (r: u16)
        ensures
            r == self.spec_listen_port(),
    {
        self.listen_port
    }

    /// The last user entry with the given identity.
    fn find_user(&self, user: &str) -> (r: Option<&AuthenticationEntry>)
        ensures
            r matches Some(e) ==> find_user(self.spec_users(), user@) == Some(*e),
            r is None ==> find_user(self.spec_users(), user@) is None,
    {
        let presented = String::from_str(user);
        let mut i: usize = self.users.len();
        assert(self.users@.subrange(0, i as int) =~= self.users@);
        while i > 0
            invariant
                i <= self.users@.len(),
                presented@ == user@,
                find_user(self.users@, user@) == find_user(self.users@.subrange(0, i as int), user@),
            decreases i,
        {
            let entry = &self.users[i - 1];
            proof {
                let prefix = self.users@.subrange(0, i as int);
                assert(prefix.drop_last() =~= self.users@.subrange(0, i - 1));
                assert(prefix.last() == self.users@[i - 1]);
            }
            if entry.identity == presented {
                return Some(entry);
            }
            i = i - 1;
        }
        assert(self.users@.subrange(0, 0).len() == 0);
        None
    }

    /// Returns whether the user is authenticated and, if so, the VLAN to assign.
    pub fn authenticate(&self, user: &str, pass: &str) -> (r: (bool, Option<u16>))
        ensures
            r == self.spec_authenticate(user@, pass@),
    {
        match self.find_user(user) {
            Some(entry) => if entry.authenticate(pass) {
                (true, entry.get_vlan())
            } else {
                (false, None)
            },
            None => (false, None),
        }
    }

    /// The last server entry with the given address.
    fn find_server(&self, server: ServerAddr) -> (r: Option<&AuthenticationServerEntry>)
        ensures
            r matches Some(e) ==> find_server(self.spec_servers(), server) == Some(*e),
            r is None ==> find_server(self.spec_servers(), server) is None,
    {
        let mut i: usize = self.servers.len();
        assert(self.servers@.subrange(0, i as int) =~= self.servers@);
        while i > 0
            invariant
                i <= self.servers@.len(),
                find_server(self.servers@, server) == find_server(self.servers@.subrange(0, i as int), server),
            decreases i,
        {
            let entry = &self.servers[i - 1];
            proof {
                let prefix = self.servers@.subrange(0, i as int);
                assert(prefix.drop_last() =~= self.servers@.subrange(0, i - 1));
                assert(prefix.last() == self.servers@[i - 1]);
            }
            if entry.ip == server {
                return Some(entry);
            }
            i = i - 1;
        }
        assert(self.servers@.subrange(0, 0).len() == 0);
        None
    }

    /// Whether requests from this server are served at all.
    pub fn valid_server(&self, server: ServerAddr) -> (r: bool)
        ensures
            r == self.spec_valid_server(server),
    {
        self.find_server(server).is_some()
    }

    /// The VLAN to assign when authentication fails on a request from this server.
    pub fn get_server_default_vlan(&self, server: ServerAddr) -> (r: Option<u16>)
        ensures
            r == self.spec_default_vlan(server),
    {
        match self.find_server(server) {
            Some(entry) => if entry.default_vlan_enabled {
                Some(entry.vlan)
            } else {
                None
            },
            None => None,
        }
    }
}

} // verus!
