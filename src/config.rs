use vstd::prelude::*;

use crate::args::ResetCommand;

verus! {

/// Port the server binds to when nothing else was configured.
pub const DEFAULT_PORT: u16 = 8080;

/// Largest version a record may carry; versions are persisted as signed 64-bit integers.
pub const MAX_VERSION: u64 = 9223372036854775807;

/// Why a new field value was refused before anything was stored.
#[derive(Clone, Copy, Debug, PartialEq, Eq, Structural)]
pub enum ValidationError {
    EmptyUsername,
    EmptyPassword,
    PasswordNotSet,
    EmptyHost,
    PortOutOfRange,
    NotANumber,
}

/// Failures of the configuration record and of its compare-and-swap update.
#[derive(Clone, Copy, Debug, PartialEq, Eq, Structural)]
pub enum StoreError {
    NotInitialized,
    Conflict,
    StorageCorrupt,
    VersionExhausted,
    Validation(ValidationError),
}

/// The persisted identity and settings of the server: one record per installation.
#[derive(Debug)]
pub struct ServerConfig {
    pub username: String,
    pub password_hash: String,
    pub host: String,
    pub port: u16,
    pub domain: Option<String>,
    pub tls_cert_ref: Option<String>,
    pub ip_allowlist: Vec<String>,
    pub version: u64,
}

/// The mathematical content of a `ServerConfig`.
pub ghost struct ConfigModel {
    pub username: Seq<char>,
    pub password_hash: Seq<char>,
    pub host: Seq<char>,
    pub port: u16,
    pub domain: Option<Seq<char>>,
    pub tls_cert_ref: Option<Seq<char>>,
    pub ip_allowlist: Seq<Seq<char>>,
    pub version: u64,
}

impl View for ServerConfig {
    type V = ConfigModel;

    open spec fn view(&self) -> ConfigModel {
        ConfigModel {
            username: self.username@,
            password_hash: self.password_hash@,
            host: self.host@,
            port: self.port,
            domain: self.domain.deep_view(),
            tls_cert_ref: self.tls_cert_ref.deep_view(),
            ip_allowlist: self.ip_allowlist.deep_view(),
            version: self.version,
        }
    }
}

/// The record invariants: a usable port, a bind host, a password behind every
/// username, an allowlist without repeated entries, and a version that was handed
/// out by a successful write.
pub open spec fn model_wf(m: ConfigModel) -> bool {
    &&& 1 <= m.port
    &&& m.host.len() > 0
    &&& m.username.len() > 0 ==> m.password_hash.len() > 0
    &&& m.ip_allowlist.no_duplicates()
    &&& 1 <= m.version <= MAX_VERSION
}

/// The bind address of a fresh installation.
pub open spec fn default_host() -> Seq<char> {
    seq!['1', '2', '7', '.', '0', '.', '0', '.', '1']
}

/// The record written on first launch.
pub open spec fn default_model() -> ConfigModel {
    ConfigModel {
        username: Seq::empty(),
        password_hash: Seq::empty(),
        host: default_host(),
        port: DEFAULT_PORT,
        domain: None,
        tls_cert_ref: None,
        ip_allowlist: Seq::empty(),
        version: 1,
    }
}

/// A new value for one of the fields that `update` may change.
#[derive(Debug)]
pub enum FieldValue {
    Username(String),
    PasswordHash(String),
    Port(u64),
    Host(String),
}

/// The record that a successful update of `m` with `v` produces, or the error that refuses it.
/// Validation comes first, so a refused value never touches the version.
pub open spec fn update_outcome(m: ConfigModel, v: FieldValue) -> Result<ConfigModel, StoreError> {
    let bumped = ConfigModel { version: (m.version + 1) as u64, ..m };
    match v {
        FieldValue::Username(s) => if s@.len() == 0 {
            Err(StoreError::Validation(ValidationError::EmptyUsername))
        } else if m.password_hash.len() == 0 {
            Err(StoreError::Validation(ValidationError::PasswordNotSet))
        } else if m.version >= MAX_VERSION {
            Err(StoreError::VersionExhausted)
        } else {
            Ok(ConfigModel { username: s@, ..bumped })
        },
        FieldValue::PasswordHash(s) => if s@.len() == 0 {
            Err(StoreError::Validation(ValidationError::EmptyPassword))
        } else if m.version >= MAX_VERSION {
            Err(StoreError::VersionExhausted)
        } else {
            Ok(ConfigModel { password_hash: s@, ..bumped })
        },
        FieldValue::Port(p) => if p < 1 || p > 65535 {
            Err(StoreError::Validation(ValidationError::PortOutOfRange))
        } else if m.version >= MAX_VERSION {
            Err(StoreError::VersionExhausted)
        } else {
            Ok(ConfigModel { port: p as u16, ..bumped })
        },
        FieldValue::Host(s) => if s@.len() == 0 {
            Err(StoreError::Validation(ValidationError::EmptyHost))
        } else if m.version >= MAX_VERSION {
            Err(StoreError::VersionExhausted)
        } else {
            Ok(ConfigModel { host: s@, ..bumped })
        },
    }
}

/// The record after `reset` of one field: the field back at its default, the version bumped.
pub open spec fn reset_outcome(m: ConfigModel, f: ResetCommand) -> Result<ConfigModel, StoreError> {
    if m.version >= MAX_VERSION {
        Err(StoreError::VersionExhausted)
    } else {
        let bumped = ConfigModel { version: (m.version + 1) as u64, ..m };
        Ok(
            match f {
                ResetCommand::Domain => ConfigModel { domain: None, ..bumped },
                ResetCommand::Entry => ConfigModel { ip_allowlist: Seq::empty(), ..bumped },
                ResetCommand::IP => ConfigModel { host: default_host(), port: DEFAULT_PORT, ..bumped },
                ResetCommand::Htps => ConfigModel { tls_cert_ref: None, ..bumped },
            },
        )
    }
}

/// Views a result that carries a record as one that carries its model.
pub open spec fn outcome_model(r: Result<ServerConfig, StoreError>) -> Result<ConfigModel, StoreError> {
    match r {
        Ok(c) => Ok(c@),
        Err(e) => Err(e),
    }
}

fn copy_string(s: &String) -> (r: String)
    ensures
        r@ == s@,
{
    s.clone()
}

fn copy_opt_string(s: &Option<String>) -> (r: Option<String>)
    ensures
        r.deep_view() == s.deep_view(),
{
    match s {
        Some(x) => Some(x.clone()),
        None => None,
    }
}

fn copy_strings(v: &Vec<String>) -> (r: Vec<String>)
    ensures
        r.deep_view() == v.deep_view(),
{
    let mut r: Vec<String> = Vec::new();
    let mut i: usize = 0;
    while i < v.len()
        invariant
            i <= v.len(),
            r@.len() == i,
            forall|j: int| 0 <= j < i ==> #[trigger] r@[j]@ == v@[j]@,
        decreases v.len() - i,
    {
        let s = v[i].clone();
        r.push(s);
        i = i + 1;
    }
    assert(r.deep_view() =~= v.deep_view());
    r
}

impl ServerConfig {
    /// The record invariants of `model_wf`.
    pub open spec fn wf(&self) -> bool {
        model_wf(self@)
    }

    /// The record that first launch writes: no credentials, bound to the loopback
    /// address on the default port, no domain, certificate or allowlist, version one.
    pub fn initial() -> (r: ServerConfig)
        ensures
            r@ == default_model(),
            r.wf(),
    {
        let host = "127.0.0.1".to_owned();
        proof {
            reveal_strlit("127.0.0.1");
        }
        assert(host@ =~= default_host());
        let r = ServerConfig {
            username: String::new(),
            password_hash: String::new(),
            host,
            port: DEFAULT_PORT,
            domain: None,
            tls_cert_ref: None,
            ip_allowlist: Vec::new(),
            version: 1,
        };
        assert(r.ip_allowlist.deep_view() =~= Seq::<Seq<char>>::empty());
        r
    }

    /// A record equal to this one.
    pub fn duplicate(&self) -> (r: ServerConfig)
        ensures
            r@ == self@,
    {
        ServerConfig {
            username: copy_string(&self.username),
            password_hash: copy_string(&self.password_hash),
            host: copy_string(&self.host),
            port: self.port,
            domain: copy_opt_string(&self.domain),
            tls_cert_ref: copy_opt_string(&self.tls_cert_ref),
            ip_allowlist: copy_strings(&self.ip_allowlist),
            version: self.version,
        }
    }
}

/// The record with `v` applied, when the update validates; `m` itself otherwise.
pub open spec fn updated_or_same(m: ConfigModel, v: FieldValue) -> ConfigModel {
    match update_outcome(m, v) {
        Ok(n) => n,
        Err(_) => m,
    }
}

/// Applies one field value to a record, bumping its version by one.
pub fn apply_update(c: &ServerConfig, v: FieldValue) -> (r: Result<ServerConfig, StoreError>)
    requires
        c.wf(),
    ensures
        outcome_model(r) == update_outcome(c@, v),
        r matches Ok(n) ==> n.wf(),
{
    let ghost v0 = v;
    let mut n = c.duplicate();
    match v {
        FieldValue::Username(s) => {
            if s.as_str().is_empty() {
                return Err(StoreError::Validation(ValidationError::EmptyUsername));
            }
            if c.password_hash.as_str().is_empty() {
                return Err(StoreError::Validation(ValidationError::PasswordNotSet));
            }
            if c.version >= MAX_VERSION {
                return Err(StoreError::VersionExhausted);
            }
            n.username = s;
        },
        FieldValue::PasswordHash(s) => {
            if s.as_str().is_empty() {
                return Err(StoreError::Validation(ValidationError::EmptyPassword));
            }
            if c.version >= MAX_VERSION {
                return Err(StoreError::VersionExhausted);
            }
            n.password_hash = s;
        },
        FieldValue::Port(p) => {
            if p < 1 || p > 65535 {
                return Err(StoreError::Validation(ValidationError::PortOutOfRange));
            }
            if c.version >= MAX_VERSION {
                return Err(StoreError::VersionExhausted);
            }
            n.port = p as u16;
        },
        FieldValue::Host(s) => {
            if s.as_str().is_empty() {
                return Err(StoreError::Validation(ValidationError::EmptyHost));
            }
            if c.version >= MAX_VERSION {
                return Err(StoreError::VersionExhausted);
            }
            n.host = s;
        },
    }
    n.version = c.version + 1;
    Ok(n)
}

/// Puts one resettable field of a record back to its default, bumping its version by one.
pub fn apply_reset(c: &ServerConfig, f: ResetCommand) -> (r: Result<ServerConfig, StoreError>)
    requires
        c.wf(),
    ensures
        outcome_model(r) == reset_outcome(c@, f),
        r matches Ok(n) ==> n.wf(),
{
    if c.version >= MAX_VERSION {
        return Err(StoreError::VersionExhausted);
    }
    let mut n = c.duplicate();
    match f {
        ResetCommand::Domain => {
            n.domain = None;
        },
        ResetCommand::Entry => {
            n.ip_allowlist = Vec::new();
            assert(n.ip_allowlist.deep_view() =~= Seq::<Seq<char>>::empty());
        },
        ResetCommand::IP => {
            let d = ServerConfig::initial();
            n.host = d.host;
            n.port = d.port;
        },
        ResetCommand::Htps => {
            n.tls_cert_ref = None;
        },
    }
    n.version = c.version + 1;
    Ok(n)
}

/// The record as the storage table holds it, with SQL's signed integers.
#[derive(Debug)]
pub struct ConfigRow {
    pub username: String,
    pub password_hash: String,
    pub host: String,
    pub port: i64,
    pub domain: Option<String>,
    pub tls_cert_ref: Option<String>,
    pub ip_allowlist: Vec<String>,
    pub version: i64,
}

/// A stored row that describes a record meeting the record invariants.
pub open spec fn row_ok(row: ConfigRow) -> bool {
    &&& 1 <= row.port <= 65535
    &&& 1 <= row.version
    &&& row.host@.len() > 0
    &&& row.username@.len() > 0 ==> row.password_hash@.len() > 0
    &&& row.ip_allowlist.deep_view().no_duplicates()
}

/// The record that a row describes.
pub open spec fn row_model(row: ConfigRow) -> ConfigModel {
    ConfigModel {
        username: row.username@,
        password_hash: row.password_hash@,
        host: row.host@,
        port: row.port as u16,
        domain: row.domain.deep_view(),
        tls_cert_ref: row.tls_cert_ref.deep_view(),
        ip_allowlist: row.ip_allowlist.deep_view(),
        version: row.version as u64,
    }
}

/// Whether no two entries of `v` are equal.
fn all_distinct(v: &Vec<String>) -> (r: bool)
    ensures
        r == v.deep_view().no_duplicates(),
{
    let ghost dv = v.deep_view();
    let mut i: usize = 0;
    while i < v.len()
        invariant
            i <= v.len(),
            dv == v.deep_view(),
            dv.len() == v.len(),
            forall|a: int, b: int| 0 <= a < b < i ==> dv[a] != dv[b],
        decreases v.len() - i,
    {
        let mut j: usize = 0;
        while j < i
            invariant
                j <= i < v.len(),
                dv == v.deep_view(),
                dv.len() == v.len(),
                forall|k: int| 0 <= k < j ==> dv[k] != dv[i as int],
            decreases i - j,
        {
            if v[j].eq(&v[i]) {
                assert(dv[j as int] == dv[i as int]);
                return false;
            }
            j = j + 1;
        }
        i = i + 1;
    }
    assert forall|a: int, b: int| 0 <= a < dv.len() && 0 <= b < dv.len() && a != b implies dv[a]
        != dv[b] by {
        if a > b {
            assert(dv[b] != dv[a]);
        }
    }
    true
}

impl ServerConfig {
    /// Checks a row read back from storage. A row that breaks a record invariant is
    /// reported as corrupt, never repaired or replaced by defaults.
    pub fn from_row(row: ConfigRow) -> (r: Result<ServerConfig, StoreError>)
        ensures
            r is Ok <==> row_ok(row),
            r matches Ok(c) ==> c@ == row_model(row) && c.wf(),
            r matches Err(e) ==> e == StoreError::StorageCorrupt,
    {
        if row.port < 1 || row.port > 65535 || row.version < 1 {
            return Err(StoreError::StorageCorrupt);
        }
        if row.host.as_str().is_empty() {
            return Err(StoreError::StorageCorrupt);
        }
        if !row.username.as_str().is_empty() && row.password_hash.as_str().is_empty() {
            return Err(StoreError::StorageCorrupt);
        }
        if !all_distinct(&row.ip_allowlist) {
            return Err(StoreError::StorageCorrupt);
        }
        Ok(
            ServerConfig {
                username: row.username,
                password_hash: row.password_hash,
                host: row.host,
                port: row.port as u16,
                domain: row.domain,
                tls_cert_ref: row.tls_cert_ref,
                ip_allowlist: row.ip_allowlist,
                version: row.version as u64,
            },
        )
    }

    /// The row that stores this record.
    pub fn to_row(&self) -> (r: ConfigRow)
        ensures
            r.username@ == self.username@,
            r.password_hash@ == self.password_hash@,
            r.host@ == self.host@,
            r.port == self.port as i64,
            r.domain.deep_view() == self.domain.deep_view(),
            r.tls_cert_ref.deep_view() == self.tls_cert_ref.deep_view(),
            r.ip_allowlist.deep_view() == self.ip_allowlist.deep_view(),
            self.version <= MAX_VERSION ==> r.version == self.version as i64,
    {
        let c = self.duplicate();
        let version: i64 = if self.version <= MAX_VERSION {
            self.version as i64
        } else {
            -1
        };
        ConfigRow {
            username: c.username,
            password_hash: c.password_hash,
            host: c.host,
            port: self.port as i64,
            domain: c.domain,
            tls_cert_ref: c.tls_cert_ref,
            ip_allowlist: c.ip_allowlist,
            version,
        }
    }
}

} // verus!
