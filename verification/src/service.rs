//! Data source bookkeeping: where passwords are kept, how a profile is made
//! from user input and how a stored profile becomes what an adapter connects
//! with. The credential store, the repository and the clock are the caller's.

use vstd::prelude::*;
use crate::model::{default_port_of, DataSourceInput, DataSourceProfile, ResolvedProfile};
use crate::repo::{copy_opt, opt_str};
use crate::id_map::IdMap;
use crate::text::{copy_string, push_uuid, uuid_text};

verus! {

/// The credential store key of a data source's password.
pub open spec fn credential_key_text(id: u128) -> Seq<char> {
    "sql:"@ + uuid_text(id) + ":password"@
}

pub fn credential_key(id: u128) -> (k: String)
    ensures
        k@ == credential_key_text(id),
{
    let mut k = String::from_str("sql:");
    push_uuid(&mut k, id);
    k.append(":password");
    k
}

/// Data source management over a profile repository and a credential store.
pub struct SqlDataSourceService<R, C> {
    repo: R,
    credential_store: C,
}

impl<R, C> SqlDataSourceService<R, C> {
    pub closed spec fn repo_view(&self) -> R {
        self.repo
    }

    pub closed spec fn store_view(&self) -> C {
        self.credential_store
    }

    pub fn new(repo: R, credential_store: C) -> (s: Self)
        ensures
            s.repo_view() == repo,
            s.store_view() == credential_store,
    {
        Self { repo, credential_store }
    }

    pub fn repo(&self) -> (r: &R)
        ensures
            *r == self.repo_view(),
    {
        &self.repo
    }

    pub fn credential_store(&self) -> (c: &C)
        ensures
            *c == self.store_view(),
    {
        &self.credential_store
    }
}

/// Whether the input carries a new password: `None` and `Some("")` mean
/// "keep the password as it is".
pub open spec fn has_new_password(password: Option<String>) -> bool {
    match password {
        Some(p) => p@.len() > 0,
        None => false,
    }
}

/// Where a password is to be stored and what the profile then refers to.
pub struct CredentialPlan {
    /// The key to store the new password under, if there is one.
    pub store_under: Option<String>,
    /// The profile's `credential_ref` afterwards.
    pub credential_ref: Option<String>,
}

/// For a new data source: a given password is stored under its own key;
/// without one the profile has no credential.
pub fn plan_create_credential(id: u128, password: &Option<String>) -> (p: CredentialPlan)
    ensures
        has_new_password(*password) ==> opt_str(p.store_under) == Some(credential_key_text(id))
            && opt_str(p.credential_ref) == Some(credential_key_text(id)),
        !has_new_password(*password) ==> p.store_under is None && p.credential_ref is None,
{
    match password {
        Some(pwd) if pwd.as_str().unicode_len() > 0 => {
            CredentialPlan { store_under: Some(credential_key(id)), credential_ref: Some(credential_key(id)) }
        },
        _ => CredentialPlan { store_under: None, credential_ref: None },
    }
}

/// For an edited data source: a new password replaces the stored one under
/// the existing key (or a fresh key if there was none); otherwise the
/// existing reference stays as it is.
pub fn plan_update_credential(id: u128, existing_ref: &Option<String>, password: &Option<String>) -> (p: CredentialPlan)
    ensures
        has_new_password(*password) ==> {
            let key = match opt_str(*existing_ref) {
                Some(k) => k,
                None => credential_key_text(id),
            };
            opt_str(p.store_under) == Some(key) && opt_str(p.credential_ref) == Some(key)
        },
        !has_new_password(*password) ==> p.store_under is None && opt_str(p.credential_ref) == opt_str(
            *existing_ref,
        ),
{
    match password {
        Some(pwd) if pwd.as_str().unicode_len() > 0 => {
            let key = match existing_ref {
                Some(k) => copy_string(k),
                None => credential_key(id),
            };
            let again = copy_string(&key);
            CredentialPlan { store_under: Some(key), credential_ref: Some(again) }
        },
        _ => CredentialPlan { store_under: None, credential_ref: copy_opt(existing_ref) },
    }
}

/// The port a profile gets from its input: the given one, else the kind's.
pub open spec fn input_port(input: DataSourceInput) -> Option<u16> {
    match input.port {
        Some(p) => Some(p),
        None => default_port_of(input.db_kind),
    }
}

/// The fields a profile takes over from the input.
pub open spec fn takes_input(p: DataSourceProfile, input: DataSourceInput) -> bool {
    &&& p.name@ == input.name@
    &&& p.db_kind == input.db_kind
    &&& p.host@ == input.host@
    &&& p.port == input_port(input)
    &&& opt_str(p.database_name) == opt_str(input.database_name)
    &&& opt_str(p.default_schema) == opt_str(input.default_schema)
    &&& opt_str(p.username) == opt_str(input.username)
    &&& p.environment@ == input.environment@
    &&& opt_str(p.group_name) == opt_str(input.group_name)
    &&& p.readonly == input.readonly
    &&& p.ssl_required == input.ssl_required
}

/// A new data source made from user input at time `now`.
pub fn new_profile(id: u128, input: DataSourceInput, credential_ref: Option<String>, now: &str) -> (p: DataSourceProfile)
    ensures
        p.id == id,
        takes_input(p, input),
        opt_str(p.credential_ref) == opt_str(credential_ref),
        p.created_at@ == now@,
        p.updated_at@ == now@,
        p.last_used_at is None,
{
    let port = match input.port {
        Some(p) => Some(p),
        None => input.db_kind.default_port(),
    };
    DataSourceProfile {
        id,
        name: input.name,
        db_kind: input.db_kind,
        host: input.host,
        port,
        database_name: input.database_name,
        default_schema: input.default_schema,
        username: input.username,
        credential_ref,
        environment: input.environment,
        group_name: input.group_name,
        readonly: input.readonly,
        ssl_required: input.ssl_required,
        created_at: String::from_str(now),
        updated_at: String::from_str(now),
        last_used_at: None,
    }
}

/// An edited data source: the input's fields at time `now`, keeping the
/// identity, creation time and last use of `existing`.
pub fn updated_profile(
    existing: &DataSourceProfile,
    input: DataSourceInput,
    credential_ref: Option<String>,
    now: &str,
) -> (p: DataSourceProfile)
    ensures
        p.id == existing.id,
        takes_input(p, input),
        opt_str(p.credential_ref) == opt_str(credential_ref),
        p.created_at@ == existing.created_at@,
        p.updated_at@ == now@,
        opt_str(p.last_used_at) == opt_str(existing.last_used_at),
{
    let port = match input.port {
        Some(p) => Some(p),
        None => input.db_kind.default_port(),
    };
    DataSourceProfile {
        id: existing.id,
        name: input.name,
        db_kind: input.db_kind,
        host: input.host,
        port,
        database_name: input.database_name,
        default_schema: input.default_schema,
        username: input.username,
        credential_ref,
        environment: input.environment,
        group_name: input.group_name,
        readonly: input.readonly,
        ssl_required: input.ssl_required,
        created_at: copy_string(&existing.created_at),
        updated_at: String::from_str(now),
        last_used_at: copy_opt(&existing.last_used_at),
    }
}

/// The port an adapter connects to: the profile's, else the kind's usual
/// one, else 0.
pub open spec fn resolved_port(p: DataSourceProfile) -> u16 {
    match p.port {
        Some(x) => x,
        None => match default_port_of(p.db_kind) {
            Some(d) => d,
            None => 0,
        },
    }
}

/// What an adapter connects with: the profile and its looked-up password.
pub fn resolve_profile(profile: DataSourceProfile, password: Option<String>) -> (r: ResolvedProfile)
    ensures
        r.id == profile.id,
        r.db_kind == profile.db_kind,
        r.host@ == profile.host@,
        r.port == resolved_port(profile),
        opt_str(r.database_name) == opt_str(profile.database_name),
        opt_str(r.default_schema) == opt_str(profile.default_schema),
        opt_str(r.username) == opt_str(profile.username),
        opt_str(r.password) == opt_str(password),
        r.ssl_required == profile.ssl_required,
        r.readonly == profile.readonly,
{
    let port = match profile.port {
        Some(x) => x,
        None => match profile.db_kind.default_port() {
            Some(d) => d,
            None => 0,
        },
    };
    ResolvedProfile {
        id: profile.id,
        db_kind: profile.db_kind,
        host: profile.host,
        port,
        database_name: profile.database_name,
        default_schema: profile.default_schema,
        username: profile.username,
        password,
        ssl_required: profile.ssl_required,
        readonly: profile.readonly,
    }
}

/// The database a session connects to: the one switched to, if any, else
/// the profile's own.
pub fn effective_database(switched_to: &Option<String>, profile_database: &Option<String>) -> (r: Option<String>)
    ensures
        opt_str(r) == (match opt_str(*switched_to) {
            Some(d) => Some(d),
            None => opt_str(*profile_database),
        }),
{
    match switched_to {
        Some(d) => Some(copy_string(d)),
        None => copy_opt(profile_database),
    }
}

/// The connection settings with the switched-to database, if any, in place
/// of the profile's.
pub fn with_database(profile: ResolvedProfile, switched_to: &Option<String>) -> (r: ResolvedProfile)
    ensures
        r.id == profile.id,
        r.db_kind == profile.db_kind,
        r.host@ == profile.host@,
        r.port == profile.port,
        opt_str(r.database_name) == (match opt_str(*switched_to) {
            Some(d) => Some(d),
            None => opt_str(profile.database_name),
        }),
        opt_str(r.default_schema) == opt_str(profile.default_schema),
        opt_str(r.username) == opt_str(profile.username),
        opt_str(r.password) == opt_str(profile.password),
        r.ssl_required == profile.ssl_required,
        r.readonly == profile.readonly,
{
    let db = effective_database(switched_to, &profile.database_name);
    ResolvedProfile { database_name: db, ..profile }
}

/// The database a data source's sessions use: the one it was last switched
/// to, if any, else the profile's own.
pub open spec fn current_of(switched: Map<u128, Seq<char>>, id: u128, profile_database: Option<Seq<char>>) -> Option<Seq<char>> {
    if switched.contains_key(id) {
        Some(switched[id])
    } else {
        profile_database
    }
}

/// The databases the data sources were switched to, by data source id.
pub struct DatabaseOverrides {
    map: IdMap<String>,
}

impl DatabaseOverrides {
    pub closed spec fn switched(&self) -> Map<u128, Seq<char>> {
        self.map@.map_values(|s: String| s@)
    }

    pub fn new() -> (o: Self)
        ensures
            o.switched() == Map::<u128, Seq<char>>::empty(),
    {
        let o = DatabaseOverrides { map: IdMap::new() };
        assert(o.switched() =~= Map::<u128, Seq<char>>::empty());
        o
    }

    /// Records that data source `id` now uses database `name`.
    pub fn switch_database(&mut self, id: u128, name: String)
        ensures
            final(self).switched() == old(self).switched().insert(id, name@),
    {
        let ghost before = self.map@;
        self.map.insert(id, name);
        assert(self.switched() =~= before.map_values(|s: String| s@).insert(id, name@));
    }

    /// The database `id` was switched to, if any.
    pub fn switched_to(&self, id: u128) -> (r: Option<String>)
        ensures
            opt_str(r) == (if self.switched().contains_key(id) { Some(self.switched()[id]) } else { None }),
    {
        match self.map.get(id) {
            Some(n) => Some(copy_string(n)),
            None => None,
        }
    }

    /// The database data source `id` is (or will be) connected to.
    pub fn current_database(&self, id: u128, profile_database: &Option<String>) -> (r: Option<String>)
        ensures
            opt_str(r) == current_of(self.switched(), id, opt_str(*profile_database)),
    {
        let switched = self.switched_to(id);
        effective_database(&switched, profile_database)
    }

    /// The connection settings of a new session of `profile.id`: its
    /// database is the current one.
    pub fn session_profile(&self, profile: ResolvedProfile) -> (r: ResolvedProfile)
        ensures
            r.id == profile.id,
            r.db_kind == profile.db_kind,
            r.host@ == profile.host@,
            r.port == profile.port,
            opt_str(r.database_name) == current_of(self.switched(), profile.id, opt_str(profile.database_name)),
            opt_str(r.default_schema) == opt_str(profile.default_schema),
            opt_str(r.username) == opt_str(profile.username),
            opt_str(r.password) == opt_str(profile.password),
            r.ssl_required == profile.ssl_required,
            r.readonly == profile.readonly,
    {
        let switched = self.switched_to(profile.id);
        with_database(profile, &switched)
    }
}

/// The last switch wins: after data source `id` is switched to `name`, its
/// current database is `name` whatever its profile says, and every other
/// data source keeps its current database.
pub proof fn last_switch_wins(
    switched: Map<u128, Seq<char>>,
    id: u128,
    name: Seq<char>,
    other: u128,
    profile_database: Option<Seq<char>>,
)
    ensures
        current_of(switched.insert(id, name), id, profile_database) == Some(name),
        other != id ==> current_of(switched.insert(id, name), other, profile_database) == current_of(
            switched,
            other,
            profile_database,
        ),
{
}

} // verus!
