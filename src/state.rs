//! Shared, persisted preference state: the mute model, its on-disk document
//! and the lock-guarded store that every component reads and writes.

use std::sync::Arc;

use parking_lot::lock_api;
use parking_lot::RawRwLock;
use vstd::prelude::*;
use vstd::string::*;

verus! {

/// A point in local time, as seconds since the Unix epoch plus the offset of
/// the local zone that was in force.
#[derive(Clone, Copy, Debug, PartialEq, Eq, Structural)]
pub struct LocalTime {
    /// Whole seconds since 1970-01-01T00:00:00Z.
    pub secs: i64,
    /// Nanoseconds past `secs`.
    pub nanos: u32,
    /// Offset of the local zone east of UTC, in seconds.
    pub offset_secs: i32,
}

impl LocalTime {
    /// The nanoseconds stay below a second and the offset within a day.
    pub open spec fn valid(self) -> bool {
        &&& self.nanos < 1_000_000_000
        &&& -86_400 < self.offset_secs < 86_400
    }

    /// The point in time `secs` seconds and `nanos` nanoseconds after the
    /// epoch in a zone `offset_secs` east of UTC, where those are in range.
    pub fn new(secs: i64, nanos: u32, offset_secs: i32) -> (r: Option<LocalTime>)
        ensures
            r is Some <==> (LocalTime { secs, nanos, offset_secs }).valid(),
            r is Some ==> r->Some_0 == (LocalTime { secs, nanos, offset_secs }),
    {
        if nanos < 1_000_000_000 && -86_400 < offset_secs && offset_secs < 86_400 {
            Some(LocalTime { secs, nanos, offset_secs })
        } else {
            None
        }
    }
}

/// Describes if notifications are muted and, if so, when they resume.
#[derive(Clone, Copy, Debug, PartialEq, Eq, Structural)]
pub enum MuteState {
    /// Not muted.
    Unmuted,
    /// Resuming once the given point in time has passed.
    After(LocalTime),
    /// Resuming on the next start of the process.
    NextBoot,
    /// Muted until explicitly unmuted.
    Manual,
}

impl MuteState {
    /// True for every variant but [`MuteState::Unmuted`].
    pub fn is_muted(&self) -> (r: bool)
        ensures
            r == (*self != MuteState::Unmuted),
    {
        !matches!(self, MuteState::Unmuted)
    }

    /// True only for [`MuteState::Unmuted`].
    pub fn is_unmuted(&self) -> (r: bool)
        ensures
            r == (*self == MuteState::Unmuted),
    {
        matches!(self, MuteState::Unmuted)
    }
}

/// Name of the configuration document inside the configuration directory.
pub const CONFIG_FILE_NAME: &'static str = "server_events.toml";

/// Name of the cache directory inside the configuration directory.
pub const CACHE_DIR_NAME: &'static str = "cache";

/// Errors raised while loading or persisting the shared state.
///
/// The underlying I/O or format failure is carried as its message.
#[derive(Clone, Debug, PartialEq, Eq)]
pub enum Error {
    /// Failed to create the configuration directory (or one below it).
    ConfigDirCreate { path: String, err: String },
    /// Failed to read or parse the configuration document.
    ConfigLoad { path: String, err: String },
    /// Failed to write the configuration document.
    ConfigWrite { path: String, err: String },
}

/// The one-line description of `e`, naming the path concerned.
pub open spec fn error_message(e: Error) -> Seq<char> {
    match e {
        Error::ConfigDirCreate { path, .. } => "Failed to create config directory '"@ + path@ + "'"@,
        Error::ConfigLoad { path, .. } => "Failed to load config file '"@ + path@ + "'"@,
        Error::ConfigWrite { path, .. } => "Failed to write config file to '"@ + path@ + "'"@,
    }
}

impl Error {
    /// A one-line description of this error, naming the path concerned.
    pub fn message(&self) -> (r: String)
        ensures
            r@ == error_message(*self),
    {
        let (lead, path) = match self {
            Error::ConfigDirCreate { path, .. } => ("Failed to create config directory '", path),
            Error::ConfigLoad { path, .. } => ("Failed to load config file '", path),
            Error::ConfigWrite { path, .. } => ("Failed to write config file to '", path),
        };
        let mut r = String::from_str(lead);
        r.append(path.as_str());
        r.append("'");
        r
    }

    /// The underlying failure's message.
    pub fn cause(&self) -> (r: &str)
        ensures
            r@ == match *self {
                Error::ConfigDirCreate { err, .. } => err@,
                Error::ConfigLoad { err, .. } => err@,
                Error::ConfigWrite { err, .. } => err@,
            },
    {
        match self {
            Error::ConfigDirCreate { err, .. } => err.as_str(),
            Error::ConfigLoad { err, .. } => err.as_str(),
            Error::ConfigWrite { err, .. } => err.as_str(),
        }
    }
}

/// The on-disk document: exactly the `muted` field.
#[derive(Clone, Copy, Debug, PartialEq, Eq, Structural)]
pub struct ConfigFile {
    /// The current mute state.
    pub muted: MuteState,
}

impl Default for ConfigFile {
    fn default() -> (r: Self)
        ensures
            r.muted == MuteState::Unmuted,
    {
        ConfigFile { muted: MuteState::Unmuted }
    }
}

/// What became of an attempt to read the configuration document.
#[derive(Clone, Debug, PartialEq, Eq)]
pub enum ConfigRead {
    /// The document was read and parsed.
    Found(ConfigFile),
    /// No document exists at the path.
    NotFound,
    /// The document exists but could not be read or parsed; the message says why.
    Failed(String),
}

/// The state a loaded value is normalized to: a mute that was to last until
/// the next start of the process has ended.
pub open spec fn normalized(m: MuteState) -> MuteState {
    if m == MuteState::NextBoot {
        MuteState::Unmuted
    } else {
        m
    }
}

/// `name` placed inside the directory `dir`, with one separator between them.
pub open spec fn joined(dir: Seq<char>, name: Seq<char>) -> Seq<char> {
    if dir.len() == 0 {
        name
    } else if dir.last() == '/' {
        dir + name
    } else {
        dir + seq!['/'] + name
    }
}

/// Places `name` inside the directory `dir`.
pub fn join_path(dir: &str, name: &str) -> (r: String)
    ensures
        r@ == joined(dir@, name@),
{
    let n: usize = dir.unicode_len();
    if n == 0 {
        return String::from_str(name);
    }
    let mut r = String::from_str(dir);
    if dir.get_char(n - 1) != '/' {
        r.append("/");
    }
    r.append(name);
    proof {
        reveal_strlit("/");
    }
    r
}

/// The mutable part of the shared state.
#[derive(Clone, Copy, Debug, PartialEq, Eq, Structural)]
pub struct MutableAppState {
    /// Whether notifications are muted and, if so, how they resume.
    pub muted: MuteState,
}

/// The mute state that loading a document read as `read` gives, where the
/// read succeeded or found nothing.
pub open spec fn loaded_muted(read: ConfigRead) -> MuteState {
    match read {
        ConfigRead::Found(c) => normalized(c.muted),
        _ => MuteState::Unmuted,
    }
}

/// Whether `r` is a load failure for `path` that carries `msg`.
pub open spec fn is_load_error(r: Error, path: Seq<char>, msg: String) -> bool {
    match r {
        Error::ConfigLoad { path: p, err } => p@ == path && err == msg,
        _ => false,
    }
}

impl MutableAppState {
    /// Builds the mutable state from what was read of the document
    /// `<config_dir>/server_events.toml`.
    ///
    /// A missing document gives the default; a document muted until the next
    /// start is normalized to unmuted; a failed read is a load error naming
    /// the document's path.
    pub fn new(config_dir: &str, read: ConfigRead) -> (r: Result<MutableAppState, Error>)
        ensures
            match read {
                ConfigRead::Failed(msg) => r is Err && is_load_error(
                    r->Err_0,
                    joined(config_dir@, CONFIG_FILE_NAME@),
                    msg,
                ),
                _ => r == Ok::<MutableAppState, Error>(MutableAppState { muted: loaded_muted(read) }),
            },
    {
        match read {
            ConfigRead::Found(config) => {
                let mut muted = config.muted;
                if matches!(muted, MuteState::NextBoot) {
                    muted = MuteState::Unmuted;
                }
                Ok(MutableAppState { muted })
            },
            ConfigRead::NotFound => {
                let config = ConfigFile::default();
                Ok(MutableAppState { muted: config.muted })
            },
            ConfigRead::Failed(err) => {
                let path = join_path(config_dir, CONFIG_FILE_NAME);
                Err(Error::ConfigLoad { path, err })
            },
        }
    }

    /// The document that persists this state.
    pub fn document(&self) -> (r: ConfigFile)
        ensures
            r.muted == self.muted,
    {
        ConfigFile { muted: self.muted }
    }
}

#[verifier::external_type_specification]
#[verifier::external_body]
pub struct ExRawRwLock(RawRwLock);

#[verifier::external_type_specification]
#[verifier::external_body]
#[verifier::reject_recursive_types(R)]
#[verifier::reject_recursive_types(T)]
pub struct ExRwLock<R, T: ?Sized>(lock_api::RwLock<R, T>);

/// The reader-writer lock that guards the mutable state.
pub type StateLock = lock_api::RwLock<RawRwLock, MutableAppState>;

/// Relies on parking_lot's `RwLock::new`: a lock that holds `v`.
///
/// What a lock holds changes behind shared references, so no contract speaks
/// of it.
#[verifier::external_body]
fn new_lock(v: MutableAppState) -> StateLock {
    lock_api::RwLock::new(v)
}

/// Relies on parking_lot's `RwLock::read`: under a shared lock, a copy of the
/// whole value that the lock holds at that moment.
#[verifier::external_body]
fn read_locked(l: &StateLock) -> MutableAppState {
    *l.read()
}

/// The exclusive hold on the state lock: while it lives no one else reads or
/// writes the state.
#[verifier::external_body]
pub struct WriteGuard<'a> {
    guard: lock_api::RwLockWriteGuard<'a, RawRwLock, MutableAppState>,
}

/// The value that the lock held by `g` holds.
pub uninterp spec fn guard_holds(g: WriteGuard) -> MutableAppState;

/// Relies on parking_lot's `RwLock::write`: blocks until the lock is held
/// exclusively.
#[verifier::external_body]
fn lock_write(l: &StateLock) -> WriteGuard<'_> {
    WriteGuard { guard: l.write() }
}

/// Relies on `RwLockWriteGuard`'s `Deref`: the value the held lock holds.
#[verifier::external_body]
fn guard_get(g: &WriteGuard) -> (r: MutableAppState)
    ensures
        r == guard_holds(*g),
{
    *g.guard
}

/// Relies on `RwLockWriteGuard`'s `DerefMut`: replaces the value the held
/// lock holds.
#[verifier::external_body]
fn guard_set(g: &mut WriteGuard, v: MutableAppState)
    ensures
        guard_holds(*final(g)) == v,
{
    *g.guard = v;
}

/// Relies on lock_api's `RwLockWriteGuard::downgrade` (parking_lot implements
/// `RawRwLockDowngrade`): the exclusive hold becomes a shared one atomically,
/// so no writer comes between, and the value is read under it before the
/// lock is released.
#[verifier::external_body]
fn downgrade_read(g: WriteGuard) -> (r: MutableAppState)
    ensures
        r == guard_holds(g),
{
    *lock_api::RwLockWriteGuard::downgrade(g.guard)
}

/// A change of the mute state that a tray-menu action asks for.
#[derive(Clone, Copy, Debug, PartialEq, Eq, Structural)]
pub enum Mutation {
    /// Mute indefinitely if unmuted; unmute otherwise.
    ToggleMute,
    /// Mute until the next start of the process.
    MuteUntilExit,
}

/// The mute state that `m` turns `s` into.
pub open spec fn mutated(m: Mutation, s: MuteState) -> MuteState {
    match m {
        Mutation::ToggleMute => if s == MuteState::Unmuted {
            MuteState::Manual
        } else {
            MuteState::Unmuted
        },
        Mutation::MuteUntilExit => MuteState::NextBoot,
    }
}

impl Mutation {
    /// Applies this change to `s`.
    pub fn apply(&self, s: MutableAppState) -> (r: MutableAppState)
        ensures
            r.muted == mutated(*self, s.muted),
    {
        match self {
            Mutation::ToggleMute => {
                if s.muted.is_unmuted() {
                    MutableAppState { muted: MuteState::Manual }
                } else {
                    MutableAppState { muted: MuteState::Unmuted }
                }
            },
            Mutation::MuteUntilExit => MutableAppState { muted: MuteState::NextBoot },
        }
    }
}

/// Loading the document that a successful `access_mut` hands back (its
/// `muted` is that of the state the update committed) reproduces the
/// committed state, except a mute until the next start, which loads as
/// unmuted. So after any sequence of writes that all persisted, with no other
/// writer, a fresh load gives the final state (normalized).
pub proof fn lemma_reload_round_trip(committed: MutableAppState, doc: ConfigFile)
    requires
        doc.muted == committed.muted,
    ensures
        committed.muted != MuteState::NextBoot ==> loaded_muted(ConfigRead::Found(doc)) == committed.muted,
        committed.muted == MuteState::NextBoot ==> loaded_muted(ConfigRead::Found(doc)) == MuteState::Unmuted,
        loaded_muted(ConfigRead::Found(doc)) == normalized(committed.muted),
{
}

/// A document muted until the next start loads as unmuted, and persisting
/// and loading that state again still gives unmuted: loading is idempotent.
pub proof fn lemma_normalization_idempotent(doc: ConfigFile)
    ensures
        doc.muted == MuteState::NextBoot ==> loaded_muted(ConfigRead::Found(doc)) == MuteState::Unmuted,
        loaded_muted(ConfigRead::Found(ConfigFile { muted: loaded_muted(ConfigRead::Found(doc)) }))
            == loaded_muted(ConfigRead::Found(doc)),
        loaded_muted(ConfigRead::Found(doc)) != MuteState::NextBoot,
{
}

/// The shared state of the whole client: where its files live, and the
/// mutable part behind a reader-writer lock. Clones share the mutable part.
#[derive(Clone, Debug)]
pub struct AppState {
    /// Where the persistent configuration lives.
    config_dir: String,
    /// Where cache files (such as the tray icon's assets) live.
    cache_dir: String,
    /// The mutable part, behind its lock.
    mut_state: Arc<StateLock>,
}

impl AppState {
    /// The configuration directory.
    pub closed spec fn spec_config_dir(&self) -> Seq<char> {
        self.config_dir@
    }

    /// The cache directory.
    pub closed spec fn spec_cache_dir(&self) -> Seq<char> {
        self.cache_dir@
    }

    /// Builds the shared state for `config_dir` from what was read of its
    /// configuration document, as [`MutableAppState::new`] does; the cache
    /// directory is `<config_dir>/cache`.
    pub fn new(config_dir: String, read: ConfigRead) -> (r: Result<AppState, Error>)
        ensures
            match read {
                ConfigRead::Failed(msg) => r is Err && is_load_error(
                    r->Err_0,
                    joined(config_dir@, CONFIG_FILE_NAME@),
                    msg,
                ),
                _ => r is Ok && r->Ok_0.spec_config_dir() == config_dir@
                    && r->Ok_0.spec_cache_dir() == joined(config_dir@, CACHE_DIR_NAME@),
            },
    {
        let cache_dir = join_path(config_dir.as_str(), CACHE_DIR_NAME);
        let loaded = MutableAppState::new(config_dir.as_str(), read);
        match loaded {
            Ok(m) => {
                let mut_state = Arc::new(new_lock(m));
                Ok(AppState { config_dir, cache_dir, mut_state })
            },
            Err(err) => Err(err),
        }
    }

    /// The directory of the persistent configuration.
    pub fn config_dir(&self) -> (r: &str)
        ensures
            r@ == self.spec_config_dir(),
    {
        self.config_dir.as_str()
    }

    /// The directory of the cache.
    pub fn cache_dir(&self) -> (r: &str)
        ensures
            r@ == self.spec_cache_dir(),
    {
        self.cache_dir.as_str()
    }

    /// The path of the configuration document.
    pub fn config_path(&self) -> (r: String)
        ensures
            r@ == joined(self.spec_config_dir(), CONFIG_FILE_NAME@),
    {
        join_path(self.config_dir.as_str(), CONFIG_FILE_NAME)
    }

    /// Runs `access_fn` on the mutable state as it stands under a shared lock,
    /// and returns its result. Readers never block one another, and each sees
    /// one whole state that a single writer left.
    pub fn access<R, F>(&self, access_fn: F) -> (r: R)
        where
            F: FnOnce(&MutableAppState) -> R,
        requires
            forall|s: MutableAppState| call_requires(access_fn, (&s,)),
        ensures
            exists|s: MutableAppState| call_ensures(access_fn, (&s,), r),
    {
        let current = read_locked(&self.mut_state);
        access_fn(&current)
    }

    /// Runs `access_fn` on the mutable state under the exclusive lock.
    ///
    /// Where it returns `Ok((next, value))`, `next` replaces the state, the
    /// lock is downgraded to a shared one and released, and the result holds
    /// `value` and the document of `next`, which the caller is to persist.
    /// Where it fails, the state stays as it was and its error is returned.
    pub fn access_mut<R, E, F>(&self, access_fn: F) -> (r: Result<(R, ConfigFile), E>)
        where
            F: FnOnce(MutableAppState) -> Result<(MutableAppState, R), E>,
        requires
            forall|s: MutableAppState| call_requires(access_fn, (s,)),
        ensures
            r is Ok ==> exists|s: MutableAppState, t: MutableAppState|
                call_ensures(access_fn, (s,), Ok::<(MutableAppState, R), E>((t, r->Ok_0.0)))
                    && r->Ok_0.1.muted == t.muted,
            r is Err ==> exists|s: MutableAppState|
                call_ensures(access_fn, (s,), Err::<(MutableAppState, R), E>(r->Err_0)),
    {
        let mut guard = lock_write(&self.mut_state);
        let current = guard_get(&guard);
        let res = access_fn(current);
        let ghost outcome = res;
        let r: Result<(R, ConfigFile), E> = match res {
            Ok((next, value)) => {
                guard_set(&mut guard, next);
                let committed = downgrade_read(guard);
                Ok((value, committed.document()))
            },
            Err(e) => Err(e),
        };
        proof {
            if r is Ok {
                assert(call_ensures(
                    access_fn,
                    (current,),
                    Ok::<(MutableAppState, R), E>((outcome->Ok_0.0, r->Ok_0.0)),
                ));
            } else {
                assert(call_ensures(access_fn, (current,), Err::<(MutableAppState, R), E>(r->Err_0)));
            }
        }
        r
    }
}

} // verus!
