//! Process-wide handler configuration: a set-once store and the installation
//! state machine.
//!
//! The embedding program owns the single process-global instance (behind a
//! lock whose non-blocking acquisition it performs itself) and reports the
//! outcome of each environment step — directory creation, signal registration
//! — to the verified transition functions here.
use vstd::prelude::*;
use vstd::string::*;

verus! {

/// Configuration of the crash handler.
///
/// `pre_dump_callback` must itself be signal-handler safe (no allocation, no
/// locking that could deadlock): that is an obligation on the caller, not
/// enforced here, and a callback that faults re-enters fault handling.
pub struct HandlerConfig {
    /// Directory where dump files are placed; created before installation.
    pub dump_directory: String,
    /// Non-empty prefix of every dump filename.
    pub filename_prefix: String,
    /// Whether dump filenames carry a seconds-since-epoch stamp.
    pub append_timestamp: bool,
    /// Whether a callback is configured to run inside the trampoline before
    /// the snapshot is written. The callable itself is a plain function
    /// reference held by the embedding program, which invokes it when the
    /// trampoline plan says so.
    pub has_pre_dump_callback: bool,
}

impl HandlerConfig {
    /// The configuration's own invariant: the filename prefix is non-empty.
    pub open spec fn wf(&self) -> bool {
        self.filename_prefix@.len() > 0
    }
}

impl Default for HandlerConfig {
    /// Dumps go to `./dumps`, filenames start with `crash` and carry a
    /// timestamp, and no callback is configured.
    fn default() -> (r: Self)
        ensures
            r.dump_directory@ == "./dumps"@,
            r.filename_prefix@ == "crash"@,
            r.append_timestamp,
            !r.has_pre_dump_callback,
            r.wf(),
    {
        proof {
            reveal_strlit("crash");
        }
        HandlerConfig {
            dump_directory: String::from_str("./dumps"),
            filename_prefix: String::from_str("crash"),
            append_timestamp: true,
            has_pre_dump_callback: false,
        }
    }
}

/// Why an installation attempt was rejected.
#[derive(Debug, Clone, Copy, PartialEq, Eq, Structural)]
pub enum InstallError {
    /// A configuration is already installed; it is never replaced.
    AlreadyInitialized,
    /// The dump directory could not be created; nothing was stored.
    DirectoryCreateFailed,
    /// Registering a signal handler failed; the configuration stays stored
    /// and handlers registered before the failure stay in place.
    SignalInstallFailed,
}

impl InstallError {
    /// The human-readable reason of this error.
    pub open spec fn spec_message(&self) -> Seq<char> {
        match self {
            InstallError::AlreadyInitialized => "Handler already initialized"@,
            InstallError::DirectoryCreateFailed => "Failed to create dump directory"@,
            InstallError::SignalInstallFailed => "Failed to install signal handler"@,
        }
    }

    /// The human-readable reason of this error.
    pub fn message(&self) -> (r: &'static str)
        ensures
            r@ == self.spec_message(),
    {
        match self {
            InstallError::AlreadyInitialized => "Handler already initialized",
            InstallError::DirectoryCreateFailed => "Failed to create dump directory",
            InstallError::SignalInstallFailed => "Failed to install signal handler",
        }
    }
}

/// The result of one installation attempt, decided from whether a
/// configuration was already stored, whether the dump directory could be
/// created, and whether every signal handler registered.
///
/// Directory failure is checked first and leaves the store untouched; a
/// store that is already claimed rejects the attempt whatever the arguments;
/// a registration failure surfaces only after the configuration is stored.
pub open spec fn install_outcome(
    initialized: bool,
    directory_created: bool,
    signals_registered: bool,
) -> Result<(), InstallError> {
    if !directory_created {
        Err(InstallError::DirectoryCreateFailed)
    } else if initialized {
        Err(InstallError::AlreadyInitialized)
    } else if !signals_registered {
        Err(InstallError::SignalInstallFailed)
    } else {
        Ok(())
    }
}

/// The later of a stored timestamp and a fresh clock reading: what the store
/// hands out so that stamps never decrease even when the clock steps back.
pub open spec fn clamped_timestamp(last: u64, now: u64) -> u64 {
    if now >= last {
        now
    } else {
        last
    }
}

/// The set-once configuration store.
///
/// At most one configuration is ever accepted per store; there is no update
/// and no teardown, mirroring the irrevocability of installed signal
/// handlers. It also remembers the last timestamp handed out, so stamps are
/// non-decreasing within the process.
pub struct ConfigStore {
    config: Option<HandlerConfig>,
    last_timestamp: u64,
}

impl ConfigStore {
    /// Whether a configuration has been stored.
    pub open spec fn spec_initialized(&self) -> bool {
        self.spec_config() is Some
    }

    /// The stored configuration, if any.
    pub closed spec fn spec_config(&self) -> Option<HandlerConfig> {
        self.config
    }

    /// The last timestamp handed out.
    pub closed spec fn spec_last_timestamp(&self) -> u64 {
        self.last_timestamp
    }

    /// An empty store: no configuration, no timestamp handed out yet.
    pub fn new() -> (r: ConfigStore)
        ensures
            !r.spec_initialized(),
            r.spec_last_timestamp() == 0,
    {
        ConfigStore { config: None, last_timestamp: 0 }
    }

    /// Whether a configuration has been stored.
    pub fn is_initialized(&self) -> (r: bool)
        ensures
            r == self.spec_initialized(),
    {
        self.config.is_some()
    }

    /// Borrows the stored configuration. The caller performs the
    /// non-blocking lock acquisition that guards the process-global store;
    /// this read itself never blocks.
    pub fn try_read(&self) -> (r: Option<&HandlerConfig>)
        ensures
            r is Some <==> self.spec_initialized(),
            r matches Some(c) ==> self.spec_config() == Some(*c),
    {
        self.config.as_ref()
    }

    /// Hands out the next timestamp: the clock reading `now`, clamped so the
    /// result never falls below any timestamp handed out before.
    pub fn next_timestamp(&mut self, now: u64) -> (r: u64)
        ensures
            r == clamped_timestamp(old(self).spec_last_timestamp(), now),
            final (self).spec_last_timestamp() == r,
            final (self).spec_config() == old(self).spec_config(),
            r >= now,
            r >= old(self).spec_last_timestamp(),
    {
        if now >= self.last_timestamp {
            self.last_timestamp = now;
        }
        self.last_timestamp
    }
}

/// Installs a handler configuration: the single entry point of the
/// installation state machine.
///
/// `directory_created` reports whether the embedding program could create the
/// dump directory beforehand, and `signals_registered` whether it could
/// register a handler for every supported signal. The result and the new
/// store state follow `install_outcome` exactly: the configuration is stored
/// if and only if the directory step succeeded and no configuration was
/// stored before, and once stored it is never replaced.
pub fn init_crash_handler(
    store: &mut ConfigStore,
    config: HandlerConfig,
    directory_created: bool,
    signals_registered: bool,
) -> (r: Result<(), InstallError>)
    requires
        config.wf(),
    ensures
        r == install_outcome(
            old(store).spec_initialized(),
            directory_created,
            signals_registered,
        ),
        final (store).spec_last_timestamp() == old(store).spec_last_timestamp(),
        (!directory_created || old(store).spec_initialized()) ==> final (store).spec_config()
            == old(store).spec_config(),
        (directory_created && !old(store).spec_initialized()) ==> final (store).spec_config()
            == Some(config),
{
    if !directory_created {
        return Err(InstallError::DirectoryCreateFailed);
    }
    if store.config.is_some() {
        return Err(InstallError::AlreadyInitialized);
    }
    store.config = Some(config);
    if !signals_registered {
        return Err(InstallError::SignalInstallFailed);
    }
    Ok(())
}

/// Once a store is initialized, no further installation ever succeeds: when
/// the directory step succeeds the attempt is rejected as
/// `AlreadyInitialized`, whatever the configuration arguments were, and it
/// never returns success in any case.
pub proof fn lemma_second_install_rejected(directory_created: bool, signals_registered: bool)
    ensures
        install_outcome(true, directory_created, signals_registered) != Ok::<(), InstallError>(()),
        directory_created ==> install_outcome(true, directory_created, signals_registered) == Err::<
            (),
            InstallError,
        >(InstallError::AlreadyInitialized),
{
}

/// Timestamps handed out by a store never decrease: whatever the clock
/// returns on the second reading, the second stamp is at least the first.
pub proof fn lemma_timestamps_nondecreasing(last: u64, now1: u64, now2: u64)
    ensures
        clamped_timestamp(last, now1) <= clamped_timestamp(clamped_timestamp(last, now1), now2),
{
}

/// A process-wide cell holding the current dump directory: the alternate,
/// path-based variant of the configuration store. Unlike `ConfigStore` it
/// may be overwritten; reads follow the same non-blocking discipline,
/// performed by the embedding program.
pub struct DumpPathCell {
    path: Option<String>,
}

impl DumpPathCell {
    /// The stored dump directory, if any.
    pub closed spec fn spec_path(&self) -> Option<String> {
        self.path
    }

    /// An empty cell.
    pub fn new() -> (r: DumpPathCell)
        ensures
            r.spec_path() is None,
    {
        DumpPathCell { path: None }
    }

    /// Stores a dump directory, replacing any earlier one.
    pub fn set(&mut self, path: String)
        ensures
            final (self).spec_path() == Some(path),
    {
        self.path = Some(path);
    }

    /// Borrows the stored dump directory.
    pub fn try_read(&self) -> (r: Option<&String>)
        ensures
            r is Some <==> self.spec_path() is Some,
            r matches Some(p) ==> self.spec_path() == Some(*p),
    {
        self.path.as_ref()
    }
}

} // verus!
