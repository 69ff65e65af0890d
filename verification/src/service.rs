//! The logging service: a process-wide slot holding at most one active
//! sink. Three operations act on it — building and installing the sink,
//! swapping the filter specification, and swapping the rotation policy —
//! each taking the outcomes of the outside backend work as plain events and
//! either applying fully or leaving the previous state intact. Record
//! emission is decided against the installed sink alone.

use vstd::prelude::*;
use crate::level::{Level, rank, spec_resolve_level, opt_str_view, resolve_level};
use crate::filter::{LogSpec, SpecModel, spec_build, spec_enabled};
use crate::rotation::{
    RotationPolicy, FileState, FileModel, fresh_file, file_wf, spec_policy, spec_size_kb,
    spec_note, spec_rotates, spec_stamp_ok, policy_from_config,
};

verus! {

/// Why a service operation failed. Every failure leaves the previously
/// active sink, if any, exactly as it was.
#[derive(Clone, Copy, Debug, PartialEq, Eq, Structural)]
pub enum LogError {
    /// A refresh was called before the sink was installed.
    NotInitialized,
    /// The log directory collaborator failed; fatal to the operation only.
    DirectoryResolutionFailure,
    /// The backend rejected the built specification or writer.
    BackendConstructionFailure,
}

/// The live installed sink: the whole filter specification, the console
/// duplication threshold, the rotation policy and the open file state.
pub struct ActiveSink {
    level_spec: LogSpec,
    dup_threshold: Level,
    policy: RotationPolicy,
    file: FileState,
}

/// The mathematical view of an [`ActiveSink`].
#[verifier::ext_equal]
pub ghost struct SinkModel {
    pub level_spec: SpecModel,
    pub dup_threshold: Level,
    pub policy: RotationPolicy,
    pub file: FileModel,
}

impl View for ActiveSink {
    type V = SinkModel;

    closed spec fn view(&self) -> SinkModel {
        SinkModel {
            level_spec: self.level_spec@,
            dup_threshold: self.dup_threshold,
            policy: self.policy,
            file: self.file@,
        }
    }
}

/// The sink that a successful initialization installs: the specification
/// built from the resolved level, console duplication at that same level,
/// the configured rotation policy, and a fresh live file.
pub open spec fn spec_init_sink(
    cfg_level: Level,
    env_override: Option<Seq<char>>,
    size_kb: Option<u64>,
    count: Option<usize>,
) -> SinkModel {
    let resolved = spec_resolve_level(cfg_level, env_override);
    SinkModel {
        level_spec: spec_build(resolved),
        dup_threshold: resolved,
        policy: spec_policy(size_kb, count),
        file: fresh_file(),
    }
}

/// The sink after a level refresh: the filter specification is replaced as
/// one whole value — the new default with the suppression rules reapplied —
/// and the duplication threshold follows it; rotation policy and open file
/// state are untouched.
pub open spec fn spec_refresh_level(s: SinkModel, resolved: Level) -> SinkModel {
    SinkModel {
        level_spec: spec_build(resolved),
        dup_threshold: resolved,
        policy: s.policy,
        file: s.file,
    }
}

/// The sink after a rotation-policy refresh: only the policy changes; the
/// filter specification, the duplication threshold, the live file's byte
/// count and the archives on disk are untouched.
pub open spec fn spec_refresh_file(
    s: SinkModel,
    size_kb: Option<u64>,
    count: Option<usize>,
) -> SinkModel {
    SinkModel {
        level_spec: s.level_spec,
        dup_threshold: s.dup_threshold,
        policy: spec_policy(size_kb, count),
        file: s.file,
    }
}

/// Whether a record reaches the file: an installed sink whose specification
/// admits it.
pub open spec fn spec_file_emitted(lg: Option<SinkModel>, module: Seq<char>, level: Level) -> bool {
    match lg {
        Some(s) => spec_enabled(s.level_spec, module, level),
        None => false,
    }
}

/// Whether a record is mirrored to standard output: it reaches the file and
/// its level passes the duplication threshold.
pub open spec fn spec_console_emitted(
    lg: Option<SinkModel>,
    module: Seq<char>,
    level: Level,
) -> bool {
    match lg {
        Some(s) => spec_enabled(s.level_spec, module, level) && rank(level) <= rank(
            s.dup_threshold,
        ),
        None => false,
    }
}

/// What one emission did: whether the record reached the file, whether it
/// was mirrored to standard output, and whether writing it rotated the file.
#[derive(Clone, Copy, Debug, PartialEq, Eq, Structural)]
pub struct EmitOutcome {
    pub to_file: bool,
    pub to_console: bool,
    pub rotated: bool,
}

/// The process-wide logging service: an ownership-guarded slot holding at
/// most one active sink.
pub struct Logger {
    handle: Option<ActiveSink>,
}

impl View for Logger {
    type V = Option<SinkModel>;

    closed spec fn view(&self) -> Option<SinkModel> {
        match self.handle {
            Some(ref s) => Some(s@),
            None => None,
        }
    }
}

impl Logger {
    /// Internal invariant: an installed sink has a well-formed file state.
    pub open spec fn wf(&self) -> bool {
        match self@ {
            Some(s) => file_wf(s.file),
            None => true,
        }
    }

    /// An empty service: no sink installed yet.
    pub fn new() -> (r: Logger)
        ensures
            r@ is None,
            r.wf(),
    {
        Logger { handle: None }
    }

    /// Whether a sink is installed.
    pub fn is_initialized(&self) -> (r: bool)
        ensures
            r == (self@ is Some),
    {
        self.handle.is_some()
    }

    /// Build and install the sink from the configured level, the raw
    /// environment override, and the rotation configuration. The directory
    /// resolution and backend construction are outside work; their outcomes
    /// come in as events. On any failure no sink is installed at all.
    pub fn init(
        &mut self,
        cfg_level: Level,
        env_override: Option<&str>,
        size_kb: Option<u64>,
        count: Option<usize>,
        dir_resolved: bool,
        backend_ok: bool,
    ) -> (r: Result<(), LogError>)
        requires
            old(self)@ is None,
            spec_size_kb(size_kb) * 1024 <= u64::MAX,
        ensures
            final(self).wf(),
            !dir_resolved ==> r == Err::<(), LogError>(LogError::DirectoryResolutionFailure)
                && final(self)@ is None,
            dir_resolved && !backend_ok ==> r == Err::<(), LogError>(
                LogError::BackendConstructionFailure,
            ) && final(self)@ is None,
            dir_resolved && backend_ok ==> r == Ok::<(), LogError>(()) && final(self)@ == Some(
                spec_init_sink(cfg_level, opt_str_view(env_override), size_kb, count),
            ),
    {
        if !dir_resolved {
            return Err(LogError::DirectoryResolutionFailure);
        }
        if !backend_ok {
            return Err(LogError::BackendConstructionFailure);
        }
        let resolved = resolve_level(cfg_level, env_override);
        let sink = ActiveSink {
            level_spec: LogSpec::build(resolved),
            dup_threshold: resolved,
            policy: policy_from_config(size_kb, count),
            file: FileState::new(),
        };
        proof {
            assert(sink@ =~= spec_init_sink(cfg_level, opt_str_view(env_override), size_kb, count));
        }
        self.handle = Some(sink);
        Ok(())
    }

    /// Swap the filter specification and the duplication threshold to the
    /// freshly resolved level, reapplying the static suppression rules. The
    /// backend's consent to adjust console duplication comes in as an event;
    /// on any failure the whole sink is left exactly as it was.
    pub fn refresh_log_level(
        &mut self,
        cfg_level: Level,
        env_override: Option<&str>,
        backend_ok: bool,
    ) -> (r: Result<(), LogError>)
        requires
            old(self).wf(),
        ensures
            final(self).wf(),
            old(self)@ is None ==> r == Err::<(), LogError>(LogError::NotInitialized) && final(self)@ == old(self)@,
            old(self)@ is Some && !backend_ok ==> r == Err::<(), LogError>(
                LogError::BackendConstructionFailure,
            ) && final(self)@ == old(self)@,
            backend_ok ==> (old(self)@ matches Some(s) ==> r == Ok::<(), LogError>(())
                && final(self)@ == Some(
                spec_refresh_level(s, spec_resolve_level(cfg_level, opt_str_view(env_override))),
            )),
    {
        if self.handle.is_none() {
            return Err(LogError::NotInitialized);
        }
        if !backend_ok {
            return Err(LogError::BackendConstructionFailure);
        }
        let resolved = resolve_level(cfg_level, env_override);
        match self.handle.take() {
            Some(sink) => {
                let ActiveSink { level_spec: _, dup_threshold: _, policy, file } = sink;
                let fresh = ActiveSink {
                    level_spec: LogSpec::build(resolved),
                    dup_threshold: resolved,
                    policy,
                    file,
                };
                proof {
                    assert(fresh@ =~= spec_refresh_level(
                        old(self)@->Some_0,
                        spec_resolve_level(cfg_level, opt_str_view(env_override)),
                    ));
                }
                self.handle = Some(fresh);
                Ok(())
            },
            None => Err(LogError::NotInitialized),
        }
    }

    /// Swap the rotation policy to the freshly configured size and retention
    /// count, leaving the filter specification, the live file's accumulated
    /// byte count and the archives on disk untouched. Directory resolution
    /// and the backend's writer reset are outside work; their outcomes come
    /// in as events, and on any failure the whole sink — the previously
    /// active rotation policy included — is left exactly as it was.
    pub fn refresh_log_file(
        &mut self,
        size_kb: Option<u64>,
        count: Option<usize>,
        dir_resolved: bool,
        backend_ok: bool,
    ) -> (r: Result<(), LogError>)
        requires
            old(self).wf(),
            spec_size_kb(size_kb) * 1024 <= u64::MAX,
        ensures
            final(self).wf(),
            old(self)@ is None ==> r == Err::<(), LogError>(LogError::NotInitialized) && final(self)@ == old(self)@,
            old(self)@ is Some && !dir_resolved ==> r == Err::<(), LogError>(
                LogError::DirectoryResolutionFailure,
            ) && final(self)@ == old(self)@,
            old(self)@ is Some && dir_resolved && !backend_ok ==> r == Err::<(), LogError>(
                LogError::BackendConstructionFailure,
            ) && final(self)@ == old(self)@,
            dir_resolved && backend_ok ==> (old(self)@ matches Some(s) ==> r == Ok::<(),
                LogError,
            >(()) && final(self)@ == Some(spec_refresh_file(s, size_kb, count))),
    {
        if self.handle.is_none() {
            return Err(LogError::NotInitialized);
        }
        if !dir_resolved {
            return Err(LogError::DirectoryResolutionFailure);
        }
        if !backend_ok {
            return Err(LogError::BackendConstructionFailure);
        }
        let policy = policy_from_config(size_kb, count);
        match self.handle.take() {
            Some(sink) => {
                let ActiveSink { level_spec, dup_threshold, policy: _, file } = sink;
                let fresh = ActiveSink { level_spec, dup_threshold, policy, file };
                proof {
                    assert(fresh@ =~= spec_refresh_file(old(self)@->Some_0, size_kb, count));
                }
                self.handle = Some(fresh);
                Ok(())
            },
            None => Err(LogError::NotInitialized),
        }
    }

    /// Decide one record against the installed sink: filter it against the
    /// whole current specification, account its bytes to the live file when
    /// it is written, rotating under `stamp` at the threshold, and mirror it
    /// to standard output when its level passes the duplication threshold.
    /// With no sink installed the record goes nowhere.
    pub fn emit(
        &mut self,
        module: &str,
        level: Level,
        record_bytes: u64,
        stamp: u64,
    ) -> (r: EmitOutcome)
        requires
            old(self).wf(),
            rank(level) >= 1,
            (match old(self)@ {
                Some(s) => s.file.live + record_bytes <= u64::MAX && spec_stamp_ok(s.file, stamp),
                None => true,
            }),
        ensures
            final(self).wf(),
            r.to_file == spec_file_emitted(old(self)@, module@, level),
            r.to_console == spec_console_emitted(old(self)@, module@, level),
            (match old(self)@ {
                None => final(self)@ is None && !r.rotated,
                Some(s) => final(self)@ matches Some(s2) && s2.level_spec == s.level_spec
                    && s2.dup_threshold == s.dup_threshold && s2.policy == s.policy && (if spec_enabled(
                    s.level_spec,
                    module@,
                    level,
                ) {
                    s2.file == spec_note(s.file, s.policy, record_bytes, stamp) && r.rotated
                        == spec_rotates(s.file, s.policy, record_bytes)
                } else {
                    s2.file == s.file && !r.rotated
                }),
            }),
    {
        match self.handle.take() {
            None => EmitOutcome { to_file: false, to_console: false, rotated: false },
            Some(mut sink) => {
                let r = if sink.level_spec.enabled(module, level) {
                    let rotated = sink.file.note_record(&sink.policy, record_bytes, stamp);
                    let to_console = level.le(sink.dup_threshold);
                    EmitOutcome { to_file: true, to_console, rotated }
                } else {
                    EmitOutcome { to_file: false, to_console: false, rotated: false }
                };
                self.handle = Some(sink);
                r
            },
        }
    }

    /// The default level of the installed specification.
    pub fn sink_default_level(&self) -> (r: Level)
        requires
            self@ is Some,
        ensures
            self@ matches Some(s) && r == s.level_spec.default_level,
    {
        match &self.handle {
            Some(sink) => sink.level_spec.default_level(),
            None => Level::Off,
        }
    }

    /// The console duplication threshold of the installed sink.
    pub fn sink_dup_threshold(&self) -> (r: Level)
        requires
            self@ is Some,
        ensures
            self@ matches Some(s) && r == s.dup_threshold,
    {
        match &self.handle {
            Some(sink) => sink.dup_threshold,
            None => Level::Off,
        }
    }

    /// The rotation policy of the installed sink.
    pub fn sink_policy(&self) -> (r: RotationPolicy)
        requires
            self@ is Some,
        ensures
            self@ matches Some(s) && r == s.policy,
    {
        match &self.handle {
            Some(sink) => sink.policy,
            None => RotationPolicy { max_size: 0, max_count: 0 },
        }
    }

    /// Bytes accumulated in the live file since the last rotation.
    pub fn sink_live_bytes(&self) -> (r: u64)
        requires
            self@ is Some,
        ensures
            self@ matches Some(s) && r as int == s.file.live,
    {
        match &self.handle {
            Some(sink) => sink.file.live_bytes(),
            None => 0,
        }
    }

    /// How many rotated archives the installed sink keeps on disk.
    pub fn sink_archive_count(&self) -> (r: usize)
        requires
            self@ is Some,
        ensures
            self@ matches Some(s) && r as int == s.file.archives.len(),
    {
        match &self.handle {
            Some(sink) => sink.file.archive_count(),
            None => 0,
        }
    }

    /// The rotation stamp of the archive at `i`, oldest first.
    pub fn sink_archive_at(&self, i: usize) -> (r: u64)
        requires
            self@ matches Some(s) && i < s.file.archives.len(),
        ensures
            self@ matches Some(s) && r == s.file.archives[i as int],
    {
        match &self.handle {
            Some(sink) => sink.file.archive_at(i),
            None => 0,
        }
    }
}

/// Law: the level swap is atomic with respect to the filter decision. After
/// a refresh to `resolved`, every record is decided against the freshly
/// built specification as one whole value — the new default level together
/// with the reapplied suppression rules — and the rotation policy and open
/// file state are exactly the ones from before: no record is ever decided
/// against a mix of old and new specification parts.
pub proof fn lemma_atomic_level_swap(
    pre: SinkModel,
    resolved: Level,
    module: Seq<char>,
    level: Level,
)
    ensures
        spec_refresh_level(pre, resolved).level_spec == spec_build(resolved),
        spec_file_emitted(Some(spec_refresh_level(pre, resolved)), module, level) == spec_enabled(
            spec_build(resolved),
            module,
            level,
        ),
        spec_file_emitted(Some(pre), module, level) == spec_enabled(pre.level_spec, module, level),
        spec_refresh_level(pre, resolved).policy == pre.policy,
        spec_refresh_level(pre, resolved).file == pre.file,
{
}

/// Law: the two refresh operations own disjoint halves of the sink and
/// never discard each other's most recent setting: applied in either order,
/// the level refresh alone decides the filter specification and duplication
/// threshold, the file refresh alone decides the rotation policy, and the
/// open file state survives both.
pub proof fn lemma_refreshes_commute(
    s: SinkModel,
    resolved: Level,
    size_kb: Option<u64>,
    count: Option<usize>,
)
    ensures
        spec_refresh_file(spec_refresh_level(s, resolved), size_kb, count) == spec_refresh_level(
            spec_refresh_file(s, size_kb, count),
            resolved,
        ),
        spec_refresh_file(spec_refresh_level(s, resolved), size_kb, count).level_spec
            == spec_build(resolved),
        spec_refresh_file(spec_refresh_level(s, resolved), size_kb, count).policy == spec_policy(
            size_kb,
            count,
        ),
        spec_refresh_file(spec_refresh_level(s, resolved), size_kb, count).file == s.file,
{
    assert(spec_refresh_file(spec_refresh_level(s, resolved), size_kb, count)
        =~= spec_refresh_level(spec_refresh_file(s, size_kb, count), resolved));
}

/// Law: refreshing the level is idempotent. Refreshing any number of times
/// with the same resolved level yields the identical sink each time, and
/// the filtering behavior it induces is exactly the one of the freshly
/// built specification — the module suppression rules are neither lost nor
/// duplicated across repeated refreshes.
pub proof fn lemma_refresh_level_idempotent(
    s: SinkModel,
    resolved: Level,
    module: Seq<char>,
    level: Level,
)
    ensures
        spec_refresh_level(spec_refresh_level(s, resolved), resolved) == spec_refresh_level(
            s,
            resolved,
        ),
        spec_file_emitted(Some(spec_refresh_level(s, resolved)), module, level) == spec_enabled(
            spec_build(resolved),
            module,
            level,
        ),
{
    assert(spec_refresh_level(spec_refresh_level(s, resolved), resolved) =~= spec_refresh_level(
        s,
        resolved,
    ));
}

} // verus!
