//! A probing session: the decisions that turn a compiler, a flag string and
//! a target into a checked toolchain description. Whoever drives a session
//! runs each action it asks for and hands back what happened.

use vstd::prelude::*;

use crate::naming::{derive_naming, naming_of, suffix_of, RustcTargetInfo, TargetInfoView, PROBE_CRATE};
use crate::target::TargetNames;
use crate::text::{lines_of, split_on, split_text, starts_with, text_lines};
use crate::version::{
    lemma_plain_version_line, parse_version, version_of, RustcChannel, RustcVersion, VersionView,
};

verus! {

/// The flags used when no others are given: optimise, with debug info.
pub const DEFAULT_FLAGS: &'static str = "-O -g";

/// One way of asking a compiler to target a triple.
#[derive(PartialEq, Eq, Structural, Clone, Copy, Debug)]
pub enum Attempt {
    /// The compiler's own name begins with the triple: no target argument.
    SelfNamed,
    /// The triple as it was written.
    Exact,
    /// The triple's canonical form.
    Canonical,
    /// The canonical form with an unknown vendor.
    Normalized,
}

/// Where a session stands.
#[derive(PartialEq, Eq, Structural, Clone, Copy, Debug)]
pub enum Phase {
    /// Waiting for the file names predicted under an attempt.
    Resolving(Attempt),
    /// Waiting for the version line.
    QueryingVersion,
    /// Waiting for a full binary to be built.
    BuildingBinary,
    /// Waiting for the built binary to run.
    RunningBinary,
    /// Waiting for a freestanding library to be built.
    BuildingLibrary,
    /// Nothing more to do.
    Finished,
}

/// The kind of artifact a compilation produces.
#[derive(PartialEq, Eq, Structural, Clone, Copy, Debug)]
pub enum CrateKind {
    Bin,
    Rlib,
}

/// Why a session failed.
pub enum ProbeError {
    /// A process could not be started; the driver holds the cause.
    LaunchFailed,
    /// The compiler did not predict a name for every artifact kind.
    FileNamesUnknown { compiler: String },
    /// No way of naming the target was accepted.
    TargetUnsupported { target: String, compiler: String },
    /// The version line was missing or could not be read.
    VersionUnknown { compiler: String },
    /// A binary the compiler built did not run successfully.
    CannotExecute { compiler: String },
    /// Not even a freestanding library could be built.
    CannotCompile { compiler: String },
}

/// A checked toolchain description.
pub struct RustcTestsResult {
    pub rustc: String,
    pub rustflags: Vec<String>,
    pub no_std: bool,
    pub version: RustcVersion,
    pub target_info: RustcTargetInfo,
}

/// What a session asks its driver to do next.
pub enum ProbeAction {
    /// Run the compiler with `args` on the probe source, asking for the file
    /// names it would produce for each artifact kind, with `--target` and
    /// `target` where it is given.
    PrintFileNames { args: Vec<String>, target: Option<String> },
    /// Run the compiler with `--version`.
    QueryVersion,
    /// Write the probe source (a freestanding one where `freestanding`) and
    /// compile it with `args` as `kind`, to `output` in the scratch directory.
    Compile { args: Vec<String>, kind: CrateKind, output: String, freestanding: bool },
    /// Run the program at `output` in the scratch directory.
    Execute { output: String },
    /// The session succeeded.
    Finish(RustcTestsResult),
    /// The session failed.
    Fail(ProbeError),
}

/// What came of the last action.
pub enum ProbeEvent {
    /// The process ran and exited, successfully or not, printing `stdout`.
    Exited { success: bool, stdout: String },
    /// The process could not be started.
    LaunchFailed,
}

/// A probing session in progress.
pub struct ProbeSession {
    pub compiler: String,
    pub flags: String,
    pub target: TargetNames,
    pub cross_compiling: bool,
    pub phase: Phase,
    pub target_info: Option<RustcTargetInfo>,
    pub version: Option<RustcVersion>,
}

/// The target argument an attempt passes, if any.
pub open spec fn attempt_target(names: TargetNames, a: Attempt) -> Option<Seq<char>> {
    match a {
        Attempt::SelfNamed => None,
        Attempt::Exact => Some(names.exact@),
        Attempt::Canonical => Some(names.canonical@),
        Attempt::Normalized => Some(names.normalized@),
    }
}

/// The attempt made when `a` is refused, if any is left.
pub open spec fn next_attempt(a: Attempt) -> Option<Attempt> {
    match a {
        Attempt::Exact => Some(Attempt::Canonical),
        Attempt::Canonical => Some(Attempt::Normalized),
        _ => None,
    }
}

/// The attempt a session starts with.
pub open spec fn first_attempt(file_name: Seq<char>, names: TargetNames) -> Attempt {
    if names.exact@.is_prefix_of(file_name) {
        Attempt::SelfNamed
    } else {
        Attempt::Exact
    }
}

pub open spec fn opt_view(o: Option<String>) -> Option<Seq<char>> {
    match o {
        Some(s) => Some(s@),
        None => None,
    }
}

pub open spec fn args_view(v: Vec<String>) -> Seq<Seq<char>> {
    v@.map_values(|t: String| t@)
}

/// The binary the probe crate becomes.
pub open spec fn binary_output(ti: TargetInfoView) -> Seq<char> {
    PROBE_CRATE@ + ti.exe_suffix
}

/// The rlib the probe crate becomes.
pub open spec fn library_output(ti: TargetInfoView) -> Seq<char> {
    ti.rlib_prefix + PROBE_CRATE@ + ti.rlib_suffix
}

/// `r` asks for predicted file names with `flags` and `target`.
pub open spec fn asks_file_names(r: ProbeAction, flags: Seq<char>, target: Option<Seq<char>>) -> bool {
    match r {
        ProbeAction::PrintFileNames { args, target: t } => args_view(args) == split_on(flags, ' ')
            && opt_view(t) == target,
        _ => false,
    }
}

/// `r` asks for a compilation as described.
pub open spec fn compiles(
    r: ProbeAction,
    flags: Seq<char>,
    kind: CrateKind,
    output: Seq<char>,
    freestanding: bool,
) -> bool {
    match r {
        ProbeAction::Compile { args, kind: k, output: o, freestanding: f } => args_view(args)
            == split_on(flags, ' ') && k == kind && o@ == output && f == freestanding,
        _ => false,
    }
}

/// `r` reports the toolchain that `s` has established.
pub open spec fn finishes(r: ProbeAction, s: ProbeSession, no_std: bool) -> bool {
    match r {
        ProbeAction::Finish(res) => {
            &&& res.rustc@ == s.compiler@
            &&& args_view(res.rustflags) == split_on(s.flags@, ' ')
            &&& res.no_std == no_std
            &&& s.version matches Some(v) && res.version@ == v@
            &&& s.target_info matches Some(ti) && res.target_info@ == ti@
        },
        _ => false,
    }
}

/// `t` is `s` moved on to `phase`, its findings kept.
pub open spec fn moves_to(s: ProbeSession, t: ProbeSession, phase: Phase) -> bool {
    &&& t.phase == phase
    &&& t.flags == s.flags
    &&& t.target_info == s.target_info
    &&& t.version == s.version
}

/// What a session does with the file names predicted under attempt `a`.
pub open spec fn after_file_names(
    s: ProbeSession,
    a: Attempt,
    success: bool,
    out: Seq<char>,
    t: ProbeSession,
    r: ProbeAction,
) -> bool {
    if success {
        let lines = lines_of(out);
        if lines.len() < 6 {
            t.phase == Phase::Finished && t.flags == s.flags && r == ProbeAction::Fail(
                ProbeError::FileNamesUnknown { compiler: s.compiler },
            )
        } else {
            let used = attempt_target(s.target, a);
            &&& t.phase == Phase::QueryingVersion
            &&& t.version == s.version
            &&& t.target_info matches Some(ti) && ti@ == naming_of(
                lines,
                match used {
                    Some(u) => u,
                    None => s.target.exact@,
                },
            )
            &&& t.flags@ == match used {
                Some(u) => s.flags@ + " --target "@ + u,
                None => s.flags@,
            }
            &&& r is QueryVersion
        }
    } else {
        match next_attempt(a) {
            Some(b) => moves_to(s, t, Phase::Resolving(b)) && asks_file_names(
                r,
                s.flags@,
                attempt_target(s.target, b),
            ),
            None => t.phase == Phase::Finished && t.flags == s.flags && r == ProbeAction::Fail(
                ProbeError::TargetUnsupported { target: s.target.exact, compiler: s.compiler },
            ),
        }
    }
}

/// What a session does with the output of `--version`.
pub open spec fn after_version(s: ProbeSession, out: Seq<char>, t: ProbeSession, r: ProbeAction) -> bool {
    let lines = lines_of(out);
    if lines.len() == 0 || version_of(lines[0]) is None {
        t.phase == Phase::Finished && t.flags == s.flags && r == ProbeAction::Fail(
            ProbeError::VersionUnknown { compiler: s.compiler },
        )
    } else {
        &&& t.phase == Phase::BuildingBinary
        &&& t.flags == s.flags
        &&& t.target_info == s.target_info
        &&& t.version matches Some(v) && version_of(lines[0]) == Some(v@)
        &&& compiles(r, s.flags@, CrateKind::Bin, binary_output(s.target_info->0@), false)
    }
}

/// One step of a session: from `s`, on `ev`, to `t`, asking for `r`.
pub open spec fn step_spec(s: ProbeSession, ev: ProbeEvent, t: ProbeSession, r: ProbeAction) -> bool {
    &&& t.compiler == s.compiler
    &&& t.target == s.target
    &&& t.cross_compiling == s.cross_compiling
    &&& match ev {
        ProbeEvent::LaunchFailed => t.phase == Phase::Finished && t.flags == s.flags && r == ProbeAction::Fail(
            ProbeError::LaunchFailed,
        ),
        ProbeEvent::Exited { success, stdout } => match s.phase {
            Phase::Resolving(a) => after_file_names(s, a, success, stdout@, t, r),
            Phase::QueryingVersion => after_version(s, stdout@, t, r),
            Phase::BuildingBinary => if !success {
                moves_to(s, t, Phase::BuildingLibrary) && compiles(
                    r,
                    s.flags@,
                    CrateKind::Rlib,
                    library_output(s.target_info->0@),
                    true,
                )
            } else if s.cross_compiling {
                t.phase == Phase::Finished && t.flags == s.flags && finishes(r, s, false)
            } else {
                moves_to(s, t, Phase::RunningBinary) && (r matches ProbeAction::Execute { output }
                    && output@ == binary_output(s.target_info->0@))
            },
            Phase::RunningBinary => t.phase == Phase::Finished && t.flags == s.flags && if success {
                finishes(r, s, false)
            } else {
                r == ProbeAction::Fail(ProbeError::CannotExecute { compiler: s.compiler })
            },
            Phase::BuildingLibrary => t.phase == Phase::Finished && t.flags == s.flags && if success {
                finishes(r, s, true)
            } else {
                r == ProbeAction::Fail(ProbeError::CannotCompile { compiler: s.compiler })
            },
            Phase::Finished => false,
        },
    }
}

impl ProbeSession {
    /// Each phase has the findings it builds on.
    pub open spec fn wf(&self) -> bool {
        match self.phase {
            Phase::Resolving(_) => true,
            Phase::QueryingVersion => self.target_info is Some,
            Phase::Finished => true,
            _ => self.target_info is Some && self.version is Some,
        }
    }

    /// Starts probing `compiler`, whose file name is `file_name`, for
    /// `target`, with the flags in `flags`, separated by spaces.
    pub fn start(
        compiler: String,
        file_name: &str,
        flags: String,
        target: TargetNames,
        cross_compiling: bool,
    ) -> (r: (ProbeSession, ProbeAction))
        ensures
            r.0.wf(),
            r.0.compiler == compiler,
            r.0.flags == flags,
            r.0.target == target,
            r.0.cross_compiling == cross_compiling,
            r.0.target_info is None,
            r.0.version is None,
            r.0.phase == Phase::Resolving(first_attempt(file_name@, target)),
            asks_file_names(
                r.1,
                flags@,
                attempt_target(target, first_attempt(file_name@, target)),
            ),
    {
        let attempt = if starts_with(file_name, target.exact.as_str()) {
            Attempt::SelfNamed
        } else {
            Attempt::Exact
        };
        let args = split_text(flags.as_str(), ' ');
        let arg = match attempt {
            Attempt::SelfNamed => None,
            _ => Some(target.exact.clone()),
        };
        let session = ProbeSession {
            compiler,
            flags,
            target,
            cross_compiling,
            phase: Phase::Resolving(attempt),
            target_info: None,
            version: None,
        };
        (session, ProbeAction::PrintFileNames { args, target: arg })
    }

    /// The target argument of attempt `a`.
    fn target_for(&self, a: Attempt) -> (r: Option<String>)
        ensures
            opt_view(r) == attempt_target(self.target, a),
    {
        match a {
            Attempt::SelfNamed => None,
            Attempt::Exact => Some(self.target.exact.clone()),
            Attempt::Canonical => Some(self.target.canonical.clone()),
            Attempt::Normalized => Some(self.target.normalized.clone()),
        }
    }

    /// The toolchain found, reported at the end of a session.
    fn finish(&mut self, no_std: bool) -> (r: ProbeAction)
        requires
            old(self).target_info is Some,
            old(self).version is Some,
        ensures
            finishes(r, *old(self), no_std),
            final(self).phase == Phase::Finished,
            final(self).flags == old(self).flags,
            final(self).compiler == old(self).compiler,
            final(self).target == old(self).target,
            final(self).cross_compiling == old(self).cross_compiling,
    {
        let version = self.version.take().unwrap();
        let target_info = self.target_info.take().unwrap();
        self.phase = Phase::Finished;
        ProbeAction::Finish(
            RustcTestsResult {
                rustc: self.compiler.clone(),
                rustflags: split_text(self.flags.as_str(), ' '),
                no_std,
                version,
                target_info,
            },
        )
    }

    /// Ends the session with `e`.
    fn fail(&mut self, e: ProbeError) -> (r: ProbeAction)
        ensures
            r == ProbeAction::Fail(e),
            final(self).phase == Phase::Finished,
            final(self).flags == old(self).flags,
            final(self).compiler == old(self).compiler,
            final(self).target == old(self).target,
            final(self).cross_compiling == old(self).cross_compiling,
    {
        self.phase = Phase::Finished;
        ProbeAction::Fail(e)
    }

    /// The name of the binary the probe crate becomes.
    fn binary_name(ti: &RustcTargetInfo) -> (r: String)
        ensures
            r@ == binary_output(ti@),
    {
        let mut name = PROBE_CRATE.to_owned();
        name.append(ti.exe_suffix.as_str());
        name
    }

    /// The name of the rlib the probe crate becomes.
    fn library_name(ti: &RustcTargetInfo) -> (r: String)
        ensures
            r@ == library_output(ti@),
    {
        let mut name = ti.rlib_prefix.clone();
        name.append(PROBE_CRATE);
        name.append(ti.rlib_suffix.as_str());
        name
    }

    /// Takes in the file names predicted under attempt `a`.
    fn take_file_names(&mut self, a: Attempt, success: bool, stdout: String) -> (r: ProbeAction)
        requires
            old(self).phase == Phase::Resolving(a),
        ensures
            final(self).wf(),
            final(self).compiler == old(self).compiler,
            final(self).target == old(self).target,
            final(self).cross_compiling == old(self).cross_compiling,
            after_file_names(*old(self), a, success, stdout@, *final(self), r),
    {
        if !success {
            let next = match a {
                Attempt::Exact => Attempt::Canonical,
                Attempt::Canonical => Attempt::Normalized,
                _ => {
                    let e = ProbeError::TargetUnsupported {
                        target: self.target.exact.clone(),
                        compiler: self.compiler.clone(),
                    };
                    return self.fail(e);
                },
            };
            self.phase = Phase::Resolving(next);
            let target = self.target_for(next);
            return ProbeAction::PrintFileNames { args: split_text(self.flags.as_str(), ' '), target };
        }
        let lines = text_lines(stdout.as_str());
        let used = self.target_for(a);
        let name = match &used {
            Some(u) => u.clone(),
            None => self.target.exact.clone(),
        };
        match derive_naming(&lines, name.as_str()) {
            None => {
                let e = ProbeError::FileNamesUnknown { compiler: self.compiler.clone() };
                self.fail(e)
            },
            Some(info) => {
                if let Some(u) = &used {
                    self.flags.append(" --target ");
                    self.flags.append(u.as_str());
                }
                self.target_info = Some(info);
                self.phase = Phase::QueryingVersion;
                ProbeAction::QueryVersion
            },
        }
    }

    /// Takes in the output of `--version`.
    fn take_version(&mut self, stdout: String) -> (r: ProbeAction)
        requires
            old(self).phase == Phase::QueryingVersion,
            old(self).wf(),
        ensures
            final(self).wf(),
            final(self).compiler == old(self).compiler,
            final(self).target == old(self).target,
            final(self).cross_compiling == old(self).cross_compiling,
            after_version(*old(self), stdout@, *final(self), r),
    {
        let lines = text_lines(stdout.as_str());
        let ghost lv = lines@.map_values(|t: String| t@);
        if lines.len() == 0 {
            let e = ProbeError::VersionUnknown { compiler: self.compiler.clone() };
            return self.fail(e);
        }
        assert(lv[0] == lines@[0]@);
        match parse_version(lines[0].as_str()) {
            None => {
                let e = ProbeError::VersionUnknown { compiler: self.compiler.clone() };
                self.fail(e)
            },
            Some(v) => {
                self.version = Some(v);
                self.phase = Phase::BuildingBinary;
                let output = match &self.target_info {
                    Some(ti) => ProbeSession::binary_name(ti),
                    None => String::new(),
                };
                ProbeAction::Compile {
                    args: split_text(self.flags.as_str(), ' '),
                    kind: CrateKind::Bin,
                    output,
                    freestanding: false,
                }
            },
        }
    }

    /// Moves the session on by what came of the last action.
    pub fn step(&mut self, ev: ProbeEvent) -> (r: ProbeAction)
        requires
            old(self).wf(),
            !(old(self).phase is Finished),
        ensures
            final(self).wf(),
            step_spec(*old(self), ev, *final(self), r),
    {
        let (success, stdout) = match ev {
            ProbeEvent::LaunchFailed => {
                return self.fail(ProbeError::LaunchFailed);
            },
            ProbeEvent::Exited { success, stdout } => (success, stdout),
        };
        match self.phase {
            Phase::Resolving(a) => self.take_file_names(a, success, stdout),
            Phase::QueryingVersion => self.take_version(stdout),
            Phase::BuildingBinary => {
                if !success {
                    self.phase = Phase::BuildingLibrary;
                    let output = match &self.target_info {
                        Some(ti) => ProbeSession::library_name(ti),
                        None => String::new(),
                    };
                    ProbeAction::Compile {
                        args: split_text(self.flags.as_str(), ' '),
                        kind: CrateKind::Rlib,
                        output,
                        freestanding: true,
                    }
                } else if self.cross_compiling {
                    self.finish(false)
                } else {
                    self.phase = Phase::RunningBinary;
                    let output = match &self.target_info {
                        Some(ti) => ProbeSession::binary_name(ti),
                        None => String::new(),
                    };
                    ProbeAction::Execute { output }
                }
            },
            Phase::RunningBinary => {
                if success {
                    self.finish(false)
                } else {
                    let e = ProbeError::CannotExecute { compiler: self.compiler.clone() };
                    self.fail(e)
                }
            },
            Phase::BuildingLibrary => {
                if success {
                    self.finish(true)
                } else {
                    let e = ProbeError::CannotCompile { compiler: self.compiler.clone() };
                    self.fail(e)
                }
            },
            Phase::Finished => unreached(),
        }
    }
}

/// Once the compiler accepts a way of naming the target, resolution is over:
/// no later way is tried.
pub proof fn lemma_accepted_attempt_is_last(
    s: ProbeSession,
    ev: ProbeEvent,
    t: ProbeSession,
    r: ProbeAction,
)
    requires
        s.phase is Resolving,
        ev matches ProbeEvent::Exited { success, .. } && success,
        step_spec(s, ev, t, r),
    ensures
        !(t.phase is Resolving),
        !(r is PrintFileNames),
{
}

/// A way of naming the target is tried only after the one before it in the
/// fixed order was refused; nothing follows the self-named invocation.
pub proof fn lemma_attempts_follow_refusals(
    s: ProbeSession,
    ev: ProbeEvent,
    t: ProbeSession,
    r: ProbeAction,
)
    requires
        step_spec(s, ev, t, r),
        r is PrintFileNames,
    ensures
        ev matches ProbeEvent::Exited { success, .. } && !success,
        s.phase matches Phase::Resolving(a) && t.phase matches Phase::Resolving(b) && next_attempt(
            a,
        ) == Some(b),
        s.phase != Phase::Resolving(Attempt::SelfNamed),
{
}

/// A cross-compiling session never runs what it builds.
pub proof fn lemma_cross_never_executes(
    s: ProbeSession,
    ev: ProbeEvent,
    t: ProbeSession,
    r: ProbeAction,
)
    requires
        s.cross_compiling,
        step_spec(s, ev, t, r),
    ensures
        !(r is Execute),
        t.cross_compiling,
{
}

/// A compiler that fails to build a binary but builds a freestanding
/// library gives a toolchain marked `no_std`, and nothing is run.
pub proof fn lemma_freestanding_fallback(
    s: ProbeSession,
    ev1: ProbeEvent,
    t1: ProbeSession,
    r1: ProbeAction,
    ev2: ProbeEvent,
    t2: ProbeSession,
    r2: ProbeAction,
)
    requires
        s.phase == Phase::BuildingBinary,
        ev1 matches ProbeEvent::Exited { success, .. } && !success,
        step_spec(s, ev1, t1, r1),
        ev2 matches ProbeEvent::Exited { success, .. } && success,
        step_spec(t1, ev2, t2, r2),
    ensures
        r1 matches ProbeAction::Compile { kind, freestanding, .. } && kind == CrateKind::Rlib
            && freestanding,
        r2 matches ProbeAction::Finish(res) && res.no_std,
        t2.phase == Phase::Finished,
{
}

/// A native session with a working compiler: it predicts a name for every
/// artifact kind, reports a readable version, builds the probe binary, and
/// that binary runs. The session then asks to run the binary and yields a
/// toolchain that is not `no_std`, whose version is what the version line
/// says and whose executable suffix is that of the first predicted name.
/// For the line `rustc 1.70.0` that is stable release 1.70.0 of `rustc`.
pub proof fn lemma_working_native_session(
    s0: ProbeSession,
    names_out: String,
    version_out: String,
    ev3: ProbeEvent,
    ev4: ProbeEvent,
    s1: ProbeSession,
    r1: ProbeAction,
    s2: ProbeSession,
    r2: ProbeAction,
    s3: ProbeSession,
    r3: ProbeAction,
    s4: ProbeSession,
    r4: ProbeAction,
)
    requires
        s0.phase is Resolving,
        !s0.cross_compiling,
        lines_of(names_out@).len() >= 6,
        lines_of(version_out@).len() > 0,
        version_of(lines_of(version_out@)[0]) is Some,
        step_spec(s0, ProbeEvent::Exited { success: true, stdout: names_out }, s1, r1),
        step_spec(s1, ProbeEvent::Exited { success: true, stdout: version_out }, s2, r2),
        ev3 matches ProbeEvent::Exited { success, .. } && success,
        step_spec(s2, ev3, s3, r3),
        ev4 matches ProbeEvent::Exited { success, .. } && success,
        step_spec(s3, ev4, s4, r4),
    ensures
        r1 is QueryVersion,
        r2 is Compile,
        r3 is Execute,
        r4 matches ProbeAction::Finish(res) && !res.no_std && Some(res.version@) == version_of(
            lines_of(version_out@)[0],
        ) && res.target_info.exe_suffix@ == suffix_of(lines_of(names_out@)[0]),
        s4.phase == Phase::Finished,
        lines_of(version_out@)[0] == "rustc 1.70.0"@ ==> (r4 matches ProbeAction::Finish(res)
            && res.version@ == (VersionView {
            prgname: "rustc"@,
            major: 1,
            minor: 70,
            patch: 0,
            channel: RustcChannel::Stable,
        })),
{
    lemma_plain_version_line();
}

} // verus!
