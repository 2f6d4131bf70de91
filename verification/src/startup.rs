//! Startup: loading the filter image, attaching it, and the phase machine.
//!
//! The kernel objects behind startup — the loaded image, the program entry
//! point, the cgroup directory — are opaque to this crate, so they are
//! modelled here by plain values holding exactly what the decisions read:
//! whether the image passes kernel verification, which program and map
//! names it carries, and whether the cgroup target can be opened and is
//! free for an exclusive attachment. The process that owns the real kernel
//! handles makes each call, converts its result, and drives the phase
//! machine with the outcome; the decisions themselves are verified here.
//!
//! Startup is one-shot and ordered: load must fully succeed and the program
//! be resolved before attach is attempted, seeding follows a successful
//! attach, and any failure on the way is fatal — the machine terminates and
//! no later outcome revives it.

use vstd::prelude::*;
use crate::blocklist::BlocklistTable;
use crate::channel::RingChannel;
use crate::codec::EbpfAtomicI64;

verus! {

/// A startup step that failed; each variant is fatal for the process.
#[derive(Copy, Clone, PartialEq, Eq, Structural, Debug)]
pub enum StartupError {
    /// The filter image was malformed or failed kernel verification.
    LoadError,
    /// The named program entry point is missing from the loaded image.
    ProgramNotFoundError,
    /// The cgroup target cannot be opened, or the attach mode conflicts
    /// with an existing attachment.
    AttachError,
    /// The named table or channel is missing from the loaded image.
    MapAccessError,
}

/// What the filter image holds, as far as startup decisions read it:
/// whether the kernel accepts it, and the names (as stable identifiers)
/// of the programs and maps compiled into it.
#[derive(Debug)]
pub struct ProgramImage {
    pub well_formed: bool,
    pub programs: Vec<u64>,
    pub maps: Vec<u64>,
}

/// A loaded image: its program and map name sets, now resolvable.
#[derive(Debug)]
pub struct ProgramHandle {
    pub programs: Vec<u64>,
    pub maps: Vec<u64>,
}

/// A program entry point resolved from a loaded image by name.
#[derive(Copy, Clone, PartialEq, Eq, Structural, Debug)]
pub struct FilterProgram {
    pub program_name: u64,
}

/// Whether an attachment shares the hook with other programs or claims
/// it exclusively.
#[derive(Copy, Clone, PartialEq, Eq, Structural, Debug)]
pub enum AttachMode {
    Single,
    Multi,
}

/// Which direction of the cgroup hook the program is bound to.
#[derive(Copy, Clone, PartialEq, Eq, Structural, Debug)]
pub enum AttachDirection {
    Ingress,
    Egress,
}

/// The cgroup target, as far as the attach decision reads it: whether its
/// path opens as a directory handle, and whether another program already
/// holds the hook.
#[derive(Copy, Clone, PartialEq, Eq, Structural, Debug)]
pub struct CgroupTarget {
    pub openable: bool,
    pub already_attached: bool,
}

/// A live attachment of a resolved program to a cgroup hook.
#[derive(Copy, Clone, PartialEq, Eq, Structural, Debug)]
pub struct AttachmentHandle {
    pub program_name: u64,
    pub direction: AttachDirection,
    pub mode: AttachMode,
}

/// Loading succeeds exactly on a well-formed image and yields its name sets.
pub open spec fn spec_load(image: ProgramImage) -> Result<ProgramHandle, StartupError> {
    if image.well_formed {
        Ok(ProgramHandle { programs: image.programs, maps: image.maps })
    } else {
        Err(StartupError::LoadError)
    }
}

/// Resolving succeeds exactly when the loaded image carries the name.
pub open spec fn spec_resolve_program(handle: ProgramHandle, name: u64) -> Result<
    FilterProgram,
    StartupError,
> {
    if handle.programs@.contains(name) {
        Ok(FilterProgram { program_name: name })
    } else {
        Err(StartupError::ProgramNotFoundError)
    }
}

/// Attaching succeeds exactly when the target opens and the mode does not
/// conflict: an exclusive attachment needs an unclaimed hook, a shared one
/// never conflicts.
pub open spec fn spec_attach(
    program: FilterProgram,
    target: CgroupTarget,
    direction: AttachDirection,
    mode: AttachMode,
) -> Result<AttachmentHandle, StartupError> {
    if target.openable && (mode is Multi || !target.already_attached) {
        Ok(AttachmentHandle { program_name: program.program_name, direction, mode })
    } else {
        Err(StartupError::AttachError)
    }
}

/// Whether `ids` holds `id`.
fn contains_id(ids: &Vec<u64>, id: u64) -> (r: bool)
    ensures
        r == ids@.contains(id),
{
    let mut i: usize = 0;
    while i < ids.len()
        invariant
            i <= ids@.len(),
            forall|j: int| 0 <= j < i ==> ids@[j] != id,
        decreases ids@.len() - i,
    {
        if ids[i] == id {
            return true;
        }
        i += 1;
    }
    false
}

/// Load the filter image. Fails with `LoadError` exactly when the image is
/// malformed or fails kernel verification.
pub fn load(image: ProgramImage) -> (r: Result<ProgramHandle, StartupError>)
    ensures
        r == spec_load(image),
{
    if image.well_formed {
        Ok(ProgramHandle { programs: image.programs, maps: image.maps })
    } else {
        Err(StartupError::LoadError)
    }
}

/// Resolve the program entry point by name from a loaded image. Fails with
/// `ProgramNotFoundError` exactly when the name is absent.
pub fn resolve_program(handle: &ProgramHandle, name: u64) -> (r: Result<
    FilterProgram,
    StartupError,
>)
    ensures
        r == spec_resolve_program(*handle, name),
{
    if contains_id(&handle.programs, name) {
        Ok(FilterProgram { program_name: name })
    } else {
        Err(StartupError::ProgramNotFoundError)
    }
}

/// Attach a resolved program to a cgroup hook. Fails with `AttachError`
/// exactly when the target cannot be opened or an exclusive mode meets an
/// already claimed hook.
pub fn attach(
    program: &FilterProgram,
    target: CgroupTarget,
    direction: AttachDirection,
    mode: AttachMode,
) -> (r: Result<AttachmentHandle, StartupError>)
    ensures
        r == spec_attach(*program, target, direction, mode),
{
    let conflict = match mode {
        AttachMode::Single => target.already_attached,
        AttachMode::Multi => false,
    };
    if target.openable && !conflict {
        Ok(AttachmentHandle { program_name: program.program_name, direction, mode })
    } else {
        Err(StartupError::AttachError)
    }
}

/// Resolve the blocklist table by name from a loaded image. Succeeds with
/// an empty table of the given capacity exactly when the image carries a
/// map of that name; fails with `MapAccessError` otherwise.
pub fn resolve_blocklist(handle: &ProgramHandle, map_name: u64, capacity: usize) -> (r: Result<
    BlocklistTable,
    StartupError,
>)
    ensures
        r is Ok <==> handle.maps@.contains(map_name),
        r matches Ok(t) ==> t@ == Map::<u32, EbpfAtomicI64>::empty() && t.spec_capacity()
            == capacity,
        r matches Err(e) ==> e == StartupError::MapAccessError,
{
    if contains_id(&handle.maps, map_name) {
        Ok(BlocklistTable::new(capacity))
    } else {
        Err(StartupError::MapAccessError)
    }
}

/// Resolve the verdict ring channel by name from a loaded image. Succeeds
/// with an empty channel of the given capacity exactly when the image
/// carries a map of that name; fails with `MapAccessError` otherwise.
pub fn resolve_channel(handle: &ProgramHandle, map_name: u64, capacity: usize) -> (r: Result<
    RingChannel,
    StartupError,
>)
    ensures
        r is Ok <==> handle.maps@.contains(map_name),
        r matches Ok(c) ==> c@ == Seq::<Seq<u8>>::empty() && c.spec_capacity() == capacity,
        r matches Err(e) ==> e == StartupError::MapAccessError,
{
    if contains_id(&handle.maps, map_name) {
        Ok(RingChannel::new(capacity))
    } else {
        Err(StartupError::MapAccessError)
    }
}

/// A well-formed image whose program set carries the requested name loads,
/// resolves that name, and attaches to an openable cgroup target whose
/// hook the chosen mode does not conflict with: the full startup sequence
/// succeeds.
pub proof fn lemma_load_resolve_attach(
    image: ProgramImage,
    name: u64,
    target: CgroupTarget,
    direction: AttachDirection,
    mode: AttachMode,
)
    requires
        image.well_formed,
        image.programs@.contains(name),
        target.openable,
        mode is Multi || !target.already_attached,
    ensures
        spec_load(image) is Ok,
        spec_resolve_program(spec_load(image)->Ok_0, name) is Ok,
        spec_attach(
            spec_resolve_program(spec_load(image)->Ok_0, name)->Ok_0,
            target,
            direction,
            mode,
        ) is Ok,
{
}

/// Where the process stands: the phase in progress, or `Terminated` after
/// a fatal failure.
#[derive(Copy, Clone, PartialEq, Eq, Structural, Debug)]
pub enum Phase {
    Start,
    Loading,
    Attaching,
    Seeding,
    Draining,
    Terminated,
}

/// How the phase in progress came out. The loading phase can fail with
/// `LoadError` or `ProgramNotFoundError`, attaching with `AttachError`,
/// seeding with `MapAccessError`; a drain pass always succeeds.
#[derive(Copy, Clone, PartialEq, Eq, Structural, Debug)]
pub enum PhaseOutcome {
    Succeeded,
    Failed(StartupError),
}

/// The phase after an outcome: success walks the pipeline forward and
/// keeps a draining process draining; any failure terminates; and a
/// terminated process stays terminated whatever arrives. `Start` and
/// `Draining` have no failure exit, so a failure there leaves the phase
/// as it was; the controller never takes that step.
pub open spec fn spec_step(phase: Phase, outcome: PhaseOutcome) -> Phase {
    match outcome {
        PhaseOutcome::Succeeded => match phase {
            Phase::Start => Phase::Loading,
            Phase::Loading => Phase::Attaching,
            Phase::Attaching => Phase::Seeding,
            Phase::Seeding => Phase::Draining,
            Phase::Draining => Phase::Draining,
            Phase::Terminated => Phase::Terminated,
        },
        PhaseOutcome::Failed(_) => match phase {
            Phase::Start => Phase::Start,
            Phase::Draining => Phase::Draining,
            Phase::Terminated => Phase::Terminated,
            _ => Phase::Terminated,
        },
    }
}

/// The phase after a whole sequence of outcomes, oldest first.
pub open spec fn spec_run(phase: Phase, outcomes: Seq<PhaseOutcome>) -> Phase
    decreases outcomes.len(),
{
    if outcomes.len() == 0 {
        phase
    } else {
        spec_run(spec_step(phase, outcomes[0]), outcomes.drop_first())
    }
}

/// Termination is absorbing: once a startup failure has terminated the
/// process, no sequence of later outcomes reaches any other phase — in
/// particular, a process that failed to attach never seeds the table and
/// never drains the channel.
pub proof fn lemma_terminated_absorbing(outcomes: Seq<PhaseOutcome>)
    ensures
        spec_run(Phase::Terminated, outcomes) is Terminated,
    decreases outcomes.len(),
{
    if outcomes.len() > 0 {
        lemma_terminated_absorbing(outcomes.drop_first());
    }
}

/// A failure while attaching terminates at once, and stays terminated
/// under every sequence of later outcomes.
pub proof fn lemma_attach_failure_halts(e: StartupError, outcomes: Seq<PhaseOutcome>)
    ensures
        spec_step(Phase::Attaching, PhaseOutcome::Failed(e)) is Terminated,
        spec_run(
            spec_step(Phase::Attaching, PhaseOutcome::Failed(e)),
            outcomes,
        ) is Terminated,
{
    lemma_terminated_absorbing(outcomes);
}

/// The phase machine the process drives: it reports the outcome of each
/// phase and reads off where to go next. A fatal outcome records which
/// error terminated startup.
pub struct Controller {
    pub phase: Phase,
    pub failure: Option<StartupError>,
}

impl Controller {
    /// A failure is recorded exactly when the machine has terminated.
    pub open spec fn wf(&self) -> bool {
        (self.failure is Some) <==> (self.phase is Terminated)
    }

    /// A fresh machine: nothing attempted, nothing failed.
    pub fn new() -> (c: Controller)
        ensures
            c.phase is Start,
            c.failure is None,
            c.wf(),
    {
        Controller { phase: Phase::Start, failure: None }
    }

    /// Advance by one outcome. `Start` only ever begins loading and
    /// `Draining` has no failure exit, so those phases only take success.
    pub fn step(&mut self, outcome: PhaseOutcome)
        requires
            old(self).wf(),
            old(self).phase is Start ==> outcome is Succeeded,
            old(self).phase is Draining ==> outcome is Succeeded,
        ensures
            final(self).wf(),
            final(self).phase == spec_step(old(self).phase, outcome),
            old(self).phase is Terminated ==> final(self).failure == old(self).failure,
            !(old(self).phase is Terminated) ==> (outcome matches PhaseOutcome::Failed(e)
                ==> final(self).failure == Some(e)),
            !(old(self).phase is Terminated) && outcome is Succeeded ==> final(self).failure
                is None,
    {
        match self.phase {
            Phase::Terminated => {},
            _ => {
                match outcome {
                    PhaseOutcome::Succeeded => {
                        self.phase = match self.phase {
                            Phase::Start => Phase::Loading,
                            Phase::Loading => Phase::Attaching,
                            Phase::Attaching => Phase::Seeding,
                            Phase::Seeding => Phase::Draining,
                            Phase::Draining => Phase::Draining,
                            Phase::Terminated => Phase::Terminated,
                        };
                    },
                    PhaseOutcome::Failed(e) => {
                        self.phase = Phase::Terminated;
                        self.failure = Some(e);
                    },
                }
            },
        }
    }
}

} // verus!
