//! The watcher: one puller per repository, which fetches the latest release,
//! compares it with the stored one, and retries a failed attempt a bounded
//! number of times.
//!
//! A puller performs nothing itself.  It is told what happened and answers
//! with the next thing to do; whoever drives it talks to the network, to the
//! store and to the alert queue.

use crate::config::{Repo, RepoView, RETRY};
use crate::db::{
    key_flag, key_in_db_status, KeyFlag, Release, ReleaseDetail, ReleaseDetailView, ReleaseView,
    StoreError,
};
use crate::server::limiter::Limiter;
use crate::shutdown::Shutdown;
use vstd::prelude::*;

verus! {

/// Seconds after which a fetch is given up.
pub const FETCH_TIMEOUT_SECS: u64 = 8;

/// The retry count every puller starts a cycle with.
pub const FIRST_ATTEMPT: u8 = 1;

/// How many pullers may be at work at a time.
pub const WATCH_PERMITS: usize = 8;

/// Why a fetch attempt brought no release detail.  Both are handled alike.
#[derive(Clone, Copy, Debug, PartialEq, Eq, Structural)]
pub enum FetchError {
    /// The request timed out or the connection failed.
    Transport,
    /// The response was not a release detail.
    Parse,
}

/// Mathematical value of a [`Puller`].
pub struct PullerView {
    pub retry_interval: u64,
    pub repo: RepoView,
    pub retry: u8,
}

/// The polling state of one repository.
#[derive(Debug)]
pub struct Puller {
    /// Seconds to wait between a failed attempt and the next one.
    pub retry_interval: u64,
    pub repo: Repo,
    /// Counts the attempts of the current cycle, starting at one.
    pub retry: u8,
}

impl View for Puller {
    type V = PullerView;

    open spec fn view(&self) -> PullerView {
        PullerView { retry_interval: self.retry_interval, repo: self.repo@, retry: self.retry }
    }
}

impl Clone for Puller {
    fn clone(&self) -> (copy: Self)
        ensures
            copy == *self,
    {
        Puller { retry_interval: self.retry_interval, repo: self.repo.clone(), retry: self.retry }
    }
}

impl Puller {
    /// The polling state of `repo`, with this many seconds between a failed
    /// attempt and the next one, and with its attempts counted from `retry`.
    pub fn new(retry_interval: u64, repo: Repo, retry: u8) -> (puller: Puller)
        ensures
            puller.retry_interval == retry_interval,
            puller.repo == repo,
            puller.retry == retry,
    {
        Puller { retry_interval, repo, retry }
    }

    /// Counts one more attempt.
    fn update_retry(&mut self)
        requires
            old(self).retry < u8::MAX,
        ensures
            final(self).retry == old(self).retry + 1,
            final(self).retry_interval == old(self).retry_interval,
            final(self).repo == old(self).repo,
    {
        self.retry = self.retry + 1;
    }
}

/// The release that a fetched detail stands for, for a given repository.
pub open spec fn release_of(repo: RepoView, detail: ReleaseDetailView) -> ReleaseView {
    ReleaseView { url: repo.url, name: repo.name, detail }
}

/// Where one puller stands within a cycle.
#[derive(Debug)]
pub enum Phase {
    /// Nothing was attempted yet.
    Idle,
    /// A fetch is under way.
    Fetching,
    /// The release was fetched; the store is asked whether it knows the
    /// repository.
    Probing(Release),
    /// The store knows the repository; it is asked for the stored release.
    Loading(Release),
    /// The release differs from the stored one and is on its way to the alert
    /// queue.
    Emitting(Release),
    /// The release is being written to the store.
    Persisting(Release),
    /// An attempt failed; the puller sleeps before the next one.
    Waiting,
    /// The cycle ended well for this repository.
    Succeeded,
    /// Every attempt failed; the repository is left alone until the next
    /// cycle.
    Exhausted,
}

/// Mathematical value of a [`Phase`].
pub enum PhaseView {
    Idle,
    Fetching,
    Probing(ReleaseView),
    Loading(ReleaseView),
    Emitting(ReleaseView),
    Persisting(ReleaseView),
    Waiting,
    Succeeded,
    Exhausted,
}

impl View for Phase {
    type V = PhaseView;

    open spec fn view(&self) -> PhaseView {
        match self {
            Phase::Idle => PhaseView::Idle,
            Phase::Fetching => PhaseView::Fetching,
            Phase::Probing(r) => PhaseView::Probing(r@),
            Phase::Loading(r) => PhaseView::Loading(r@),
            Phase::Emitting(r) => PhaseView::Emitting(r@),
            Phase::Persisting(r) => PhaseView::Persisting(r@),
            Phase::Waiting => PhaseView::Waiting,
            Phase::Succeeded => PhaseView::Succeeded,
            Phase::Exhausted => PhaseView::Exhausted,
        }
    }
}

/// What a puller is told.
#[derive(Debug)]
pub enum PullEvent {
    /// The cycle starts.
    Begin,
    /// The fetch ended.
    Fetched(Result<ReleaseDetail, FetchError>),
    /// The store answered whether it holds the repository.
    Probed(Result<bool, StoreError>),
    /// The store answered with the stored release.
    Loaded(Result<Release, StoreError>),
    /// The alert queue took the release (`true`), or is closed (`false`).
    Emitted(bool),
    /// The store wrote the release.
    Persisted(Result<(), StoreError>),
    /// The sleep between two attempts is over.
    Woke,
}

/// Mathematical value of a [`PullEvent`].
pub enum PullEventView {
    Begin,
    Fetched(Result<ReleaseDetailView, FetchError>),
    Probed(Result<bool, StoreError>),
    Loaded(Result<ReleaseView, StoreError>),
    Emitted(bool),
    Persisted(Result<(), StoreError>),
    Woke,
}

impl View for PullEvent {
    type V = PullEventView;

    open spec fn view(&self) -> PullEventView {
        match self {
            PullEvent::Begin => PullEventView::Begin,
            PullEvent::Fetched(Ok(d)) => PullEventView::Fetched(Ok(d@)),
            PullEvent::Fetched(Err(e)) => PullEventView::Fetched(Err(*e)),
            PullEvent::Probed(p) => PullEventView::Probed(*p),
            PullEvent::Loaded(Ok(r)) => PullEventView::Loaded(Ok(r@)),
            PullEvent::Loaded(Err(e)) => PullEventView::Loaded(Err(*e)),
            PullEvent::Emitted(taken) => PullEventView::Emitted(*taken),
            PullEvent::Persisted(p) => PullEventView::Persisted(*p),
            PullEvent::Woke => PullEventView::Woke,
        }
    }
}

/// What a puller asks for.
#[derive(Debug)]
pub enum PullAction {
    /// Fetch the latest release detail from this address, giving up after
    /// [`FETCH_TIMEOUT_SECS`]; answer with [`PullEvent::Fetched`].
    Fetch { url: String },
    /// Ask the store whether it holds this key; answer with
    /// [`PullEvent::Probed`].
    Probe { key: String },
    /// Ask the store for the release under this key; answer with
    /// [`PullEvent::Loaded`].
    Load { key: String },
    /// Push this release onto the alert queue; answer with
    /// [`PullEvent::Emitted`].
    Emit(Release),
    /// Write this release to the store, under its name; answer with
    /// [`PullEvent::Persisted`].
    Persist(Release),
    /// Sleep this many seconds; answer with [`PullEvent::Woke`].
    Sleep { secs: u64 },
    /// Nothing is left to do: the repository is up to date.
    Succeed,
    /// Nothing is left to do: the repository is given up for this cycle.
    Abandon,
}

/// Mathematical value of a [`PullAction`].
pub enum PullActionView {
    Fetch { url: Seq<char> },
    Probe { key: Seq<char> },
    Load { key: Seq<char> },
    Emit(ReleaseView),
    Persist(ReleaseView),
    Sleep { secs: u64 },
    Succeed,
    Abandon,
}

impl View for PullAction {
    type V = PullActionView;

    open spec fn view(&self) -> PullActionView {
        match self {
            PullAction::Fetch { url } => PullActionView::Fetch { url: url@ },
            PullAction::Probe { key } => PullActionView::Probe { key: key@ },
            PullAction::Load { key } => PullActionView::Load { key: key@ },
            PullAction::Emit(r) => PullActionView::Emit(r@),
            PullAction::Persist(r) => PullActionView::Persist(r@),
            PullAction::Sleep { secs } => PullActionView::Sleep { secs: *secs },
            PullAction::Succeed => PullActionView::Succeed,
            PullAction::Abandon => PullActionView::Abandon,
        }
    }
}

/// Mathematical value of a [`PullTask`].
pub struct PullTaskView {
    pub puller: PullerView,
    pub phase: PhaseView,
}

/// One puller at work: its polling state and where it stands.
#[derive(Debug)]
pub struct PullTask {
    pub puller: Puller,
    pub phase: Phase,
}

impl View for PullTask {
    type V = PullTaskView;

    open spec fn view(&self) -> PullTaskView {
        PullTaskView { puller: self.puller@, phase: self.phase@ }
    }
}

/// The retry policy.  After a failed attempt the puller gives the repository
/// up if the attempt was counted beyond [`RETRY`]; otherwise it counts one
/// more attempt and sleeps for its fixed interval.
pub open spec fn after_failure(puller: PullerView) -> (PullTaskView, PullActionView) {
    if puller.retry > RETRY {
        (PullTaskView { puller, phase: PhaseView::Exhausted }, PullActionView::Abandon)
    } else {
        (
            PullTaskView {
                puller: PullerView { retry: (puller.retry + 1) as u8, ..puller },
                phase: PhaseView::Waiting,
            },
            PullActionView::Sleep { secs: puller.retry_interval },
        )
    }
}

/// The puller in a new phase.
pub open spec fn moved(task: PullTaskView, phase: PhaseView) -> PullTaskView {
    PullTaskView { phase, ..task }
}

/// The transition function of a puller: the next state and what to do, or
/// `None` where the event does not answer what the puller last asked for.
pub open spec fn pull_step(task: PullTaskView, event: PullEventView) -> Option<
    (PullTaskView, PullActionView),
> {
    let repo = task.puller.repo;
    match (task.phase, event) {
        (PhaseView::Idle, PullEventView::Begin) | (PhaseView::Waiting, PullEventView::Woke) => Some(
            (moved(task, PhaseView::Fetching), PullActionView::Fetch { url: repo.url }),
        ),
        (PhaseView::Fetching, PullEventView::Fetched(Ok(detail))) => Some(
            (
                moved(task, PhaseView::Probing(release_of(repo, detail))),
                PullActionView::Probe { key: repo.name },
            ),
        ),
        (PhaseView::Fetching, PullEventView::Fetched(Err(_))) => Some(after_failure(task.puller)),
        (PhaseView::Probing(fresh), PullEventView::Probed(probe)) => match key_flag(probe) {
            KeyFlag::Exist => Some(
                (moved(task, PhaseView::Loading(fresh)), PullActionView::Load { key: repo.name }),
            ),
            KeyFlag::NotExist => Some(
                (moved(task, PhaseView::Persisting(fresh)), PullActionView::Persist(fresh)),
            ),
            KeyFlag::FnFail => Some(after_failure(task.puller)),
        },
        (PhaseView::Loading(fresh), PullEventView::Loaded(Ok(stored))) => if stored != fresh {
            Some((moved(task, PhaseView::Emitting(fresh)), PullActionView::Emit(fresh)))
        } else {
            Some((moved(task, PhaseView::Succeeded), PullActionView::Succeed))
        },
        (PhaseView::Loading(_), PullEventView::Loaded(Err(_))) => Some(after_failure(task.puller)),
        (PhaseView::Emitting(fresh), PullEventView::Emitted(taken)) => if taken {
            Some((moved(task, PhaseView::Persisting(fresh)), PullActionView::Persist(fresh)))
        } else {
            Some(after_failure(task.puller))
        },
        (PhaseView::Persisting(_), PullEventView::Persisted(Ok(_))) => Some(
            (moved(task, PhaseView::Succeeded), PullActionView::Succeed),
        ),
        (PhaseView::Persisting(_), PullEventView::Persisted(Err(_))) => Some(
            after_failure(task.puller),
        ),
        _ => None,
    }
}

impl PullTask {
    /// A puller that has not started its cycle.
    pub fn new(puller: Puller) -> (task: PullTask)
        ensures
            task.puller == puller,
            task.phase == Phase::Idle,
    {
        PullTask { puller, phase: Phase::Idle }
    }

    /// Whether the cycle is over for this repository.
    pub fn is_finished(&self) -> (over: bool)
        ensures
            over == (self.phase@ is Succeeded || self.phase@ is Exhausted),
    {
        match self.phase {
            Phase::Succeeded => true,
            Phase::Exhausted => true,
            _ => false,
        }
    }

    /// Applies the retry policy after a failed attempt.
    fn fail(self) -> (next: (PullTask, Option<PullAction>))
        ensures
            next.1 is Some,
            (next.0@, next.1->Some_0@) == after_failure(self.puller@),
    {
        let mut puller = self.puller;
        if puller.retry > RETRY {
            (PullTask { puller, phase: Phase::Exhausted }, Some(PullAction::Abandon))
        } else {
            let secs = puller.retry_interval;
            puller.update_retry();
            (PullTask { puller, phase: Phase::Waiting }, Some(PullAction::Sleep { secs }))
        }
    }

    /// Starts a fetch.
    fn fetch(self) -> (next: (PullTask, Option<PullAction>))
        ensures
            next.1 is Some,
            next.0@ == moved(self@, PhaseView::Fetching),
            next.1->Some_0@ == (PullActionView::Fetch { url: self.puller.repo.url@ }),
    {
        let url = self.puller.repo.url.clone();
        (PullTask { puller: self.puller, phase: Phase::Fetching }, Some(PullAction::Fetch { url }))
    }

    /// Takes one event and answers with the next state and with what to do.
    /// An event that does not answer what the puller last asked for changes
    /// nothing and is answered with `None`.
    pub fn step(self, event: PullEvent) -> (next: (PullTask, Option<PullAction>))
        ensures
            match pull_step(self@, event@) {
                Some((task, action)) => next.0@ == task && next.1 is Some && next.1->Some_0@
                    == action,
                None => next.0@ == self@ && next.1 is None,
            },
    {
        let PullTask { puller, phase } = self;
        match (phase, event) {
            (Phase::Idle, PullEvent::Begin) => PullTask { puller, phase: Phase::Idle }.fetch(),
            (Phase::Waiting, PullEvent::Woke) => PullTask { puller, phase: Phase::Waiting }.fetch(),
            (Phase::Fetching, PullEvent::Fetched(Ok(detail))) => {
                let fresh = Release::new(puller.repo.url.clone(), puller.repo.name.clone(), detail);
                let key = puller.repo.name.clone();
                (PullTask { puller, phase: Phase::Probing(fresh) }, Some(PullAction::Probe { key }))
            },
            (Phase::Fetching, PullEvent::Fetched(Err(_))) => PullTask {
                puller,
                phase: Phase::Fetching,
            }.fail(),
            (Phase::Probing(fresh), PullEvent::Probed(probe)) => match key_in_db_status(probe) {
                KeyFlag::Exist => {
                    let key = puller.repo.name.clone();
                    (
                        PullTask { puller, phase: Phase::Loading(fresh) },
                        Some(PullAction::Load { key }),
                    )
                },
                KeyFlag::NotExist => {
                    let copy = fresh.clone();
                    (
                        PullTask { puller, phase: Phase::Persisting(fresh) },
                        Some(PullAction::Persist(copy)),
                    )
                },
                KeyFlag::FnFail => PullTask { puller, phase: Phase::Probing(fresh) }.fail(),
            },
            (Phase::Loading(fresh), PullEvent::Loaded(Ok(stored))) => {
                if stored != fresh {
                    let copy = fresh.clone();
                    (
                        PullTask { puller, phase: Phase::Emitting(fresh) },
                        Some(PullAction::Emit(copy)),
                    )
                } else {
                    (PullTask { puller, phase: Phase::Succeeded }, Some(PullAction::Succeed))
                }
            },
            (Phase::Loading(fresh), PullEvent::Loaded(Err(_))) => PullTask {
                puller,
                phase: Phase::Loading(fresh),
            }.fail(),
            (Phase::Emitting(fresh), PullEvent::Emitted(taken)) => {
                if taken {
                    let copy = fresh.clone();
                    (
                        PullTask { puller, phase: Phase::Persisting(fresh) },
                        Some(PullAction::Persist(copy)),
                    )
                } else {
                    PullTask { puller, phase: Phase::Emitting(fresh) }.fail()
                }
            },
            (Phase::Persisting(_), PullEvent::Persisted(Ok(_))) => (
                PullTask { puller, phase: Phase::Succeeded },
                Some(PullAction::Succeed),
            ),
            (Phase::Persisting(fresh), PullEvent::Persisted(Err(_))) => PullTask {
                puller,
                phase: Phase::Persisting(fresh),
            }.fail(),
            (phase, _) => (PullTask { puller, phase }, None),
        }
    }
}

/// What surrounds a puller, as far as its cycle changes or counts it: the
/// release store, the releases pushed onto the alert queue (oldest first),
/// the number of fetches made, and the sleeps taken, in seconds.
pub struct World {
    pub store: Map<Seq<char>, ReleaseView>,
    pub emitted: Seq<ReleaseView>,
    pub fetches: nat,
    pub sleeps: Seq<u64>,
}

/// How the world answers an action when the store and the alert queue work:
/// the store tells the truth and keeps what it is given, the queue takes what
/// is pushed, and every fetch ends as `upstream` says.
pub open spec fn answer(
    world: World,
    action: PullActionView,
    upstream: Result<ReleaseDetailView, FetchError>,
) -> (World, PullEventView) {
    match action {
        PullActionView::Fetch { url } => (
            World { fetches: world.fetches + 1, ..world },
            PullEventView::Fetched(upstream),
        ),
        PullActionView::Probe { key } => (
            world,
            PullEventView::Probed(Ok(world.store.dom().contains(key))),
        ),
        PullActionView::Load { key } => (
            world,
            PullEventView::Loaded(
                if world.store.dom().contains(key) {
                    Ok(world.store[key])
                } else {
                    Err(StoreError)
                },
            ),
        ),
        PullActionView::Emit(release) => (
            World { emitted: world.emitted.push(release), ..world },
            PullEventView::Emitted(true),
        ),
        PullActionView::Persist(release) => (
            World { store: world.store.insert(release.name, release), ..world },
            PullEventView::Persisted(Ok(())),
        ),
        PullActionView::Sleep { secs } => (
            World { sleeps: world.sleeps.push(secs), ..world },
            PullEventView::Woke,
        ),
        PullActionView::Succeed => (world, PullEventView::Begin),
        PullActionView::Abandon => (world, PullEventView::Begin),
    }
}

/// How far a phase is from the end of its attempt.
pub open spec fn rank(phase: PhaseView) -> nat {
    match phase {
        PhaseView::Idle => 7,
        PhaseView::Waiting => 7,
        PhaseView::Fetching => 6,
        PhaseView::Probing(_) => 5,
        PhaseView::Loading(_) => 4,
        PhaseView::Emitting(_) => 3,
        PhaseView::Persisting(_) => 2,
        PhaseView::Succeeded => 0,
        PhaseView::Exhausted => 0,
    }
}

/// How many attempts a puller makes in a cycle in which every attempt fails.
pub open spec fn attempts_when_failing(retry: u8) -> nat {
    if retry > RETRY {
        1
    } else {
        (RETRY + 2 - retry) as nat
    }
}

/// A bound on the steps a puller has left.
pub open spec fn steps_left(task: PullTaskView) -> nat {
    8 * attempts_when_failing(task.puller.retry) + rank(task.phase)
}

/// The puller driven to the end of its cycle: it is given `event`, the world
/// performs each action and answers it as [`answer`] says, until the puller
/// succeeds or gives up.  The result is the last state of the puller, and the
/// world it leaves behind.
pub open spec fn run(
    task: PullTaskView,
    event: PullEventView,
    world: World,
    upstream: Result<ReleaseDetailView, FetchError>,
) -> (PullTaskView, World)
    decreases steps_left(task),
{
    match pull_step(task, event) {
        None => (task, world),
        Some((next, action)) => if action is Succeed || action is Abandon {
            (next, world)
        } else {
            let (changed, reply) = answer(world, action, upstream);
            run(next, reply, changed, upstream)
        },
    }
}

/// One whole cycle of a puller in a working world.
pub open spec fn cycle(
    puller: PullerView,
    world: World,
    upstream: Result<ReleaseDetailView, FetchError>,
) -> (PullTaskView, World) {
    run(PullTaskView { puller, phase: PhaseView::Idle }, PullEventView::Begin, world, upstream)
}

/// The world after `count` cycles of the same puller, one after the other.
/// Every cycle starts with the retry count the puller was built with.
pub open spec fn cycles(
    puller: PullerView,
    world: World,
    upstream: Result<ReleaseDetailView, FetchError>,
    count: nat,
) -> World
    decreases count,
{
    if count == 0 {
        world
    } else {
        cycle(puller, cycles(puller, world, upstream, (count - 1) as nat), upstream).1
    }
}

/// First-seen silence: for a repository that the store does not hold, one
/// successful fetch writes the fetched release to the store and pushes
/// nothing onto the alert queue.
pub proof fn law_first_seen_silence(puller: PullerView, world: World, detail: ReleaseDetailView)
    requires
        !world.store.dom().contains(puller.repo.name),
    ensures
        ({
            let (task, after) = cycle(puller, world, Ok(detail));
            &&& task.phase == PhaseView::Succeeded
            &&& after.emitted == world.emitted
            &&& after.store == world.store.insert(
                puller.repo.name,
                release_of(puller.repo, detail),
            )
            &&& after.fetches == world.fetches + 1
        }),
{
    reveal_with_fuel(run, 4);
}

/// Change detection: where the store holds a release for the repository and
/// the fetched release differs from it, exactly the fetched release is pushed
/// onto the alert queue, and the store holds it afterwards.
pub proof fn law_change_detection(puller: PullerView, world: World, detail: ReleaseDetailView)
    requires
        world.store.dom().contains(puller.repo.name),
        world.store[puller.repo.name] != release_of(puller.repo, detail),
    ensures
        ({
            let fresh = release_of(puller.repo, detail);
            let (task, after) = cycle(puller, world, Ok(detail));
            &&& task.phase == PhaseView::Succeeded
            &&& after.emitted == world.emitted.push(fresh)
            &&& after.store == world.store.insert(puller.repo.name, fresh)
            &&& after.fetches == world.fetches + 1
        }),
{
    reveal_with_fuel(run, 6);
}

/// No-change idempotence: however often a release is fetched that equals the
/// stored one, nothing is pushed onto the alert queue and the store stays as
/// it was.
pub proof fn law_no_change_idempotence(
    puller: PullerView,
    world: World,
    detail: ReleaseDetailView,
    count: nat,
)
    requires
        world.store.dom().contains(puller.repo.name),
        world.store[puller.repo.name] == release_of(puller.repo, detail),
    ensures
        cycles(puller, world, Ok(detail), count).store == world.store,
        cycles(puller, world, Ok(detail), count).emitted == world.emitted,
        cycles(puller, world, Ok(detail), count).fetches == world.fetches + count,
    decreases count,
{
    if count > 0 {
        law_no_change_idempotence(puller, world, detail, (count - 1) as nat);
        reveal_with_fuel(run, 4);
    }
}

/// The sleeps of a cycle in which every attempt fails.
pub open spec fn sleeps_when_failing(puller: PullerView) -> Seq<u64> {
    Seq::new((attempts_when_failing(puller.retry) - 1) as nat, |i: int| puller.retry_interval)
}

/// The retry count a puller ends a cycle with in which every attempt fails.
pub open spec fn retry_when_exhausted(retry: u8) -> u8 {
    if retry > RETRY {
        retry
    } else {
        (RETRY + 1) as u8
    }
}

/// A cycle in which every fetch fails, from its start or from any of its
/// sleeps on.
proof fn lemma_failing_run(
    task: PullTaskView,
    event: PullEventView,
    world: World,
    error: FetchError,
)
    requires
        (task.phase == PhaseView::Idle && event == PullEventView::Begin) || (task.phase
            == PhaseView::Waiting && event == PullEventView::Woke),
    ensures
        ({
            let (last, after) = run(task, event, world, Err(error));
            &&& last.phase == PhaseView::Exhausted
            &&& last.puller == (PullerView {
                retry: retry_when_exhausted(task.puller.retry),
                ..task.puller
            })
            &&& after.fetches == world.fetches + attempts_when_failing(task.puller.retry)
            &&& after.sleeps == world.sleeps + sleeps_when_failing(task.puller)
            &&& after.store == world.store
            &&& after.emitted == world.emitted
        }),
    decreases attempts_when_failing(task.puller.retry),
{
    reveal_with_fuel(run, 3);
    let puller = task.puller;
    if puller.retry > RETRY {
        assert(world.sleeps + sleeps_when_failing(puller) =~= world.sleeps);
    } else {
        let again = PullTaskView {
            puller: PullerView { retry: (puller.retry + 1) as u8, ..puller },
            phase: PhaseView::Waiting,
        };
        let slept = World {
            fetches: world.fetches + 1,
            sleeps: world.sleeps.push(puller.retry_interval),
            ..world
        };
        lemma_failing_run(again, PullEventView::Woke, slept, error);
        assert(run(task, event, world, Err(error)) == run(
            again,
            PullEventView::Woke,
            slept,
            Err(error),
        ));
        assert(slept.sleeps + sleeps_when_failing(again.puller) =~= world.sleeps
            + sleeps_when_failing(puller));
    }
}

/// Retry bound: a repository whose fetch fails at every attempt is fetched at
/// most `RETRY + 1` times in a cycle, with the puller's fixed interval slept
/// between two attempts, and is then given up; the store and the alert queue
/// are left as they were.  This holds of every puller whose retry count
/// starts at one or above, as the scheduler builds them.
pub proof fn law_retry_bound(puller: PullerView, world: World, error: FetchError)
    requires
        puller.retry >= FIRST_ATTEMPT,
    ensures
        ({
            let (task, after) = cycle(puller, world, Err(error));
            &&& task.phase == PhaseView::Exhausted
            &&& after.fetches == world.fetches + attempts_when_failing(puller.retry)
            &&& attempts_when_failing(puller.retry) <= RETRY + 1
            &&& after.sleeps == world.sleeps + sleeps_when_failing(puller)
            &&& after.sleeps.len() == world.sleeps.len() + attempts_when_failing(puller.retry) - 1
            &&& after.store == world.store
            &&& after.emitted == world.emitted
        }),
{
    lemma_failing_run(
        PullTaskView { puller, phase: PhaseView::Idle },
        PullEventView::Begin,
        world,
        error,
    );
}

/// The puller a cycle starts with for a repository.
pub open spec fn fresh_puller(retry_interval: u64, repo: RepoView) -> PullerView {
    PullerView { retry_interval, repo, retry: FIRST_ATTEMPT }
}

/// Builds the pullers of a cycle: one for each configured repository, in the
/// order of the list, each with its retry count at one.
pub fn build_pullers(retry_interval: u64, repo_list: &Vec<Repo>) -> (pullers: Vec<Puller>)
    ensures
        pullers.len() == repo_list.len(),
        forall|i: int|
            0 <= i < pullers.len() ==> (#[trigger] pullers[i])@ == fresh_puller(
                retry_interval,
                repo_list[i]@,
            ),
{
    let mut pullers: Vec<Puller> = Vec::new();
    let mut i: usize = 0;
    while i < repo_list.len()
        invariant
            i <= repo_list.len(),
            pullers.len() == i,
            forall|k: int|
                0 <= k < i ==> (#[trigger] pullers[k])@ == fresh_puller(
                    retry_interval,
                    repo_list[k]@,
                ),
        decreases repo_list.len() - i,
    {
        pullers.push(Puller::new(retry_interval, repo_list[i].clone(), FIRST_ATTEMPT));
        i = i + 1;
    }
    pullers
}

/// One pass over the repositories of a cycle, as the scheduler sees it: how
/// many pullers there are, how many were started, and how many have
/// finished.  A puller is started only with a permit, which it keeps until
/// it has finished, by success or by exhaustion.
#[derive(Debug)]
pub struct Pass {
    total: usize,
    started: usize,
    limiter: Limiter,
}

impl Pass {
    #[verifier::type_invariant]
    spec fn consistent(self) -> bool {
        self.limiter.held() <= self.started <= self.total
    }

    /// The number of pullers in this pass.
    pub closed spec fn total(&self) -> nat {
        self.total as nat
    }

    /// The number of pullers started so far.
    pub closed spec fn started(&self) -> nat {
        self.started as nat
    }

    /// The number of pullers at work: started and not finished.
    pub closed spec fn running(&self) -> nat {
        self.limiter.held()
    }

    /// The number of pullers that may be at work at a time.
    pub closed spec fn permits(&self) -> nat {
        self.limiter.permits()
    }

    /// The number of pullers that have finished.
    pub open spec fn finished(&self) -> int {
        self.started() - self.running()
    }

    /// What holds of every pass.
    pub open spec fn sound(&self) -> bool {
        &&& self.running() <= self.started() <= self.total()
        &&& self.running() <= self.permits()
    }

    /// A pass over `total` pullers, none started, with this many permits.
    pub fn new(total: usize, permits: usize) -> (pass: Pass)
        ensures
            pass.total() == total,
            pass.permits() == permits,
            pass.started() == 0,
            pass.running() == 0,
    {
        Pass { total, started: 0, limiter: Limiter::new(permits) }
    }

    /// Starts the next puller if there is one left and a permit is free.  The
    /// answer is the index of the puller to start; pullers are started in
    /// the order of the list, each once, and each with a permit of its own.
    pub fn start_next(&mut self) -> (unit: Option<usize>)
        ensures
            unit is Some <==> old(self).started() < old(self).total() && old(self).running() < old(
                self,
            ).permits(),
            unit matches Some(index) ==> index == old(self).started(),
            final(self).started() == old(self).started() + (if unit is Some { 1nat } else { 0nat }),
            final(self).running() == old(self).running() + (if unit is Some { 1nat } else { 0nat }),
            final(self).total() == old(self).total(),
            final(self).permits() == old(self).permits(),
            final(self).sound(),
    {
        proof {
            use_type_invariant(&*self);
        }
        let running = self.limiter.in_use();
        if self.started < self.total && running < self.limiter.capacity() {
            let index = self.started;
            self.started = self.started + 1;
            let granted = self.limiter.try_acquire();
            assert(granted);
            Some(index)
        } else {
            None
        }
    }

    /// Notes that a puller has finished, by success or by exhaustion, and
    /// gives its permit back.  The answer is `false`, and nothing changes,
    /// where no puller was at work.
    pub fn complete(&mut self) -> (counted: bool)
        ensures
            counted == (old(self).running() > 0),
            final(self).running() == old(self).running() - (if counted { 1nat } else { 0nat }),
            final(self).started() == old(self).started(),
            final(self).total() == old(self).total(),
            final(self).permits() == old(self).permits(),
            final(self).sound(),
    {
        proof {
            use_type_invariant(&*self);
        }
        self.limiter.release()
    }

    /// Whether every puller of the pass has finished.  Only then does the
    /// scheduler go on to its sleep.
    pub fn is_complete(&self) -> (done: bool)
        ensures
            done == (self.finished() == self.total()),
            self.sound(),
    {
        proof {
            use_type_invariant(self);
        }
        let running = self.limiter.in_use();
        self.started == self.total && running == 0
    }

    /// The number of pullers at work.
    pub fn in_flight(&self) -> (running: usize)
        ensures
            running == self.running(),
            self.sound(),
    {
        proof {
            use_type_invariant(self);
        }
        self.limiter.in_use()
    }
}

/// Where the scheduler stands.
#[derive(Clone, Copy, Debug, PartialEq, Eq, Structural)]
pub enum WatchPhase {
    /// No cycle has started.
    Idle,
    /// A pass over the repositories is under way.
    InPass,
    /// The pass is over; the scheduler sleeps until the next cycle.
    Sleeping,
}

/// What the scheduler is told.
#[derive(Clone, Copy, Debug, PartialEq, Eq, Structural)]
pub enum WatchEvent {
    /// The scheduler is started.
    Start,
    /// Every puller of the pass has finished.
    PassDone,
    /// The sleep between two cycles is over.
    SleepDone,
    /// The termination signal fired, or its channel closed.
    Shutdown,
}

/// What the scheduler asks for.
#[derive(Clone, Copy, Debug, PartialEq, Eq, Structural)]
pub enum WatchAction {
    /// Build the pullers and run one pass over them; answer with
    /// [`WatchEvent::PassDone`].
    RunPass,
    /// Sleep this many seconds; answer with [`WatchEvent::SleepDone`].
    Sleep { secs: u64 },
    /// Abandon the pass or the sleep under way, cancel what the pass has
    /// started, and return.
    Stop,
}

/// Mathematical value of a [`Watcher`].
pub struct WatcherView {
    pub period: u64,
    pub phase: WatchPhase,
    pub stopped: bool,
}

/// The scheduler of the watch cycles.
#[derive(Debug)]
pub struct Watcher {
    period: u64,
    phase: WatchPhase,
    shutdown: Shutdown,
}

impl View for Watcher {
    type V = WatcherView;

    closed spec fn view(&self) -> WatcherView {
        WatcherView { period: self.period, phase: self.phase, stopped: self.shutdown.latched() }
    }
}

/// A scheduler that has not started, with this many seconds between the end
/// of a pass and the next cycle.
pub open spec fn initial_watcher(period: u64) -> WatcherView {
    WatcherView { period, phase: WatchPhase::Idle, stopped: false }
}

/// The transition function of the scheduler: the next state and what to do,
/// or `None` where the scheduler has stopped or the event does not answer
/// what it last asked for.
pub open spec fn watch_step(state: WatcherView, event: WatchEvent) -> Option<
    (WatcherView, WatchAction),
> {
    if state.stopped {
        None
    } else {
        match (event, state.phase) {
            (WatchEvent::Shutdown, _) => Some(
                (WatcherView { stopped: true, ..state }, WatchAction::Stop),
            ),
            (WatchEvent::Start, WatchPhase::Idle) | (WatchEvent::SleepDone, WatchPhase::Sleeping) => Some(
                (WatcherView { phase: WatchPhase::InPass, ..state }, WatchAction::RunPass),
            ),
            (WatchEvent::PassDone, WatchPhase::InPass) => Some(
                (
                    WatcherView { phase: WatchPhase::Sleeping, ..state },
                    WatchAction::Sleep { secs: state.period },
                ),
            ),
            _ => None,
        }
    }
}

/// The scheduler after the events of `history`, oldest first; an event that
/// the scheduler does not take leaves it as it is.
pub open spec fn watch_replay(period: u64, history: Seq<WatchEvent>) -> WatcherView
    decreases history.len(),
{
    if history.len() == 0 {
        initial_watcher(period)
    } else {
        let before = watch_replay(period, history.drop_last());
        match watch_step(before, history.last()) {
            Some((after, _)) => after,
            None => before,
        }
    }
}

impl Watcher {
    /// A scheduler that has not started.
    pub fn new(period: u64) -> (watcher: Watcher)
        ensures
            watcher@ == initial_watcher(period),
    {
        Watcher { period, phase: WatchPhase::Idle, shutdown: Shutdown::new() }
    }

    /// Whether the scheduler has seen the termination signal.
    pub fn is_shutdown(&self) -> (stopped: bool)
        ensures
            stopped == self@.stopped,
    {
        self.shutdown.is_shutdown()
    }

    /// Takes one event and answers with what to do.  Where the answer is
    /// `None` the scheduler is left as it was.
    pub fn step(&mut self, event: WatchEvent) -> (action: Option<WatchAction>)
        ensures
            match watch_step(old(self)@, event) {
                Some((after, act)) => final(self)@ == after && action == Some(act),
                None => final(self)@ == old(self)@ && action is None,
            },
    {
        if self.shutdown.is_shutdown() {
            return None;
        }
        match (event, self.phase) {
            (WatchEvent::Shutdown, _) => {
                self.shutdown.latch();
                Some(WatchAction::Stop)
            },
            (WatchEvent::Start, WatchPhase::Idle) | (WatchEvent::SleepDone, WatchPhase::Sleeping) => {
                self.phase = WatchPhase::InPass;
                Some(WatchAction::RunPass)
            },
            (WatchEvent::PassDone, WatchPhase::InPass) => {
                self.phase = WatchPhase::Sleeping;
                Some(WatchAction::Sleep { secs: self.period })
            },
            _ => None,
        }
    }
}

/// No cycle starts after the termination signal: once the scheduler has been
/// told of the shutdown, whatever else it was told before or since, no event
/// makes it run a pass, or do anything at all.
pub proof fn law_no_pass_after_shutdown(period: u64, history: Seq<WatchEvent>, event: WatchEvent)
    requires
        history.contains(WatchEvent::Shutdown),
    ensures
        watch_replay(period, history).stopped,
        watch_step(watch_replay(period, history), event) is None,
    decreases history.len(),
{
    let before = history.drop_last();
    if history.last() != WatchEvent::Shutdown {
        let i = choose|i: int| 0 <= i < history.len() && history[i] == WatchEvent::Shutdown;
        assert(before[i] == WatchEvent::Shutdown);
        law_no_pass_after_shutdown(period, before, event);
    }
}

/// A scheduler that runs undisturbed alternates between passes and sleeps of
/// its period: a pass follows the start and every sleep, a sleep every pass.
pub proof fn law_cycles_alternate(state: WatcherView)
    requires
        !state.stopped,
    ensures
        state.phase == WatchPhase::Idle ==> watch_step(state, WatchEvent::Start) == Some(
            (WatcherView { phase: WatchPhase::InPass, ..state }, WatchAction::RunPass),
        ),
        state.phase == WatchPhase::InPass ==> watch_step(state, WatchEvent::PassDone) == Some(
            (
                WatcherView { phase: WatchPhase::Sleeping, ..state },
                WatchAction::Sleep { secs: state.period },
            ),
        ),
        state.phase == WatchPhase::Sleeping ==> watch_step(state, WatchEvent::SleepDone) == Some(
            (WatcherView { phase: WatchPhase::InPass, ..state }, WatchAction::RunPass),
        ),
{
}

} // verus!
