//! The run controller: takes the packages of a run through their pipelines
//! one after the other, starts each from the options of the run, and ends
//! the whole run on the first failure.

use std::time::Instant;
use vstd::prelude::*;
use vstd::string::StrSliceExecFns;

use crate::benchmark::{
    registered, summary, Benchmark, BenchmarkLedger, Elapsed, Group, Measurement,
};
use crate::console::{plain, script, Piece, PieceView, Style};
use crate::error::{Error, ErrorKind, ErrorView};
use crate::pipeline::{
    awaited, failure, next_ledger, next_state, notices, Event, EventView, Pipeline, PipelineView,
    Settings, Stage, StateView,
};
use crate::text::owned;

verus! {

/// A package of the run: its display name and the place where its report
/// is generated.
#[derive(Debug, Clone, PartialEq, Eq)]
pub struct Package {
    pub name: String,
    pub target: String,
}

/// The mathematical content of a [`Package`].
pub struct PackageView {
    pub name: Seq<char>,
    pub target: Seq<char>,
}

impl View for Package {
    type V = PackageView;

    open spec fn view(&self) -> PackageView {
        PackageView { name: self.name@, target: self.target@ }
    }
}

/// The contents of a list of packages, in order.
pub open spec fn listed(packages: Seq<Package>) -> Seq<PackageView> {
    Seq::new(packages.len(), |i: int| packages[i]@)
}

/// What the caller does next; packages go by their position in the list.
#[derive(Debug, Clone, Copy, PartialEq, Eq, Structural)]
pub enum RunAction {
    /// Run this stage on the package at this position.
    Perform(usize, Stage),
    /// Nothing is left to run: the run is finished or has failed.
    Stop,
}

/// Where the run stands.
enum RunState {
    Running(usize, Pipeline),
    Finished,
    Failed(Error),
}

/// Where the run stands.
pub enum RunStateView {
    /// The package at this position is in its pipeline, in this state.
    Running(usize, StateView),
    /// Every package went through.
    Finished,
    /// A package failed, and the run with it.
    Failed(ErrorView),
}

/// The run controller. It owns the ledger of the run and, through the
/// pipeline of the package in hand, the force override of that package.
pub struct RunController {
    settings: Settings,
    packages: Vec<Package>,
    state: RunState,
    ledger: BenchmarkLedger,
    said: Vec<Piece>,
    started: Instant,
}

/// The mathematical content of a [`RunController`].
pub struct RunView {
    pub settings: Settings,
    pub packages: Seq<PackageView>,
    pub state: RunStateView,
    /// The force override as the package in hand has it; with no package in
    /// hand, the option of the run.
    pub force: bool,
    pub ledger: Seq<Group>,
    /// What the last step gave to say.
    pub said: Seq<PieceView>,
}

impl View for RunState {
    type V = RunStateView;

    closed spec fn view(&self) -> RunStateView {
        match *self {
            RunState::Running(at, pipeline) => RunStateView::Running(at, pipeline@.state),
            RunState::Finished => RunStateView::Finished,
            RunState::Failed(error) => RunStateView::Failed(error@),
        }
    }
}

impl RunController {
    /// The package in hand is one of the list, and its pipeline is the one
    /// that was begun for it under the options of the run.
    #[verifier::type_invariant]
    spec fn consistent(self) -> bool {
        match self.state {
            RunState::Running(at, pipeline) => at < self.packages.len() && pipeline@ == pipeline_of(
                self@,
                at,
                pipeline@.state,
            ),
            _ => true,
        }
    }
}

impl View for RunController {
    type V = RunView;

    closed spec fn view(&self) -> RunView {
        RunView {
            settings: self.settings,
            packages: listed(self.packages@),
            state: self.state@,
            force: match self.state {
                RunState::Running(_, pipeline) => pipeline@.force,
                _ => self.settings.force,
            },
            ledger: self.ledger@,
            said: script(self.said@),
        }
    }
}

/// `text` written out one character at a time, with a short pause after
/// each.
pub open spec fn typed(text: Seq<char>) -> Seq<PieceView>
    decreases text.len(),
{
    if text.len() == 0 {
        Seq::empty()
    } else {
        typed(text.drop_last()) + seq![plain(seq![text.last()]), PieceView::Pause(3)]
    }
}

/// What is said before a run in verbose mode: the banner, typed out, and a
/// welcome.
pub open spec fn welcome(banner: Seq<char>) -> Seq<PieceView> {
    typed(banner) + seq![
        plain(
            "Welcome to the SUPER Android Analyzer. We will now try to audit the given application."@,
        ),
        PieceView::Break,
        plain("You activated the verbose mode. "@),
        PieceView::Text(Style::Bold, "May Tux be with you!"@),
        PieceView::Break,
        PieceView::Break,
        PieceView::Pause(1250),
    ]
}

/// What is said before a run: the welcome in verbose mode, else nothing.
pub fn greet(banner: &str, verbose: bool) -> (pieces: Vec<Piece>)
    ensures
        script(pieces@) == if verbose {
            welcome(banner@)
        } else {
            Seq::empty()
        },
{
    let mut pieces: Vec<Piece> = Vec::new();
    if !verbose {
        assert(script(pieces@) =~= Seq::<PieceView>::empty());
        return pieces;
    }
    let length = banner.unicode_len();
    let mut i: usize = 0;
    assert(banner@.take(0) =~= Seq::<char>::empty());
    assert(script(pieces@) =~= typed(banner@.take(0)));
    while i < length
        invariant
            i <= length,
            length == banner@.len(),
            script(pieces@) == typed(banner@.take(i as int)),
        decreases length - i,
    {
        let ghost before = script(pieces@);
        let letter = banner.substring_char(i, i + 1);
        pieces.push(Piece::Text(Style::Plain, owned(letter)));
        pieces.push(Piece::Pause(3));
        proof {
            let done = banner@.take(i as int + 1);
            let step = seq![plain(seq![banner@[i as int]]), PieceView::Pause(3)];
            assert(done.drop_last() =~= banner@.take(i as int));
            assert(done.last() == banner@[i as int]);
            assert(letter@ =~= seq![banner@[i as int]]);
            assert(script(pieces@) =~= before + step);
            assert(typed(done) == typed(done.drop_last()) + step);
        }
        i = i + 1;
    }
    assert(banner@.take(length as int) =~= banner@);
    let ghost body = script(pieces@);
    pieces.push(
        Piece::Text(
            Style::Plain,
            owned(
                "Welcome to the SUPER Android Analyzer. We will now try to audit the given application.",
            ),
        ),
    );
    pieces.push(Piece::Break);
    pieces.push(Piece::Text(Style::Plain, owned("You activated the verbose mode. ")));
    pieces.push(Piece::Text(Style::Bold, owned("May Tux be with you!")));
    pieces.push(Piece::Break);
    pieces.push(Piece::Break);
    pieces.push(Piece::Pause(1250));
    assert(script(pieces@) =~= welcome(banner@));
    pieces
}

/// The pipeline, in `state`, of the package at position `at` of the run.
pub open spec fn pipeline_of(run: RunView, at: usize, state: StateView) -> PipelineView {
    PipelineView {
        package: run.packages[at as int].name,
        target: run.packages[at as int].target,
        settings: run.settings,
        force: run.force,
        state,
    }
}

/// Whether the package in hand, if there is one, is one of the list, and
/// the list is no longer than a machine can hold.
pub open spec fn in_range(run: RunView) -> bool {
    &&& run.packages.len() <= usize::MAX
    &&& match run.state {
        RunStateView::Running(at, _) => at < run.packages.len(),
        _ => true,
    }
}

/// The run as the package at position `at` begins its pipeline, after
/// `said` has been said: the force override is back at the option of the
/// run, whatever the package before made of it; with benchmarking on the
/// package is registered in the ledger; and the package is announced.
pub open spec fn entered(run: RunView, at: usize, said: Seq<PieceView>) -> RunView {
    let fresh = RunView { force: run.settings.force, ..run };
    RunView {
        state: RunStateView::Running(at, StateView::Start),
        ledger: if run.settings.bench {
            registered(run.ledger, run.packages[at as int].name)
        } else {
            run.ledger
        },
        said: said + notices(pipeline_of(fresh, at, StateView::Start)),
        ..fresh
    }
}

/// The run before any stage has run: the first package begins its pipeline
/// with an empty ledger behind it. A run without packages is finished at
/// once.
pub open spec fn begun(settings: Settings, packages: Seq<PackageView>) -> RunView {
    let empty = RunView {
        settings,
        packages,
        state: RunStateView::Finished,
        force: settings.force,
        ledger: Seq::empty(),
        said: Seq::empty(),
    };
    if packages.len() == 0 {
        empty
    } else {
        entered(empty, 0, Seq::empty())
    }
}

/// What the caller does in `state`.
pub open spec fn run_action(state: RunStateView) -> RunAction {
    match state {
        RunStateView::Running(at, state) => match awaited(state) {
            Some(stage) => RunAction::Perform(at, stage),
            None => RunAction::Stop,
        },
        RunStateView::Finished => RunAction::Stop,
        RunStateView::Failed(_) => RunAction::Stop,
    }
}

/// The failure of the run that a failure of one package's pipeline makes.
pub open spec fn run_failure(error: ErrorView) -> ErrorView {
    ErrorView { kind: error.kind, chain: seq!["Application analysis failed"@] + error.chain }
}

/// The run after a stage of the package in hand has raised the force
/// override: it holds for the rest of that package.
pub open spec fn forced(run: RunView) -> RunView {
    if run.state is Running {
        RunView { force: true, ..run }
    } else {
        run
    }
}

/// The run after `event`, where `elapsed` is the time that the awaited
/// stage took and `total` the time since the package's pipeline began.
///
/// A pipeline that ends well hands over to the next package, which begins
/// its own, or, after the last one, finishes the run; one that fails ends
/// the run. Each step gives to say what the pipeline says in the state that
/// it has reached. An ended run stays as it is and has nothing more to say.
pub open spec fn run_next(run: RunView, event: EventView, elapsed: Elapsed, total: Elapsed) -> RunView {
    match run.state {
        RunStateView::Running(at, state) => {
            let pipeline = pipeline_of(run, at, state);
            let reached = next_state(pipeline, event, elapsed);
            let said = notices(pipeline_of(run, at, reached));
            let recorded = RunView {
                ledger: next_ledger(pipeline, event, elapsed, total, run.ledger),
                said,
                ..run
            };
            match reached {
                StateView::Done => if at + 1 < run.packages.len() {
                    entered(recorded, (at + 1) as usize, said)
                } else {
                    RunView {
                        state: RunStateView::Finished,
                        force: run.settings.force,
                        ..recorded
                    }
                },
                StateView::Failed(_, error) => RunView {
                    state: RunStateView::Failed(run_failure(error)),
                    force: run.settings.force,
                    ..recorded
                },
                _ => RunView { state: RunStateView::Running(at, reached), ..recorded },
            }
        },
        RunStateView::Finished => RunView { said: Seq::empty(), ..run },
        RunStateView::Failed(_) => RunView { said: Seq::empty(), ..run },
    }
}

/// The run is fail-fast: a package whose stage fails ends the run at once,
/// with the failure of that stage under the run's own message; nothing is
/// recorded for that stage and nothing more is asked for.
pub proof fn law_fail_fast(
    run: RunView,
    at: usize,
    state: StateView,
    event: EventView,
    elapsed: Elapsed,
    total: Elapsed,
)
    requires
        run.state == RunStateView::Running(at, state),
        awaited(state) matches Some(stage) && failure(
            stage,
            event,
            pipeline_of(run, at, state).target,
        ) is Some,
    ensures
        ({
            let next = run_next(run, event, elapsed, total);
            let error = failure(awaited(state)->0, event, pipeline_of(run, at, state).target)->0;
            &&& next.state == RunStateView::Failed(run_failure(error))
            &&& next.ledger == run.ledger
            &&& run_action(next.state) == RunAction::Stop
        }),
{
}

/// A run that has ended stays ended and asks for nothing more: after a
/// failure no stage of a later package is ever run, and the ledger is left
/// as it was.
pub proof fn law_ended_run_stays(run: RunView, event: EventView, elapsed: Elapsed, total: Elapsed)
    requires
        run.state is Failed || run.state is Finished,
    ensures
        run_next(run, event, elapsed, total) == (RunView { said: Seq::empty(), ..run }),
        run_action(run.state) == RunAction::Stop,
        forced(run) == run,
{
}

/// The packages are taken in the order of the list, one at a time: a step
/// stays with the package in hand or, when that one is done, moves on to
/// the one right after it.
pub proof fn law_packages_in_order(run: RunView, event: EventView, elapsed: Elapsed, total: Elapsed)
    requires
        in_range(run),
    ensures
        in_range(run_next(run, event, elapsed, total)),
        run_next(run, event, elapsed, total).state matches RunStateView::Running(next, state)
            ==> (run.state matches RunStateView::Running(at, before) && (next == at || (next == at
            + 1 && state == StateView::Start && next_state(
            pipeline_of(run, at, before),
            event,
            elapsed,
        ) == StateView::Done))),
{
}

/// With benchmarking off the ledger never changes: it is empty when the
/// run begins and so stays empty.
pub proof fn law_benchmarks_off(run: RunView, event: EventView, elapsed: Elapsed, total: Elapsed)
    requires
        !run.settings.bench,
    ensures
        run_next(run, event, elapsed, total).ledger == run.ledger,
        forced(run).ledger == run.ledger,
        begun(run.settings, run.packages).ledger.len() == 0,
{
}

/// A report handler that exits without success fails the run, though the
/// report of the package has been generated by then.
pub proof fn law_unopened_report_fails_run(
    run: RunView,
    at: usize,
    report: Elapsed,
    status: Seq<char>,
    elapsed: Elapsed,
    total: Elapsed,
)
    requires
        run.state == RunStateView::Running(at, StateView::Reported(report)),
    ensures
        run_next(run, (EventView::Exited { success: false, status }), elapsed, total).state
            == RunStateView::Failed(
            ErrorView {
                kind: ErrorKind::Open,
                chain: seq![
                    "Application analysis failed"@,
                    "Report opening errored with status code: "@ + status,
                ],
            },
        ),
{
    let failed = ErrorView {
        kind: ErrorKind::Open,
        chain: seq!["Report opening errored with status code: "@ + status],
    };
    assert(run_failure(failed).chain =~= seq![
        "Application analysis failed"@,
        "Report opening errored with status code: "@ + status,
    ]);
}

/// No package sees the force override of the one before it: whenever the
/// first stage of a package is asked for, the override is the option of the
/// run, whatever the stages of earlier packages made of it. Within a package
/// the override stays as its stages have left it.
pub proof fn law_force_does_not_leak(
    run: RunView,
    event: EventView,
    elapsed: Elapsed,
    total: Elapsed,
)
    ensures
        run_action(begun(run.settings, run.packages).state) matches RunAction::Perform(
            _,
            Stage::Unpack,
        ) ==> begun(run.settings, run.packages).force == run.settings.force,
        ({
            let next = run_next(forced(run), event, elapsed, total);
            run_action(next.state) matches RunAction::Perform(_, Stage::Unpack) ==> next.force
                == run.settings.force
        }),
        ({
            let next = run_next(run, event, elapsed, total);
            &&& run_action(next.state) matches RunAction::Perform(_, Stage::Unpack) ==> next.force
                == run.settings.force
            &&& (next.state matches RunStateView::Running(_, state) && state != StateView::Start)
                ==> next.force == run.force
        }),
        run.state is Running ==> forced(run).force,
{
}

/// The position of the package in hand, if there is one.
pub open spec fn in_hand(state: RunStateView) -> Option<usize> {
    match state {
        RunStateView::Running(at, _) => Some(at),
        _ => None,
    }
}

/// What happens in one round of a run: the stage that was asked for may
/// raise the force override, and then reports how it went.
pub struct Round {
    pub raised: bool,
    pub event: EventView,
    pub elapsed: Elapsed,
    pub total: Elapsed,
}

/// The run after one round.
pub open spec fn run_round(run: RunView, round: Round) -> RunView {
    run_next(
        if round.raised {
            forced(run)
        } else {
            run
        },
        round.event,
        round.elapsed,
        round.total,
    )
}

/// The run after the rounds of `rounds`, in order.
pub open spec fn run_after(run: RunView, rounds: Seq<Round>) -> RunView
    decreases rounds.len(),
{
    if rounds.len() == 0 {
        run
    } else {
        run_round(run_after(run, rounds.drop_last()), rounds.last())
    }
}

/// Whatever happens, a run keeps its options and its list of packages.
pub proof fn law_run_keeps_its_options(run: RunView, rounds: Seq<Round>)
    ensures
        run_after(run, rounds).settings == run.settings,
        run_after(run, rounds).packages == run.packages,
    decreases rounds.len(),
{
    if rounds.len() > 0 {
        law_run_keeps_its_options(run, rounds.drop_last());
    }
}

/// With benchmarking off no measurement is ever stored: the ledger is
/// empty after any rounds whatever.
pub proof fn law_never_a_benchmark_when_off(
    settings: Settings,
    packages: Seq<PackageView>,
    rounds: Seq<Round>,
)
    requires
        !settings.bench,
    ensures
        run_after(begun(settings, packages), rounds).ledger.len() == 0,
    decreases rounds.len(),
{
    if rounds.len() > 0 {
        law_never_a_benchmark_when_off(settings, packages, rounds.drop_last());
        law_run_keeps_its_options(begun(settings, packages), rounds.drop_last());
    }
}

/// Once a run has ended it has ended for good: whatever rounds follow, it
/// stands as it stood, with the same failure if it failed and the same
/// ledger, and asks for nothing.
pub proof fn law_ended_for_good(run: RunView, rounds: Seq<Round>)
    requires
        run.state is Failed || run.state is Finished,
    ensures
        run_after(run, rounds).state == run.state,
        run_after(run, rounds).ledger == run.ledger,
        run_after(run, rounds).force == run.force,
        run_action(run_after(run, rounds).state) == RunAction::Stop,
    decreases rounds.len(),
{
    if rounds.len() > 0 {
        law_ended_for_good(run, rounds.drop_last());
    }
}

/// The packages are never taken out of order: after any rounds whatever
/// the package in hand is one of the list, and further rounds only ever
/// lead to packages at or after its position.
pub proof fn law_never_back(run: RunView, rounds: Seq<Round>)
    requires
        in_range(run),
    ensures
        in_range(run_after(run, rounds)),
        in_hand(run.state) matches Some(at) ==> (in_hand(run_after(run, rounds).state) matches Some(
            later,
        ) ==> at <= later),
        in_hand(run.state) is None ==> in_hand(run_after(run, rounds).state) is None,
    decreases rounds.len(),
{
    if rounds.len() > 0 {
        law_never_back(run, rounds.drop_last());
        law_run_keeps_its_options(run, rounds.drop_last());
    }
}

/// No package ever sees the force override of one before it: after any
/// rounds whatever, when the first stage of a package is asked for, the
/// override is the option of the run.
pub proof fn law_force_never_leaks(
    settings: Settings,
    packages: Seq<PackageView>,
    rounds: Seq<Round>,
)
    ensures
        run_action(run_after(begun(settings, packages), rounds).state) matches RunAction::Perform(
            _,
            Stage::Unpack,
        ) ==> run_after(begun(settings, packages), rounds).force == settings.force,
    decreases rounds.len(),
{
    if rounds.len() > 0 {
        law_run_keeps_its_options(begun(settings, packages), rounds.drop_last());
    }
}

impl RunController {
    /// A run of `packages`, in their order, under `settings`.
    pub fn new(settings: Settings, packages: Vec<Package>) -> (run: RunController)
        ensures
            run@ == begun(settings, listed(packages@)),
            in_range(run@),
    {
        let mut ledger = BenchmarkLedger::new();
        let mut said: Vec<Piece> = Vec::new();
        assert(script(said@) =~= Seq::<PieceView>::empty());
        let state = if packages.len() == 0 {
            RunState::Finished
        } else {
            let pipeline = Pipeline::begin(
                packages[0].name.clone(),
                packages[0].target.clone(),
                settings,
                &mut ledger,
            );
            said = pipeline.notices();
            assert(Seq::<PieceView>::empty() + script(said@) =~= script(said@));
            RunState::Running(0, pipeline)
        };
        RunController { settings, packages, state, ledger, said, started: Benchmark::start() }
    }

    /// What the caller does now.
    pub fn action(&self) -> (action: RunAction)
        ensures
            action == run_action(self@.state),
            in_range(self@),
    {
        proof {
            use_type_invariant(self);
            assert(self@.packages.len() == self.packages.len());
        }
        match &self.state {
            RunState::Running(at, pipeline) => match pipeline.state().awaited() {
                Some(stage) => RunAction::Perform(*at, stage),
                None => RunAction::Stop,
            },
            RunState::Finished => RunAction::Stop,
            RunState::Failed(_) => RunAction::Stop,
        }
    }

    /// Whether the stage that is asked for does its work over again: the
    /// force override as the package in hand has it.
    pub fn force(&self) -> (force: bool)
        ensures
            force == self@.force,
    {
        match &self.state {
            RunState::Running(_, pipeline) => pipeline.force(),
            _ => self.settings.force,
        }
    }

    /// Has the remaining stages of the package in hand do their work over
    /// again. The next package starts from the option of the run.
    pub fn set_force(&mut self)
        ensures
            final(self)@ == forced(old(self)@),
    {
        proof {
            use_type_invariant(&*self);
        }
        let mut state = RunState::Finished;
        core::mem::swap(&mut self.state, &mut state);
        let next = match state {
            RunState::Running(at, pipeline) => {
                let mut pipeline = pipeline;
                pipeline.set_force();
                RunState::Running(at, pipeline)
            },
            other => other,
        };
        self.state = next;
    }

    /// Takes in how the stage that was asked for went, given the time
    /// `elapsed` that it took and the time `total` since the package's
    /// pipeline began, and says what the caller does next.
    pub fn advance(&mut self, event: Event, elapsed: Elapsed, total: Elapsed) -> (action: RunAction)
        ensures
            final(self)@ == run_next(old(self)@, event@, elapsed, total),
            action == run_action(final(self)@.state),
            in_range(final(self)@),
    {
        proof {
            use_type_invariant(&*self);
        }
        let mut state = RunState::Finished;
        core::mem::swap(&mut self.state, &mut state);
        let mut ledger = BenchmarkLedger::new();
        core::mem::swap(&mut self.ledger, &mut ledger);
        let mut said: Vec<Piece> = Vec::new();
        assert(script(said@) =~= Seq::<PieceView>::empty());
        let next = match state {
            RunState::Running(at, pipeline) => {
                let mut pipeline = pipeline;
                let _ = pipeline.advance(event, elapsed, total, &mut ledger);
                said = pipeline.notices();
                match pipeline.state().awaited() {
                    Some(_) => RunState::Running(at, pipeline),
                    None => match pipeline.outcome() {
                        Some(Err(error)) => RunState::Failed(
                            error.chain_err(owned("Application analysis failed")),
                        ),
                        _ => if at + 1 < self.packages.len() {
                            let following = Pipeline::begin(
                                self.packages[at + 1].name.clone(),
                                self.packages[at + 1].target.clone(),
                                self.settings,
                                &mut ledger,
                            );
                            let ghost before = script(said@);
                            let mut more = following.notices();
                            let ghost added = script(more@);
                            said.append(&mut more);
                            assert(script(said@) =~= before + added);
                            RunState::Running(at + 1, following)
                        } else {
                            RunState::Finished
                        },
                    },
                }
            },
            RunState::Finished => RunState::Finished,
            RunState::Failed(error) => RunState::Failed(error),
        };
        self.ledger = ledger;
        self.said = said;
        self.state = next;
        self.action()
    }

    /// Takes in how the stage that was asked for went and says what the
    /// caller does next. The times come from the clock, as the pipeline of
    /// the package in hand has them.
    pub fn step(&mut self, event: Event) -> (action: RunAction)
        ensures
            exists|elapsed: Elapsed, total: Elapsed|
                final(self)@ == #[trigger] run_next(old(self)@, event@, elapsed, total),
            action == run_action(final(self)@.state),
            in_range(final(self)@),
    {
        let (elapsed, total) = match &self.state {
            RunState::Running(_, pipeline) => pipeline.times(),
            _ => {
                let none = Elapsed::since(&self.started);
                (none, none)
            },
        };
        self.advance(event, elapsed, total)
    }

    /// What the last step gave to say, before the action is taken.
    pub fn notices(&self) -> (pieces: &Vec<Piece>)
        ensures
            script(pieces@) == self@.said,
    {
        &self.said
    }

    /// The summary that closes the run: there is one only when every
    /// package went through and benchmarking is on. It holds the ledger and,
    /// under the label `Total time`, the time of the whole run as the clock
    /// has it now.
    pub fn summary(&self) -> (pieces: Option<Vec<Piece>>)
        ensures
            pieces is Some <==> self@.state is Finished && self@.settings.bench,
            pieces matches Some(lines) ==> exists|time: Elapsed| #[trigger]
                summary(self@.ledger, Measurement { label: "Total time"@, duration: time })
                    == script(lines@),
    {
        match self.total_time() {
            Some(total) => {
                let lines = self.ledger.summary(&total);
                assert(summary(
                    self@.ledger,
                    Measurement { label: "Total time"@, duration: total@.duration },
                ) == script(lines@));
                Some(lines)
            },
            None => None,
        }
    }

    /// The ledger of the run.
    pub fn ledger(&self) -> (ledger: &BenchmarkLedger)
        ensures
            ledger@ == self@.ledger,
    {
        &self.ledger
    }

    /// The failure that ended the run, if one did.
    pub fn failure(&self) -> (failure: Option<&Error>)
        ensures
            match self@.state {
                RunStateView::Failed(error) => failure matches Some(found) && found@ == error,
                _ => failure is None,
            },
    {
        match &self.state {
            RunState::Failed(error) => Some(error),
            _ => None,
        }
    }

    /// The time of the whole run so far, for the summary: there is one only
    /// when every package went through and benchmarking is on.
    pub fn total_time(&self) -> (total: Option<Benchmark>)
        ensures
            total is Some <==> self@.state is Finished && self@.settings.bench,
            total matches Some(benchmark) ==> benchmark@.label == "Total time"@,
    {
        match &self.state {
            RunState::Finished => if self.settings.bench {
                Some(Benchmark::finish(&self.started, "Total time"))
            } else {
                None
            },
            _ => None,
        }
    }
}

} // verus!
