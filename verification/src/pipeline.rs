//! The pipeline of one package: a state machine that says which stage to run
//! next, wraps each failure with the context of its stage, and records the
//! time of each stage when benchmarking is on.

use std::time::Instant;
use vstd::prelude::*;
use vstd::string::StringExecFns;

use crate::benchmark::{
    recorded, registered, Benchmark, BenchmarkLedger, Elapsed, Group, Measurement,
};
use crate::console::{plain, script, Piece, PieceView, Style};
use crate::error::{Error, ErrorKind, ErrorView};
use crate::text::{owned, texts};

verus! {

/// One step of the pipeline, in the order in which the steps run.
#[derive(Debug, Clone, Copy, PartialEq, Eq, Hash, Structural)]
pub enum Stage {
    /// Extract the package contents to a working directory.
    Unpack,
    /// Convert the extracted bytecode to the intermediate archive form.
    Convert,
    /// Decompile the intermediate form to source.
    Decompile,
    /// Initialise the results accumulator.
    Prepare,
    /// Run the static analysis into the accumulator.
    Analyze,
    /// Generate the report from the accumulator.
    Report,
    /// Ask the host to open the generated report.
    Open,
}

/// The report file that is opened after generation.
#[derive(Debug, Clone, Copy, PartialEq, Eq, Hash, Structural)]
pub enum Artifact {
    Html,
    Json,
}

/// The options that the pipeline reads.
#[derive(Debug, Clone, Copy, PartialEq, Eq, Structural)]
pub struct Settings {
    /// Record the time of each stage.
    pub bench: bool,
    /// Open the report once it is generated.
    pub open: bool,
    /// The report is an HTML page rather than a structured-data file.
    pub html: bool,
    /// Say nothing of the progress.
    pub quiet: bool,
    /// Say more of the progress.
    pub verbose: bool,
    /// Do every stage over again, whatever earlier runs have left behind.
    pub force: bool,
}

/// What the caller does next.
#[derive(Debug, Clone, Copy, PartialEq, Eq, Structural)]
pub enum Action {
    /// Run this stage on the package and report how it went.
    Perform(Stage),
    /// Nothing is left to run: the pipeline is done or has failed.
    Stop,
}

/// How the stage that was asked for went.
#[derive(Debug, Clone, PartialEq, Eq)]
pub enum Event {
    /// It ran to its end.
    Completed,
    /// It failed; the causes, outermost first.
    Failed(Vec<String>),
    /// The report handler was launched and has exited: whether it reported
    /// success, and its status as text. Read after `Stage::Open` only; after
    /// any other stage it says no more than `Completed`.
    Exited { success: bool, status: String },
}

/// The mathematical content of an [`Event`].
pub enum EventView {
    Completed,
    Failed(Seq<Seq<char>>),
    Exited { success: bool, status: Seq<char> },
}

impl View for Event {
    type V = EventView;

    open spec fn view(&self) -> EventView {
        match *self {
            Event::Completed => EventView::Completed,
            Event::Failed(cause) => EventView::Failed(texts(cause@)),
            Event::Exited { success, status } => EventView::Exited { success, status: status@ },
        }
    }
}

/// How far the pipeline has come.
#[derive(Debug, Clone, PartialEq, Eq)]
pub enum State {
    Start,
    Unpacked,
    Converted,
    Decompiled,
    /// The results accumulator is ready.
    Prepared,
    Analyzed,
    /// The report is generated and is being opened; holds the time that
    /// its generation took.
    Reported(Elapsed),
    Done,
    /// The stage that failed, and the failure.
    Failed(Stage, Error),
}

/// The mathematical content of a [`State`].
pub enum StateView {
    Start,
    Unpacked,
    Converted,
    Decompiled,
    Prepared,
    Analyzed,
    Reported(Elapsed),
    Done,
    Failed(Stage, ErrorView),
}

impl View for State {
    type V = StateView;

    open spec fn view(&self) -> StateView {
        match *self {
            State::Start => StateView::Start,
            State::Unpacked => StateView::Unpacked,
            State::Converted => StateView::Converted,
            State::Decompiled => StateView::Decompiled,
            State::Prepared => StateView::Prepared,
            State::Analyzed => StateView::Analyzed,
            State::Reported(time) => StateView::Reported(time),
            State::Done => StateView::Done,
            State::Failed(stage, error) => StateView::Failed(stage, error@),
        }
    }
}

/// The pipeline of one package.
pub struct Pipeline {
    package: String,
    target: String,
    settings: Settings,
    force: bool,
    state: State,
    started: Instant,
    milestone: Instant,
}

/// The mathematical content of a [`Pipeline`]: the package's display name,
/// the place where its report is generated, the options, the force
/// override as it stands for this package, and the state.
pub struct PipelineView {
    pub package: Seq<char>,
    pub target: Seq<char>,
    pub settings: Settings,
    pub force: bool,
    pub state: StateView,
}

impl View for Pipeline {
    type V = PipelineView;

    closed spec fn view(&self) -> PipelineView {
        PipelineView {
            package: self.package@,
            target: self.target@,
            settings: self.settings,
            force: self.force,
            state: self.state@,
        }
    }
}

/// The message put on top of a failure of `stage`, for the stages that add
/// one; `target` is the place where the report is generated.
pub open spec fn context(stage: Stage, target: Seq<char>) -> Option<Seq<char>> {
    match stage {
        Stage::Unpack => Some("apk decompression failed"@),
        Stage::Convert => Some("Conversion from DEX to JAR failed"@),
        Stage::Decompile => Some("JAR decompression failed"@),
        Stage::Prepare => None,
        Stage::Analyze => None,
        Stage::Report => Some(
            "There was an error generating the results report. Tried to generate at: "@ + target,
        ),
        Stage::Open => Some("Report could not be opened automatically"@),
    }
}

/// The kind under which a failure of `stage` is filed.
pub open spec fn kind_of(stage: Stage) -> ErrorKind {
    match stage {
        Stage::Unpack => ErrorKind::Stage,
        Stage::Convert => ErrorKind::Stage,
        Stage::Decompile => ErrorKind::Stage,
        Stage::Prepare => ErrorKind::Results,
        Stage::Analyze => ErrorKind::Stage,
        Stage::Report => ErrorKind::Report,
        Stage::Open => ErrorKind::Open,
    }
}

/// The failure that `event` means for `stage`, if it means one. The analysis
/// never fails the pipeline: what goes wrong in it is kept in the results.
/// Opening fails too when the handler exits without success.
pub open spec fn failure(stage: Stage, event: EventView, target: Seq<char>) -> Option<ErrorView> {
    match (stage, event) {
        (Stage::Analyze, _) => None,
        (_, EventView::Failed(cause)) => Some(
            ErrorView {
                kind: kind_of(stage),
                chain: match context(stage, target) {
                    Some(message) => seq![message] + cause,
                    None => cause,
                },
            },
        ),
        (Stage::Open, EventView::Exited { success, status }) => if success {
            None
        } else {
            Some(
                ErrorView {
                    kind: ErrorKind::Open,
                    chain: seq!["Report opening errored with status code: "@ + status],
                },
            )
        },
        _ => None,
    }
}

/// The label under which the time of `stage` is recorded, for the stages
/// that are timed.
pub open spec fn label(stage: Stage) -> Option<Seq<char>> {
    match stage {
        Stage::Unpack => Some("Apk decompression"@),
        Stage::Convert => Some("Dex to Jar decompilation (dex2jar Java dependency)"@),
        Stage::Decompile => Some("Decompilation (jd-cli Java dependency)"@),
        Stage::Prepare => None,
        Stage::Analyze => Some("Total static analysis"@),
        Stage::Report => Some("Report generation"@),
        Stage::Open => None,
    }
}

/// The label of the time that the whole pipeline of `package` took.
pub open spec fn total_label(package: Seq<char>) -> Seq<char> {
    "Total time for "@ + package
}

/// The stage whose outcome the pipeline waits for in `state`; none once it
/// is done or has failed.
pub open spec fn awaited(state: StateView) -> Option<Stage> {
    match state {
        StateView::Start => Some(Stage::Unpack),
        StateView::Unpacked => Some(Stage::Convert),
        StateView::Converted => Some(Stage::Decompile),
        StateView::Decompiled => Some(Stage::Prepare),
        StateView::Prepared => Some(Stage::Analyze),
        StateView::Analyzed => Some(Stage::Report),
        StateView::Reported(_) => Some(Stage::Open),
        StateView::Done => None,
        StateView::Failed(_, _) => None,
    }
}

/// What the caller does in `state`.
pub open spec fn action_for(state: StateView) -> Action {
    match awaited(state) {
        Some(stage) => Action::Perform(stage),
        None => Action::Stop,
    }
}

/// The state after `event`, where `elapsed` is the time that the awaited
/// stage took. The first failure is final, and so is completion.
pub open spec fn next_state(pipeline: PipelineView, event: EventView, elapsed: Elapsed) -> StateView {
    match awaited(pipeline.state) {
        None => pipeline.state,
        Some(stage) => match failure(stage, event, pipeline.target) {
            Some(error) => StateView::Failed(stage, error),
            None => match stage {
                Stage::Unpack => StateView::Unpacked,
                Stage::Convert => StateView::Converted,
                Stage::Decompile => StateView::Decompiled,
                Stage::Prepare => StateView::Prepared,
                Stage::Analyze => StateView::Analyzed,
                Stage::Report => if pipeline.settings.open {
                    StateView::Reported(elapsed)
                } else {
                    StateView::Done
                },
                Stage::Open => StateView::Done,
            },
        },
    }
}

/// The ledger after the two closing measurements of `package`: the time
/// that the report generation took, then the time of the whole pipeline.
pub open spec fn closing(ledger: Seq<Group>, package: Seq<char>, report: Elapsed, total: Elapsed) -> Seq<
    Group,
> {
    recorded(
        recorded(ledger, package, Measurement { label: "Report generation"@, duration: report }),
        package,
        Measurement { label: total_label(package), duration: total },
    )
}

/// The ledger after `event`, where `elapsed` is the time that the awaited
/// stage took and `total` the time since the pipeline began. Nothing is
/// recorded with benchmarking off, for a stage that failed, or once the
/// pipeline has ended.
pub open spec fn next_ledger(
    pipeline: PipelineView,
    event: EventView,
    elapsed: Elapsed,
    total: Elapsed,
    ledger: Seq<Group>,
) -> Seq<Group> {
    if !pipeline.settings.bench {
        ledger
    } else {
        match awaited(pipeline.state) {
            None => ledger,
            Some(stage) => if failure(stage, event, pipeline.target) is Some {
                ledger
            } else {
                match stage {
                    Stage::Prepare => ledger,
                    Stage::Report => if pipeline.settings.open {
                        ledger
                    } else {
                        closing(ledger, pipeline.package, elapsed, total)
                    },
                    Stage::Open => match pipeline.state {
                        StateView::Reported(report) => closing(ledger, pipeline.package, report, total),
                        _ => ledger,
                    },
                    _ => recorded(
                        ledger,
                        pipeline.package,
                        Measurement { label: label(stage)->0, duration: elapsed },
                    ),
                }
            },
        }
    }
}

/// What is said once the report is generated, in verbose mode.
pub open spec fn farewell() -> Seq<PieceView> {
    seq![
        plain("Everything went smoothly, now you can check all the results."@),
        PieceView::Break,
        PieceView::Break,
        plain("I will now analyze myself for vulnerabilities\u{2026}"@),
        PieceView::Break,
        PieceView::Pause(1500),
        plain("Nah, just kidding, I've been developed in "@),
        PieceView::Text(Style::BoldGreen, "Rust"@),
        plain("!"@),
        PieceView::Break,
    ]
}

/// What is said on reaching the state of `pipeline`, before its action is
/// taken: the package at the start, unless quiet; in verbose mode a word
/// before the decompilation; an empty line before the report, unless quiet;
/// and in verbose mode a word once the report is generated.
pub open spec fn notices(pipeline: PipelineView) -> Seq<PieceView> {
    let settings = pipeline.settings;
    match pipeline.state {
        StateView::Start => if settings.quiet {
            Seq::empty()
        } else {
            seq![
                PieceView::Break,
                plain("Starting analysis of "@),
                PieceView::Text(Style::Italic, pipeline.package),
                plain("."@),
                PieceView::Break,
            ]
        },
        StateView::Converted => if settings.verbose {
            seq![
                PieceView::Break,
                plain(
                    "Now it's time for the actual decompilation of the source code. We'll translate\n                  Android JVM bytecode to Java, so that we can check the code afterwards."@,
                ),
                PieceView::Break,
            ]
        } else {
            Seq::empty()
        },
        StateView::Analyzed => if settings.quiet {
            Seq::empty()
        } else {
            seq![PieceView::Break]
        },
        StateView::Reported(_) => if settings.verbose {
            farewell()
        } else {
            Seq::empty()
        },
        StateView::Done => if settings.verbose && !settings.open {
            farewell()
        } else {
            Seq::empty()
        },
        _ => Seq::empty(),
    }
}

/// The first failure is final, and so is completion: a pipeline that has
/// ended takes no further step, asks for nothing and records nothing.
pub proof fn law_ended_pipeline_stays(
    pipeline: PipelineView,
    event: EventView,
    elapsed: Elapsed,
    total: Elapsed,
    ledger: Seq<Group>,
)
    requires
        pipeline.state is Done || pipeline.state is Failed,
    ensures
        next_state(pipeline, event, elapsed) == pipeline.state,
        next_ledger(pipeline, event, elapsed, total, ledger) == ledger,
        action_for(pipeline.state) == Action::Stop,
{
}

/// A stage that fails ends the pipeline on the spot: the state holds that
/// stage and its failure, nothing is recorded for it and nothing more is
/// asked for. The analysis is the one stage that cannot fail.
pub proof fn law_failure_stops_pipeline(
    pipeline: PipelineView,
    event: EventView,
    elapsed: Elapsed,
    total: Elapsed,
    ledger: Seq<Group>,
)
    requires
        awaited(pipeline.state) matches Some(stage) && failure(stage, event, pipeline.target) is Some,
    ensures
        next_state(pipeline, event, elapsed) == StateView::Failed(
            awaited(pipeline.state)->0,
            failure(awaited(pipeline.state)->0, event, pipeline.target)->0,
        ),
        next_ledger(pipeline, event, elapsed, total, ledger) == ledger,
        action_for(next_state(pipeline, event, elapsed)) == Action::Stop,
        awaited(pipeline.state) != Some(Stage::Analyze),
{
}

/// With benchmarking off nothing is ever recorded.
pub proof fn law_no_benchmarks_when_off(
    pipeline: PipelineView,
    event: EventView,
    elapsed: Elapsed,
    total: Elapsed,
    ledger: Seq<Group>,
)
    requires
        !pipeline.settings.bench,
    ensures
        next_ledger(pipeline, event, elapsed, total, ledger) == ledger,
{
}

/// The stages are asked for in their fixed order: after a stage that went
/// well comes the one that follows it, and opening comes, after the report,
/// only where it is switched on.
pub proof fn law_stage_order(pipeline: PipelineView, event: EventView, elapsed: Elapsed)
    requires
        awaited(pipeline.state) matches Some(stage) && failure(stage, event, pipeline.target) is None,
    ensures
        action_for(next_state(pipeline, event, elapsed)) == match awaited(pipeline.state)->0 {
            Stage::Unpack => Action::Perform(Stage::Convert),
            Stage::Convert => Action::Perform(Stage::Decompile),
            Stage::Decompile => Action::Perform(Stage::Prepare),
            Stage::Prepare => Action::Perform(Stage::Analyze),
            Stage::Analyze => Action::Perform(Stage::Report),
            Stage::Report => if pipeline.settings.open {
                Action::Perform(Stage::Open)
            } else {
                Action::Stop
            },
            Stage::Open => Action::Stop,
        },
{
}

/// A report handler that exits without success fails the pipeline, though
/// the report has been generated by then.
pub proof fn law_unopened_report_fails(
    pipeline: PipelineView,
    report: Elapsed,
    status: Seq<char>,
    elapsed: Elapsed,
)
    requires
        pipeline.state == StateView::Reported(report),
    ensures
        next_state(pipeline, (EventView::Exited { success: false, status }), elapsed)
            == StateView::Failed(
            Stage::Open,
            ErrorView {
                kind: ErrorKind::Open,
                chain: seq!["Report opening errored with status code: "@ + status],
            },
        ),
{
}

impl Stage {
    /// The label under which the time of this stage is recorded.
    pub fn label(&self) -> (text: Option<&'static str>)
        ensures
            match text {
                Some(text) => label(*self) == Some(text@),
                None => label(*self) is None,
            },
    {
        match self {
            Stage::Unpack => Some("Apk decompression"),
            Stage::Convert => Some("Dex to Jar decompilation (dex2jar Java dependency)"),
            Stage::Decompile => Some("Decompilation (jd-cli Java dependency)"),
            Stage::Prepare => None,
            Stage::Analyze => Some("Total static analysis"),
            Stage::Report => Some("Report generation"),
            Stage::Open => None,
        }
    }

    /// The kind under which a failure of this stage is filed.
    pub fn kind(&self) -> (kind: ErrorKind)
        ensures
            kind == kind_of(*self),
    {
        match self {
            Stage::Unpack => ErrorKind::Stage,
            Stage::Convert => ErrorKind::Stage,
            Stage::Decompile => ErrorKind::Stage,
            Stage::Prepare => ErrorKind::Results,
            Stage::Analyze => ErrorKind::Stage,
            Stage::Report => ErrorKind::Report,
            Stage::Open => ErrorKind::Open,
        }
    }

    /// The message put on top of a failure of this stage, if it adds one.
    pub fn context(&self, target: &str) -> (message: Option<String>)
        ensures
            match message {
                Some(message) => context(*self, target@) == Some(message@),
                None => context(*self, target@) is None,
            },
    {
        match self {
            Stage::Unpack => Some(owned("apk decompression failed")),
            Stage::Convert => Some(owned("Conversion from DEX to JAR failed")),
            Stage::Decompile => Some(owned("JAR decompression failed")),
            Stage::Prepare => None,
            Stage::Analyze => None,
            Stage::Report => Some(
                owned(
                    "There was an error generating the results report. Tried to generate at: ",
                ).concat(target),
            ),
            Stage::Open => Some(owned("Report could not be opened automatically")),
        }
    }

    /// The failure that `event` means for this stage, if it means one.
    pub fn failure(&self, event: Event, target: &str) -> (outcome: Option<Error>)
        ensures
            match outcome {
                Some(error) => failure(*self, event@, target@) == Some(error@),
                None => failure(*self, event@, target@) is None,
            },
    {
        match self {
            Stage::Analyze => None,
            _ => match event {
                Event::Completed => None,
                Event::Failed(cause) => match self.context(target) {
                    Some(message) => Some(Error::caused(self.kind(), message, cause)),
                    None => Some(Error { kind: self.kind(), chain: cause }),
                },
                Event::Exited { success, status } => match self {
                    Stage::Open => if success {
                        None
                    } else {
                        Some(
                            Error::new(
                                ErrorKind::Open,
                                owned("Report opening errored with status code: ").concat(
                                    status.as_str(),
                                ),
                            ),
                        )
                    },
                    _ => None,
                },
            },
        }
    }
}

impl Artifact {
    /// The name of the file inside the package's results directory.
    pub open spec fn name(self) -> Seq<char> {
        match self {
            Artifact::Html => "index.html"@,
            Artifact::Json => "results.json"@,
        }
    }

    /// The name of the file inside the package's results directory.
    pub fn file_name(&self) -> (name: &'static str)
        ensures
            name@ == self.name(),
    {
        match self {
            Artifact::Html => "index.html",
            Artifact::Json => "results.json",
        }
    }
}

impl Settings {
    /// The report file that is opened: the page for an HTML report, the
    /// structured-data file otherwise.
    pub open spec fn opened(self) -> Artifact {
        if self.html {
            Artifact::Html
        } else {
            Artifact::Json
        }
    }

    /// The report file that is opened.
    pub fn artifact(&self) -> (artifact: Artifact)
        ensures
            artifact == self.opened(),
    {
        if self.html {
            Artifact::Html
        } else {
            Artifact::Json
        }
    }
}

impl State {
    /// The stage whose outcome is awaited.
    pub fn awaited(&self) -> (stage: Option<Stage>)
        ensures
            stage == awaited(self@),
    {
        match self {
            State::Start => Some(Stage::Unpack),
            State::Unpacked => Some(Stage::Convert),
            State::Converted => Some(Stage::Decompile),
            State::Decompiled => Some(Stage::Prepare),
            State::Prepared => Some(Stage::Analyze),
            State::Analyzed => Some(Stage::Report),
            State::Reported(_) => Some(Stage::Open),
            State::Done => None,
            State::Failed(_, _) => None,
        }
    }
}

impl Pipeline {
    /// Begins the pipeline of `package`, whose report is generated at
    /// `target`. The force override starts from the option of the run,
    /// whatever an earlier package made of its own. With benchmarking on, the
    /// package is registered in the ledger with an empty group.
    pub fn begin(package: String, target: String, settings: Settings, ledger: &mut BenchmarkLedger) -> (pipeline:
        Pipeline)
        ensures
            pipeline@ == (PipelineView {
                package: package@,
                target: target@,
                settings,
                force: settings.force,
                state: StateView::Start,
            }),
            final(ledger)@ == if settings.bench {
                registered(old(ledger)@, package@)
            } else {
                old(ledger)@
            },
    {
        if settings.bench {
            ledger.register(package.as_str());
        }
        let started = Benchmark::start();
        Pipeline {
            package,
            target,
            settings,
            force: settings.force,
            state: State::Start,
            started,
            milestone: started,
        }
    }

    /// The state.
    pub fn state(&self) -> (state: &State)
        ensures
            state@ == self@.state,
    {
        &self.state
    }

    /// The display name of the package.
    pub fn package(&self) -> (package: &str)
        ensures
            package@ == self@.package,
    {
        self.package.as_str()
    }

    /// The options.
    pub fn settings(&self) -> (settings: Settings)
        ensures
            settings == self@.settings,
    {
        self.settings
    }

    /// Whether the stages of this package do their work over again.
    pub fn force(&self) -> (force: bool)
        ensures
            force == self@.force,
    {
        self.force
    }

    /// Has the remaining stages of this package do their work over again.
    pub fn set_force(&mut self)
        ensures
            final(self)@ == (PipelineView { force: true, ..old(self)@ }),
    {
        self.force = true;
    }

    /// What is said on reaching the present state, before its action is
    /// taken.
    pub fn notices(&self) -> (pieces: Vec<Piece>)
        ensures
            script(pieces@) == notices(self@),
    {
        let mut pieces: Vec<Piece> = Vec::new();
        let farewell = match &self.state {
            State::Start => {
                if !self.settings.quiet {
                    pieces.push(Piece::Break);
                    pieces.push(Piece::Text(Style::Plain, owned("Starting analysis of ")));
                    pieces.push(Piece::Text(Style::Italic, self.package.clone()));
                    pieces.push(Piece::Text(Style::Plain, owned(".")));
                    pieces.push(Piece::Break);
                }
                false
            },
            State::Converted => {
                if self.settings.verbose {
                    pieces.push(Piece::Break);
                    pieces.push(
                        Piece::Text(
                            Style::Plain,
                            owned(
                                "Now it's time for the actual decompilation of the source code. We'll translate\n                  Android JVM bytecode to Java, so that we can check the code afterwards.",
                            ),
                        ),
                    );
                    pieces.push(Piece::Break);
                }
                false
            },
            State::Analyzed => {
                if !self.settings.quiet {
                    pieces.push(Piece::Break);
                }
                false
            },
            State::Reported(_) => self.settings.verbose,
            State::Done => self.settings.verbose && !self.settings.open,
            _ => false,
        };
        if farewell {
            pieces.push(
                Piece::Text(
                    Style::Plain,
                    owned("Everything went smoothly, now you can check all the results."),
                ),
            );
            pieces.push(Piece::Break);
            pieces.push(Piece::Break);
            pieces.push(
                Piece::Text(
                    Style::Plain,
                    owned("I will now analyze myself for vulnerabilities\u{2026}"),
                ),
            );
            pieces.push(Piece::Break);
            pieces.push(Piece::Pause(1500));
            pieces.push(
                Piece::Text(Style::Plain, owned("Nah, just kidding, I've been developed in ")),
            );
            pieces.push(Piece::Text(Style::BoldGreen, owned("Rust")));
            pieces.push(Piece::Text(Style::Plain, owned("!")));
            pieces.push(Piece::Break);
        }
        assert(script(pieces@) =~= notices(self@));
        pieces
    }

    /// What the caller does now.
    pub fn action(&self) -> (action: Action)
        ensures
            action == action_for(self@.state),
    {
        match self.state.awaited() {
            Some(stage) => Action::Perform(stage),
            None => Action::Stop,
        }
    }

    /// Takes in how the awaited stage went, given the time `elapsed` that it
    /// took and the time `total` since the pipeline began, and says what the
    /// caller does next. The next stage is timed from here.
    pub fn advance(&mut self, event: Event, elapsed: Elapsed, total: Elapsed, ledger: &mut BenchmarkLedger) -> (action:
        Action)
        ensures
            final(self)@ == (PipelineView {
                state: next_state(old(self)@, event@, elapsed),
                ..old(self)@
            }),
            final(ledger)@ == next_ledger(old(self)@, event@, elapsed, total, old(ledger)@),
            action == action_for(final(self)@.state),
            !old(self)@.settings.bench ==> final(ledger)@ == old(ledger)@,
    {
        let stage = match self.state.awaited() {
            Some(stage) => stage,
            None => {
                return Action::Stop;
            },
        };
        let report = match &self.state {
            State::Reported(time) => Some(*time),
            _ => None,
        };
        match stage.failure(event, self.target.as_str()) {
            Some(error) => {
                self.state = State::Failed(stage, error);
            },
            None => {
                match stage {
                    Stage::Unpack => {
                        self.state = State::Unpacked;
                    },
                    Stage::Convert => {
                        self.state = State::Converted;
                    },
                    Stage::Decompile => {
                        self.state = State::Decompiled;
                    },
                    Stage::Prepare => {
                        self.state = State::Prepared;
                    },
                    Stage::Analyze => {
                        self.state = State::Analyzed;
                    },
                    Stage::Report => {
                        if self.settings.open {
                            self.state = State::Reported(elapsed);
                        } else {
                            self.state = State::Done;
                        }
                    },
                    Stage::Open => {
                        self.state = State::Done;
                    },
                }
                if self.settings.bench {
                    match stage {
                        Stage::Prepare => {},
                        Stage::Report => {
                            if !self.settings.open {
                                self.close(ledger, elapsed, total);
                            }
                        },
                        Stage::Open => {
                            match report {
                                Some(time) => {
                                    self.close(ledger, time, total);
                                },
                                None => {},
                            }
                        },
                        _ => {
                            match stage.label() {
                                Some(text) => {
                                    ledger.record(self.package.as_str(), Benchmark::new(text, elapsed));
                                },
                                None => {},
                            }
                        },
                    }
                }
            },
        }
        self.milestone = Benchmark::start();
        self.action()
    }

    /// How the pipeline ended: nothing while a stage is awaited.
    pub fn outcome(self) -> (outcome: Option<Result<(), Error>>)
        ensures
            match self@.state {
                StateView::Done => outcome == Some(Ok::<(), Error>(())),
                StateView::Failed(_, error) => outcome matches Some(Err(failure)) && failure@ == error,
                _ => outcome is None,
            },
    {
        match self.state {
            State::Done => Some(Ok(())),
            State::Failed(_, error) => Some(Err(error)),
            _ => None,
        }
    }

    /// Records the two closing measurements of the package.
    fn close(&self, ledger: &mut BenchmarkLedger, report: Elapsed, total: Elapsed)
        ensures
            final(ledger)@ == closing(old(ledger)@, self@.package, report, total),
    {
        ledger.record(self.package.as_str(), Benchmark::new("Report generation", report));
        let label = owned("Total time for ").concat(self.package.as_str());
        ledger.record(self.package.as_str(), Benchmark::new(label.as_str(), total));
    }

    /// The time since the previous step and the time since the pipeline
    /// began, as the clock has them now.
    pub fn times(&self) -> (Elapsed, Elapsed) {
        (Elapsed::since(&self.milestone), Elapsed::since(&self.started))
    }

    /// Takes in how the awaited stage went and says what the caller does
    /// next. The times come from the clock: the stage is taken to have run
    /// since the previous step, the pipeline since it began.
    pub fn step(&mut self, event: Event, ledger: &mut BenchmarkLedger) -> (action: Action)
        ensures
            exists|elapsed: Elapsed, total: Elapsed|
                {
                    &&& final(self)@ == (PipelineView {
                        state: #[trigger] next_state(old(self)@, event@, elapsed),
                        ..old(self)@
                    })
                    &&& final(ledger)@ == #[trigger] next_ledger(
                        old(self)@,
                        event@,
                        elapsed,
                        total,
                        old(ledger)@,
                    )
                },
            action == action_for(final(self)@.state),
            !old(self)@.settings.bench ==> final(ledger)@ == old(ledger)@,
    {
        let (elapsed, total) = self.times();
        self.advance(event, elapsed, total, ledger)
    }
}

} // verus!
