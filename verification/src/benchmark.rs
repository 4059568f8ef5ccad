//! The benchmark recorder and the per-package ledger of its measurements.

use std::time::{Duration, Instant};
use vstd::prelude::*;

use vstd::string::StringExecFns;

use crate::console::{plain, script, Piece, PieceView, Style};
use crate::text::{decimal, owned, padded, push_decimal, push_padded};

verus! {

/// `std::time::Instant`: a reading of the monotonic clock. Nothing of what
/// a reading holds is visible here.
#[verifier::external_type_specification]
#[verifier::external_body]
pub struct ExInstant(Instant);

/// `Instant::now` reads the monotonic clock; nothing is promised of the reading.
pub assume_specification[ Instant::now ]() -> Instant;

/// `Instant::elapsed` gives the time that has passed since the instant was
/// taken; nothing is promised of its length.
pub assume_specification[ Instant::elapsed ](start: &Instant) -> Duration;

/// The length of a duration in nanoseconds, as `Duration::as_nanos` gives
/// it.
pub uninterp spec fn nanos_of(duration: Duration) -> u128;

/// `Duration::as_nanos` gives the length of a duration in nanoseconds: a
/// number that the duration alone decides. Nothing is promised of how
/// large it is.
pub assume_specification[ Duration::as_nanos ](duration: &Duration) -> (nanos: u128)
    ensures
        nanos == nanos_of(*duration),
;

/// The nanoseconds in a second.
pub const NANOS_PER_SECOND: u128 = 1_000_000_000;

/// A length of time, in nanoseconds.
#[derive(Debug, Clone, Copy, PartialEq, Eq, Hash, Structural)]
pub struct Elapsed {
    pub nanos: u128,
}

impl Elapsed {
    /// The length of so many seconds and, on top of them, so many
    /// nanoseconds.
    pub fn new(secs: u64, nanos: u32) -> (elapsed: Elapsed)
        ensures
            elapsed.nanos == secs * NANOS_PER_SECOND + nanos,
    {
        let whole: u128 = secs as u128;
        let rest: u128 = nanos as u128;
        Elapsed { nanos: whole * NANOS_PER_SECOND + rest }
    }

    /// The whole seconds of the length.
    pub fn secs(&self) -> (secs: u128)
        ensures
            secs == self.nanos / NANOS_PER_SECOND,
    {
        self.nanos / NANOS_PER_SECOND
    }

    /// The nanoseconds on top of the whole seconds: less than a second's
    /// worth.
    pub fn subsec_nanos(&self) -> (nanos: u128)
        ensures
            nanos == self.nanos % NANOS_PER_SECOND,
            nanos < NANOS_PER_SECOND,
    {
        self.nanos % NANOS_PER_SECOND
    }

    /// The length of `duration`: as many nanoseconds as it holds.
    pub fn of(duration: Duration) -> (elapsed: Elapsed)
        ensures
            elapsed.nanos == nanos_of(duration),
    {
        Elapsed { nanos: duration.as_nanos() }
    }

    /// The time that has passed since `start` was taken, as the clock has
    /// it now.
    pub fn since(start: &Instant) -> Elapsed {
        Elapsed::of(start.elapsed())
    }
}

/// A named duration measurement.
#[derive(Debug, Clone, PartialEq, Eq)]
pub struct Benchmark {
    pub label: String,
    pub duration: Elapsed,
}

/// The mathematical content of a [`Benchmark`].
pub struct Measurement {
    pub label: Seq<char>,
    pub duration: Elapsed,
}

impl View for Benchmark {
    type V = Measurement;

    open spec fn view(&self) -> Measurement {
        Measurement { label: self.label@, duration: self.duration }
    }
}

/// The measurements held by a sequence of benchmarks, in order.
pub open spec fn measurements(benchmarks: Seq<Benchmark>) -> Seq<Measurement> {
    Seq::new(benchmarks.len(), |i: int| benchmarks[i]@)
}

/// The text of a measurement: the label, then the seconds with nine
/// decimals.
pub open spec fn shown(measurement: Measurement) -> Seq<char> {
    measurement.label + ": "@ + decimal((measurement.duration.nanos / NANOS_PER_SECOND) as nat)
        + "."@ + padded((measurement.duration.nanos % NANOS_PER_SECOND) as nat, 9) + "s"@
}

/// One line for each measurement, in order.
pub open spec fn measurement_lines(measurements: Seq<Measurement>) -> Seq<PieceView>
    decreases measurements.len(),
{
    if measurements.len() == 0 {
        Seq::empty()
    } else {
        measurement_lines(measurements.drop_last()) + seq![
            plain(shown(measurements.last())),
            PieceView::Break,
        ]
    }
}

/// The lines of one package: its name, its measurements, an empty line.
pub open spec fn group_lines(group: Group) -> Seq<PieceView> {
    seq![PieceView::Text(Style::Italic, group.package), plain(":"@), PieceView::Break]
        + measurement_lines(group.measurements) + seq![PieceView::Break]
}

/// The lines of every package, in the order of the ledger.
pub open spec fn ledger_lines(ledger: Seq<Group>) -> Seq<PieceView>
    decreases ledger.len(),
{
    if ledger.len() == 0 {
        Seq::empty()
    } else {
        ledger_lines(ledger.drop_last()) + group_lines(ledger.last())
    }
}

/// The summary of a run: a heading, the packages in the order in which
/// they were registered, each with its measurements in the order in which
/// they were taken, and the time of the whole run.
pub open spec fn summary(ledger: Seq<Group>, total: Measurement) -> Seq<PieceView> {
    seq![PieceView::Break, PieceView::Text(Style::Bold, "Benchmarks:"@), PieceView::Break]
        + ledger_lines(ledger) + seq![plain(shown(total)), PieceView::Break]
}

/// Appends one line for each benchmark, in order.
fn say_benchmarks(pieces: &mut Vec<Piece>, benchmarks: &Vec<Benchmark>)
    ensures
        script(final(pieces)@) == script(old(pieces)@) + measurement_lines(
            measurements(benchmarks@),
        ),
{
    let mut i: usize = 0;
    assert(measurements(benchmarks@).take(0) =~= Seq::<Measurement>::empty());
    assert(script(pieces@) =~= script(old(pieces)@) + measurement_lines(
        measurements(benchmarks@).take(0),
    ));
    while i < benchmarks.len()
        invariant
            i <= benchmarks.len(),
            script(pieces@) == script(old(pieces)@) + measurement_lines(
                measurements(benchmarks@).take(i as int),
            ),
        decreases benchmarks.len() - i,
    {
        let ghost before = script(pieces@);
        pieces.push(Piece::Text(Style::Plain, benchmarks[i].to_string()));
        pieces.push(Piece::Break);
        proof {
            let done = measurements(benchmarks@).take(i as int + 1);
            let line = seq![plain(shown(benchmarks@[i as int]@)), PieceView::Break];
            assert(done.drop_last() =~= measurements(benchmarks@).take(i as int));
            assert(done.last() == benchmarks@[i as int]@);
            assert(script(pieces@) =~= before + line);
            assert(measurement_lines(done) == measurement_lines(done.drop_last()) + line);
            assert(script(pieces@) =~= script(old(pieces)@) + measurement_lines(done));
        }
        i = i + 1;
    }
    assert(measurements(benchmarks@).take(benchmarks.len() as int) =~= measurements(benchmarks@));
}

impl Benchmark {
    /// The text of the measurement: the label, then the seconds with nine
    /// decimals.
    pub fn to_string(&self) -> (text: String)
        ensures
            text@ == shown(self@),
    {
        let mut text = self.label.clone();
        text.append(": ");
        push_decimal(&mut text, self.duration.secs());
        text.append(".");
        push_padded(&mut text, self.duration.subsec_nanos(), 9);
        text.append("s");
        text
    }

    /// A measurement of `duration` under `label`.
    pub fn new(label: &str, duration: Elapsed) -> (benchmark: Benchmark)
        ensures
            benchmark@ == (Measurement { label: label@, duration }),
    {
        Benchmark { label: owned(label), duration }
    }

    /// Takes the timestamp from which a measurement runs.
    pub fn start() -> Instant {
        Instant::now()
    }

    /// The measurement, under `label`, of the time that has passed since
    /// `start` was taken.
    pub fn finish(start: &Instant, label: &str) -> (benchmark: Benchmark)
        ensures
            benchmark@.label == label@,
    {
        Benchmark::new(label, Elapsed::since(start))
    }
}

/// The measurements of one package, in the order in which they were taken.
pub struct Group {
    pub package: Seq<char>,
    pub measurements: Seq<Measurement>,
}

/// Whether `ledger` has a group for `package`.
pub open spec fn holds(ledger: Seq<Group>, package: Seq<char>) -> bool {
    exists|i: int| 0 <= i < ledger.len() && (#[trigger] ledger[i]).package == package
}

/// The position of the group of `package` in a ledger that holds one.
pub open spec fn place(ledger: Seq<Group>, package: Seq<char>) -> int {
    choose|i: int| 0 <= i < ledger.len() && (#[trigger] ledger[i]).package == package
}

/// Whether no package has two groups.
pub open spec fn distinct(ledger: Seq<Group>) -> bool {
    forall|i: int, j: int|
        0 <= i < j < ledger.len() ==> (#[trigger] ledger[i]).package != (#[trigger] ledger[j]).package
}

/// The ledger after `package` is registered: its group is empty, at the
/// place it had before or, for a new package, at the end.
pub open spec fn registered(ledger: Seq<Group>, package: Seq<char>) -> Seq<Group> {
    let fresh = Group { package, measurements: Seq::empty() };
    if holds(ledger, package) {
        ledger.update(place(ledger, package), fresh)
    } else {
        ledger.push(fresh)
    }
}

/// The ledger after `measurement` is appended to the group of `package`; a
/// package without a group gets one at the end.
pub open spec fn recorded(ledger: Seq<Group>, package: Seq<char>, measurement: Measurement) -> Seq<
    Group,
> {
    if holds(ledger, package) {
        let at = place(ledger, package);
        ledger.update(
            at,
            Group { package, measurements: ledger[at].measurements.push(measurement) },
        )
    } else {
        ledger.push(Group { package, measurements: seq![measurement] })
    }
}

/// The measurements of one package.
struct Entry {
    name: String,
    benchmarks: Vec<Benchmark>,
}

/// The measurements of a run, grouped by package in the order in which the
/// packages were registered. No package name occurs twice.
pub struct BenchmarkLedger {
    entries: Vec<Entry>,
}

impl View for BenchmarkLedger {
    type V = Seq<Group>;

    closed spec fn view(&self) -> Seq<Group> {
        Seq::new(
            self.entries.len() as nat,
            |i: int|
                Group {
                    package: self.entries[i].name@,
                    measurements: measurements(self.entries[i].benchmarks@),
                },
        )
    }
}

impl BenchmarkLedger {
    #[verifier::type_invariant]
    spec fn names_differ(self) -> bool {
        forall|i: int, j: int|
            0 <= i < j < self.entries.len() ==> (#[trigger] self.entries[i]).name@ != (
            #[trigger] self.entries[j]).name@
    }

    /// A ledger without any group.
    pub fn new() -> (ledger: BenchmarkLedger)
        ensures
            ledger@ == Seq::<Group>::empty(),
            distinct(ledger@),
    {
        let ledger = BenchmarkLedger { entries: Vec::new() };
        assert(ledger@ =~= Seq::<Group>::empty());
        ledger
    }

    /// Names that differ pairwise give a ledger without a repeated package.
    proof fn lemma_distinct(self)
        requires
            self.names_differ(),
        ensures
            distinct(self@),
    {
        assert forall|i: int, j: int| 0 <= i < j < self@.len() implies (#[trigger] self@[i]).package
            != (#[trigger] self@[j]).package by {
            assert(self.entries[i].name@ != self.entries[j].name@);
        }
    }

    /// The number of groups.
    pub fn len(&self) -> (count: usize)
        ensures
            count == self@.len(),
    {
        self.entries.len()
    }

    /// The position of the group of `package`, if it has one.
    pub fn find(&self, package: &str) -> (found: Option<usize>)
        ensures
            match found {
                Some(at) => holds(self@, package@) && at == place(self@, package@),
                None => !holds(self@, package@),
            },
    {
        proof {
            use_type_invariant(self);
            self.lemma_distinct();
        }
        let key = owned(package);
        let mut i: usize = 0;
        while i < self.entries.len()
            invariant
                i <= self.entries.len(),
                key@ == package@,
                distinct(self@),
                forall|j: int| 0 <= j < i ==> (#[trigger] self@[j]).package != package@,
            decreases self.entries.len() - i,
        {
            if self.entries[i].name == key {
                proof {
                    assert(self@[i as int].package == package@);
                    let at = place(self@, package@);
                    assert(self@[at].package == package@);
                    assert(at == i);
                }
                return Some(i);
            }
            i = i + 1;
        }
        None
    }

    /// The package and the benchmarks of the group at position `at`, if
    /// there is one.
    pub fn group(&self, at: usize) -> (found: Option<(&str, &Vec<Benchmark>)>)
        ensures
            match found {
                Some((package, benchmarks)) => at < self@.len() && package@ == self@[at as int].package
                    && measurements(benchmarks@) == self@[at as int].measurements,
                None => at >= self@.len(),
            },
    {
        if at < self.entries.len() {
            Some((self.entries[at].name.as_str(), &self.entries[at].benchmarks))
        } else {
            None
        }
    }

    /// The summary of the run, where `total` is the time of the whole run.
    pub fn summary(&self, total: &Benchmark) -> (pieces: Vec<Piece>)
        ensures
            script(pieces@) == summary(self@, total@),
    {
        let mut pieces: Vec<Piece> = Vec::new();
        pieces.push(Piece::Break);
        pieces.push(Piece::Text(Style::Bold, owned("Benchmarks:")));
        pieces.push(Piece::Break);
        let ghost head = script(pieces@);
        assert(head =~= seq![
            PieceView::Break,
            PieceView::Text(Style::Bold, "Benchmarks:"@),
            PieceView::Break,
        ]);
        let mut i: usize = 0;
        assert(self@.take(0) =~= Seq::<Group>::empty());
        assert(script(pieces@) =~= head + ledger_lines(self@.take(0)));
        while i < self.entries.len()
            invariant
                i <= self.entries.len(),
                script(pieces@) == head + ledger_lines(self@.take(i as int)),
            decreases self.entries.len() - i,
        {
            let ghost before = script(pieces@);
            pieces.push(Piece::Text(Style::Italic, self.entries[i].name.clone()));
            pieces.push(Piece::Text(Style::Plain, owned(":")));
            pieces.push(Piece::Break);
            let ghost named = script(pieces@);
            say_benchmarks(&mut pieces, &self.entries[i].benchmarks);
            let ghost listed = script(pieces@);
            pieces.push(Piece::Break);
            proof {
                let done = self@.take(i as int + 1);
                let group = self@[i as int];
                assert(done.drop_last() =~= self@.take(i as int));
                assert(done.last() == group);
                assert(named =~= before + seq![
                    PieceView::Text(Style::Italic, group.package),
                    plain(":"@),
                    PieceView::Break,
                ]);
                assert(listed == named + measurement_lines(group.measurements));
                assert(script(pieces@) =~= listed + seq![PieceView::Break]);
                assert(script(pieces@) =~= before + group_lines(group));
                assert(script(pieces@) =~= head + ledger_lines(done));
            }
            i = i + 1;
        }
        assert(self@.take(self.entries.len() as int) =~= self@);
        let ghost body = script(pieces@);
        pieces.push(Piece::Text(Style::Plain, total.to_string()));
        pieces.push(Piece::Break);
        assert(script(pieces@) =~= body + seq![plain(shown(total@)), PieceView::Break]);
        pieces
    }

    /// Registers `package` with an empty group. A package that is already
    /// registered keeps its place and loses its measurements.
    pub fn register(&mut self, package: &str)
        ensures
            final(self)@ == registered(old(self)@, package@),
            distinct(final(self)@),
    {
        proof {
            use_type_invariant(&*self);
        }
        let found = self.find(package);
        let mut entries: Vec<Entry> = Vec::new();
        core::mem::swap(&mut self.entries, &mut entries);
        let ghost before = entries@;
        match found {
            Some(at) => {
                entries[at].benchmarks = Vec::new();
                assert(entries@[at as int].name == before[at as int].name);
                assert(measurements(entries@[at as int].benchmarks@) =~= Seq::empty());
            },
            None => {
                entries.push(Entry { name: owned(package), benchmarks: Vec::new() });
                assert(measurements(entries@[before.len() as int].benchmarks@) =~= Seq::empty());
            },
        }
        proof {
            assert forall|i: int, j: int| 0 <= i < j < entries.len() implies (#[trigger] entries@[i]).name@
                != (#[trigger] entries@[j]).name@ by {
                if found is None {
                    if j == before.len() {
                        assert(old(self)@[i].package != package@);
                    } else {
                        assert(before[i].name@ != before[j].name@);
                    }
                } else {
                    assert(before[i].name@ != before[j].name@);
                }
            }
        }
        self.entries = entries;
        proof {
            assert(self@ =~= registered(old(self)@, package@));
            self.lemma_distinct();
        }
    }

    /// Appends `benchmark` to the group of `package`, registering the
    /// package first if it has no group.
    pub fn record(&mut self, package: &str, benchmark: Benchmark)
        ensures
            final(self)@ == recorded(old(self)@, package@, benchmark@),
            distinct(final(self)@),
    {
        proof {
            use_type_invariant(&*self);
        }
        let found = self.find(package);
        let mut entries: Vec<Entry> = Vec::new();
        core::mem::swap(&mut self.entries, &mut entries);
        let ghost before = entries@;
        let ghost measurement = benchmark@;
        match found {
            Some(at) => {
                entries[at].benchmarks.push(benchmark);
                assert(entries@[at as int].name == before[at as int].name);
                assert(measurements(entries@[at as int].benchmarks@) =~= measurements(
                    before[at as int].benchmarks@,
                ).push(measurement));
            },
            None => {
                let mut benchmarks: Vec<Benchmark> = Vec::new();
                benchmarks.push(benchmark);
                assert(measurements(benchmarks@) =~= seq![measurement]);
                entries.push(Entry { name: owned(package), benchmarks });
            },
        }
        proof {
            assert forall|i: int, j: int| 0 <= i < j < entries.len() implies (#[trigger] entries@[i]).name@
                != (#[trigger] entries@[j]).name@ by {
                if found is None {
                    if j == before.len() {
                        assert(old(self)@[i].package != package@);
                    } else {
                        assert(before[i].name@ != before[j].name@);
                    }
                } else {
                    assert(before[i].name@ != before[j].name@);
                }
            }
        }
        self.entries = entries;
        proof {
            assert(self@ =~= recorded(old(self)@, package@, measurement));
            self.lemma_distinct();
        }
    }
}

} // verus!
