use super_analyzer::benchmark::{Benchmark, BenchmarkLedger, Elapsed};
use super_analyzer::console::{Piece, Style};
use super_analyzer::error::ErrorKind;
use super_analyzer::pipeline::{Event, Settings, Stage};
use super_analyzer::run::{greet, Package, RunAction, RunController};

fn time(secs: u64, nanos: u32) -> Elapsed {
    Elapsed::new(secs, nanos)
}

fn lines(texts: &[&str]) -> Vec<String> {
    texts.iter().map(|text| text.to_string()).collect()
}

fn text(style: Style, content: &str) -> Piece {
    Piece::Text(style, content.to_string())
}

fn settings(bench: bool, open: bool) -> Settings {
    Settings {
        bench,
        open,
        html: false,
        quiet: true,
        verbose: false,
        force: false,
    }
}

fn packages(names: &[&str]) -> Vec<Package> {
    names
        .iter()
        .map(|name| Package {
            name: name.to_string(),
            target: format!("results/{}", name),
        })
        .collect()
}

fn contents(ledger: &BenchmarkLedger) -> Vec<(String, Vec<Benchmark>)> {
    let mut groups = Vec::new();
    for at in 0..ledger.len() {
        let (package, benchmarks) = ledger.group(at).unwrap();
        groups.push((package.to_string(), benchmarks.clone()));
    }
    groups
}

fn labels(benchmarks: &[Benchmark]) -> Vec<String> {
    benchmarks.iter().map(|b| b.label.clone()).collect()
}

fn all_stages() -> Vec<Stage> {
    vec![
        Stage::Unpack,
        Stage::Convert,
        Stage::Decompile,
        Stage::Prepare,
        Stage::Analyze,
        Stage::Report,
    ]
}

fn announcement(package: &str) -> Vec<Piece> {
    vec![
        Piece::Break,
        text(Style::Plain, "Starting analysis of "),
        text(Style::Italic, package),
        text(Style::Plain, "."),
        Piece::Break,
    ]
}

#[test]
fn a_run_without_packages_is_finished_at_once() {
    let run = RunController::new(settings(false, false), vec![]);
    assert_eq!(run.action(), RunAction::Stop);
    assert_eq!(run.failure(), None);
    assert_eq!(run.ledger().len(), 0);
    assert_eq!(run.notices(), &vec![]);
    assert_eq!(run.total_time(), None);
    assert_eq!(run.summary(), None);
    let timed = RunController::new(settings(true, false), vec![]);
    assert_eq!(timed.action(), RunAction::Stop);
    assert_eq!(timed.total_time().unwrap().label, "Total time");
    assert_eq!(timed.summary().unwrap().len(), 5);
}

#[test]
fn a_run_begins_with_the_first_stage_of_the_first_package() {
    let mut loud = settings(true, false);
    loud.quiet = false;
    let run = RunController::new(loud, packages(&["a.apk", "b.apk"]));
    assert_eq!(run.action(), RunAction::Perform(0, Stage::Unpack));
    assert_eq!(run.notices(), &announcement("a.apk"));
    assert_eq!(contents(run.ledger()), vec![("a.apk".to_string(), vec![])]);
    assert_eq!(run.failure(), None);
    assert_eq!(run.summary(), None);
}

#[test]
fn every_package_is_run_through_its_stages_in_the_order_of_the_list() {
    let mut run = RunController::new(settings(true, false), packages(&["a.apk", "b.apk"]));
    let mut trace = vec![run.action()];
    while *trace.last().unwrap() != RunAction::Stop {
        trace.push(run.advance(Event::Completed, time(1, 0), time(7, 0)));
    }
    let mut expected = vec![];
    for at in 0..2 {
        for stage in all_stages() {
            expected.push(RunAction::Perform(at, stage));
        }
    }
    expected.push(RunAction::Stop);
    assert_eq!(trace, expected);
    assert_eq!(run.failure(), None);
    let ledger = contents(run.ledger());
    assert_eq!(ledger.len(), 2);
    assert_eq!(ledger[0].0, "a.apk");
    assert_eq!(ledger[1].0, "b.apk");
    assert_eq!(
        labels(&ledger[0].1),
        lines(&[
            "Apk decompression",
            "Dex to Jar decompilation (dex2jar Java dependency)",
            "Decompilation (jd-cli Java dependency)",
            "Total static analysis",
            "Report generation",
            "Total time for a.apk",
        ])
    );
    assert_eq!(
        ledger[1].1.last(),
        Some(&Benchmark::new("Total time for b.apk", time(7, 0)))
    );
    assert_eq!(run.total_time().unwrap().label, "Total time");
    let summary = run.summary().unwrap();
    assert_eq!(summary.len(), 3 + 2 * (3 + 6 * 2 + 1) + 2);
    assert_eq!(summary[1], text(Style::Bold, "Benchmarks:"));
    assert_eq!(summary[3], text(Style::Italic, "a.apk"));
    assert_eq!(summary[4], text(Style::Plain, ":"));
    assert_eq!(summary[5], Piece::Break);
    assert_eq!(
        summary[6],
        text(Style::Plain, "Apk decompression: 1.000000000s")
    );
}

#[test]
fn a_failure_in_the_second_of_three_packages_ends_the_run() {
    let mut run = RunController::new(
        settings(true, false),
        packages(&["one.apk", "two.apk", "three.apk"]),
    );
    let mut trace = vec![run.action()];
    for _ in 0..6 {
        trace.push(run.advance(Event::Completed, time(1, 0), time(7, 0)));
    }
    assert_eq!(trace[5], RunAction::Perform(0, Stage::Report));
    assert_eq!(trace[6], RunAction::Perform(1, Stage::Unpack));
    let action = run.advance(
        Event::Failed(lines(&["the archive is damaged"])),
        time(1, 0),
        time(1, 0),
    );
    assert_eq!(action, RunAction::Stop);
    let failure = run.failure().unwrap().clone();
    assert_eq!(failure.kind, ErrorKind::Stage);
    assert_eq!(
        failure.chain,
        lines(&[
            "Application analysis failed",
            "apk decompression failed",
            "the archive is damaged",
        ])
    );
    assert_eq!(failure.exit_code(), 1);
    let ledger = contents(run.ledger());
    assert_eq!(ledger.len(), 2);
    assert_eq!(ledger[0].0, "one.apk");
    assert_eq!(ledger[0].1.len(), 6);
    assert_eq!(ledger[1], ("two.apk".to_string(), vec![]));
    for _ in 0..10 {
        assert_eq!(
            run.advance(Event::Completed, time(1, 0), time(1, 0)),
            RunAction::Stop
        );
    }
    assert_eq!(run.failure(), Some(&failure));
    assert_eq!(contents(run.ledger()), ledger);
    assert_eq!(run.total_time(), None);
    assert_eq!(run.summary(), None);
    for action in trace {
        match action {
            RunAction::Perform(at, _) => assert!(at < 2),
            RunAction::Stop => panic!("the run stopped before the failure"),
        }
    }
}

#[test]
fn without_benchmarking_the_ledger_stays_empty_and_there_is_no_summary() {
    let mut run = RunController::new(settings(false, true), packages(&["a.apk", "b.apk"]));
    let mut steps = 0;
    while run.action() != RunAction::Stop {
        assert_eq!(run.ledger().len(), 0);
        assert_eq!(run.summary(), None);
        run.step(Event::Completed);
        steps += 1;
    }
    assert_eq!(steps, 2 * 7);
    assert_eq!(run.failure(), None);
    assert_eq!(run.ledger().len(), 0);
    assert_eq!(run.total_time(), None);
    assert_eq!(run.summary(), None);
}

#[test]
fn a_report_that_cannot_be_opened_fails_the_run_after_it_was_generated() {
    let mut run = RunController::new(settings(true, true), packages(&["a.apk", "b.apk"]));
    let mut action = run.action();
    while action != RunAction::Perform(0, Stage::Open) {
        assert_ne!(action, RunAction::Stop);
        action = run.advance(Event::Completed, time(1, 0), time(7, 0));
    }
    let action = run.advance(
        Event::Exited {
            success: false,
            status: "exit status: 4".to_string(),
        },
        time(1, 0),
        time(8, 0),
    );
    assert_eq!(action, RunAction::Stop);
    let failure = run.failure().unwrap();
    assert_eq!(failure.kind, ErrorKind::Open);
    assert_eq!(
        failure.chain,
        lines(&[
            "Application analysis failed",
            "Report opening errored with status code: exit status: 4",
        ])
    );
    assert_ne!(failure.exit_code(), 0);
    let ledger = contents(run.ledger());
    assert_eq!(ledger.len(), 1);
    assert_eq!(ledger[0].1.len(), 4);
}

#[test]
fn a_handler_that_cannot_be_started_fails_the_run_too() {
    let mut run = RunController::new(settings(false, true), packages(&["a.apk"]));
    let mut action = run.action();
    while action != RunAction::Perform(0, Stage::Open) {
        action = run.advance(Event::Completed, time(1, 0), time(7, 0));
    }
    run.advance(Event::Failed(lines(&["xdg-open: not found"])), time(1, 0), time(8, 0));
    assert_eq!(
        run.failure().unwrap().chain,
        lines(&[
            "Application analysis failed",
            "Report could not be opened automatically",
            "xdg-open: not found",
        ])
    );
}

#[test]
fn the_force_override_of_one_package_does_not_reach_the_next() {
    let mut run = RunController::new(
        settings(false, false),
        packages(&["a.apk", "b.apk", "c.apk"]),
    );
    assert!(!run.force());
    assert_eq!(run.action(), RunAction::Perform(0, Stage::Unpack));
    run.set_force();
    assert!(run.force());
    let mut action = run.advance(Event::Completed, time(0, 0), time(0, 0));
    while let RunAction::Perform(0, _) = action {
        assert!(run.force());
        action = run.advance(Event::Completed, time(0, 0), time(0, 0));
    }
    assert_eq!(action, RunAction::Perform(1, Stage::Unpack));
    assert!(!run.force());
    action = run.advance(Event::Completed, time(0, 0), time(0, 0));
    assert_eq!(action, RunAction::Perform(1, Stage::Convert));
    assert!(!run.force());
    run.set_force();
    while let RunAction::Perform(1, _) = action {
        assert!(run.force());
        action = run.advance(Event::Completed, time(0, 0), time(0, 0));
    }
    assert_eq!(action, RunAction::Perform(2, Stage::Unpack));
    assert!(!run.force());
    while action != RunAction::Stop {
        assert!(!run.force());
        action = run.advance(Event::Completed, time(0, 0), time(0, 0));
    }
    run.set_force();
    assert!(!run.force());
}

#[test]
fn a_run_that_is_forced_throughout_stays_forced() {
    let mut forced = settings(false, false);
    forced.force = true;
    let mut run = RunController::new(forced, packages(&["a.apk", "b.apk"]));
    let mut action = run.action();
    while action != RunAction::Stop {
        assert!(run.force());
        action = run.advance(Event::Completed, time(0, 0), time(0, 0));
    }
    assert!(run.force());
}

#[test]
fn each_step_gives_to_say_what_the_pipeline_says() {
    let mut chatty = settings(false, false);
    chatty.quiet = false;
    chatty.verbose = true;
    let mut run = RunController::new(chatty, packages(&["a.apk", "b.apk"]));
    assert_eq!(run.notices(), &announcement("a.apk"));
    run.advance(Event::Completed, time(0, 0), time(0, 0));
    assert_eq!(run.notices(), &vec![]);
    run.advance(Event::Completed, time(0, 0), time(0, 0));
    assert_eq!(run.notices().len(), 3);
    run.advance(Event::Completed, time(0, 0), time(0, 0));
    run.advance(Event::Completed, time(0, 0), time(0, 0));
    assert_eq!(
        run.advance(Event::Completed, time(0, 0), time(0, 0)),
        RunAction::Perform(0, Stage::Report)
    );
    assert_eq!(run.notices(), &vec![Piece::Break]);
    assert_eq!(
        run.advance(Event::Completed, time(0, 0), time(0, 0)),
        RunAction::Perform(1, Stage::Unpack)
    );
    let said = run.notices().clone();
    assert_eq!(said.len(), 10 + 5);
    assert_eq!(
        said[0],
        text(
            Style::Plain,
            "Everything went smoothly, now you can check all the results."
        )
    );
    assert_eq!(said[5], Piece::Pause(1500));
    assert_eq!(said[7], text(Style::BoldGreen, "Rust"));
    assert_eq!(said[10..].to_vec(), announcement("b.apk"));
    run.advance(Event::Failed(lines(&["x"])), time(0, 0), time(0, 0));
    assert_eq!(run.notices(), &vec![]);
    run.advance(Event::Completed, time(0, 0), time(0, 0));
    assert_eq!(run.notices(), &vec![]);
}

#[test]
fn the_welcome_types_out_the_banner_in_verbose_mode() {
    assert_eq!(greet("SUPER", false), vec![]);
    assert_eq!(
        greet("Hi\n", true),
        vec![
            text(Style::Plain, "H"),
            Piece::Pause(3),
            text(Style::Plain, "i"),
            Piece::Pause(3),
            text(Style::Plain, "\n"),
            Piece::Pause(3),
            text(
                Style::Plain,
                "Welcome to the SUPER Android Analyzer. We will now try to audit the given application."
            ),
            Piece::Break,
            text(Style::Plain, "You activated the verbose mode. "),
            text(Style::Bold, "May Tux be with you!"),
            Piece::Break,
            Piece::Break,
            Piece::Pause(1250),
        ]
    );
    let accented = greet("\u{e9}\u{2026}", true);
    assert_eq!(accented[0], text(Style::Plain, "\u{e9}"));
    assert_eq!(accented[2], text(Style::Plain, "\u{2026}"));
    assert_eq!(greet("", true).len(), 7);
}
