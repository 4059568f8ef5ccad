use std::time::Duration;

use super_analyzer::benchmark::{Benchmark, BenchmarkLedger, Elapsed};
use super_analyzer::console::{Piece, Style};

fn time(secs: u64, nanos: u32) -> Elapsed {
    Elapsed::new(secs, nanos)
}

fn text(style: Style, content: &str) -> Piece {
    Piece::Text(style, content.to_string())
}

fn contents(ledger: &BenchmarkLedger) -> Vec<(String, Vec<Benchmark>)> {
    let mut groups = Vec::new();
    for at in 0..ledger.len() {
        let (package, benchmarks) = ledger.group(at).unwrap();
        groups.push((package.to_string(), benchmarks.clone()));
    }
    assert_eq!(ledger.group(ledger.len()), None);
    groups
}

#[test]
fn a_benchmark_holds_its_label_and_duration() {
    let benchmark = Benchmark::new("Apk decompression", time(3, 250));
    assert_eq!(benchmark.label, "Apk decompression");
    assert_eq!(benchmark.duration, time(3, 250));
}

#[test]
fn a_length_of_time_is_a_number_of_nanoseconds() {
    assert_eq!(time(0, 0).nanos, 0);
    assert_eq!(time(3, 5).nanos, 3_000_000_005);
    assert_eq!(time(1, 999_999_999).nanos, 1_999_999_999);
    assert_eq!(time(0, 1_000_000_001).nanos, 1_000_000_001);
    assert_eq!(
        time(18446744073709551615, 4294967295).nanos,
        18446744073709551615_000_000_000 + 4294967295
    );
    assert_eq!(time(3, 5).secs(), 3);
    assert_eq!(time(3, 5).subsec_nanos(), 5);
    assert_eq!(time(7, 1_000_000_001).secs(), 8);
    assert_eq!(time(7, 1_000_000_001).subsec_nanos(), 1);
    assert_eq!(Elapsed { nanos: 999_999_999 }.secs(), 0);
    assert_eq!(Elapsed { nanos: 999_999_999 }.subsec_nanos(), 999_999_999);
}

#[test]
fn the_length_of_a_duration_is_taken_in_nanoseconds() {
    assert_eq!(Elapsed::of(Duration::new(3, 5)), time(3, 5));
    assert_eq!(Elapsed::of(Duration::from_millis(1250)), time(1, 250_000_000));
    assert_eq!(Elapsed::of(Duration::new(0, 999_999_999)), time(0, 999_999_999));
    assert_eq!(Elapsed::of(Duration::new(7, 1_000_000_001)), time(8, 1));
    assert_eq!(Elapsed::of(Duration::new(0, 0)), time(0, 0));
    assert_eq!(
        Elapsed::of(Duration::new(18446744073709551615, 999_999_999)).nanos,
        18446744073709551615_999_999_999
    );
}

#[test]
fn finishing_measures_the_time_since_the_start() {
    let start = Benchmark::start();
    while Elapsed::since(&start).nanos < 20_000_000 {}
    let benchmark = Benchmark::finish(&start, "Total time");
    assert_eq!(benchmark.label, "Total time");
    assert!(benchmark.duration.nanos >= 20_000_000);
    assert!(benchmark.duration.secs() < 20);
    let later = Elapsed::since(&start);
    assert!(later.nanos >= benchmark.duration.nanos);
}

#[test]
fn a_benchmark_is_written_with_nine_decimals() {
    let cases = [
        (time(12, 345), "Total time: 12.000000345s"),
        (time(0, 0), "Total time: 0.000000000s"),
        (time(1, 500_000_000), "Total time: 1.500000000s"),
        (time(9, 999_999_999), "Total time: 9.999999999s"),
        (time(10, 1), "Total time: 10.000000001s"),
        (time(1234567890, 123_456_789), "Total time: 1234567890.123456789s"),
        (
            time(18446744073709551615, 7),
            "Total time: 18446744073709551615.000000007s",
        ),
        (time(2, 3_500_000_000), "Total time: 5.500000000s"),
        (
            Elapsed { nanos: 340282366920938463463374607431768211455 },
            "Total time: 340282366920938463463374607431.768211455s",
        ),
    ];
    for (duration, written) in cases {
        assert_eq!(Benchmark::new("Total time", duration).to_string(), written);
    }
    assert_eq!(Benchmark::new("", time(105, 60)).to_string(), ": 105.000000060s");
}

#[test]
fn a_new_ledger_is_empty() {
    let ledger = BenchmarkLedger::new();
    assert_eq!(ledger.len(), 0);
    assert_eq!(ledger.find("app"), None);
    assert_eq!(ledger.group(0), None);
}

#[test]
fn packages_keep_the_order_in_which_they_were_registered() {
    let mut ledger = BenchmarkLedger::new();
    ledger.register("zebra");
    ledger.register("apple");
    ledger.register("mango");
    assert_eq!(ledger.len(), 3);
    assert_eq!(ledger.find("zebra"), Some(0));
    assert_eq!(ledger.find("apple"), Some(1));
    assert_eq!(ledger.find("mango"), Some(2));
    assert_eq!(ledger.find("Apple"), None);
    assert_eq!(
        contents(&ledger),
        vec![
            ("zebra".to_string(), vec![]),
            ("apple".to_string(), vec![]),
            ("mango".to_string(), vec![]),
        ]
    );
}

#[test]
fn measurements_are_appended_to_their_package_in_order() {
    let mut ledger = BenchmarkLedger::new();
    ledger.register("one");
    ledger.register("two");
    ledger.record("two", Benchmark::new("a", time(1, 0)));
    ledger.record("one", Benchmark::new("b", time(2, 0)));
    ledger.record("two", Benchmark::new("c", time(3, 0)));
    assert_eq!(
        contents(&ledger),
        vec![
            ("one".to_string(), vec![Benchmark::new("b", time(2, 0))]),
            (
                "two".to_string(),
                vec![Benchmark::new("a", time(1, 0)), Benchmark::new("c", time(3, 0))]
            ),
        ]
    );
}

#[test]
fn registering_again_empties_the_group_in_its_place() {
    let mut ledger = BenchmarkLedger::new();
    ledger.register("one");
    ledger.register("two");
    ledger.record("one", Benchmark::new("a", time(1, 0)));
    ledger.record("two", Benchmark::new("b", time(2, 0)));
    ledger.register("one");
    assert_eq!(ledger.len(), 2);
    assert_eq!(
        contents(&ledger),
        vec![
            ("one".to_string(), vec![]),
            ("two".to_string(), vec![Benchmark::new("b", time(2, 0))]),
        ]
    );
}

#[test]
fn recording_for_an_unregistered_package_registers_it() {
    let mut ledger = BenchmarkLedger::new();
    ledger.register("one");
    ledger.record("new", Benchmark::new("a", time(1, 0)));
    ledger.record("new", Benchmark::new("b", time(2, 0)));
    assert_eq!(
        contents(&ledger),
        vec![
            ("one".to_string(), vec![]),
            (
                "new".to_string(),
                vec![Benchmark::new("a", time(1, 0)), Benchmark::new("b", time(2, 0))]
            ),
        ]
    );
}

#[test]
fn the_summary_lists_the_packages_in_order_and_ends_with_the_total() {
    let mut ledger = BenchmarkLedger::new();
    ledger.register("zebra.apk");
    ledger.register("apple.apk");
    ledger.record("zebra.apk", Benchmark::new("Apk decompression", time(1, 5)));
    ledger.record("apple.apk", Benchmark::new("Apk decompression", time(0, 700)));
    ledger.record("zebra.apk", Benchmark::new("Report generation", time(2, 0)));
    let total = Benchmark::new("Total time", time(4, 1));
    assert_eq!(
        ledger.summary(&total),
        vec![
            Piece::Break,
            text(Style::Bold, "Benchmarks:"),
            Piece::Break,
            text(Style::Italic, "zebra.apk"),
            text(Style::Plain, ":"),
            Piece::Break,
            text(Style::Plain, "Apk decompression: 1.000000005s"),
            Piece::Break,
            text(Style::Plain, "Report generation: 2.000000000s"),
            Piece::Break,
            Piece::Break,
            text(Style::Italic, "apple.apk"),
            text(Style::Plain, ":"),
            Piece::Break,
            text(Style::Plain, "Apk decompression: 0.000000700s"),
            Piece::Break,
            Piece::Break,
            text(Style::Plain, "Total time: 4.000000001s"),
            Piece::Break,
        ]
    );
}

#[test]
fn the_summary_of_an_empty_ledger_is_heading_and_total() {
    let ledger = BenchmarkLedger::new();
    assert_eq!(
        ledger.summary(&Benchmark::new("Total time", time(0, 42))),
        vec![
            Piece::Break,
            text(Style::Bold, "Benchmarks:"),
            Piece::Break,
            text(Style::Plain, "Total time: 0.000000042s"),
            Piece::Break,
        ]
    );
}
