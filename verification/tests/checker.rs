use oplpages::checker::CheckStep;
use oplpages::checker::CheckerInput;
use oplpages::checker::CheckerOutput;
use oplpages::checker::EntriesCheckResult;
use oplpages::checker::Meet;
use oplpages::checker::MeetCheckResult;
use oplpages::checker::Message;
use oplpages::checker::ParsedMeet;
use oplpages::checker::PendingEntries;
use oplpages::checker::Report;
use oplpages::checker::check;
use oplpages::checker::check_entries;
use oplpages::checker::check_meet;

fn msg(text: &str) -> Message {
    Message { text: text.to_string() }
}

fn meet() -> Meet {
    Meet { name: "Example Open".to_string(), date: "2020-01-04".to_string() }
}

#[test]
fn meet_io_error_short_circuits() {
    let step = check_meet(Err("disk failure".to_string()));
    match step {
        CheckStep::Done(out) => {
            assert_eq!(out.io_error, Some("disk failure".to_string()));
            assert!(out.meet_messages.is_empty());
            assert!(out.entries_messages.is_empty());
        }
        CheckStep::Entries(_) => panic!("an engine failure must complete the response"),
    }
}

#[test]
fn meet_without_record_skips_entries() {
    let result = MeetCheckResult {
        report: Report { messages: vec![msg("missing required column")] },
        meet: ParsedMeet::NoMeet,
    };
    let step = check_meet(Ok(result));
    match step {
        CheckStep::Done(out) => {
            assert_eq!(out.io_error, None);
            assert_eq!(out.meet_messages, vec![msg("missing required column")]);
            assert!(out.entries_messages.is_empty());
        }
        CheckStep::Entries(_) => panic!("without a meet record the entries are never checked"),
    }
}

#[test]
fn parsed_meet_is_handed_on_as_context() {
    let result = MeetCheckResult {
        report: Report { messages: vec![msg("unusual federation")] },
        meet: ParsedMeet::Parsed(meet()),
    };
    let step = check_meet(Ok(result));
    match step {
        CheckStep::Done(_) => panic!("a parsed meet must ask for the entries check"),
        CheckStep::Entries(pending) => {
            assert_eq!(pending.meet, meet());
            assert_eq!(pending.so_far.io_error, None);
            assert_eq!(pending.so_far.meet_messages, vec![msg("unusual federation")]);
            assert!(pending.so_far.entries_messages.is_empty());
        }
    }
}

#[test]
fn entries_io_error_keeps_meet_messages() {
    let pending = PendingEntries {
        so_far: CheckerOutput::with_meet_messages(vec![msg("unusual federation")]),
        meet: meet(),
    };
    let out = check_entries(pending, Err("encoding failure".to_string()));
    assert_eq!(out.io_error, Some("encoding failure".to_string()));
    assert_eq!(out.meet_messages, vec![msg("unusual federation")]);
    assert!(out.entries_messages.is_empty());
}

#[test]
fn entries_success_populates_both_lists() {
    let pending = PendingEntries {
        so_far: CheckerOutput::with_meet_messages(vec![msg("unusual federation")]),
        meet: meet(),
    };
    let outcome = Ok(EntriesCheckResult {
        report: Report { messages: vec![msg("lifter date out of range")] },
    });
    let out = check_entries(pending, outcome);
    assert_eq!(out.io_error, None);
    assert_eq!(out.meet_messages, vec![msg("unusual federation")]);
    assert_eq!(out.entries_messages, vec![msg("lifter date out of range")]);
}

#[test]
fn check_meet_error_end_to_end() {
    let out = check(Err("disk failure".to_string()), None);
    assert_eq!(out.io_error, Some("disk failure".to_string()));
    assert!(out.meet_messages.is_empty());
    assert!(out.entries_messages.is_empty());
}

#[test]
fn check_empty_files_scenario() {
    // For `meet="", entries=""` the engine reports a structural error for
    // the meet and yields no record, so the entries file is never checked.
    let input = CheckerInput { meet: "".to_string(), entries: "".to_string() };
    assert_eq!(input.meet, "");
    assert_eq!(input.entries, "");
    let engine_outcome = MeetCheckResult {
        report: Report { messages: vec![msg("missing required column")] },
        meet: ParsedMeet::NoMeet,
    };
    let out = check(Ok(engine_outcome), None);
    assert_eq!(out.io_error, None);
    assert_eq!(out.meet_messages, vec![msg("missing required column")]);
    assert!(out.entries_messages.is_empty());
}

#[test]
fn check_valid_files_scenario() {
    // A syntactically valid minimal meet and entries pair: the engine
    // parses a meet record and neither run produces diagnostics.
    let meet_outcome = MeetCheckResult {
        report: Report { messages: vec![] },
        meet: ParsedMeet::Parsed(meet()),
    };
    let entries_outcome = EntriesCheckResult { report: Report { messages: vec![] } };
    let out = check(Ok(meet_outcome), Some(Ok(entries_outcome)));
    assert_eq!(out.io_error, None);
    assert!(out.meet_messages.is_empty());
    assert!(out.entries_messages.is_empty());
}

#[test]
fn check_entries_error_end_to_end() {
    let meet_outcome = MeetCheckResult {
        report: Report { messages: vec![msg("unusual federation")] },
        meet: ParsedMeet::Parsed(meet()),
    };
    let out = check(Ok(meet_outcome), Some(Err("encoding failure".to_string())));
    assert_eq!(out.io_error, Some("encoding failure".to_string()));
    assert_eq!(out.meet_messages, vec![msg("unusual federation")]);
    assert!(out.entries_messages.is_empty());
}

#[test]
fn constructors_set_exactly_their_field() {
    let err = CheckerOutput::with_io_error("boom".to_string());
    assert_eq!(err.io_error, Some("boom".to_string()));
    assert!(err.meet_messages.is_empty());
    assert!(err.entries_messages.is_empty());

    let with = CheckerOutput::with_meet_messages(vec![msg("a"), msg("b")]);
    assert_eq!(with.io_error, None);
    assert_eq!(with.meet_messages, vec![msg("a"), msg("b")]);
    assert!(with.entries_messages.is_empty());
}

#[test]
fn message_order_is_preserved() {
    let result = MeetCheckResult {
        report: Report { messages: vec![msg("first"), msg("second"), msg("third")] },
        meet: ParsedMeet::NoMeet,
    };
    let out = check(Ok(result), None);
    assert_eq!(out.meet_messages, vec![msg("first"), msg("second"), msg("third")]);
}
