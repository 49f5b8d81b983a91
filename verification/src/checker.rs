//! The checker page: orchestration of the two-step CSV validation protocol.
//!
//! An external checking engine owns the actual validation work. It is driven
//! in two steps: `check_meet_from_string` on the meet file, then, only when a
//! usable meet record came out of that, `check_entries_from_string` on the
//! entries file with the meet record as context. This module holds the data
//! shapes exchanged with the client and the decision logic between the two
//! engine calls; the caller performs the engine calls themselves and feeds
//! their outcomes in.

use vstd::prelude::*;

verus! {

/// A single diagnostic produced by the checking engine for one of the CSV
/// files. The engine's report is passed through to the client verbatim; at
/// this layer a message is just its text.
#[derive(Debug, PartialEq, Eq)]
pub struct Message {
    /// Human-readable diagnostic text.
    pub text: String,
}

/// An ordered report from one engine run. Ordering is the engine's and is
/// preserved all the way to the client.
#[derive(Debug, PartialEq, Eq)]
pub struct Report {
    /// The diagnostics, in the order the engine emitted them.
    pub messages: Vec<Message>,
}

/// The meet record the engine parsed out of a structurally valid meet file.
/// Its contents are the engine's business; this layer only carries it from
/// the meet-check outcome into the entries check, so only the metadata that
/// identifies it is modeled here.
#[derive(Debug, PartialEq, Eq)]
pub struct Meet {
    /// The meet's name, as parsed by the engine.
    pub name: String,
    /// The meet's date, as parsed by the engine; entries validation checks
    /// lifter dates against it.
    pub date: String,
}

/// Whether the meet check produced a usable meet record. A meet file can be
/// readable enough to produce diagnostics and still not yield a record; the
/// two cases steer the protocol differently, so they are kept as a tagged
/// sum rather than an option.
#[derive(Debug, PartialEq, Eq)]
pub enum ParsedMeet {
    /// The meet file was structurally valid enough to yield a record,
    /// possibly alongside warnings.
    Parsed(Meet),
    /// No usable record; the entries file cannot be validated without one.
    NoMeet,
}

/// What a successful `check_meet_from_string` engine call hands back.
#[derive(Debug, PartialEq, Eq)]
pub struct MeetCheckResult {
    /// Diagnostics about the meet file.
    pub report: Report,
    /// The parsed meet record, when one could be produced.
    pub meet: ParsedMeet,
}

/// What a successful `check_entries_from_string` engine call hands back.
#[derive(Debug, PartialEq, Eq)]
pub struct EntriesCheckResult {
    /// Diagnostics about the entries file.
    pub report: Report,
}

/// Incoming data for the checker page: the raw text of the two CSV files.
/// Empty strings are valid inputs; rejecting them is the engine's decision,
/// not this layer's.
#[derive(Debug, PartialEq, Eq)]
pub struct CheckerInput {
    /// Raw text of the meet.csv file.
    pub meet: String,
    /// Raw text of the entries.csv file.
    pub entries: String,
}

/// Outgoing data for the checker page. All outcomes of the protocol are
/// expressed in this value: an infrastructure failure puts its description
/// in `io_error`, validation diagnostics go into the two message lists.
/// Both can be populated at once, when the entries check failed after the
/// meet check had already produced messages.
#[derive(Debug, PartialEq, Eq)]
pub struct CheckerOutput {
    /// Text of the first I/O error that occurred during checking.
    pub io_error: Option<String>,
    /// Messages from checking the meet.csv file.
    pub meet_messages: Vec<Message>,
    /// Messages from checking the entries.csv file.
    pub entries_messages: Vec<Message>,
}

impl Default for CheckerOutput {
    /// The state before anything was checked: no error, no messages.
    fn default() -> (out: Self)
        ensures
            out.io_error is None,
            out.meet_messages@ == Seq::<Message>::empty(),
            out.entries_messages@ == Seq::<Message>::empty(),
    {
        CheckerOutput { io_error: None, meet_messages: Vec::new(), entries_messages: Vec::new() }
    }
}

impl CheckerOutput {
    /// Constructor for just an I/O error.
    pub fn with_io_error(err: String) -> (out: Self)
        ensures
            out.io_error == Some(err),
            out.meet_messages@ == Seq::<Message>::empty(),
            out.entries_messages@ == Seq::<Message>::empty(),
    {
        CheckerOutput { io_error: Some(err), meet_messages: Vec::new(), entries_messages: Vec::new() }
    }

    /// Constructor with messages (empty or not) from checking a meet.
    pub fn with_meet_messages(messages: Vec<Message>) -> (out: Self)
        ensures
            out.io_error is None,
            out.meet_messages == messages,
            out.entries_messages@ == Seq::<Message>::empty(),
    {
        CheckerOutput { io_error: None, meet_messages: messages, entries_messages: Vec::new() }
    }
}

/// The protocol state after a meet check whose outcome calls for an entries
/// check: the output assembled so far (meet messages in, `io_error` unset)
/// and the meet record the engine must be handed as validation context.
#[derive(Debug, PartialEq, Eq)]
pub struct PendingEntries {
    /// The output assembled from the meet check alone.
    pub so_far: CheckerOutput,
    /// The parsed meet, to be passed to `check_entries_from_string`.
    pub meet: Meet,
}

/// What the driver must do after the meet check: either the response is
/// complete, or the entries file must still be checked.
#[derive(Debug, PartialEq, Eq)]
pub enum CheckStep {
    /// The response is complete; the entries check is never run.
    Done(CheckerOutput),
    /// Run the entries check with the carried meet as context, then finish
    /// with [`check_entries`].
    Entries(PendingEntries),
}

/// First protocol step: decide from the outcome of the engine's
/// `check_meet_from_string` call whether the response is already complete.
///
/// An engine failure (an I/O or parse-infrastructure error, not a validation
/// diagnostic) short-circuits the protocol: the response carries only the
/// error text. A successful check whose report yielded no usable meet record
/// also completes the response, with the meet diagnostics alone, since the
/// entries file cannot be validated without the meet's metadata. Only a
/// successful check that produced a meet record asks for the second step,
/// and it hands exactly that record on as the entries-check context.
pub fn check_meet(outcome: Result<MeetCheckResult, String>) -> (step: CheckStep)
    ensures
        match outcome {
            Err(err) => (step matches CheckStep::Done(out) && {
                &&& out.io_error == Some(err)
                &&& out.meet_messages@ == Seq::<Message>::empty()
                &&& out.entries_messages@ == Seq::<Message>::empty()
            }),
            Ok(result) => match result.meet {
                ParsedMeet::NoMeet => (step matches CheckStep::Done(out) && {
                    &&& out.io_error is None
                    &&& out.meet_messages == result.report.messages
                    &&& out.entries_messages@ == Seq::<Message>::empty()
                }),
                ParsedMeet::Parsed(meet) => (step matches CheckStep::Entries(pending) && {
                    &&& pending.meet == meet
                    &&& pending.so_far.io_error is None
                    &&& pending.so_far.meet_messages == result.report.messages
                    &&& pending.so_far.entries_messages@ == Seq::<Message>::empty()
                }),
            },
        },
{
    match outcome {
        Err(err) => CheckStep::Done(CheckerOutput::with_io_error(err)),
        Ok(result) => {
            let output = CheckerOutput::with_meet_messages(result.report.messages);
            match result.meet {
                ParsedMeet::NoMeet => CheckStep::Done(output),
                ParsedMeet::Parsed(meet) => CheckStep::Entries(
                    PendingEntries { so_far: output, meet },
                ),
            }
        },
    }
}

/// Second protocol step: finish the response from the outcome of the
/// engine's `check_entries_from_string` call.
///
/// On success the entries diagnostics are added to the output assembled so
/// far; the meet diagnostics and the (unset) `io_error` are untouched. On an
/// engine failure the error text is recorded in `io_error` while the meet
/// diagnostics already computed are kept — the client sees both — and the
/// entries list stays as it was, empty.
pub fn check_entries(
    pending: PendingEntries,
    outcome: Result<EntriesCheckResult, String>,
) -> (out: CheckerOutput)
    ensures
        out.meet_messages == pending.so_far.meet_messages,
        match outcome {
            Ok(result) => {
                &&& out.io_error == pending.so_far.io_error
                &&& out.entries_messages == result.report.messages
            },
            Err(err) => {
                &&& out.io_error == Some(err)
                &&& out.entries_messages == pending.so_far.entries_messages
            },
        },
{
    let mut output = pending.so_far;
    match outcome {
        Ok(result) => {
            output.entries_messages = result.report.messages;
        },
        Err(err) => {
            output.io_error = Some(err);
        },
    }
    output
}

/// The whole checker protocol in one call, for a driver that has already run
/// the engine: the outcome of the meet check, and the outcome of the entries
/// check when one was run. The entries check is run if and only if the meet
/// check succeeded and yielded a meet record, so `entries_outcome` must be
/// present exactly then; a driver that wants to interleave the engine calls
/// with the decisions uses [`check_meet`] and [`check_entries`] directly.
///
/// Every outcome is rendered as data; this function has no failure path of
/// its own:
/// - meet check failed: `io_error` carries its text, both message lists are
///   empty, and the entries outcome is never consulted;
/// - meet check succeeded without a meet record: the meet diagnostics are
///   reported alone, and the entries outcome is never consulted;
/// - entries check failed: `io_error` carries its text while the meet
///   diagnostics are kept, and the entries list stays empty;
/// - entries check succeeded: both diagnostic lists are populated and
///   `io_error` stays unset.
pub fn check(
    meet_outcome: Result<MeetCheckResult, String>,
    entries_outcome: Option<Result<EntriesCheckResult, String>>,
) -> (out: CheckerOutput)
    requires
        (match meet_outcome {
            Ok(result) => result.meet matches ParsedMeet::Parsed(_) ==> entries_outcome is Some,
            Err(_) => true,
        }),
    ensures
        match meet_outcome {
            Err(err) => {
                &&& out.io_error == Some(err)
                &&& out.meet_messages@ == Seq::<Message>::empty()
                &&& out.entries_messages@ == Seq::<Message>::empty()
            },
            Ok(result) => match result.meet {
                ParsedMeet::NoMeet => {
                    &&& out.io_error is None
                    &&& out.meet_messages == result.report.messages
                    &&& out.entries_messages@ == Seq::<Message>::empty()
                },
                ParsedMeet::Parsed(_) => match entries_outcome {
                    Some(Ok(entries_result)) => {
                        &&& out.io_error is None
                        &&& out.meet_messages == result.report.messages
                        &&& out.entries_messages == entries_result.report.messages
                    },
                    Some(Err(err)) => {
                        &&& out.io_error == Some(err)
                        &&& out.meet_messages == result.report.messages
                        &&& out.entries_messages@ == Seq::<Message>::empty()
                    },
                    None => true,
                },
            },
        },
{
    match check_meet(meet_outcome) {
        CheckStep::Done(output) => output,
        CheckStep::Entries(pending) => match entries_outcome {
            Some(outcome) => check_entries(pending, outcome),
            None => vstd::pervasive::unreached(),
        },
    }
}

} // verus!
