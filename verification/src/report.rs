//! Evaluation records and the report they form.
//!
//! Exactly one record exists per test case, attributable to the case by its
//! source file name. A record carries an error location exactly when its
//! status is failed. The report row keeps the fixed column schema
//! `Name, Status, Input, Result, ErrorLocation, Error`.

use vstd::prelude::*;

use crate::pipeline::ErrorLocation;
use crate::pipeline::Outcome;
use crate::pipeline::Status;

verus! {

/// The record of one evaluated test case.
pub struct EvaluationRecord {
    /// The source file name of the test case.
    pub name: String,
    /// Whether the case passed.
    pub status: Status,
    /// The raw document text.
    pub input: String,
    /// The text produced up to the case's final stage.
    pub result: String,
    /// The failing stage; present exactly when the case failed.
    pub location: Option<ErrorLocation>,
    /// The optional diagnostic of the failing stage.
    pub detail: Option<String>,
}

/// A record carries an error location exactly when it failed.
pub open spec fn record_wf(r: EvaluationRecord) -> bool {
    (r.status == Status::Failed) <==> (r.location is Some)
}

/// The record `r` captures outcome `o` for a case named `name` with raw
/// document `document`.
pub open spec fn record_of(
    r: EvaluationRecord,
    name: Seq<char>,
    document: Seq<char>,
    o: Outcome,
) -> bool {
    r.name@ == name && r.input@ == document && match o {
        Outcome::Passed { content } => r.status == Status::Passed && r.result@ == content@
            && r.location is None && r.detail is None,
        Outcome::Failed { content, location, detail } => r.status == Status::Failed && r.result@
            == content@ && r.location == Option::Some(location) && (match (r.detail, detail) {
            (Option::None, Option::None) => true,
            (Option::Some(a), Option::Some(b)) => a@ == b@,
            _ => false,
        }),
    }
}

/// Assemble the record of one classified test case.
pub fn finish_case(name: String, document: String, outcome: Outcome) -> (r: EvaluationRecord)
    ensures
        record_of(r, name@, document@, outcome),
        record_wf(r),
{
    match outcome {
        Outcome::Passed { content } => EvaluationRecord {
            name,
            status: Status::Passed,
            input: document,
            result: content,
            location: Option::None,
            detail: Option::None,
        },
        Outcome::Failed { content, location, detail } => EvaluationRecord {
            name,
            status: Status::Failed,
            input: document,
            result: content,
            location: Option::Some(location),
            detail,
        },
    }
}

/// The text of an error location in a report row.
pub open spec fn location_text(l: ErrorLocation) -> Seq<char> {
    match l {
        ErrorLocation::MatchInput => "matchinput"@,
        ErrorLocation::MatchPayload => "matchpayload"@,
        ErrorLocation::Parse => "parse"@,
        ErrorLocation::Test => "test"@,
    }
}

/// The text of a status in a report row.
pub open spec fn status_text(s: Status) -> Seq<char> {
    match s {
        Status::Passed => "Passed"@,
        Status::Failed => "Failed"@,
    }
}

impl ErrorLocation {
    /// The location's text as it stands in a report row.
    pub fn as_text(&self) -> (r: String)
        ensures
            r@ == location_text(*self),
    {
        match self {
            ErrorLocation::MatchInput => "matchinput".to_owned(),
            ErrorLocation::MatchPayload => "matchpayload".to_owned(),
            ErrorLocation::Parse => "parse".to_owned(),
            ErrorLocation::Test => "test".to_owned(),
        }
    }
}

impl Status {
    /// The status's text as it stands in a report row.
    pub fn as_text(&self) -> (r: String)
        ensures
            r@ == status_text(*self),
    {
        match self {
            Status::Passed => "Passed".to_owned(),
            Status::Failed => "Failed".to_owned(),
        }
    }
}

/// The fixed column texts of one report row:
/// `Name, Status, Input, Result, ErrorLocation, Error`.
pub open spec fn row_of(row: Seq<String>, r: EvaluationRecord) -> bool {
    row.len() == 6 && row[0]@ == r.name@ && row[1]@ == status_text(r.status) && row[2]@ == r.input@
        && row[3]@ == r.result@ && row[4]@ == (match r.location {
        Option::Some(l) => location_text(l),
        Option::None => Seq::<char>::empty(),
    }) && row[5]@ == (match r.detail {
        Option::Some(d) => d@,
        Option::None => Seq::<char>::empty(),
    })
}

/// The six column texts of a record's report row.
pub fn record_row(r: &EvaluationRecord) -> (row: Vec<String>)
    ensures
        row_of(row@, *r),
{
    let mut row: Vec<String> = Vec::new();
    row.push(r.name.clone());
    row.push(r.status.as_text());
    row.push(r.input.clone());
    row.push(r.result.clone());
    match &r.location {
        Option::Some(l) => row.push(l.as_text()),
        Option::None => {
            let empty = String::new();
            proof {
                reveal_strlit("");
            }
            row.push(empty);
        },
    }
    match &r.detail {
        Option::Some(d) => row.push(d.clone()),
        Option::None => row.push(String::new()),
    }
    row
}

/// The ordered collection of records of one run.
pub struct ReportSink {
    /// One record per test case, in completion order.
    pub records: Vec<EvaluationRecord>,
}

impl ReportSink {
    /// An empty report.
    pub fn new() -> (r: ReportSink)
        ensures
            r.records@.len() == 0,
    {
        ReportSink { records: Vec::new() }
    }

    /// Append the record of one test case.
    pub fn push(&mut self, record: EvaluationRecord)
        ensures
            final(self).records@ == old(self).records@.push(record),
    {
        self.records.push(record);
    }
}

/// Assemble the whole report of a batch at once: one case is one
/// `(name, document, outcome)` triple, and the report holds exactly one
/// record per case, in order, each attributable to its case's name.
pub fn assemble_report(cases: Vec<(String, String, Outcome)>) -> (sink: ReportSink)
    ensures
        sink.records@.len() == cases@.len(),
        forall|k: int|
            0 <= k < cases@.len() ==> record_of(
                #[trigger] sink.records@[k],
                cases@[k].0@,
                cases@[k].1@,
                cases@[k].2,
            ) && record_wf(sink.records@[k]),
{
    let ghost all = cases@;
    let mut sink = ReportSink::new();
    let mut rest = cases;
    while rest.len() > 0
        invariant
            sink.records@.len() + rest@.len() == all.len(),
            rest@ == all.subrange(sink.records@.len() as int, all.len() as int),
            forall|k: int|
                0 <= k < sink.records@.len() ==> record_of(
                    #[trigger] sink.records@[k],
                    all[k].0@,
                    all[k].1@,
                    all[k].2,
                ) && record_wf(sink.records@[k]),
        decreases rest@.len(),
    {
        let ghost done = sink.records@.len() as int;
        let (name, document, outcome) = rest.remove(0);
        assert(all[done] == (name, document, outcome));
        let record = finish_case(name, document, outcome);
        sink.push(record);
        proof {
            assert(rest@ =~= all.subrange(done + 1, all.len() as int));
        }
    }
    sink
}

} // verus!
