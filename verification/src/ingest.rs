//! Taking payloads off the message stream and folding them into the table.
//!
//! The stream and the lock on the table belong to the caller. What the stream
//! delivers is read into a step before the table is touched; the step is then
//! taken on the table, which is the only part that needs the table.

use vstd::prelude::*;
use crate::decode::{decode, decoded};
use crate::report::InterfaceState;
use crate::table::{App, AppView};

verus! {

/// What one delivery of the stream calls for.
#[derive(Debug)]
pub enum Step {
    /// A report came: apply it to the table.
    Apply(InterfaceState),
    /// A payload came that holds no report: drop it.
    Skip,
    /// The stream has ended: report it and stop.
    Stop,
}

/// Whether the consumer of the stream goes on.
#[derive(Debug, Clone, Copy, PartialEq, Eq, Structural)]
pub enum Flow {
    /// Ask the stream for its next item.
    Continue,
    /// Stop asking.
    Stop,
}

impl AppView {
    /// The table after a step: a report is applied, any other step changes nothing.
    pub open spec fn after_step(self, step: Step) -> AppView {
        match step {
            Step::Apply(report) => self.after(report@),
            Step::Skip => self,
            Step::Stop => self,
        }
    }

    /// The table after one payload: the report in it is applied; a payload
    /// that does not decode changes nothing.
    pub open spec fn after_payload(self, payload: Seq<char>) -> AppView {
        match decoded(payload) {
            Ok(report) => self.after(report),
            Err(_) => self,
        }
    }
}

/// Reads one delivery of the stream: a payload that decodes is to be applied,
/// one that does not is to be skipped, and the end of the stream stops the
/// consumer.
pub fn read_delivery(delivery: Option<&str>) -> (step: Step)
    ensures
        match delivery {
            Some(payload) => match decoded(payload@) {
                Ok(report) => step matches Step::Apply(found) && found@ == report,
                Err(_) => step is Skip,
            },
            None => step is Stop,
        },
{
    match delivery {
        Some(payload) => match decode(payload) {
            Ok(report) => Step::Apply(report),
            Err(_) => Step::Skip,
        },
        None => Step::Stop,
    }
}

/// Takes a step on the table. Only `Apply` changes the table, and only `Stop`
/// ends the consumer.
pub fn take_step(app: App, step: Step) -> (turn: (App, Flow))
    ensures
        turn.0@ == app@.after_step(step),
        step is Skip || step is Stop ==> turn.0@ == app@,
        turn.1 == if step is Stop { Flow::Stop } else { Flow::Continue },
{
    match step {
        Step::Apply(report) => (app.update_state(report), Flow::Continue),
        Step::Skip => (app, Flow::Continue),
        Step::Stop => (app, Flow::Stop),
    }
}

/// Decodes one payload and applies it to the table.
pub fn ingest(app: App, payload: &str) -> (next: App)
    ensures
        next@ == app@.after_payload(payload@),
        decoded(payload@) is Err ==> next@ == app@,
{
    let (next, _) = take_step(app, read_delivery(Some(payload)));
    next
}

} // verus!
