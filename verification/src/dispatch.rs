//! The per-event dispatch decision: classify a delivered event, filter it
//! conjunctively against the filter set, and produce the output line (or
//! the error report) the process must emit for it.

use vstd::prelude::*;
use crate::filter::FilterSet;
use crate::vocab::{facility_label, facility_name, operation_label, operation_name, Facility,
    Operation};

verus! {

/// What the process must do for one delivered event.
#[derive(Debug)]
pub enum DispatchAction {
    /// The event carried no recognizable facility: report on the error
    /// stream and drop the event.
    ReportInvalidFacility,
    /// The event carried no recognizable operation: report on the error
    /// stream and drop the event.
    ReportInvalidOperation,
    /// Print this line on standard output.
    Emit(String),
    /// Produce no output.
    Silent,
}

/// The event passes the filters: both dimensions must match.
pub open spec fn spec_shows(fs: FilterSet, f: Facility, o: Operation) -> bool {
    fs.spec_matches_facility(f) && fs.spec_matches_operation(o)
}

/// The line printed for an event; a debug-suppressed line carries the
/// marker prefix before the same body.
pub open spec fn spec_event_line(f: Facility, o: Operation, marked: bool) -> Seq<char> {
    let body = "event:"@ + facility_label(f) + ":"@ + operation_label(o);
    if marked {
        "DEBUG (not in filtered set): "@ + body
    } else {
        body
    }
}

/// Exactly which action the dispatcher takes on one event.
pub open spec fn spec_dispatch(
    fs: FilterSet,
    debug: bool,
    facility: Option<Facility>,
    operation: Option<Operation>,
    r: DispatchAction,
) -> bool {
    match (facility, operation) {
        (None, _) => r is ReportInvalidFacility,
        (Some(_), None) => r is ReportInvalidOperation,
        (Some(f), Some(o)) => if spec_shows(fs, f, o) {
            r matches DispatchAction::Emit(line) && line@ == spec_event_line(f, o, false)
        } else if debug {
            r matches DispatchAction::Emit(line) && line@ == spec_event_line(f, o, true)
        } else {
            r is Silent
        },
    }
}

/// Renders the output line for a valid event.
pub fn event_line(f: Facility, o: Operation, marked: bool) -> (r: String)
    ensures
        r@ == spec_event_line(f, o, marked),
{
    let mut line = String::new();
    if marked {
        line.append("DEBUG (not in filtered set): ");
    }
    line.append("event:");
    line.append(facility_name(f));
    line.append(":");
    line.append(operation_name(o));
    line
}

/// Decides the action for one delivered event: malformed events are
/// reported and dropped; a valid event is printed when both filters
/// match, printed with the debug marker when they do not but debug mode
/// is on, and suppressed otherwise.
pub fn dispatch(
    filters: &FilterSet,
    debug: bool,
    facility: Option<Facility>,
    operation: Option<Operation>,
) -> (r: DispatchAction)
    ensures
        spec_dispatch(*filters, debug, facility, operation, r),
{
    match facility {
        None => DispatchAction::ReportInvalidFacility,
        Some(f) => match operation {
            None => DispatchAction::ReportInvalidOperation,
            Some(o) => {
                let show = filters.matches_facility(f) && filters.matches_operation(o);
                if show {
                    DispatchAction::Emit(event_line(f, o, false))
                } else if debug {
                    DispatchAction::Emit(event_line(f, o, true))
                } else {
                    DispatchAction::Silent
                }
            },
        },
    }
}

/// Dispatches a sequence of delivered events in delivery order: one
/// action per event, each decided independently by the same rules.
pub fn dispatch_all(
    filters: &FilterSet,
    debug: bool,
    events: &Vec<(Option<Facility>, Option<Operation>)>,
) -> (r: Vec<DispatchAction>)
    ensures
        r@.len() == events@.len(),
        forall|i: int|
            0 <= i < events@.len() ==> spec_dispatch(
                *filters,
                debug,
                events@[i].0,
                events@[i].1,
                r@[i],
            ),
{
    let mut actions: Vec<DispatchAction> = Vec::new();
    let mut i: usize = 0;
    while i < events.len()
        invariant
            i <= events@.len(),
            actions@.len() == i,
            forall|j: int|
                0 <= j < i ==> spec_dispatch(
                    *filters,
                    debug,
                    events@[j].0,
                    events@[j].1,
                    actions@[j],
                ),
        decreases events@.len() - i,
    {
        let (facility, operation) = events[i];
        actions.push(dispatch(filters, debug, facility, operation));
        i = i + 1;
    }
    actions
}

/// Filtering is conjunctive: an event that fails either dimension — even
/// while matching the other — is never shown plainly.
pub proof fn lemma_dispatch_conjunctive(fs: FilterSet, f: Facility, o: Operation)
    requires
        !fs.spec_matches_facility(f) || !fs.spec_matches_operation(o),
    ensures
        !spec_shows(fs, f, o),
{
}

/// With no filters at all, every valid event is shown plainly, whatever
/// the debug flag.
pub proof fn lemma_unconstrained_shows_all(fs: FilterSet, f: Facility, o: Operation)
    requires
        fs.facilities is None,
        fs.operations is None,
    ensures
        spec_shows(fs, f, o),
{
}

} // verus!
