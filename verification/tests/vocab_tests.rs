use pulse_events::vocab::{facility_name, operation_name, str_to_facility, str_to_operation,
    Facility, Operation};

#[test]
fn facility_tokens_parse_to_their_values() {
    assert_eq!(str_to_facility("sink"), Some(Facility::Sink));
    assert_eq!(str_to_facility("source"), Some(Facility::Source));
    assert_eq!(str_to_facility("sink_input"), Some(Facility::SinkInput));
    assert_eq!(str_to_facility("source_output"), Some(Facility::SourceOutput));
    assert_eq!(str_to_facility("module"), Some(Facility::Module));
    assert_eq!(str_to_facility("client"), Some(Facility::Client));
    assert_eq!(str_to_facility("sample_cache"), Some(Facility::SampleCache));
    assert_eq!(str_to_facility("server"), Some(Facility::Server));
}

#[test]
fn facility_tokens_cover_every_facility_exactly_once() {
    let tokens = [
        "sink",
        "source",
        "sink_input",
        "source_output",
        "module",
        "client",
        "sample_cache",
        "server",
    ];
    let mut seen: Vec<Facility> = Vec::new();
    for t in tokens {
        let f = str_to_facility(t).expect("recognized token must parse");
        assert!(!seen.contains(&f), "two tokens named one facility");
        seen.push(f);
    }
    assert_eq!(seen.len(), 8);
}

#[test]
fn unrecognized_facility_tokens_are_rejected() {
    assert_eq!(str_to_facility(""), None);
    assert_eq!(str_to_facility("sinks"), None);
    assert_eq!(str_to_facility("Sink"), None);
    assert_eq!(str_to_facility("sink "), None);
    assert_eq!(str_to_facility("card"), None);
    assert_eq!(str_to_facility("sink_inputs"), None);
}

#[test]
fn operation_tokens_parse_to_their_values() {
    assert_eq!(str_to_operation("new"), Some(Operation::New));
    assert_eq!(str_to_operation("changed"), Some(Operation::Changed));
    assert_eq!(str_to_operation("removed"), Some(Operation::Removed));
}

#[test]
fn operation_tokens_cover_every_operation_exactly_once() {
    let tokens = ["new", "changed", "removed"];
    let mut seen: Vec<Operation> = Vec::new();
    for t in tokens {
        let o = str_to_operation(t).expect("recognized token must parse");
        assert!(!seen.contains(&o), "two tokens named one operation");
        seen.push(o);
    }
    assert_eq!(seen.len(), 3);
}

#[test]
fn unrecognized_operation_tokens_are_rejected() {
    assert_eq!(str_to_operation(""), None);
    assert_eq!(str_to_operation("New"), None);
    assert_eq!(str_to_operation("delete"), None);
    assert_eq!(str_to_operation("changed "), None);
}

#[test]
fn printable_tags_are_stable() {
    assert_eq!(facility_name(Facility::Sink), "Sink");
    assert_eq!(facility_name(Facility::Source), "Source");
    assert_eq!(facility_name(Facility::SinkInput), "SinkInput");
    assert_eq!(facility_name(Facility::SourceOutput), "SourceOutput");
    assert_eq!(facility_name(Facility::Module), "Module");
    assert_eq!(facility_name(Facility::Client), "Client");
    assert_eq!(facility_name(Facility::SampleCache), "SampleCache");
    assert_eq!(facility_name(Facility::Server), "Server");
    assert_eq!(operation_name(Operation::New), "New");
    assert_eq!(operation_name(Operation::Changed), "Changed");
    assert_eq!(operation_name(Operation::Removed), "Removed");
}
