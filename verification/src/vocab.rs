//! Closed vocabularies of entity categories (facilities) and lifecycle
//! actions (operations), with validation of user-supplied tokens.

use vstd::prelude::*;

verus! {

/// Category of audio-server entity whose lifecycle is observable.
#[derive(Clone, Copy, PartialEq, Eq, Structural, Debug)]
pub enum Facility {
    Sink,
    Source,
    SinkInput,
    SourceOutput,
    Module,
    Client,
    SampleCache,
    Server,
}

/// Lifecycle action on an entity.
#[derive(Clone, Copy, PartialEq, Eq, Structural, Debug)]
pub enum Operation {
    New,
    Changed,
    Removed,
}

/// The command-line token that names a facility.
pub open spec fn facility_token(f: Facility) -> Seq<char> {
    match f {
        Facility::Sink => "sink"@,
        Facility::Source => "source"@,
        Facility::SinkInput => "sink_input"@,
        Facility::SourceOutput => "source_output"@,
        Facility::Module => "module"@,
        Facility::Client => "client"@,
        Facility::SampleCache => "sample_cache"@,
        Facility::Server => "server"@,
    }
}

/// The command-line token that names an operation.
pub open spec fn operation_token(o: Operation) -> Seq<char> {
    match o {
        Operation::New => "new"@,
        Operation::Changed => "changed"@,
        Operation::Removed => "removed"@,
    }
}

/// Character-wise string equality, decided over the views.
fn str_eq(a: &str, b: &str) -> (r: bool)
    ensures
        r == (a@ == b@),
{
    let a_len = a.unicode_len();
    let b_len = b.unicode_len();
    if a_len != b_len {
        return false;
    }
    let mut i: usize = 0;
    while i < a_len
        invariant
            a_len == a@.len(),
            b_len == b@.len(),
            a_len == b_len,
            i <= a_len,
            forall|j: int| 0 <= j < i ==> a@[j] == b@[j],
        decreases a_len - i,
    {
        if a.get_char(i) != b.get_char(i) {
            return false;
        }
        i = i + 1;
    }
    proof {
        assert(a@ =~= b@);
    }
    true
}

/// Distinct facilities bear distinct tokens: the token vocabulary maps
/// one-to-one onto the facility enumeration.
pub proof fn lemma_facility_tokens_injective()
    ensures
        forall|f1: Facility, f2: Facility|
            facility_token(f1) == facility_token(f2) ==> f1 == f2,
{
    reveal_strlit("sink");
    reveal_strlit("source");
    reveal_strlit("sink_input");
    reveal_strlit("source_output");
    reveal_strlit("module");
    reveal_strlit("client");
    reveal_strlit("sample_cache");
    reveal_strlit("server");
    assert("sink"@.len() == 4);
    assert("source"@.len() == 6);
    assert("sink_input"@.len() == 10);
    assert("source_output"@.len() == 13);
    assert("module"@.len() == 6);
    assert("client"@.len() == 6);
    assert("sample_cache"@.len() == 12);
    assert("server"@.len() == 6);
    assert("source"@[0] == 's' && "source"@[1] == 'o');
    assert("module"@[0] == 'm');
    assert("client"@[0] == 'c');
    assert("server"@[0] == 's' && "server"@[1] == 'e');
    assert forall|f1: Facility, f2: Facility|
        facility_token(f1) == facility_token(f2) implies f1 == f2 by {
        if f1 != f2 {
            assert(facility_token(f1) != facility_token(f2));
        }
    }
}

/// Distinct operations bear distinct tokens.
pub proof fn lemma_operation_tokens_injective()
    ensures
        forall|o1: Operation, o2: Operation|
            operation_token(o1) == operation_token(o2) ==> o1 == o2,
{
    reveal_strlit("new");
    reveal_strlit("changed");
    reveal_strlit("removed");
    assert("new"@.len() == 3);
    assert("changed"@.len() == 7);
    assert("removed"@.len() == 7);
    assert("changed"@[0] == 'c');
    assert("removed"@[0] == 'r');
    assert forall|o1: Operation, o2: Operation|
        operation_token(o1) == operation_token(o2) implies o1 == o2 by {
        if o1 != o2 {
            assert(operation_token(o1) != operation_token(o2));
        }
    }
}

/// A token equal to some facility's token names that facility alone.
proof fn lemma_facility_parse_complete(s: Seq<char>, f0: Facility)
    requires
        s == facility_token(f0),
    ensures
        forall|f: Facility| s == facility_token(f) ==> f == f0,
{
    lemma_facility_tokens_injective();
    assert forall|f: Facility| s == facility_token(f) implies f == f0 by {
        assert(facility_token(f) == facility_token(f0));
    }
}

/// A token unequal to every facility literal matches no facility.
proof fn lemma_facility_parse_none(s: Seq<char>)
    requires
        s != "sink"@,
        s != "source"@,
        s != "sink_input"@,
        s != "source_output"@,
        s != "module"@,
        s != "client"@,
        s != "sample_cache"@,
        s != "server"@,
    ensures
        forall|f: Facility| s != facility_token(f),
{
    assert forall|f: Facility| s != facility_token(f) by {
        match f {
            Facility::Sink => {
                assert(facility_token(f) == "sink"@);
            },
            Facility::Source => {
                assert(facility_token(f) == "source"@);
            },
            Facility::SinkInput => {
                assert(facility_token(f) == "sink_input"@);
            },
            Facility::SourceOutput => {
                assert(facility_token(f) == "source_output"@);
            },
            Facility::Module => {
                assert(facility_token(f) == "module"@);
            },
            Facility::Client => {
                assert(facility_token(f) == "client"@);
            },
            Facility::SampleCache => {
                assert(facility_token(f) == "sample_cache"@);
            },
            Facility::Server => {
                assert(facility_token(f) == "server"@);
            },
        }
    }
}

/// Validates a user-supplied facility token: returns the named facility,
/// or `None` exactly when the token is outside the recognized set.
pub fn str_to_facility(s: &str) -> (r: Option<Facility>)
    ensures
        r matches Some(f) ==> s@ == facility_token(f),
        forall|f: Facility| s@ == facility_token(f) ==> r == Some(f),
{
    if str_eq(s, "sink") {
        proof {
            lemma_facility_parse_complete(s@, Facility::Sink);
        }
        Some(Facility::Sink)
    } else if str_eq(s, "source") {
        proof {
            lemma_facility_parse_complete(s@, Facility::Source);
        }
        Some(Facility::Source)
    } else if str_eq(s, "sink_input") {
        proof {
            lemma_facility_parse_complete(s@, Facility::SinkInput);
        }
        Some(Facility::SinkInput)
    } else if str_eq(s, "source_output") {
        proof {
            lemma_facility_parse_complete(s@, Facility::SourceOutput);
        }
        Some(Facility::SourceOutput)
    } else if str_eq(s, "module") {
        proof {
            lemma_facility_parse_complete(s@, Facility::Module);
        }
        Some(Facility::Module)
    } else if str_eq(s, "client") {
        proof {
            lemma_facility_parse_complete(s@, Facility::Client);
        }
        Some(Facility::Client)
    } else if str_eq(s, "sample_cache") {
        proof {
            lemma_facility_parse_complete(s@, Facility::SampleCache);
        }
        Some(Facility::SampleCache)
    } else if str_eq(s, "server") {
        proof {
            lemma_facility_parse_complete(s@, Facility::Server);
        }
        Some(Facility::Server)
    } else {
        proof {
            lemma_facility_parse_none(s@);
        }
        None
    }
}

/// A token equal to some operation's token names that operation alone.
proof fn lemma_operation_parse_complete(s: Seq<char>, o0: Operation)
    requires
        s == operation_token(o0),
    ensures
        forall|o: Operation| s == operation_token(o) ==> o == o0,
{
    lemma_operation_tokens_injective();
    assert forall|o: Operation| s == operation_token(o) implies o == o0 by {
        assert(operation_token(o) == operation_token(o0));
    }
}

/// A token unequal to every operation literal matches no operation.
proof fn lemma_operation_parse_none(s: Seq<char>)
    requires
        s != "new"@,
        s != "changed"@,
        s != "removed"@,
    ensures
        forall|o: Operation| s != operation_token(o),
{
    assert forall|o: Operation| s != operation_token(o) by {
        match o {
            Operation::New => {
                assert(operation_token(o) == "new"@);
            },
            Operation::Changed => {
                assert(operation_token(o) == "changed"@);
            },
            Operation::Removed => {
                assert(operation_token(o) == "removed"@);
            },
        }
    }
}

/// Validates a user-supplied operation token: returns the named operation,
/// or `None` exactly when the token is outside the recognized set.
pub fn str_to_operation(s: &str) -> (r: Option<Operation>)
    ensures
        r matches Some(o) ==> s@ == operation_token(o),
        forall|o: Operation| s@ == operation_token(o) ==> r == Some(o),
{
    if str_eq(s, "new") {
        proof {
            lemma_operation_parse_complete(s@, Operation::New);
        }
        Some(Operation::New)
    } else if str_eq(s, "changed") {
        proof {
            lemma_operation_parse_complete(s@, Operation::Changed);
        }
        Some(Operation::Changed)
    } else if str_eq(s, "removed") {
        proof {
            lemma_operation_parse_complete(s@, Operation::Removed);
        }
        Some(Operation::Removed)
    } else {
        proof {
            lemma_operation_parse_none(s@);
        }
        None
    }
}

/// The stable tag under which a facility is printed.
pub open spec fn facility_label(f: Facility) -> Seq<char> {
    match f {
        Facility::Sink => "Sink"@,
        Facility::Source => "Source"@,
        Facility::SinkInput => "SinkInput"@,
        Facility::SourceOutput => "SourceOutput"@,
        Facility::Module => "Module"@,
        Facility::Client => "Client"@,
        Facility::SampleCache => "SampleCache"@,
        Facility::Server => "Server"@,
    }
}

/// The stable tag under which an operation is printed.
pub open spec fn operation_label(o: Operation) -> Seq<char> {
    match o {
        Operation::New => "New"@,
        Operation::Changed => "Changed"@,
        Operation::Removed => "Removed"@,
    }
}

/// The printable tag of a facility.
pub fn facility_name(f: Facility) -> (r: &'static str)
    ensures
        r@ == facility_label(f),
{
    match f {
        Facility::Sink => "Sink",
        Facility::Source => "Source",
        Facility::SinkInput => "SinkInput",
        Facility::SourceOutput => "SourceOutput",
        Facility::Module => "Module",
        Facility::Client => "Client",
        Facility::SampleCache => "SampleCache",
        Facility::Server => "Server",
    }
}

/// The printable tag of an operation.
pub fn operation_name(o: Operation) -> (r: &'static str)
    ensures
        r@ == operation_label(o),
{
    match o {
        Operation::New => "New",
        Operation::Changed => "Changed",
        Operation::Removed => "Removed",
    }
}

} // verus!
