use git_point::command::{blocked_by, exit_code, plan_from, refusal_of, Moved, Refusal};
use git_point::error::{Operation, StoreError};
use git_point::guard::{find_conflict, same_snapshot, Checkout};
use git_point::hex::to_hex;
use git_point::model::{NewRefKind, RefSnapshot, RefTarget};
use git_point::resolver::{classify, MaybeAmbigRef};
use git_point::target::{judge, ParseOutcome, TargetFailure, TargetRev};
use git_point::transaction::{
    edit_of, failure_kind, Expected, FailureKind, LogMode, TransactionError, TransactionRequest,
};
use git_point::victim::{summary_line, KnownVictim, NewVictim, Victim};

fn id(fill: u8) -> Vec<u8> {
    vec![fill; 20]
}

fn branch(name: &str, short: &str, fill: u8) -> RefSnapshot {
    RefSnapshot {
        name: name.as_bytes().to_vec(),
        short: short.as_bytes().to_vec(),
        target: RefTarget::Object(id(fill)),
        peeled: None,
    }
}

fn known() -> KnownVictim {
    KnownVictim {
        revspec: b"main".to_vec(),
        name: b"refs/heads/main".to_vec(),
        short: b"main".to_vec(),
        resolved_id: id(0x1a),
        summary: b"first".to_vec(),
    }
}

fn target() -> TargetRev {
    TargetRev { revspec: b"@".to_vec(), resolved_id: id(0xb2), summary: b"second".to_vec() }
}

fn store_error(operation: Operation) -> StoreError {
    StoreError { operation, subject: b"main".to_vec(), detail: String::from("no") }
}

#[test]
fn hex_is_lower_case_and_two_digits_per_byte() {
    assert_eq!(to_hex(&vec![0x00, 0xff, 0x1a, 0x09, 0xa0]), b"00ff1a09a0".to_vec());
    assert_eq!(to_hex(&Vec::new()), Vec::<u8>::new());
    assert_eq!(to_hex(&id(0x1a)), "1a".repeat(20).into_bytes());
}

#[test]
fn summary_is_the_first_line() {
    assert_eq!(summary_line(&b"initial commit\n".to_vec()), b"initial commit".to_vec());
    assert_eq!(summary_line(&b"title\n\nbody\n".to_vec()), b"title".to_vec());
    assert_eq!(summary_line(&b"no terminator".to_vec()), b"no terminator".to_vec());
}

#[test]
fn summary_drops_a_carriage_return_before_the_line_feed_only() {
    assert_eq!(summary_line(&b"a\r\nb".to_vec()), b"a".to_vec());
    assert_eq!(summary_line(&b"a\rb".to_vec()), b"a\rb".to_vec());
    assert_eq!(summary_line(&b"a\r".to_vec()), b"a\r".to_vec());
    assert_eq!(summary_line(&b"\r\n".to_vec()), Vec::<u8>::new());
}

#[test]
fn summary_of_an_empty_message_is_a_placeholder() {
    assert_eq!(summary_line(&Vec::new()), b"<empty msg>".to_vec());
    assert_eq!(summary_line(&b"\nrest".to_vec()), Vec::<u8>::new());
}

#[test]
fn prefixes_of_the_kinds() {
    assert_eq!(NewRefKind::Tag.to_prefix(), b"refs/tags/".to_vec());
    assert_eq!(NewRefKind::Branch.to_prefix(), b"refs/heads/".to_vec());
    assert_eq!(NewRefKind::RemoteBranch.to_prefix(), b"refs/remotes/".to_vec());
    assert_eq!(NewRefKind::Raw.to_prefix(), Vec::<u8>::new());
}

#[test]
fn new_victim_is_named_by_prefix_and_request() {
    let made = NewVictim::new(NewRefKind::Tag, b"v1".to_vec());
    assert_eq!(made.revspec, b"v1".to_vec());
    assert_eq!(made.name, b"refs/tags/v1".to_vec());
    assert_eq!(made.short, b"v1".to_vec());

    let made = NewVictim::new(NewRefKind::RemoteBranch, b"origin/main".to_vec());
    assert_eq!(made.name, b"refs/remotes/origin/main".to_vec());
    assert_eq!(made.short, b"origin/main".to_vec());

    let made = NewVictim::new(NewRefKind::Raw, b"refs/notes/x".to_vec());
    assert_eq!(made.name, b"refs/notes/x".to_vec());
    assert_eq!(made.short, b"refs/notes/x".to_vec());
}

#[test]
fn victim_name_is_the_full_name() {
    assert_eq!(Victim::Known(known()).name_bstr(), &b"refs/heads/main".to_vec());
    let made = NewVictim::new(NewRefKind::Branch, b"topic".to_vec());
    assert_eq!(Victim::New(made).name_bstr(), &b"refs/heads/topic".to_vec());
}

#[test]
fn known_victim_is_assembled_from_what_was_read() {
    let reference = branch("refs/heads/main", "main", 1);
    let victim = KnownVictim::assemble(b"main".to_vec(), &reference, id(1), b"first".to_vec());
    assert_eq!(victim.revspec, b"main".to_vec());
    assert_eq!(victim.name, b"refs/heads/main".to_vec());
    assert_eq!(victim.short, b"main".to_vec());
    assert_eq!(victim.resolved_id, id(1));
    assert_eq!(victim.summary, b"first".to_vec());
}

#[test]
fn classify_keeps_the_order_of_the_store() {
    let all = vec![
        branch("refs/tags/x", "x", 1),
        branch("refs/heads/y", "y", 1),
        branch("refs/remotes/x", "x", 2),
        branch("refs/heads/x", "x", 3),
    ];
    let found = classify(&b"x".to_vec(), branch("refs/heads/x", "x", 3), &all);
    match found {
        MaybeAmbigRef::Ambiguous { requested, possible } => {
            assert_eq!(requested, b"x".to_vec());
            assert_eq!(
                possible,
                vec![b"refs/heads/x".to_vec(), b"refs/tags/x".to_vec(), b"refs/remotes/x".to_vec()]
            );
        },
        MaybeAmbigRef::NotAmbiguous(_) => panic!("three references go by the name"),
    }
}

#[test]
fn classify_tells_references_apart_by_name_not_by_value() {
    let all = vec![branch("refs/heads/x", "x", 1), branch("refs/tags/x", "x", 1)];
    let found = classify(&b"x".to_vec(), branch("refs/heads/x", "x", 1), &all);
    assert!(matches!(found, MaybeAmbigRef::Ambiguous { ref possible, .. } if possible.len() == 2));

    let twice = vec![branch("refs/heads/x", "x", 1), branch("refs/heads/x", "x", 2)];
    let found = classify(&b"x".to_vec(), branch("refs/heads/x", "x", 1), &twice);
    assert!(matches!(found, MaybeAmbigRef::NotAmbiguous(ref r) if r.name == b"refs/heads/x".to_vec()));
}

#[test]
fn classify_compares_the_short_form_with_the_whole_request() {
    let all = vec![branch("refs/heads/main", "main", 1), branch("refs/tags/main", "main", 1)];
    let found = classify(&b"heads/main".to_vec(), branch("refs/heads/main", "main", 1), &all);
    assert!(matches!(found, MaybeAmbigRef::NotAmbiguous(_)));

    let found = classify(&b"main".to_vec(), branch("refs/heads/main", "main", 1), &Vec::new());
    assert!(matches!(found, MaybeAmbigRef::NotAmbiguous(_)));
}

#[test]
fn snapshots_are_the_same_by_name_target_and_peeled() {
    let a = branch("refs/heads/main", "main", 1);
    assert!(same_snapshot(&a, &branch("refs/heads/main", "other", 1)));
    assert!(!same_snapshot(&a, &branch("refs/heads/main", "main", 2)));
    assert!(!same_snapshot(&a, &branch("refs/heads/mai", "main", 1)));
    let mut peeled = branch("refs/heads/main", "main", 1);
    peeled.peeled = Some(id(1));
    assert!(!same_snapshot(&a, &peeled));
    assert!(same_snapshot(&peeled, &peeled.clone()));
    let mut symbolic = branch("refs/heads/main", "main", 1);
    symbolic.target = RefTarget::Symbolic(id(1));
    assert!(!same_snapshot(&a, &symbolic));
}

#[test]
fn guard_names_the_first_working_copy_that_holds_the_reference() {
    let victim = branch("refs/heads/main", "main", 1);
    let checkouts = vec![
        Checkout { dir: String::from("/a"), head: None },
        Checkout { dir: String::from("/b"), head: Some(branch("refs/heads/dev", "dev", 1)) },
        Checkout { dir: String::from("/c"), head: Some(branch("refs/heads/main", "main", 1)) },
        Checkout { dir: String::from("/d"), head: Some(branch("refs/heads/main", "main", 1)) },
    ];
    assert_eq!(find_conflict(&checkouts, &victim), Some(2));
    assert_eq!(find_conflict(&checkouts[..2].to_vec(), &victim), None);
    assert_eq!(find_conflict(&Vec::new(), &victim), None);
    let moved_on = branch("refs/heads/main", "main", 9);
    assert_eq!(find_conflict(&checkouts, &moved_on), None);
}

#[test]
fn request_for_an_update_expects_the_resolved_id() {
    let request = TransactionRequest::for_victim(&Victim::Known(known()), &target());
    assert_eq!(request.name, b"refs/heads/main".to_vec());
    assert!(matches!(request.expected, Expected::MustExistAndMatch(ref old) if *old == id(0x1a)));
    assert_eq!(request.new_value, id(0xb2));
    let message = format!(
        "git-point: updating refs/heads/main from {} to {}",
        "1a".repeat(20),
        "b2".repeat(20)
    );
    assert_eq!(request.message, message.into_bytes());
}

#[test]
fn request_for_a_creation_expects_no_reference() {
    let made = NewVictim::new(NewRefKind::Tag, b"v1".to_vec());
    let request = TransactionRequest::for_victim(&Victim::New(made), &target());
    assert_eq!(request.name, b"refs/tags/v1".to_vec());
    assert!(matches!(request.expected, Expected::MustNotExist));
    assert_eq!(request.new_value, id(0xb2));
    let message = format!("git-point: created refs/tags/v1 from {}", "b2".repeat(20));
    assert_eq!(request.message, message.into_bytes());
}

#[test]
fn store_failures_are_told_apart() {
    assert_eq!(failure_kind(true, false), FailureKind::PreconditionFailed);
    assert_eq!(failure_kind(false, true), FailureKind::PreconditionFailed);
    assert_eq!(failure_kind(true, true), FailureKind::PreconditionFailed);
    assert_eq!(failure_kind(false, false), FailureKind::StoreUnavailable);
}

#[test]
fn judge_lets_an_unambiguous_revision_pass() {
    let nothing = ParseOutcome { parse_failure: None, found_refs: None, error: None };
    assert!(judge(&b"@".to_vec(), nothing).is_ok());
    let one = ParseOutcome {
        parse_failure: None,
        found_refs: Some(MaybeAmbigRef::NotAmbiguous(branch("refs/heads/main", "main", 1))),
        error: None,
    };
    assert!(judge(&b"main".to_vec(), one).is_ok());
}

#[test]
fn judge_refuses_an_ambiguous_name() {
    let outcome = ParseOutcome {
        parse_failure: None,
        found_refs: Some(MaybeAmbigRef::Ambiguous {
            requested: b"x".to_vec(),
            possible: vec![b"refs/heads/x".to_vec(), b"refs/tags/x".to_vec()],
        }),
        error: None,
    };
    match judge(&b"x~1".to_vec(), outcome) {
        Err(TargetFailure::Ambiguous { requested, possible }) => {
            assert_eq!(requested, b"x".to_vec());
            assert_eq!(possible, vec![b"refs/heads/x".to_vec(), b"refs/tags/x".to_vec()]);
        },
        other => panic!("expected an ambiguity, got {other:?}"),
    }
}

#[test]
fn judge_puts_a_failure_before_an_ambiguity() {
    let ambiguous = MaybeAmbigRef::Ambiguous {
        requested: b"x".to_vec(),
        possible: vec![b"refs/heads/x".to_vec(), b"refs/tags/x".to_vec()],
    };
    let stopped = ParseOutcome {
        parse_failure: Some(String::from("stopped")),
        found_refs: Some(ambiguous.clone()),
        error: Some(store_error(Operation::ListReferences)),
    };
    match judge(&b"x..y".to_vec(), stopped) {
        Err(TargetFailure::Store(failure)) => {
            assert_eq!(failure.operation, Operation::ListReferences);
            assert_eq!(failure.subject, b"main".to_vec());
            assert_eq!(failure.detail, "no");
        },
        other => panic!("expected the store's failure, got {other:?}"),
    }
    let malformed = ParseOutcome {
        parse_failure: Some(String::from("malformed")),
        found_refs: Some(ambiguous),
        error: None,
    };
    match judge(&b"x..y".to_vec(), malformed) {
        Err(TargetFailure::Store(failure)) => {
            assert_eq!(failure.operation, Operation::ParseRevspec);
            assert_eq!(failure.subject, b"x..y".to_vec());
            assert_eq!(failure.detail, "malformed");
        },
        other => panic!("expected the parser's failure, got {other:?}"),
    }
}

fn transaction_error(kind: FailureKind, old: Option<Vec<u8>>) -> TransactionError {
    TransactionError { kind, name: b"refs/heads/main".to_vec(), old, new: id(2), detail: String::new() }
}

#[test]
fn exit_codes() {
    let names = vec![b"refs/heads/x".to_vec(), b"refs/tags/x".to_vec()];
    assert_eq!(exit_code(&Ok(Moved { victim: Victim::Known(known()), target: target() })), 0);
    let checked_out = Refusal::CheckedOut {
        name: b"refs/heads/main".to_vec(),
        short: b"main".to_vec(),
        dir: String::from("/work"),
    };
    assert_eq!(exit_code(&Err(checked_out)), 1);
    assert_eq!(exit_code(&Err(Refusal::AlreadyExists { name: b"refs/tags/v1".to_vec(), id: None })), 2);
    assert_eq!(
        exit_code(&Err(Refusal::AmbiguousVictim { requested: b"x".to_vec(), possible: names.clone() })),
        3
    );
    assert_eq!(
        exit_code(&Err(Refusal::AmbiguousTarget {
            requested: b"x".to_vec(),
            revspec: b"x~1".to_vec(),
            possible: names,
        })),
        3
    );
    assert_eq!(exit_code(&Err(Refusal::Store(store_error(Operation::FindReference)))), 4);
    assert_eq!(exit_code(&Err(Refusal::Revision(store_error(Operation::ParseRevspec)))), 4);
    assert_eq!(
        exit_code(&Err(Refusal::Transaction(transaction_error(FailureKind::PreconditionFailed, None)))),
        2
    );
    assert_eq!(
        exit_code(&Err(Refusal::Transaction(transaction_error(
            FailureKind::PreconditionFailed,
            Some(id(1))
        )))),
        4
    );
    assert_eq!(exit_code(&Err(Refusal::Transaction(transaction_error(FailureKind::InvalidName, None)))), 4);
    assert_eq!(
        exit_code(&Err(Refusal::Transaction(transaction_error(FailureKind::StoreUnavailable, Some(id(1)))))),
        4
    );
}

#[test]
fn plan_is_refused_where_the_lookup_found_the_reference_to_be_made() {
    let found = Some((b"refs/tags/v1".to_vec(), Some(id(7))));
    match plan_from(NewRefKind::Tag, &b"v1".to_vec(), found) {
        Err(Refusal::AlreadyExists { name, id: at }) => {
            assert_eq!(name, b"refs/tags/v1".to_vec());
            assert_eq!(at, Some(id(7)));
        },
        other => panic!("expected a refusal, got {other:?}"),
    }
    let unresolved = Some((b"refs/tags/v1".to_vec(), None));
    assert!(matches!(
        plan_from(NewRefKind::Raw, &b"refs/tags/v1".to_vec(), unresolved),
        Err(Refusal::AlreadyExists { id: None, .. })
    ));
}

#[test]
fn plan_is_made_where_the_lookup_found_another_reference() {
    let found = Some((b"refs/tags/v1".to_vec(), Some(id(7))));
    let made = plan_from(NewRefKind::Branch, &b"v1".to_vec(), found).expect("the tag is not the branch");
    assert_eq!(made.name, b"refs/heads/v1".to_vec());
    assert_eq!(made.short, b"v1".to_vec());
}

#[test]
fn plan_is_made_where_the_lookup_found_nothing() {
    let made = plan_from(NewRefKind::Tag, &b"v1".to_vec(), None).expect("nothing goes by the name");
    assert_eq!(made.revspec, b"v1".to_vec());
    assert_eq!(made.name, b"refs/tags/v1".to_vec());
    assert_eq!(made.short, b"v1".to_vec());
}

#[test]
fn guard_refuses_with_the_directory_of_the_first_holder() {
    let victim = branch("refs/heads/main", "main", 1);
    let checkouts = vec![
        Checkout { dir: String::from("/a"), head: Some(branch("refs/heads/dev", "dev", 1)) },
        Checkout { dir: String::from("/b"), head: Some(branch("refs/heads/main", "main", 1)) },
        Checkout { dir: String::from("/c"), head: Some(branch("refs/heads/main", "main", 1)) },
    ];
    match blocked_by(&checkouts, &victim) {
        Some(Refusal::CheckedOut { name, short, dir }) => {
            assert_eq!(name, b"refs/heads/main".to_vec());
            assert_eq!(short, b"main".to_vec());
            assert_eq!(dir, "/b");
        },
        other => panic!("expected the guard to refuse, got {other:?}"),
    }
    assert!(blocked_by(&checkouts[..1].to_vec(), &victim).is_none());
    assert!(blocked_by(&Vec::new(), &victim).is_none());
}

#[test]
fn target_is_assembled_from_what_was_read() {
    let assembled = TargetRev::assemble(b"@~1".to_vec(), id(3), b"title".to_vec());
    assert_eq!(assembled.revspec, b"@~1".to_vec());
    assert_eq!(assembled.resolved_id, id(3));
    assert_eq!(assembled.summary, b"title".to_vec());
}

#[test]
fn ambiguity_is_refused_as_it_was_found() {
    let found = MaybeAmbigRef::Ambiguous {
        requested: b"x".to_vec(),
        possible: vec![b"refs/heads/x".to_vec(), b"refs/tags/x".to_vec()],
    };
    match refusal_of(found) {
        Some(Refusal::AmbiguousVictim { requested, possible }) => {
            assert_eq!(requested, b"x".to_vec());
            assert_eq!(possible, vec![b"refs/heads/x".to_vec(), b"refs/tags/x".to_vec()]);
        },
        other => panic!("expected a refusal, got {other:?}"),
    }
    assert!(refusal_of(MaybeAmbigRef::NotAmbiguous(branch("refs/heads/x", "x", 1))).is_none());
}

#[test]
fn edit_carries_the_request_as_it_is() {
    let request = TransactionRequest::for_victim(&Victim::Known(known()), &target());
    let edit = edit_of(&request);
    assert_eq!(edit.name, b"refs/heads/main".to_vec());
    assert_eq!(edit.expected, Some(id(0x1a)));
    assert_eq!(edit.new_value, id(0xb2));
    assert_eq!(edit.message, request.message);
    assert_eq!(edit.mode, LogMode::AndReference);
    assert!(edit.always_log);
    assert!(!edit.follow_symbolic);

    let made = NewVictim::new(NewRefKind::Tag, b"v1".to_vec());
    let edit = edit_of(&TransactionRequest::for_victim(&Victim::New(made), &target()));
    assert_eq!(edit.name, b"refs/tags/v1".to_vec());
    assert_eq!(edit.expected, None);
    assert_eq!(edit.new_value, id(0xb2));
}
