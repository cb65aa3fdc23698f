use git_point::model::{RefSnapshot, RefTarget};
use git_point::resolver::{classify, MaybeAmbigRef};

fn snapshot(name: &str, short: &str) -> RefSnapshot {
    RefSnapshot {
        name: name.as_bytes().to_vec(),
        short: short.as_bytes().to_vec(),
        target: RefTarget::Object(vec![7u8; 20]),
        peeled: None,
    }
}

#[test]
fn classify_single_match_is_not_ambiguous() {
    let all = vec![snapshot("refs/heads/main", "main"), snapshot("refs/heads/dev", "dev")];
    let found = classify(&b"main".to_vec(), snapshot("refs/heads/main", "main"), &all);
    match found {
        MaybeAmbigRef::NotAmbiguous(reference) => assert_eq!(reference.name, b"refs/heads/main".to_vec()),
        MaybeAmbigRef::Ambiguous { .. } => panic!("one reference only goes by the name"),
    }
}

#[test]
fn classify_branch_and_tag_are_ambiguous() {
    let all = vec![
        snapshot("refs/heads/release", "release"),
        snapshot("refs/heads/main", "main"),
        snapshot("refs/tags/release", "release"),
    ];
    let found = classify(&b"release".to_vec(), snapshot("refs/heads/release", "release"), &all);
    match found {
        MaybeAmbigRef::Ambiguous { requested, possible } => {
            assert_eq!(requested, b"release".to_vec());
            assert_eq!(possible, vec![b"refs/heads/release".to_vec(), b"refs/tags/release".to_vec()]);
        },
        MaybeAmbigRef::NotAmbiguous(_) => panic!("two references go by the name"),
    }
}
