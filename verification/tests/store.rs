//! The artifact store: presence, reads and overwriting writes.

use circuit_helper::artifact::{ArtifactKey, ArtifactStore};
use circuit_helper::error::Error;

#[test]
fn a_new_store_holds_nothing() {
    let store = ArtifactStore::new();
    assert!(!store.contains(&ArtifactKey::for_parameters(10, false)));
    assert!(!store.contains(&ArtifactKey::for_parameters(10, true)));
    assert!(!store.contains(&ArtifactKey::for_verifying_key("adder")));
    assert!(!store.contains(&ArtifactKey::for_proving_key("adder")));
    assert!(!store.contains(&ArtifactKey::for_proof("adder")));
}

#[test]
fn reading_an_absent_artifact_names_the_missing_key() {
    let store = ArtifactStore::new();
    assert_eq!(
        store.read(&ArtifactKey::for_proof("adder")),
        Err(Error::MissingArtifact(ArtifactKey::Proof { name: "adder".to_string() }))
    );
    assert_eq!(
        store.read(&ArtifactKey::for_parameters(7, true)),
        Err(Error::MissingArtifact(ArtifactKey::Parameters { degree: 7, verifier: true }))
    );
}

#[test]
fn a_write_is_read_back() {
    let mut store = ArtifactStore::new();
    store.write(ArtifactKey::for_verifying_key("adder"), vec![1, 2, 3]);
    assert!(store.contains(&ArtifactKey::for_verifying_key("adder")));
    assert_eq!(store.read(&ArtifactKey::for_verifying_key("adder")), Ok(vec![1, 2, 3]));
}

#[test]
fn a_second_write_replaces_the_first() {
    let mut store = ArtifactStore::new();
    store.write(ArtifactKey::for_proof("adder"), vec![1]);
    store.write(ArtifactKey::for_proof("adder"), vec![2, 2]);
    assert_eq!(store.read(&ArtifactKey::for_proof("adder")), Ok(vec![2, 2]));
}

#[test]
fn an_empty_artifact_is_present() {
    let mut store = ArtifactStore::new();
    store.write(ArtifactKey::for_proof("adder"), vec![]);
    assert!(store.contains(&ArtifactKey::for_proof("adder")));
    assert_eq!(store.read(&ArtifactKey::for_proof("adder")), Ok(vec![]));
}

#[test]
fn kinds_and_names_do_not_collide() {
    let mut store = ArtifactStore::new();
    store.write(ArtifactKey::for_verifying_key("adder"), vec![1]);
    store.write(ArtifactKey::for_proving_key("adder"), vec![2]);
    store.write(ArtifactKey::for_proof("adder"), vec![3]);
    store.write(ArtifactKey::for_proof("multiplier"), vec![4]);
    store.write(ArtifactKey::for_parameters(5, false), vec![5]);
    store.write(ArtifactKey::for_parameters(5, true), vec![6]);
    store.write(ArtifactKey::for_parameters(6, false), vec![7]);
    assert_eq!(store.read(&ArtifactKey::for_verifying_key("adder")), Ok(vec![1]));
    assert_eq!(store.read(&ArtifactKey::for_proving_key("adder")), Ok(vec![2]));
    assert_eq!(store.read(&ArtifactKey::for_proof("adder")), Ok(vec![3]));
    assert_eq!(store.read(&ArtifactKey::for_proof("multiplier")), Ok(vec![4]));
    assert_eq!(store.read(&ArtifactKey::for_parameters(5, false)), Ok(vec![5]));
    assert_eq!(store.read(&ArtifactKey::for_parameters(5, true)), Ok(vec![6]));
    assert_eq!(store.read(&ArtifactKey::for_parameters(6, false)), Ok(vec![7]));
    assert!(!store.contains(&ArtifactKey::for_parameters(6, true)));
    assert!(!store.contains(&ArtifactKey::for_verifying_key("multiplier")));
}

#[test]
fn a_write_leaves_the_other_artifacts_alone() {
    let mut store = ArtifactStore::new();
    store.write(ArtifactKey::for_verifying_key("adder"), vec![1]);
    store.write(ArtifactKey::for_proving_key("adder"), vec![2]);
    store.write(ArtifactKey::for_verifying_key("adder"), vec![9, 9]);
    assert_eq!(store.read(&ArtifactKey::for_proving_key("adder")), Ok(vec![2]));
    assert_eq!(store.read(&ArtifactKey::for_verifying_key("adder")), Ok(vec![9, 9]));
}

#[test]
fn keys_compare_by_what_they_name() {
    assert!(ArtifactKey::for_proof("adder").same_as(&ArtifactKey::for_proof("adder")));
    assert!(!ArtifactKey::for_proof("adder").same_as(&ArtifactKey::for_proof("adde")));
    assert!(!ArtifactKey::for_proof("adder").same_as(&ArtifactKey::for_proving_key("adder")));
    assert!(!ArtifactKey::for_verifying_key("adder")
        .same_as(&ArtifactKey::for_proving_key("adder")));
    assert!(ArtifactKey::for_parameters(3, true).same_as(&ArtifactKey::for_parameters(3, true)));
    assert!(!ArtifactKey::for_parameters(3, true).same_as(&ArtifactKey::for_parameters(3, false)));
    assert!(!ArtifactKey::for_parameters(3, true).same_as(&ArtifactKey::for_parameters(4, true)));
    assert_eq!(ArtifactKey::for_proof("adder").clone(), ArtifactKey::for_proof("adder"));
}

#[test]
fn a_copy_holds_the_same_and_lives_apart() {
    let mut store = ArtifactStore::new();
    store.write(ArtifactKey::for_proof("adder"), vec![1]);
    let copy = store.clone();
    assert_eq!(copy, store);
    store.write(ArtifactKey::for_proof("adder"), vec![2]);
    assert_eq!(copy.read(&ArtifactKey::for_proof("adder")), Ok(vec![1]));
    assert_eq!(store.read(&ArtifactKey::for_proof("adder")), Ok(vec![2]));
}
