use std::collections::HashMap;

use freddie::sync::{GenerationMinter, Synced};

#[test]
fn the_happy_pair_lands() {
    let mut mint = GenerationMinter::default();
    let generation = mint.mint();
    let mut entry: Synced<u32> = Synced::Pending(generation);
    entry.commit(generation, 7);
    assert_eq!(entry.known(), Some(&7));
}

#[test]
fn a_commit_after_a_newer_fact_changes_nothing() {
    let mut mint = GenerationMinter::default();
    let first = mint.mint();
    let mut entry: Synced<u32> = Synced::Pending(first);
    let second = mint.mint();
    entry.change(second);
    entry.commit(first, 7);
    assert_eq!(entry, Synced::Pending(second));
    entry.commit(second, 9);
    assert_eq!(entry.known(), Some(&9));
}

#[test]
fn the_same_commit_twice_equals_once() {
    let mut mint = GenerationMinter::default();
    let generation = mint.mint();
    let mut entry: Synced<u32> = Synced::Pending(generation);
    entry.commit(generation, 7);
    entry.commit(generation, 8);
    assert_eq!(entry.known(), Some(&7));
}

#[test]
fn a_commit_on_a_reinserted_entry_changes_nothing() {
    let mut mint = GenerationMinter::default();
    let mut map: HashMap<&str, Synced<u32>> = HashMap::new();
    let old = mint.mint();
    map.insert("key", Synced::Pending(old));
    map.remove("key");
    let fresh = mint.mint();
    map.insert("key", Synced::Pending(fresh));
    map.get_mut("key")
        .expect("the entry was just inserted")
        .commit(old, 7);
    assert_eq!(map["key"], Synced::Pending(fresh));
}

#[test]
fn a_fact_empties_a_known_entry() {
    let mut mint = GenerationMinter::default();
    let first = mint.mint();
    let mut entry: Synced<u32> = Synced::Known(3);
    assert_eq!(entry.known(), Some(&3));
    entry.change(first);
    assert_eq!(entry.known(), None);
}

#[test]
fn a_mint_never_repeats() {
    let mut mint = GenerationMinter::default();
    let a = mint.mint();
    let b = mint.mint();
    let c = mint.mint();
    assert_ne!(a, b);
    assert_ne!(b, c);
    assert_ne!(a, c);
}
