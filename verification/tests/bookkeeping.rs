use loothound::error::{Error, SqlFailure};
use loothound::market::{Feed, MarketLine};
use loothound::model::{Item, Profile, ProfileStashAssoc, ProfileWithStashes, Stash, Timestamp};
use loothound::store::Database;

fn stash(id: &str, name: &str) -> Stash {
    Stash {
        id: id.to_string(),
        name: name.to_string(),
        stash_type: "PremiumStash".to_string(),
        league: "Standard".to_string(),
    }
}

fn put(db: &mut Database, s: &Stash) -> Stash {
    db.insert_stash(s.id.clone(), s.name.clone(), s.stash_type.clone(), s.league.clone())
}

fn tabs(ids: &[&str]) -> Vec<String> {
    ids.iter().map(|s| s.to_string()).collect()
}

fn chaos(stack: i64) -> Item {
    Item {
        verified: false,
        w: 1,
        h: 1,
        icon: String::new(),
        support: None,
        stack_size: Some(stack),
        max_stack_size: None,
        stack_size_text: None,
        league: None,
        id: None,
        fractured: None,
        synthesized: None,
        name: String::new(),
        type_line: "Chaos Orb".to_string(),
        base_type: "Chaos Orb".to_string(),
        identified: true,
        item_level: None,
        frame_type: 5,
    }
}

#[test]
fn a_new_store_is_empty() {
    let db = Database::new();
    assert!(db.prices.is_empty());
    assert!(db.snapshots.is_empty());
    assert!(db.items.is_empty());
    assert!(db.profiles.is_empty());
    assert!(db.stashes.is_empty());
    assert!(db.assocs.is_empty());
    assert_eq!(
        (db.last_price_id, db.last_snapshot_id, db.last_item_id, db.last_profile_id),
        (0, 0, 0, 0)
    );
}

#[test]
fn stashes_are_stored_and_listed_in_order() {
    let mut db = Database::new();
    let a = stash("a", "Currency");
    let b = stash("b", "Maps");
    assert_eq!(put(&mut db, &a), a);
    assert_eq!(put(&mut db, &b), b);
    assert_eq!(db.get_stashes(), vec![a, b]);
}

#[test]
fn storing_a_stash_again_replaces_it_in_place() {
    let mut db = Database::new();
    put(&mut db, &stash("a", "Currency"));
    put(&mut db, &stash("b", "Maps"));
    let renamed = stash("a", "Dump");
    assert_eq!(put(&mut db, &renamed), renamed);
    assert_eq!(db.get_stashes(), vec![renamed, stash("b", "Maps")]);
}

#[test]
fn a_stash_is_found_by_its_identifier() {
    let mut db = Database::new();
    put(&mut db, &stash("a", "Currency"));
    put(&mut db, &stash("b", "Maps"));
    assert_eq!(db.stash_from_id("b"), Ok(stash("b", "Maps")));
    assert_eq!(db.stash_from_id("B"), Err(Error::Sql(SqlFailure::RowNotFound)));
    assert_eq!(db.stash_from_id(""), Err(Error::Sql(SqlFailure::RowNotFound)));
    assert_eq!(stash("a", "x").duplicate(), stash("a", "x"));
}

#[test]
fn a_profile_is_created_with_its_tabs() {
    let mut db = Database::new();
    let made = db
        .create_profile("main".to_string(), &tabs(&["a", "b"]), "L1".to_string(), "Standard".to_string())
        .unwrap();
    assert_eq!(
        made,
        Profile {
            id: 1,
            name: "main".to_string(),
            league_id: "L1".to_string(),
            pricing_league: "Standard".to_string(),
        }
    );
    assert_eq!(made.duplicate(), made);
    assert_eq!(db.profiles, vec![made]);
    assert_eq!(
        db.assocs,
        vec![
            ProfileStashAssoc { profile_id: 1, stash_id: "a".to_string() },
            ProfileStashAssoc { profile_id: 1, stash_id: "b".to_string() },
        ]
    );
    let second = db
        .create_profile("alt".to_string(), &Vec::new(), "L1".to_string(), "Ancestor".to_string())
        .unwrap();
    assert_eq!(second.id, 2);
    assert_eq!(db.assocs.len(), 2);
}

#[test]
fn no_profile_without_a_number_left() {
    let mut db = Database::new();
    db.last_profile_id = i64::MAX;
    assert_eq!(
        db.create_profile("main".to_string(), &tabs(&["a"]), "L".to_string(), "S".to_string()),
        Err(Error::Sql(SqlFailure::Full))
    );
    assert!(db.profiles.is_empty());
    assert!(db.assocs.is_empty());
}

#[test]
fn profiles_are_listed_with_their_tabs() {
    let mut db = Database::new();
    db.create_profile("one".to_string(), &tabs(&["a", "b"]), "L".to_string(), "S".to_string()).unwrap();
    db.create_profile("two".to_string(), &tabs(&["c"]), "L".to_string(), "S".to_string()).unwrap();
    db.create_profile("three".to_string(), &Vec::new(), "L".to_string(), "S".to_string()).unwrap();
    let list = db.get_profiles();
    assert_eq!(list.len(), 3);
    assert_eq!(list[0].profile.name, "one");
    assert_eq!(list[0].stashes, tabs(&["a", "b"]));
    assert_eq!(list[1].profile.id, 2);
    assert_eq!(list[1].stashes, tabs(&["c"]));
    assert!(list[2].stashes.is_empty());
    assert_eq!(db.tabs_linked_to(1), tabs(&["a", "b"]));
    assert!(db.tabs_linked_to(9).is_empty());
    assert_eq!(db.find_profile(2).map(|p| p.name.clone()), Some("two".to_string()));
    assert_eq!(db.find_profile(9), None);
}

#[test]
fn updating_a_profile_rewrites_it_and_its_tabs() {
    let mut db = Database::new();
    db.create_profile("one".to_string(), &tabs(&["a", "b"]), "L".to_string(), "S".to_string()).unwrap();
    db.create_profile("two".to_string(), &tabs(&["c"]), "L".to_string(), "S".to_string()).unwrap();
    let changed = Profile {
        id: 1,
        name: "uno".to_string(),
        league_id: "L2".to_string(),
        pricing_league: "Ancestor".to_string(),
    };
    let out = db.update_profile(changed.duplicate(), tabs(&["d"])).unwrap();
    assert_eq!(out, ProfileWithStashes { profile: changed.duplicate(), stashes: tabs(&["d"]) });
    assert_eq!(db.profiles[0], changed);
    assert_eq!(db.profiles[1].name, "two");
    assert_eq!(
        db.assocs,
        vec![
            ProfileStashAssoc { profile_id: 2, stash_id: "c".to_string() },
            ProfileStashAssoc { profile_id: 1, stash_id: "d".to_string() },
        ]
    );
}

#[test]
fn updating_a_missing_profile_fails_and_changes_nothing() {
    let mut db = Database::new();
    db.create_profile("one".to_string(), &tabs(&["a"]), "L".to_string(), "S".to_string()).unwrap();
    let ghost = Profile {
        id: 5,
        name: "x".to_string(),
        league_id: "L".to_string(),
        pricing_league: "S".to_string(),
    };
    assert_eq!(db.update_profile(ghost, tabs(&["z"])), Err(Error::Sql(SqlFailure::RowNotFound)));
    assert_eq!(db.profiles[0].name, "one");
    assert_eq!(db.assocs.len(), 1);
    assert_eq!(db.assocs[0].stash_id, "a");
}

#[test]
fn deleting_a_profile_deletes_its_snapshots_and_their_items() {
    let mut db = Database::new();
    let feeds = vec![Feed {
        league: "S".to_string(),
        lines: Ok(vec![MarketLine { name: "Chaos Orb".to_string(), price: Some(1_000_000), links: None }]),
    }];
    db.ingest(&feeds, Timestamp::new(1, 0)).unwrap();
    db.create_profile("one".to_string(), &tabs(&["a"]), "L".to_string(), "S".to_string()).unwrap();
    db.create_profile("two".to_string(), &tabs(&["b"]), "L".to_string(), "S".to_string()).unwrap();
    let s1 = db.new_snapshot(1, Timestamp::new(2, 0)).unwrap();
    let s2 = db.new_snapshot(2, Timestamp::new(3, 0)).unwrap();
    let s3 = db.new_snapshot(1, Timestamp::new(4, 0)).unwrap();
    db.add_items_to_snapshot(s1, &vec![chaos(1), chaos(2)], "a".to_string()).unwrap();
    db.add_items_to_snapshot(s2, &vec![chaos(3)], "b".to_string()).unwrap();
    db.add_items_to_snapshot(s3, &vec![chaos(4)], "a".to_string()).unwrap();
    db.delete_profile(1);
    assert_eq!(db.profiles.len(), 1);
    assert_eq!(db.profiles[0].id, 2);
    assert_eq!(db.snapshots.len(), 1);
    assert_eq!(db.snapshots[0].id, s2.id);
    assert_eq!(db.snapshots[0].value, 3_000_000);
    assert_eq!(db.items.len(), 1);
    assert_eq!(db.items[0].snapshot_id, s2.id);
    assert_eq!(db.items[0].value, 3_000_000);
    assert_eq!(db.assocs.len(), 2);
    assert_eq!(db.prices.len(), 1);
    db.delete_profile(7);
    assert_eq!(db.profiles.len(), 1);
    assert_eq!(db.snapshots.len(), 1);
}

#[test]
fn a_number_is_never_handed_out_twice() {
    let mut db = Database::new();
    let feeds = vec![Feed {
        league: "S".to_string(),
        lines: Ok(vec![MarketLine { name: "Chaos Orb".to_string(), price: Some(1_000_000), links: None }]),
    }];
    db.ingest(&feeds, Timestamp::new(1, 0)).unwrap();
    db.create_profile("one".to_string(), &Vec::new(), "L".to_string(), "S".to_string()).unwrap();
    let a = db.new_snapshot(1, Timestamp::new(2, 0)).unwrap();
    let b = db.new_snapshot(1, Timestamp::new(3, 0)).unwrap();
    db.add_items_to_snapshot(b, &vec![chaos(1), chaos(1)], "t".to_string()).unwrap();
    assert_eq!((a.id, b.id), (1, 2));
    db.delete_snapshot(b.id);
    assert!(db.items.is_empty());
    let c = db.new_snapshot(1, Timestamp::new(4, 0)).unwrap();
    assert_eq!(c.id, 3);
    db.add_items_to_snapshot(c, &vec![chaos(1)], "t".to_string()).unwrap();
    assert_eq!(db.items[0].id, 3);
    db.delete_profile(1);
    let again = db
        .create_profile("two".to_string(), &Vec::new(), "L".to_string(), "S".to_string())
        .unwrap();
    assert_eq!(again.id, 2);
    assert_eq!(db.new_snapshot(2, Timestamp::new(5, 0)).unwrap().id, 4);
    let ids: Vec<i64> = db.snapshots.iter().map(|s| s.id).collect();
    assert_eq!(ids, vec![4]);
}

#[test]
fn each_identifier_has_one_stash_at_most() {
    let mut db = Database::new();
    for round in 0..3 {
        for id in ["a", "b", "c", "a", "b"] {
            put(&mut db, &stash(id, &format!("{id}-{round}")));
        }
    }
    let ids: Vec<String> = db.get_stashes().into_iter().map(|s| s.id).collect();
    assert_eq!(ids, vec!["a".to_string(), "b".to_string(), "c".to_string()]);
    assert_eq!(db.stash_from_id("a").unwrap().name, "a-2");
    assert_eq!(db.stash_from_id("c").unwrap().name, "c-2");
}
