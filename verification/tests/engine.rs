use loothound::commands::DbCon;
use loothound::error::{Error, SqlFailure};
use loothound::market::{Feed, MarketLine};
use loothound::model::{Item, Ratio, Snapshot, Timestamp};
use loothound::store::Database;
use loothound::valuation::{valuate, value_item};

fn item(name: &str, type_line: &str, stack_size: Option<i64>) -> Item {
    Item {
        verified: false,
        w: 1,
        h: 1,
        icon: String::new(),
        support: None,
        stack_size,
        max_stack_size: None,
        stack_size_text: None,
        league: None,
        id: None,
        fractured: None,
        synthesized: None,
        name: name.to_string(),
        type_line: type_line.to_string(),
        base_type: type_line.to_string(),
        identified: true,
        item_level: None,
        frame_type: 0,
    }
}

fn line(name: &str, price: Option<i64>, links: Option<isize>) -> MarketLine {
    MarketLine { name: name.to_string(), price, links }
}

fn feed(league: &str, lines: Vec<MarketLine>) -> Feed {
    Feed { league: league.to_string(), lines: Ok(lines) }
}

fn failed(league: &str, words: &str) -> Feed {
    Feed { league: league.to_string(), lines: Err(words.to_string()) }
}

fn base_feeds() -> Vec<Feed> {
    vec![feed(
        "Standard",
        vec![line("Chaos Orb", Some(1_000_000), None), line("Divine Orb", Some(150_000_000), None)],
    )]
}

fn stocked() -> Database {
    let mut db = Database::new();
    assert_eq!(db.ingest(&base_feeds(), Timestamp::new(1_700_000_000, 0)), Ok(1));
    db.create_profile(
        "main".to_string(),
        &vec!["tab-1".to_string()],
        "Standard".to_string(),
        "Standard".to_string(),
    )
    .unwrap();
    db
}

#[test]
fn first_ingestion_takes_revision_one() {
    let mut db = Database::new();
    let ts = Timestamp::new(1_700_000_000, 5);
    assert_eq!(db.ingest(&base_feeds(), ts), Ok(1));
    assert_eq!(db.prices.len(), 2);
    assert_eq!(db.last_price_id, 2);
    assert_eq!(db.prices[0].id, 1);
    assert_eq!(db.prices[0].name, "Chaos Orb");
    assert_eq!(db.prices[0].price, 1_000_000);
    assert_eq!(db.prices[0].revision, 1);
    assert_eq!(db.prices[0].league, "Standard");
    assert_eq!(db.prices[0].timestamp, ts);
    assert!(!db.prices[0].fully_linked);
    assert_eq!(db.prices[1].id, 2);
    assert_eq!(db.prices[1].name, "Divine Orb");
    assert_eq!(db.prices[1].price, 150_000_000);
    assert_eq!(db.prices[1].revision, 1);
}

#[test]
fn revisions_strictly_increase_and_old_rows_stay() {
    let mut db = Database::new();
    let mut last = 0;
    for round in 0..5 {
        let before = db.prices.clone();
        let rev = db.ingest(&base_feeds(), Timestamp::new(1_700_000_000 + round, 0)).unwrap();
        assert!(rev > last);
        assert_eq!(rev, last + 1);
        last = rev;
        assert_eq!(&db.prices[..before.len()], &before[..]);
        for row in &db.prices[before.len()..] {
            assert_eq!(row.revision, rev);
        }
    }
    assert_eq!(db.prices.len(), 10);
}

#[test]
fn ingesting_twice_duplicates_the_data_under_two_revisions() {
    let mut db = Database::new();
    assert_eq!(db.ingest(&base_feeds(), Timestamp::new(10, 0)), Ok(1));
    assert_eq!(db.ingest(&base_feeds(), Timestamp::new(20, 0)), Ok(2));
    assert_eq!(db.prices.len(), 4);
    assert_eq!(db.prices[2].name, db.prices[0].name);
    assert_eq!(db.prices[2].price, db.prices[0].price);
    assert_eq!(db.prices[0].revision, 1);
    assert_eq!(db.prices[2].revision, 2);
    assert_eq!(db.prices[2].id, 3);
}

#[test]
fn an_ingestion_without_rows_leaves_the_revision_free() {
    let mut db = Database::new();
    assert_eq!(db.ingest(&Vec::new(), Timestamp::new(10, 0)), Ok(1));
    assert_eq!(db.ingest(&vec![feed("Standard", Vec::new())], Timestamp::new(11, 0)), Ok(1));
    assert_eq!(db.ingest(&base_feeds(), Timestamp::new(12, 0)), Ok(1));
    assert_eq!(db.ingest(&base_feeds(), Timestamp::new(13, 0)), Ok(2));
}

#[test]
fn lines_without_a_price_are_left_out() {
    let mut db = Database::new();
    let feeds = vec![feed(
        "Standard",
        vec![
            line("Mirror Shard", None, None),
            line("Chaos Orb", Some(1_000_000), None),
            line("Unpriced", None, Some(6)),
            line("Exalted Orb", Some(12_000_000), None),
        ],
    )];
    assert_eq!(db.ingest(&feeds, Timestamp::new(10, 0)), Ok(1));
    assert_eq!(db.prices.len(), 2);
    assert_eq!(db.prices[0].name, "Chaos Orb");
    assert_eq!(db.prices[0].id, 1);
    assert_eq!(db.prices[1].name, "Exalted Orb");
    assert_eq!(db.prices[1].id, 2);
}

#[test]
fn exactly_six_links_set_the_linked_flag() {
    let mut db = Database::new();
    let feeds = vec![feed(
        "Standard",
        vec![
            line("Tabula Rasa", Some(10_000_000), Some(6)),
            line("Tabula Rasa", Some(9_000_000), Some(5)),
            line("Tabula Rasa", Some(8_000_000), None),
            line("Tabula Rasa", Some(7_000_000), Some(0)),
        ],
    )];
    db.ingest(&feeds, Timestamp::new(10, 0)).unwrap();
    let flags: Vec<bool> = db.prices.iter().map(|p| p.fully_linked).collect();
    assert_eq!(flags, vec![true, false, false, false]);
}

#[test]
fn a_failed_feed_stops_the_ingestion_and_keeps_what_came_before() {
    let mut db = Database::new();
    let feeds = vec![
        feed("Standard", vec![line("Chaos Orb", Some(1_000_000), None)]),
        failed("Standard", "connection reset"),
        feed("Ancestor", vec![line("Divine Orb", Some(150_000_000), None)]),
    ];
    assert_eq!(
        db.ingest(&feeds, Timestamp::new(10, 0)),
        Err(Error::Network("connection reset".to_string()))
    );
    assert_eq!(db.prices.len(), 1);
    assert_eq!(db.prices[0].name, "Chaos Orb");
    assert_eq!(db.prices[0].revision, 1);
    assert_eq!(db.ingest(&base_feeds(), Timestamp::new(11, 0)), Ok(2));
}

#[test]
fn a_failed_first_feed_changes_nothing() {
    let mut db = Database::new();
    let feeds = vec![failed("Standard", "bad json"), base_feeds().remove(0)];
    assert_eq!(db.ingest(&feeds, Timestamp::new(10, 0)), Err(Error::Network("bad json".to_string())));
    assert!(db.prices.is_empty());
    assert_eq!(db.last_price_id, 0);
}

#[test]
fn ingestion_fails_when_no_revision_is_left() {
    let mut db = Database::new();
    db.record_feed(
        &"Standard".to_string(),
        &vec![line("Chaos Orb", Some(1_000_000), None)],
        i64::MAX,
        Timestamp::new(1, 0),
    )
    .unwrap();
    assert_eq!(db.ingest(&base_feeds(), Timestamp::new(2, 0)), Err(Error::Sql(SqlFailure::Full)));
    assert_eq!(db.prices.len(), 1);
}

#[test]
fn a_feed_that_cannot_be_numbered_is_not_recorded() {
    let mut db = Database::new();
    db.last_price_id = i64::MAX - 1;
    let lines = vec![line("a", Some(1), None), line("b", None, None), line("c", Some(2), None)];
    assert_eq!(
        db.record_feed(&"Standard".to_string(), &lines, 1, Timestamp::new(1, 0)),
        Err(Error::Sql(SqlFailure::Full))
    );
    assert!(db.prices.is_empty());
    assert_eq!(db.last_price_id, i64::MAX - 1);
    let fits = vec![line("a", Some(1), None), line("b", None, None)];
    assert_eq!(db.record_feed(&"Standard".to_string(), &fits, 1, Timestamp::new(1, 0)), Ok(()));
    assert_eq!(db.prices.len(), 1);
    assert_eq!(db.prices[0].id, i64::MAX);
    assert_eq!(db.last_price_id, i64::MAX);
}

#[test]
fn a_snapshot_is_bound_to_the_highest_revision() {
    let mut db = stocked();
    db.ingest(&base_feeds(), Timestamp::new(1_700_000_100, 0)).unwrap();
    let ts = Timestamp::new(1_700_000_200, 7);
    let snap = db.new_snapshot(1, ts).unwrap();
    assert_eq!(
        snap,
        Snapshot { id: 1, profile_id: 1, timestamp: ts, pricing_revision: 2, value: 0 }
    );
    assert_eq!(db.snapshots, vec![snap]);
    let next = db.new_snapshot(1, ts).unwrap();
    assert_eq!(next.id, 2);
    assert_eq!(db.snapshots.len(), 2);
}

#[test]
fn no_snapshot_without_prices() {
    let mut db = Database::new();
    assert_eq!(db.current_revision(), Err(Error::Sql(SqlFailure::RowNotFound)));
    assert_eq!(
        db.new_snapshot(1, Timestamp::new(1, 0)),
        Err(Error::Sql(SqlFailure::RowNotFound))
    );
    assert!(db.snapshots.is_empty());
}

#[test]
fn no_snapshot_without_a_number_left() {
    let mut db = stocked();
    db.last_snapshot_id = i64::MAX;
    assert_eq!(db.new_snapshot(1, Timestamp::new(1, 0)), Err(Error::Sql(SqlFailure::Full)));
    assert!(db.snapshots.is_empty());
}

#[test]
fn a_snapshot_keeps_the_revision_read_before_a_racing_ingestion() {
    let mut db = stocked();
    let read = db.current_revision().unwrap();
    assert_eq!(read, 1);
    assert_eq!(db.ingest(&base_feeds(), Timestamp::new(1_700_000_100, 0)), Ok(2));
    let snap = db.insert_snapshot(1, Timestamp::new(1_700_000_101, 0), read).unwrap();
    assert_eq!(snap.pricing_revision, 1);
    assert_eq!(db.snapshots[0].pricing_revision, 1);
    assert_eq!(db.current_revision(), Ok(2));
}

#[test]
fn end_to_end_valuation_and_divine_conversion() {
    let mut db = stocked();
    let snap = db.new_snapshot(1, Timestamp::new(1_700_000_050, 0)).unwrap();
    assert_eq!(snap.pricing_revision, 1);
    let items = vec![item("Chaos Orb", "Chaos Orb", Some(10)), item("Unknown Item", "Thing", Some(1))];
    let total = db.add_items_to_snapshot(snap, &items, "tab-1".to_string()).unwrap();
    assert_eq!(total, 10_000_000);
    assert_eq!(total as f64 / 1e6, 10.0);
    assert_eq!(db.snapshots[0].value, 10_000_000);
    assert_eq!(db.items.len(), 2);
    assert_eq!(db.items[0].id, 1);
    assert_eq!(db.items[0].snapshot_id, snap.id);
    assert_eq!(db.items[0].stash_id, "tab-1");
    assert_eq!(db.items[0].data, items[0]);
    assert_eq!(db.items[0].value, 10_000_000);
    assert_eq!(db.items[1].id, 2);
    assert_eq!(db.items[1].value, 0);
    let stored = db.list_snapshots(1)[0];
    let response = db.basically_this_use_effect(stored).unwrap();
    assert_eq!(response.total_chaos, 10_000_000);
    assert_eq!(response.total_div, Ratio { numerator: 10_000_000, denominator: 150_000_000 });
    assert_eq!(response.total_div.millionths(), Some(66_666));
    let div = response.total_div.numerator as f64 / response.total_div.denominator as f64;
    assert!((div - 10.0 / 150.0).abs() < 1e-12);
    assert!((div - 0.0667).abs() < 1e-4);
    assert_eq!(response.items.len(), 2);
    assert_eq!(response.items[0].item, items[0]);
    assert_eq!(response.items[0].price, 10_000_000);
    assert_eq!(response.items[1].price, 0);
}

#[test]
fn valuation_is_the_same_after_later_ingestions() {
    let mut db = stocked();
    let items = vec![
        item("", "Divine Orb", Some(3)),
        item("Chaos Orb", "", None),
        item("Nothing", "", Some(4)),
    ];
    let before = valuate(&db.prices, 1, "Standard", &items);
    assert_eq!(before.0, vec![450_000_000, 1_000_000, 0]);
    assert_eq!(before.1, 451_000_000);
    for round in 0..3 {
        let feeds = vec![feed(
            "Standard",
            vec![line("Divine Orb", Some(200_000_000 + round), None), line("Nothing", Some(9), None)],
        )];
        db.ingest(&feeds, Timestamp::new(1_700_001_000 + round, 0)).unwrap();
        assert_eq!(valuate(&db.prices, 1, "Standard", &items), before);
    }
    assert_eq!(valuate(&db.prices, 4, "Standard", &items).0, vec![600_000_006, 1_000_000, 36]);
}

#[test]
fn chaos_orb_is_valued_at_one_whatever_the_catalog_says() {
    let mut db = Database::new();
    let feeds = vec![feed("Standard", vec![line("Chaos Orb", Some(5_000_000), None)])];
    db.ingest(&feeds, Timestamp::new(1, 0)).unwrap();
    assert_eq!(value_item(&db.prices, 1, "Standard", &item("Chaos Orb", "", Some(7))), 7_000_000);
    assert_eq!(value_item(&db.prices, 1, "Standard", &item("", "Chaos Orb", None)), 1_000_000);
    assert_eq!(value_item(&Vec::new(), 9, "Nowhere", &item("Chaos Orb", "", Some(2))), 2_000_000);
    assert_eq!(value_item(&db.prices, 1, "Standard", &item("chaos orb", "", Some(7))), 35_000_000);
}

#[test]
fn a_stack_of_unreported_size_counts_once() {
    let db = stocked();
    assert_eq!(value_item(&db.prices, 1, "Standard", &item("Divine Orb", "", None)), 150_000_000);
    assert_eq!(value_item(&db.prices, 1, "Standard", &item("Divine Orb", "", Some(0))), 150_000_000);
    assert_eq!(value_item(&db.prices, 1, "Standard", &item("Divine Orb", "", Some(1))), 150_000_000);
    assert_eq!(value_item(&db.prices, 1, "Standard", &item("Divine Orb", "", Some(2))), 300_000_000);
}

#[test]
fn valuation_total_stops_at_the_largest_amount() {
    let mut db = Database::new();
    let feeds = vec![feed("Standard", vec![line("Huge", Some(i64::MAX), None)])];
    db.ingest(&feeds, Timestamp::new(1, 0)).unwrap();
    let one = item("Huge", "", Some(i64::MAX));
    let items = vec![one.duplicate(), one.duplicate(), one.duplicate()];
    let (values, total) = valuate(&db.prices, 1, "Standard", &items);
    let each = (i64::MAX as i128) * (i64::MAX as i128);
    assert_eq!(values, vec![each, each, each]);
    assert_eq!(total, i128::MAX);
}

#[test]
fn valuation_uses_the_profiles_pricing_league() {
    let mut db = Database::new();
    let feeds = vec![
        feed("Standard", vec![line("Divine Orb", Some(150_000_000), None)]),
        feed("Ancestor", vec![line("Divine Orb", Some(220_000_000), None)]),
    ];
    db.ingest(&feeds, Timestamp::new(1, 0)).unwrap();
    db.create_profile("a".to_string(), &Vec::new(), "x".to_string(), "Ancestor".to_string())
        .unwrap();
    let snap = db.new_snapshot(1, Timestamp::new(2, 0)).unwrap();
    let total = db
        .add_items_to_snapshot(snap, &vec![item("Divine Orb", "", Some(2))], "t".to_string())
        .unwrap();
    assert_eq!(total, 440_000_000);
    let response = db.basically_this_use_effect(db.snapshots[0]).unwrap();
    assert_eq!(response.total_div.denominator, 220_000_000);
    assert_eq!(response.total_div.millionths(), Some(2_000_000));
}

#[test]
fn valuing_again_appends_rows_and_overwrites_the_total() {
    let mut db = stocked();
    let snap = db.new_snapshot(1, Timestamp::new(2, 0)).unwrap();
    let items = vec![item("Chaos Orb", "", Some(10))];
    assert_eq!(db.add_items_to_snapshot(snap, &items, "t".to_string()), Ok(10_000_000));
    assert_eq!(db.add_items_to_snapshot(snap, &items, "t".to_string()), Ok(10_000_000));
    assert_eq!(db.items.len(), 2);
    assert_eq!(db.snapshots[0].value, 10_000_000);
    let more = vec![item("Divine Orb", "", Some(1))];
    assert_eq!(db.add_items_to_snapshot(snap, &more, "t".to_string()), Ok(150_000_000));
    assert_eq!(db.items.len(), 3);
    assert_eq!(db.snapshots[0].value, 150_000_000);
}

#[test]
fn valuation_fails_without_the_profile_and_changes_nothing() {
    let mut db = stocked();
    let snap = db.new_snapshot(77, Timestamp::new(2, 0)).unwrap();
    assert_eq!(
        db.add_items_to_snapshot(snap, &vec![item("Chaos Orb", "", Some(1))], "t".to_string()),
        Err(Error::Sql(SqlFailure::RowNotFound))
    );
    assert!(db.items.is_empty());
    assert_eq!(db.snapshots[0].value, 0);
    assert_eq!(
        db.basically_this_use_effect(snap).unwrap_err(),
        Error::Sql(SqlFailure::RowNotFound)
    );
}

#[test]
fn valuation_fails_after_storing_when_the_snapshot_is_gone() {
    let mut db = stocked();
    let ghost = Snapshot {
        id: 99,
        profile_id: 1,
        timestamp: Timestamp::new(2, 0),
        pricing_revision: 1,
        value: 0,
    };
    assert_eq!(
        db.add_items_to_snapshot(ghost, &vec![item("Chaos Orb", "", Some(1))], "t".to_string()),
        Err(Error::Sql(SqlFailure::RowNotFound))
    );
    assert_eq!(db.items.len(), 1);
    assert_eq!(db.items[0].snapshot_id, 99);
}

#[test]
fn valuation_fails_when_items_cannot_be_numbered() {
    let mut db = stocked();
    let snap = db.new_snapshot(1, Timestamp::new(2, 0)).unwrap();
    db.last_item_id = i64::MAX - 1;
    let items = vec![item("Chaos Orb", "", Some(1)), item("Chaos Orb", "", Some(1))];
    assert_eq!(
        db.add_items_to_snapshot(snap, &items, "t".to_string()),
        Err(Error::Sql(SqlFailure::Full))
    );
    assert!(db.items.is_empty());
    assert_eq!(db.snapshots[0].value, 0);
}

#[test]
fn divine_conversion_fails_without_a_divine_orb_price() {
    let mut db = Database::new();
    let feeds = vec![feed("Standard", vec![line("Chaos Orb", Some(1_000_000), None)])];
    db.ingest(&feeds, Timestamp::new(1, 0)).unwrap();
    db.create_profile("a".to_string(), &Vec::new(), "x".to_string(), "Standard".to_string())
        .unwrap();
    let snap = db.new_snapshot(1, Timestamp::new(2, 0)).unwrap();
    assert_eq!(
        db.basically_this_use_effect(snap).unwrap_err(),
        Error::Sql(SqlFailure::RowNotFound)
    );
    let later = vec![feed("Standard", vec![line("Divine Orb", Some(150_000_000), None)])];
    db.ingest(&later, Timestamp::new(3, 0)).unwrap();
    assert_eq!(
        db.basically_this_use_effect(snap).unwrap_err(),
        Error::Sql(SqlFailure::RowNotFound)
    );
}

#[test]
fn divine_conversion_needs_the_exact_name() {
    let mut db = Database::new();
    let feeds = vec![feed("Standard", vec![line("divine orb", Some(150_000_000), None)])];
    db.ingest(&feeds, Timestamp::new(1, 0)).unwrap();
    db.create_profile("a".to_string(), &Vec::new(), "x".to_string(), "Standard".to_string())
        .unwrap();
    let snap = db.new_snapshot(1, Timestamp::new(2, 0)).unwrap();
    assert!(db.basically_this_use_effect(snap).is_err());
    assert_eq!(value_item(&db.prices, 1, "Standard", &item("Divine Orb", "", None)), 150_000_000);
}

#[test]
fn set_value_overrides_in_whole_chaos_orbs() {
    let mut db = stocked();
    let a = db.new_snapshot(1, Timestamp::new(2, 0)).unwrap();
    let b = db.new_snapshot(1, Timestamp::new(3, 0)).unwrap();
    db.snapshot_set_value(a, 42);
    assert_eq!(db.snapshots[0].value, 42_000_000);
    assert_eq!(db.snapshots[1].value, 0);
    db.snapshot_set_value(b, -3);
    assert_eq!(db.snapshots[1].value, -3_000_000);
    db.snapshot_set_value(a, i64::MAX);
    assert_eq!(db.snapshots[0].value, (i64::MAX as i128) * 1_000_000);
    assert_eq!(db.stored_value(a.id), Some((i64::MAX as i128) * 1_000_000));
    assert_eq!(db.stored_value(55), None);
}

#[test]
fn deleting_a_snapshot_deletes_its_items_only() {
    let mut db = stocked();
    let a = db.new_snapshot(1, Timestamp::new(2, 0)).unwrap();
    let b = db.new_snapshot(1, Timestamp::new(3, 0)).unwrap();
    db.add_items_to_snapshot(a, &vec![item("Chaos Orb", "", Some(1))], "t".to_string()).unwrap();
    db.add_items_to_snapshot(b, &vec![item("Divine Orb", "", Some(1))], "t".to_string()).unwrap();
    db.add_items_to_snapshot(a, &vec![item("Vaal Orb", "", Some(1))], "t".to_string()).unwrap();
    assert_eq!(db.snapshot_fetch_items(a).len(), 2);
    assert_eq!(db.snapshot_fetch_items(a)[1].name, "Vaal Orb");
    db.delete_snapshot(a.id);
    assert_eq!(db.snapshots.len(), 1);
    assert_eq!(db.snapshots[0].id, b.id);
    assert_eq!(db.items.len(), 1);
    assert_eq!(db.items[0].data.name, "Divine Orb");
    assert!(db.snapshot_fetch_items(a).is_empty());
    assert_eq!(db.snapshot_fetch_items(b).len(), 1);
    assert_eq!(db.prices.len(), 2);
}

#[test]
fn snapshots_are_listed_by_profile() {
    let mut db = stocked();
    db.new_snapshot(1, Timestamp::new(2, 0)).unwrap();
    db.new_snapshot(2, Timestamp::new(3, 0)).unwrap();
    db.new_snapshot(1, Timestamp::new(4, 0)).unwrap();
    let ids: Vec<i64> = db.list_snapshots(1).iter().map(|s| s.id).collect();
    assert_eq!(ids, vec![1, 3]);
    assert_eq!(db.list_snapshots(2).len(), 1);
    assert!(db.list_snapshots(3).is_empty());
}

#[test]
fn check_price_looks_at_the_highest_revision_in_any_league() {
    let mut db = Database::new();
    assert_eq!(db.check_price("Divine Orb"), Err(Error::Sql(SqlFailure::RowNotFound)));
    db.ingest(
        &vec![feed("Ancestor", vec![line("Divine Orb", Some(150_000_000), None)])],
        Timestamp::new(1, 0),
    )
    .unwrap();
    assert_eq!(db.check_price("Divine Orb"), Ok(150_000_000));
    db.ingest(
        &vec![feed("Standard", vec![line("Exalted Orb", Some(12_000_000), None)])],
        Timestamp::new(2, 0),
    )
    .unwrap();
    assert_eq!(db.check_price("Divine Orb"), Err(Error::Sql(SqlFailure::RowNotFound)));
    assert_eq!(db.check_price("exalted orb"), Ok(12_000_000));
}

#[test]
fn commands_fail_until_the_store_is_loaded() {
    let mut con = DbCon::unloaded();
    assert_eq!(con.loaded().err(), Some(Error::DatabaseNotLoaded));
    assert_eq!(con.loaded_mut().err(), Some(Error::DatabaseNotLoaded));
    assert_eq!(con.oopsie(), Err(Error::DatabaseNotLoaded));
    assert!(con.db.is_none());
}

#[test]
fn init_opens_what_exists_or_a_new_store() {
    let fresh = DbCon::init(None);
    let db = fresh.loaded().unwrap();
    assert!(db.prices.is_empty() && db.snapshots.is_empty() && db.profiles.is_empty());
    assert_eq!(db.last_price_id, 0);
    let mut con = DbCon::init(Some(stocked()));
    assert_eq!(con.loaded().unwrap().prices.len(), 2);
    con.loaded_mut().unwrap().new_snapshot(1, Timestamp::new(2, 0)).unwrap();
    assert_eq!(con.loaded().unwrap().snapshots.len(), 1);
    assert_eq!(con.oopsie(), Ok(()));
    assert!(con.loaded().unwrap().prices.is_empty());
    assert!(con.loaded().unwrap().snapshots.is_empty());
}

#[test]
fn fetched_prices_are_recent_for_an_hour() {
    let mut db = Database::new();
    let at = Timestamp::new(1_700_000_000, 250);
    assert!(!db.has_recent_prices(at));
    assert_eq!(db.fetch_prices(&base_feeds(), at), Ok(()));
    assert_eq!(db.prices.len(), 2);
    assert_eq!(db.prices[0].revision, 1);
    assert_eq!(db.prices[0].timestamp, at);
    assert_eq!(db.prices[1].timestamp, at);
    assert!(db.has_recent_prices(at));
    assert!(db.has_recent_prices(Timestamp::new(1_700_003_600, 250)));
    assert!(!db.has_recent_prices(Timestamp::new(1_700_003_600, 251)));
    assert!(!db.has_recent_prices(Timestamp::new(1_700_003_601, 250)));
}

#[test]
fn fetch_prices_takes_a_new_revision_each_time() {
    let mut db = Database::new();
    assert_eq!(db.fetch_prices(&base_feeds(), Timestamp::new(10, 0)), Ok(()));
    assert_eq!(db.fetch_prices(&base_feeds(), Timestamp::new(20, 0)), Ok(()));
    let revisions: Vec<i64> = db.prices.iter().map(|p| p.revision).collect();
    assert_eq!(revisions, vec![1, 1, 2, 2]);
    assert_eq!(db.prices[2].timestamp, Timestamp::new(20, 0));
    assert_eq!(db.current_revision(), Ok(2));
}

#[test]
fn old_prices_are_not_recent() {
    let mut db = Database::new();
    db.ingest(&base_feeds(), Timestamp::new(1_000_000_000, 0)).unwrap();
    assert!(!db.has_recent_prices(Timestamp::new(1_700_000_000, 0)));
    assert!(db.has_recent_prices(Timestamp::new(999_999_000, 0)));
}

#[test]
fn fetch_prices_reports_a_failed_feed() {
    let mut db = Database::new();
    assert_eq!(
        db.fetch_prices(&vec![failed("Standard", "timed out")], Timestamp::new(10, 0)),
        Err(Error::Network("timed out".to_string()))
    );
    assert!(db.prices.is_empty());
    let feeds = vec![base_feeds().remove(0), failed("Ancestor", "bad json")];
    assert_eq!(
        db.fetch_prices(&feeds, Timestamp::new(11, 0)),
        Err(Error::Network("bad json".to_string()))
    );
    assert_eq!(db.prices.len(), 2);
}

#[test]
fn fetch_prices_fails_when_no_revision_is_left() {
    let mut db = Database::new();
    db.record_feed(
        &"Standard".to_string(),
        &vec![line("Chaos Orb", Some(1_000_000), None)],
        i64::MAX,
        Timestamp::new(1, 0),
    )
    .unwrap();
    assert_eq!(
        db.fetch_prices(&base_feeds(), Timestamp::new(2, 0)),
        Err(Error::Sql(SqlFailure::Full))
    );
    assert_eq!(db.prices.len(), 1);
}

#[test]
fn a_snapshot_carries_the_time_it_is_given() {
    let mut db = stocked();
    let at = Timestamp::new(1_700_000_123, 456);
    let snap = db.new_snapshot(1, at).unwrap();
    assert_eq!(snap.id, 1);
    assert_eq!(snap.profile_id, 1);
    assert_eq!(snap.pricing_revision, 1);
    assert_eq!(snap.value, 0);
    assert_eq!(snap.timestamp, at);
    assert_eq!(db.snapshots, vec![snap]);
    assert_eq!(Database::new().new_snapshot(1, at), Err(Error::Sql(SqlFailure::RowNotFound)));
}

#[test]
fn an_ingestion_leaves_snapshots_as_they_are() {
    let mut db = stocked();
    let snap = db.new_snapshot(1, Timestamp::new(2, 0)).unwrap();
    let before = db.snapshots.clone();
    assert_eq!(db.ingest(&base_feeds(), Timestamp::new(3, 0)), Ok(2));
    assert_eq!(db.snapshots, before);
    assert_eq!(db.snapshots[0].pricing_revision, snap.pricing_revision);
    assert_eq!(db.last_snapshot_id, 1);
}

#[test]
fn errors_are_handed_over_as_text() {
    assert_eq!(Error::DatabaseNotLoaded.message(), "Database not loaded");
    assert_eq!(Error::Network("timed out".to_string()).message(), "timed out");
    assert_eq!(Error::Migration("while executing migrations".to_string()).message(), "while executing migrations");
    assert_eq!(
        Error::Sql(SqlFailure::RowNotFound).message(),
        "no rows returned by a query that expected to return at least one row"
    );
    assert_eq!(Error::Sql(SqlFailure::Full).message(), "database or disk is full");
    assert_eq!(Error::Sql(SqlFailure::Other("locked".to_string())).message(), "locked");
}
