use jil_api::error::{ApiError, ValidationError};
use jil_api::guestbook::entry::{DisplayableEntry, DummyStruct, Entry, GuestbookForm, GuestbookPostData, SerOptions};
use jil_api::guestbook::methods::{
    delete_guestbook_entry, delete_guestbook_entry_at, disclose, get_guestbook_entry,
    guestbook_entry_created, guestbook_entry_deleted, list_guestbook_entries, new_guestbook_entry, Purpose,
};
use jil_api::guestbook::queries::{get_single_entry, get_undeleted_entries, put_guestbook_entry, table_name};
use jil_api::item::{Attribute, AttributeValue, Field, ItemError};
use jil_api::store::{GetOutcome, PutOutcome, ScanOutcome};
use jil_api::time::Timestamp;
use std::collections::HashMap;

fn form(name: &str, message: &str) -> GuestbookForm {
    GuestbookForm { name: name.to_string(), message: message.to_string(), email: None, url: None, qa: false }
}

fn entry(id: u128, secs: i64, name: &str) -> Entry {
    Entry::new(form(name, "hello"), id, Timestamp::new(secs, 0)).unwrap()
}

#[test]
fn a_valid_form_becomes_a_live_entry_with_the_same_content() {
    let f = GuestbookForm {
        name: "lemon".to_string(),
        message: "hello".to_string(),
        email: Some("lemon@example.com".to_string()),
        url: Some("https://example.com".to_string()),
        qa: true,
    };
    let e = Entry::new(f, 42, Timestamp::new(1_700_000_000, 5)).unwrap();
    assert_eq!(e.id, 42);
    assert_eq!(e.created_at, Timestamp { secs: 1_700_000_000, nanos: 5 });
    assert_eq!(e.deleted_at, None);
    assert_eq!(e.name, "lemon");
    assert_eq!(e.message, "hello");
    assert_eq!(e.email, Some("lemon@example.com".to_string()));
    assert_eq!(e.url, Some("https://example.com".to_string()));
    assert!(e.qa);
    assert_eq!(e.ser_options, SerOptions { deleted_at: false, qa: false });
}

#[test]
fn a_message_of_1200_bytes_passes_and_one_of_1201_does_not() {
    assert!(Entry::new(form("n", &"m".repeat(1200)), 1, Timestamp::new(0, 0)).is_ok());
    assert_eq!(
        Entry::new(form("n", &"m".repeat(1201)), 1, Timestamp::new(0, 0)),
        Err(ValidationError::MessageTooLong)
    );
}

#[test]
fn a_name_of_600_bytes_passes_and_one_of_601_does_not() {
    assert!(Entry::new(form(&"n".repeat(600), "m"), 1, Timestamp::new(0, 0)).is_ok());
    assert_eq!(Entry::new(form(&"n".repeat(601), "m"), 1, Timestamp::new(0, 0)), Err(ValidationError::NameTooLong));
}

#[test]
fn lengths_are_counted_in_bytes() {
    // 600 two-byte letters are 1200 bytes; one more byte is too much
    assert!(Entry::new(form("n", &"é".repeat(600)), 1, Timestamp::new(0, 0)).is_ok());
    let mut long = "é".repeat(600);
    long.push('x');
    assert_eq!(Entry::new(form("n", &long), 1, Timestamp::new(0, 0)), Err(ValidationError::MessageTooLong));
    assert_eq!(Entry::new(form(&"é".repeat(301), "m"), 1, Timestamp::new(0, 0)), Err(ValidationError::NameTooLong));
}

#[test]
fn the_message_is_checked_before_the_name() {
    let r = Entry::new(form(&"n".repeat(601), &"m".repeat(1201)), 1, Timestamp::new(0, 0));
    assert_eq!(r, Err(ValidationError::MessageTooLong));
}

#[test]
fn validation_errors_have_their_sentences() {
    assert_eq!(ValidationError::MessageTooLong.to_string(), "Message must be <= 1200 letters.");
    assert_eq!(ValidationError::NameTooLong.to_string(), "Name must be <= 600 characters");
}

#[test]
fn a_new_entry_gets_a_random_key_of_version_four() {
    let a = Entry::try_from(form("lemon", "hello")).unwrap();
    let b = Entry::try_from(form("lemon", "hello")).unwrap();
    assert_ne!(a.id, b.id);
    for e in [&a, &b] {
        assert_eq!((e.id >> 76) & 0xf, 4);
        assert_eq!((e.id >> 62) & 0x3, 2);
        assert_eq!(e.deleted_at, None);
        assert_eq!(e.name, "lemon");
        assert_eq!(e.message, "hello");
        assert!(e.created_at.secs > 1_600_000_000);
    }
    assert_eq!(Entry::try_from(form("n", &"m".repeat(1201))), Err(ValidationError::MessageTooLong));
}

#[test]
fn post_data_is_a_form_without_the_trial_flag() {
    let data = GuestbookPostData {
        name: "lemon".to_string(),
        message: "hello".to_string(),
        email: Some("a@b.c".to_string()),
        url: None,
    };
    let f = data.into_form();
    assert_eq!(
        f,
        GuestbookForm {
            name: "lemon".to_string(),
            message: "hello".to_string(),
            email: Some("a@b.c".to_string()),
            url: None,
            qa: false
        }
    );
}

#[test]
fn conditional_fields_are_shown_only_where_their_option_is_set() {
    let mut e = entry(7, 10, "lemon");
    e.email = Some("secret@example.com".to_string());
    e.deleted_at = Some(Timestamp::new(20, 0));
    e.qa = true;
    let plain = e.display();
    assert_eq!(plain.deleted_at, None);
    assert_eq!(plain.qa, None);
    assert_eq!(plain.id, 7);
    assert_eq!(plain.name, "lemon");
    assert_eq!(plain.message, "hello");
    assert_eq!(plain.url, None);
    assert_eq!(plain.created_at, Timestamp::new(10, 0));

    e.push_ser_option("serialize_deleted_at");
    let d = e.display();
    assert_eq!(d.deleted_at, Some(Some(Timestamp::new(20, 0))));
    assert_eq!(d.qa, None);

    e.push_ser_option("serialize_qa");
    let d = e.display();
    assert_eq!(d.deleted_at, Some(Some(Timestamp::new(20, 0))));
    assert_eq!(d.qa, Some(true));
}

#[test]
fn an_option_that_is_not_known_changes_nothing() {
    let mut e = entry(7, 10, "lemon");
    e.push_ser_option("serialize_email");
    e.push_ser_option("");
    assert_eq!(e.ser_options, SerOptions { deleted_at: false, qa: false });
    assert_eq!(e, entry(7, 10, "lemon"));
}

#[test]
fn the_shown_deletion_instant_of_a_live_entry_is_empty() {
    let mut e = entry(7, 10, "lemon");
    e.push_ser_option("serialize_deleted_at");
    assert_eq!(e.display().deleted_at, Some(None));
}

#[test]
fn each_purpose_discloses_what_the_policy_says() {
    let mut e = entry(7, 10, "lemon");
    e.deleted_at = Some(Timestamp::new(20, 0));
    let listing = disclose(e, Purpose::Listing);
    assert_eq!((listing.deleted_at, listing.qa), (None, None));

    let mut trial = entry(8, 10, "lemon");
    trial.qa = true;
    let created = disclose(trial, Purpose::Creation);
    assert_eq!((created.deleted_at, created.qa), (None, Some(true)));
    let created = disclose(entry(8, 10, "lemon"), Purpose::Creation);
    assert_eq!((created.deleted_at, created.qa), (None, None));

    let fetched = disclose(entry(9, 10, "lemon"), Purpose::Retrieval);
    assert_eq!((fetched.deleted_at, fetched.qa), (Some(None), Some(false)));
    let mut gone = entry(9, 10, "lemon");
    gone.deleted_at = Some(Timestamp::new(30, 1));
    let confirmed = disclose(gone, Purpose::Deletion);
    assert_eq!((confirmed.deleted_at, confirmed.qa), (Some(Some(Timestamp::new(30, 1))), Some(false)));
}

#[test]
fn disclosure_starts_from_no_options() {
    let mut e = entry(7, 10, "lemon");
    e.push_ser_option("serialize_deleted_at");
    e.push_ser_option("serialize_qa");
    let d = disclose(e, Purpose::Listing);
    assert_eq!((d.deleted_at, d.qa), (None, None));
}

#[test]
fn always_true_is_true() {
    let mut m: HashMap<String, bool> = HashMap::new();
    assert!(DummyStruct::always_true(&m));
    m.insert("serialize_qa".to_string(), false);
    assert!(DummyStruct::always_true(&m));
}

#[test]
fn the_guestbook_table_has_its_name() {
    assert_eq!(table_name(), "jil-guestbook");
}

#[test]
fn creation_validates_then_plans_a_conditional_write() {
    let plan = new_guestbook_entry(form("lemon", "hello")).unwrap();
    assert!(plan.if_absent);
    assert_eq!(plan.item.name, "lemon");
    assert_eq!(plan.item.deleted_at, None);

    let refused = new_guestbook_entry(form("lemon", &"m".repeat(1201))).unwrap_err();
    assert_eq!(refused, ApiError { message: "Message must be <= 1200 letters.".to_string(), status_code: 400 });
    let refused = new_guestbook_entry(form(&"n".repeat(601), "m")).unwrap_err();
    assert_eq!(refused, ApiError { message: "Name must be <= 600 characters".to_string(), status_code: 400 });
}

#[test]
fn creation_answers_by_what_the_table_said() {
    let created = guestbook_entry_created(entry(7, 10, "lemon"), PutOutcome::Written).unwrap();
    assert!(created.redeploy);
    assert_eq!(created.entry.qa, None);
    assert_eq!(created.entry.name, "lemon");

    let mut trial = entry(7, 10, "lemon");
    trial.qa = true;
    let created = guestbook_entry_created(trial, PutOutcome::Written).unwrap();
    assert!(!created.redeploy);
    assert_eq!(created.entry.qa, Some(true));

    let conflict = guestbook_entry_created(entry(7, 10, "lemon"), PutOutcome::ConditionFailed).unwrap_err();
    assert_eq!(conflict, ApiError { message: "Entry already exists".to_string(), status_code: 400 });
    let fault = guestbook_entry_created(entry(7, 10, "lemon"), PutOutcome::Fault("timeout".to_string())).unwrap_err();
    assert_eq!(fault, ApiError { message: "timeout".to_string(), status_code: 500 });
}

#[test]
fn retrieval_returns_a_deleted_entry_with_its_deletion_instant() {
    let mut gone = entry(7, 10, "lemon");
    gone.deleted_at = Some(Timestamp::new(30, 0));
    let d = get_guestbook_entry(GetOutcome::Found(gone)).unwrap();
    assert_eq!(d.deleted_at, Some(Some(Timestamp::new(30, 0))));
    assert_eq!(d.qa, Some(false));

    let missing = get_guestbook_entry(GetOutcome::Missing).unwrap_err();
    assert_eq!(missing, ApiError { message: "No entry found".to_string(), status_code: 400 });
    let fault = get_guestbook_entry(GetOutcome::Fault("down".to_string())).unwrap_err();
    assert_eq!(fault, ApiError { message: "down".to_string(), status_code: 500 });
}

#[test]
fn deletion_stamps_the_entry_and_plans_an_upsert() {
    let plan = delete_guestbook_entry_at(GetOutcome::Found(entry(7, 10, "lemon")), Timestamp::new(99, 1)).unwrap();
    assert!(!plan.if_absent);
    let mut expected = entry(7, 10, "lemon");
    expected.deleted_at = Some(Timestamp::new(99, 1));
    assert_eq!(plan.item, expected);

    // a second deletion stamps again: the last call wins
    let again = delete_guestbook_entry_at(GetOutcome::Found(plan.item), Timestamp::new(120, 0)).unwrap();
    assert_eq!(again.item.deleted_at, Some(Timestamp::new(120, 0)));
    assert_eq!(again.item.created_at, Timestamp::new(10, 0));

    let missing = delete_guestbook_entry_at(GetOutcome::Missing, Timestamp::new(99, 1)).unwrap_err();
    assert_eq!(missing.status_code, 400);

    let now = delete_guestbook_entry(GetOutcome::Found(entry(7, 10, "lemon"))).unwrap();
    assert!(now.item.deleted_at.unwrap().secs > 1_600_000_000);
    assert_eq!(now.item.name, "lemon");
}

#[test]
fn deletion_confirms_with_the_stored_entry() {
    let mut gone = entry(7, 10, "lemon");
    gone.deleted_at = Some(Timestamp::new(99, 0));
    let d = guestbook_entry_deleted(gone, PutOutcome::Written).unwrap();
    assert_eq!(d.deleted_at, Some(Some(Timestamp::new(99, 0))));
    assert_eq!(d.qa, Some(false));
    let fault = guestbook_entry_deleted(entry(7, 10, "lemon"), PutOutcome::Fault("down".to_string())).unwrap_err();
    assert_eq!(fault.status_code, 500);
}

#[test]
fn a_listing_counts_the_whole_table_and_shows_the_live_entries() {
    let mut deleted = entry(1, 10, "deleted");
    deleted.deleted_at = Some(Timestamp::new(50, 0));
    let mut trial = entry(2, 20, "trial");
    trial.qa = true;
    let rows = vec![entry(4, 40, "d"), deleted, trial, entry(3, 30, "c")];
    let resp = list_guestbook_entries(ScanOutcome::Items(rows), None, false, false).unwrap();
    assert_eq!(resp.total_count, 4);
    assert_eq!(resp.count, 2);
    let names: Vec<&str> = resp.items.iter().map(|d| d.name.as_str()).collect();
    assert_eq!(names, vec!["c", "d"]);
    for item in &resp.items {
        assert_eq!(item.deleted_at, None);
        assert_eq!(item.qa, None);
    }
}

#[test]
fn a_listing_includes_trial_entries_on_request_and_reverses_on_request() {
    let mut deleted = entry(1, 10, "deleted");
    deleted.deleted_at = Some(Timestamp::new(50, 0));
    let mut trial = entry(2, 20, "trial");
    trial.qa = true;
    let rows = vec![entry(4, 40, "d"), deleted, trial, entry(3, 30, "c")];
    let resp = list_guestbook_entries(ScanOutcome::Items(rows), None, true, true).unwrap();
    assert_eq!(resp.total_count, 4);
    assert_eq!(resp.count, 3);
    let names: Vec<&str> = resp.items.iter().map(|d| d.name.as_str()).collect();
    assert_eq!(names, vec!["d", "c", "trial"]);
}

#[test]
fn a_listing_of_a_failed_scan_is_a_server_error() {
    let e = list_guestbook_entries(ScanOutcome::Fault("throttled".to_string()), None, false, false).unwrap_err();
    assert_eq!(e, ApiError { message: "throttled".to_string(), status_code: 500 });
}

#[test]
fn three_entries_listed_after_the_first_and_after_the_last() {
    let rows = || vec![entry(11, 100, "A"), entry(22, 200, "B"), entry(33, 300, "C")];
    let (total, page) = get_undeleted_entries(ScanOutcome::Items(rows()), Some(11), false).unwrap();
    assert_eq!(total, 3);
    assert_eq!(page, vec![entry(22, 200, "B"), entry(33, 300, "C")]);
    let (total, page) = get_undeleted_entries(ScanOutcome::Items(rows()), Some(33), false).unwrap();
    assert_eq!(total, 3);
    assert_eq!(page, Vec::<Entry>::new());
    let (_, page) = get_undeleted_entries(ScanOutcome::Items(rows()), None, false).unwrap();
    assert_eq!(page, rows());
}

#[test]
fn the_queries_read_the_answers_of_the_table() {
    assert_eq!(get_single_entry(GetOutcome::Found(entry(1, 1, "a"))), Ok(entry(1, 1, "a")));
    assert_eq!(get_single_entry(GetOutcome::Missing), Err(jil_api::error::RepoError::NotFound));
    assert_eq!(
        get_single_entry(GetOutcome::Fault("x".to_string())),
        Err(jil_api::error::RepoError::StoreUnavailable("x".to_string()))
    );
    let plan = put_guestbook_entry(entry(1, 1, "a"));
    assert!(!plan.if_absent);
    assert_eq!(plan.item, entry(1, 1, "a"));
}

fn text(name: &str, value: &str) -> Attribute {
    Attribute { name: name.to_string(), value: AttributeValue::S(value.to_string()) }
}

#[test]
fn an_entry_is_stored_as_text_attributes() {
    let mut e = entry(0xa1a2a3a4b1b2c1c2d1d2d3d4d5d6d7d8, 1_431_648_000, "lemon");
    e.url = Some("https://example.com".to_string());
    e.push_ser_option("serialize_qa");
    let item = e.items().unwrap();
    assert_eq!(
        item,
        vec![
            text("id", "a1a2a3a4-b1b2-c1c2-d1d2-d3d4d5d6d7d8"),
            text("created_at", "2015-05-15T00:00:00+00:00"),
            text("url", "https://example.com"),
            text("message", "hello"),
            text("name", "lemon"),
            Attribute { name: "qa".to_string(), value: AttributeValue::Bool(false) },
        ]
    );
}

#[test]
fn a_deleted_entry_is_stored_with_its_tombstone() {
    let mut e = entry(1, 0, "lemon");
    e.deleted_at = Some(Timestamp::new(1_431_648_000, 500_000_000));
    e.email = Some("a@b.c".to_string());
    let item = e.items().unwrap();
    assert_eq!(
        item,
        vec![
            text("id", "00000000-0000-0000-0000-000000000001"),
            text("created_at", "1970-01-01T00:00:00+00:00"),
            text("deleted_at", "2015-05-15T00:00:00.500+00:00"),
            text("email", "a@b.c"),
            text("message", "hello"),
            text("name", "lemon"),
            Attribute { name: "qa".to_string(), value: AttributeValue::Bool(false) },
        ]
    );
}

#[test]
fn an_entry_whose_instant_cannot_be_written_is_not_stored() {
    let e = entry(1, i64::MAX, "lemon");
    assert_eq!(e.items(), Err(ItemError::Unrepresentable(Field::CreatedAt)));
    let mut e = entry(1, 0, "lemon");
    e.deleted_at = Some(Timestamp::new(i64::MIN, 0));
    assert_eq!(e.items(), Err(ItemError::Unrepresentable(Field::DeletedAt)));
}

#[test]
fn a_stored_entry_is_read_back() {
    let mut e = entry(0x550e8400e29b41d4a716446655440000, 1_431_648_000, "lemon");
    e.url = Some("https://example.com".to_string());
    e.email = Some("a@b.c".to_string());
    e.deleted_at = Some(Timestamp::new(1_431_648_001, 250_000_000));
    e.qa = true;
    let item = e.items().unwrap();
    assert_eq!(Entry::try_from_item(&item), Ok(e));
}

#[test]
fn an_item_is_read_field_by_field() {
    let item = vec![
        text("name", "lemon"),
        text("message", "hello"),
        text("created_at", "2015-05-15T02:00:00+02:00"),
        text("id", "550e8400-e29b-41d4-a716-446655440000"),
        Attribute { name: "url".to_string(), value: AttributeValue::Null },
    ];
    let e = Entry::try_from_item(&item).unwrap();
    assert_eq!(e.id, 0x550e8400e29b41d4a716446655440000);
    assert_eq!(e.created_at, Timestamp::new(1_431_648_000, 0));
    assert_eq!(e.deleted_at, None);
    assert_eq!(e.url, None);
    assert_eq!(e.email, None);
    assert!(!e.qa);
    assert_eq!(e.ser_options, SerOptions { deleted_at: false, qa: false });
}

#[test]
fn what_is_wrong_with_an_item_is_reported_by_field() {
    let good = || {
        vec![
            text("id", "550e8400-e29b-41d4-a716-446655440000"),
            text("created_at", "2015-05-15T00:00:00+00:00"),
            text("message", "hello"),
            text("name", "lemon"),
        ]
    };
    assert!(Entry::try_from_item(&good()).is_ok());

    assert_eq!(Entry::try_from_item(&Vec::new()), Err(ItemError::Missing(Field::Id)));
    let mut item = good();
    item.remove(1);
    assert_eq!(Entry::try_from_item(&item), Err(ItemError::Missing(Field::CreatedAt)));
    let mut item = good();
    item.remove(2);
    assert_eq!(Entry::try_from_item(&item), Err(ItemError::Missing(Field::Message)));
    let mut item = good();
    item.remove(3);
    assert_eq!(Entry::try_from_item(&item), Err(ItemError::Missing(Field::Name)));

    let mut item = good();
    item[0] = text("id", "not a uuid");
    assert_eq!(Entry::try_from_item(&item), Err(ItemError::InvalidFormat(Field::Id)));
    let mut item = good();
    item[0] = Attribute { name: "id".to_string(), value: AttributeValue::N("5".to_string()) };
    assert_eq!(Entry::try_from_item(&item), Err(ItemError::InvalidType(Field::Id)));
    let mut item = good();
    item[1] = text("created_at", "1431648000000");
    assert_eq!(Entry::try_from_item(&item), Err(ItemError::InvalidFormat(Field::CreatedAt)));
    let mut item = good();
    item.push(text("deleted_at", "yesterday"));
    assert_eq!(Entry::try_from_item(&item), Err(ItemError::InvalidFormat(Field::DeletedAt)));
    let mut item = good();
    item.push(Attribute { name: "email".to_string(), value: AttributeValue::Bool(true) });
    assert_eq!(Entry::try_from_item(&item), Err(ItemError::InvalidType(Field::Email)));
    let mut item = good();
    item.push(Attribute { name: "url".to_string(), value: AttributeValue::Other });
    assert_eq!(Entry::try_from_item(&item), Err(ItemError::InvalidType(Field::Url)));
    let mut item = good();
    item.push(text("qa", "true"));
    assert_eq!(Entry::try_from_item(&item), Err(ItemError::InvalidType(Field::Qa)));
}

#[test]
fn the_shown_entry_has_no_place_for_the_email() {
    let mut e = entry(7, 10, "lemon");
    e.email = Some("secret@example.com".to_string());
    e.push_ser_option("serialize_deleted_at");
    e.push_ser_option("serialize_qa");
    let d: DisplayableEntry = e.display();
    let printed = format!("{:?}", d);
    assert!(!printed.contains("secret@example.com"));
}

#[test]
fn the_default_entry_is_empty_and_live() {
    let e = Entry::default();
    assert_eq!((e.id >> 76) & 0xf, 4);
    assert_eq!(e.deleted_at, None);
    assert_eq!(e.url, None);
    assert_eq!(e.email, None);
    assert_eq!(e.message, "");
    assert_eq!(e.name, "");
    assert!(!e.qa);
    assert_eq!(e.ser_options, SerOptions { deleted_at: false, qa: false });
}
