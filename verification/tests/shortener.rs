use jil_api::error::{ApiError, RepoError, ValidationError};
use jil_api::item::{absent_condition, Attribute, AttributeValue, Field, ItemError};
use jil_api::shortener::entry::{CreateEntryForm, DisplayableEntry, Entry};
use jil_api::shortener::methods::{
    create_entry, delete_entry, delete_entry_at, entry_created, entry_deleted, list_entries,
    stats_entry_written, stats_updated,
};
use jil_api::shortener::queries::{
    create_shortlink_entry, entry_key, get_shortlink_entry, key_field, list_shortlink_entries,
    put_shortlink_entry, table_name,
};
use jil_api::slack::channel::SlackChannel;
use jil_api::store::{GetOutcome, PutOutcome, PutPlan, ScanOutcome};
use jil_api::stored::{read_item, read_items};
use jil_api::time::Timestamp;

fn form(shortname: &str, longurl: &str) -> CreateEntryForm {
    CreateEntryForm { shortname: shortname.to_string(), longurl: longurl.to_string() }
}

fn link(shortname: &str, longurl: &str, secs: i64) -> Entry {
    Entry::new(form(shortname, longurl), Timestamp::new(secs, 0)).unwrap()
}

fn text(name: &str, value: &str) -> Attribute {
    Attribute { name: name.to_string(), value: AttributeValue::S(value.to_string()) }
}

fn number(name: &str, value: &str) -> Attribute {
    Attribute { name: name.to_string(), value: AttributeValue::N(value.to_string()) }
}

#[test]
fn a_valid_form_becomes_a_live_link_without_clicks() {
    let e = Entry::new(form("abc", "https://example.com"), Timestamp::new(5, 6)).unwrap();
    assert_eq!(
        e,
        Entry {
            shortname: "abc".to_string(),
            created_at: Timestamp { secs: 5, nanos: 6 },
            deleted_at: None,
            longurl: "https://example.com".to_string(),
            clicks: 0,
        }
    );
}

#[test]
fn empty_fields_are_rejected_the_short_name_first() {
    assert_eq!(Entry::new(form("", "https://example.com"), Timestamp::new(0, 0)), Err(ValidationError::EmptyShortname));
    assert_eq!(Entry::new(form("abc", ""), Timestamp::new(0, 0)), Err(ValidationError::EmptyLongurl));
    assert_eq!(Entry::new(form("", ""), Timestamp::new(0, 0)), Err(ValidationError::EmptyShortname));
    assert_eq!(Entry::try_from(form("", "x")), Err(ValidationError::EmptyShortname));
    assert_eq!(Entry::try_from(form("x", "")), Err(ValidationError::EmptyLongurl));
    assert_eq!(ValidationError::EmptyShortname.to_string(), "Received an empty shortname");
    assert_eq!(ValidationError::EmptyLongurl.to_string(), "Received an empty longurl");
}

#[test]
fn a_new_link_is_created_now() {
    let e = Entry::try_from(form("abc", "https://example.com")).unwrap();
    assert_eq!(e.shortname, "abc");
    assert_eq!(e.longurl, "https://example.com");
    assert_eq!(e.deleted_at, None);
    assert_eq!(e.clicks, 0);
    assert!(e.created_at.secs > 1_600_000_000);
}

#[test]
fn the_click_counter_is_set_and_nothing_else() {
    let e = link("abc", "https://example.com", 5).with_clicks(17);
    let mut expected = link("abc", "https://example.com", 5);
    expected.clicks = 17;
    assert_eq!(e, expected);
}

#[test]
fn a_link_is_shown_without_its_deletion_instant() {
    let mut e = link("abc", "https://example.com", 5).with_clicks(3);
    e.deleted_at = Some(Timestamp::new(9, 0));
    assert_eq!(
        e.display(),
        DisplayableEntry {
            shortname: "abc".to_string(),
            created_at: Timestamp::new(5, 0),
            longurl: "https://example.com".to_string(),
            clicks: 3,
        }
    );
}

#[test]
fn the_shortener_asks_its_table_by_short_name() {
    assert_eq!(table_name(), "jil-link-shortener");
    assert_eq!(key_field(), Field::Shortname);
    assert_eq!(entry_key("abc"), text("shortname", "abc"));
    assert_eq!(absent_condition(key_field()), "attribute_not_exists(shortname)");
    assert_eq!(absent_condition(Field::Id), "attribute_not_exists(id)");
    assert_eq!(create_shortlink_entry(link("a", "u", 1)), PutPlan { item: link("a", "u", 1), if_absent: true });
    assert_eq!(put_shortlink_entry(link("a", "u", 1)), PutPlan { item: link("a", "u", 1), if_absent: false });
    assert_eq!(get_shortlink_entry(GetOutcome::Missing), Err(RepoError::NotFound));
    assert_eq!(get_shortlink_entry(GetOutcome::Found(link("a", "u", 1))), Ok(link("a", "u", 1)));
}

#[test]
fn live_links_are_listed_oldest_first_and_all_are_counted() {
    let mut gone = link("gone", "u", 1);
    gone.deleted_at = Some(Timestamp::new(2, 0));
    let rows = vec![link("c", "u", 30), gone, link("a", "u", 10), link("b", "u", 20)];
    let (total, page) = list_shortlink_entries(ScanOutcome::Items(rows)).unwrap();
    assert_eq!(total, 4);
    assert_eq!(page, vec![link("a", "u", 10), link("b", "u", 20), link("c", "u", 30)]);
    assert_eq!(
        list_shortlink_entries(ScanOutcome::Fault("down".to_string())),
        Err(RepoError::StoreUnavailable("down".to_string()))
    );
}

#[test]
fn creating_a_link_plans_a_conditional_write() {
    let plan = create_entry(form("abc", "https://example.com")).unwrap();
    assert!(plan.if_absent);
    assert_eq!(plan.item.shortname, "abc");
    assert_eq!(plan.item.longurl, "https://example.com");
    let refused = create_entry(form("", "https://example.com")).unwrap_err();
    assert_eq!(refused, ApiError { message: "Received an empty shortname".to_string(), status_code: 400 });
    let refused = create_entry(form("abc", "")).unwrap_err();
    assert_eq!(refused, ApiError { message: "Received an empty longurl".to_string(), status_code: 400 });
}

#[test]
fn a_taken_short_name_is_reported_as_such() {
    let shown = entry_created(link("abc", "u", 1), PutOutcome::Written).unwrap();
    assert_eq!(shown, link("abc", "u", 1).display());
    let conflict = entry_created(link("abc", "u", 1), PutOutcome::ConditionFailed).unwrap_err();
    assert_eq!(conflict, ApiError { message: "Shortname already exists".to_string(), status_code: 400 });
    let fault = entry_created(link("abc", "u", 1), PutOutcome::Fault("down".to_string())).unwrap_err();
    assert_eq!(fault, ApiError { message: "down".to_string(), status_code: 500 });
}

#[test]
fn links_are_listed_as_they_are_shown() {
    let mut gone = link("gone", "u", 1);
    gone.deleted_at = Some(Timestamp::new(2, 0));
    let rows = vec![link("b", "u", 20).with_clicks(4), gone, link("a", "u", 10)];
    let items = list_entries(ScanOutcome::Items(rows)).unwrap();
    assert_eq!(items, vec![link("a", "u", 10).display(), link("b", "u", 20).with_clicks(4).display()]);
    assert_eq!(list_entries(ScanOutcome::Fault("down".to_string())).unwrap_err().status_code, 500);
}

#[test]
fn deleting_a_link_stamps_it() {
    let plan = delete_entry_at(GetOutcome::Found(link("abc", "u", 1)), Timestamp::new(7, 0)).unwrap();
    let mut expected = link("abc", "u", 1);
    expected.deleted_at = Some(Timestamp::new(7, 0));
    assert_eq!(plan, PutPlan { item: expected, if_absent: false });
    let missing = delete_entry_at(GetOutcome::Missing, Timestamp::new(7, 0)).unwrap_err();
    assert_eq!(missing, ApiError { message: "No entry found".to_string(), status_code: 400 });
    let now = delete_entry(GetOutcome::Found(link("abc", "u", 1))).unwrap();
    assert!(now.item.deleted_at.unwrap().secs > 1_600_000_000);
    let shown = entry_deleted(plan.item, PutOutcome::Written).unwrap();
    assert_eq!(shown.shortname, "abc");
    assert_eq!(entry_deleted(link("abc", "u", 1), PutOutcome::Fault("x".to_string())).unwrap_err().status_code, 500);
}

#[test]
fn each_link_of_a_statistics_run_is_written_or_ends_the_run() {
    assert_eq!(stats_entry_written(PutOutcome::Written), Ok(()));
    assert_eq!(
        stats_entry_written(PutOutcome::Fault("throttled".to_string())),
        Err(ApiError { message: "throttled".to_string(), status_code: 500 })
    );
    assert_eq!(stats_entry_written(PutOutcome::ConditionFailed).unwrap_err().status_code, 400);
}

#[test]
fn a_statistics_run_is_reported_with_its_size() {
    let req = stats_updated(12);
    assert_eq!(req.text, "Updated 12 shortlink entries");
    assert_eq!(req.channel, SlackChannel::General);
    assert!(req.blocks.is_empty());
    assert_eq!(stats_updated(0).text, "Updated 0 shortlink entries");
    assert_eq!(stats_updated(1000).text, "Updated 1000 shortlink entries");
}

#[test]
fn a_link_is_stored_as_attributes() {
    let mut e = link("abc", "https://example.com", 1_431_648_000).with_clicks(1234);
    assert_eq!(
        e.items().unwrap(),
        vec![
            text("shortname", "abc"),
            text("created_at", "2015-05-15T00:00:00+00:00"),
            text("longurl", "https://example.com"),
            number("clicks", "1234"),
        ]
    );
    e.deleted_at = Some(Timestamp::new(1_431_648_060, 0));
    e.clicks = 0;
    assert_eq!(
        e.items().unwrap(),
        vec![
            text("shortname", "abc"),
            text("created_at", "2015-05-15T00:00:00+00:00"),
            text("deleted_at", "2015-05-15T00:01:00+00:00"),
            text("longurl", "https://example.com"),
            number("clicks", "0"),
        ]
    );
    let far = link("abc", "u", i64::MAX);
    assert_eq!(far.items(), Err(ItemError::Unrepresentable(Field::CreatedAt)));
}

#[test]
fn a_stored_link_is_read_back() {
    let mut e = link("abc", "https://example.com", 1_431_648_000).with_clicks(4_294_967_295);
    e.deleted_at = Some(Timestamp::new(1_431_648_001, 0));
    assert_eq!(Entry::try_from_item(&e.items().unwrap()), Ok(e));
    let e = link("x", "y", 0);
    assert_eq!(Entry::try_from_item(&e.items().unwrap()), Ok(e));
}

#[test]
fn what_is_wrong_with_a_stored_link_is_reported_by_field() {
    let good = || {
        vec![
            text("shortname", "abc"),
            text("created_at", "2015-05-15T00:00:00Z"),
            text("longurl", "https://example.com"),
        ]
    };
    assert_eq!(Entry::try_from_item(&good()).unwrap().clicks, 0);
    assert_eq!(Entry::try_from_item(&good()).unwrap().created_at, Timestamp::new(1_431_648_000, 0));
    let mut item = good();
    item.remove(0);
    assert_eq!(Entry::try_from_item(&item), Err(ItemError::Missing(Field::Shortname)));
    let mut item = good();
    item.remove(2);
    assert_eq!(Entry::try_from_item(&item), Err(ItemError::Missing(Field::Longurl)));
    let mut item = good();
    item.push(number("clicks", "4294967296"));
    assert_eq!(Entry::try_from_item(&item), Err(ItemError::InvalidFormat(Field::Clicks)));
    let mut item = good();
    item.push(number("clicks", "-1"));
    assert_eq!(Entry::try_from_item(&item), Err(ItemError::InvalidFormat(Field::Clicks)));
    let mut item = good();
    item.push(text("clicks", "1"));
    assert_eq!(Entry::try_from_item(&item), Err(ItemError::InvalidType(Field::Clicks)));
    let mut item = good();
    item.push(number("clicks", "007"));
    assert_eq!(Entry::try_from_item(&item).unwrap().clicks, 7);
}

#[test]
fn what_a_get_returned_becomes_its_outcome() {
    let e = link("abc", "https://example.com", 1_431_648_000);
    let item = e.items().unwrap();
    assert_eq!(read_item::<Entry>(Some(&item)), GetOutcome::Found(e));
    assert_eq!(read_item::<Entry>(None), GetOutcome::Missing);
    let bad = vec![text("shortname", "abc")];
    assert_eq!(read_item::<Entry>(Some(&bad)), GetOutcome::Fault("missing attribute: created_at".to_string()));
}

#[test]
fn what_a_scan_returned_becomes_its_outcome() {
    let a = link("a", "u", 1_431_648_000);
    let b = link("b", "u", 1_431_648_001);
    let items = vec![b.items().unwrap(), a.items().unwrap()];
    assert_eq!(
        read_items::<Entry>(&items),
        ScanOutcome::Items(vec![link("b", "u", 1_431_648_001), link("a", "u", 1_431_648_000)])
    );
    assert_eq!(read_items::<Entry>(&Vec::new()), ScanOutcome::Items(Vec::new()));
    let items = vec![
        a.items().unwrap(),
        vec![text("shortname", "x"), text("created_at", "soon"), text("longurl", "u")],
        vec![text("created_at", "2015-05-15T00:00:00Z")],
    ];
    assert_eq!(
        read_items::<Entry>(&items),
        ScanOutcome::Fault("attribute that cannot be read: created_at".to_string())
    );
}

#[test]
fn item_errors_say_what_is_wrong_with_which_field() {
    assert_eq!(ItemError::Missing(Field::Id).to_string(), "missing attribute: id");
    assert_eq!(ItemError::InvalidType(Field::Qa).to_string(), "attribute of the wrong type: qa");
    assert_eq!(ItemError::InvalidFormat(Field::Clicks).to_string(), "attribute that cannot be read: clicks");
    assert_eq!(ItemError::Unrepresentable(Field::DeletedAt).to_string(), "value that cannot be written: deleted_at");
    let names: Vec<&str> = [
        Field::Id,
        Field::CreatedAt,
        Field::DeletedAt,
        Field::Url,
        Field::Email,
        Field::Message,
        Field::Name,
        Field::Qa,
        Field::Shortname,
        Field::Longurl,
        Field::Clicks,
    ]
    .iter()
    .map(|f| f.as_str())
    .collect();
    assert_eq!(
        names,
        vec![
            "id",
            "created_at",
            "deleted_at",
            "url",
            "email",
            "message",
            "name",
            "qa",
            "shortname",
            "longurl",
            "clicks"
        ]
    );
}
