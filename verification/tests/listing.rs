use jil_api::guestbook::entry::{Entry, GuestbookForm};
use jil_api::listing::{insert_ordered, list_undeleted, select_live, sort_rows, window_after};
use jil_api::record::{comes_before, Record};
use jil_api::shortener::entry::{CreateEntryForm, Entry as Shortlink};
use jil_api::text::{byte_len, str_before, str_eq};
use jil_api::time::Timestamp;

fn guest(id: u128, secs: i64, nanos: u32) -> Entry {
    let form = GuestbookForm {
        name: format!("n{}", id),
        message: "hello".to_string(),
        email: None,
        url: None,
        qa: false,
    };
    Entry::new(form, id, Timestamp::new(secs, nanos)).unwrap()
}

fn link(shortname: &str, secs: i64) -> Shortlink {
    let form = CreateEntryForm { shortname: shortname.to_string(), longurl: "https://example.com".to_string() };
    Shortlink::new(form, Timestamp::new(secs, 0)).unwrap()
}

fn ids(rows: &[Entry]) -> Vec<u128> {
    rows.iter().map(|e| e.id).collect()
}

#[test]
fn rows_are_listed_oldest_first() {
    let rows = vec![guest(1, 30, 0), guest(2, 10, 0), guest(3, 20, 5), guest(4, 20, 4)];
    let (total, page) = list_undeleted(&rows, None, false);
    assert_eq!(total, 4);
    assert_eq!(ids(&page), vec![2, 4, 3, 1]);
}

#[test]
fn rows_of_one_instant_are_listed_by_key() {
    let rows = vec![guest(9, 10, 0), guest(3, 10, 0), guest(7, 10, 0), guest(1, 11, 0), guest(8, 9, 0)];
    let (_, page) = list_undeleted(&rows, None, false);
    assert_eq!(ids(&page), vec![8, 3, 7, 9, 1]);

    let links = vec![link("b", 5), link("ab", 5), link("a", 5), link("B", 5), link("é", 5), link("z", 4)];
    let (_, page) = list_undeleted(&links, None, true);
    let names: Vec<&str> = page.iter().map(|l| l.shortname.as_str()).collect();
    assert_eq!(names, vec!["z", "B", "a", "ab", "b", "é"]);
}

#[test]
fn deleted_and_trial_rows_are_left_out_but_counted() {
    let mut deleted = guest(1, 10, 0);
    deleted.deleted_at = Some(Timestamp::new(11, 0));
    let mut trial = guest(2, 20, 0);
    trial.qa = true;
    let mut deleted_trial = guest(3, 30, 0);
    deleted_trial.qa = true;
    deleted_trial.deleted_at = Some(Timestamp::new(31, 0));
    let rows = vec![deleted, trial, deleted_trial, guest(4, 40, 0)];

    let (total, page) = list_undeleted(&rows, None, false);
    assert_eq!((total, ids(&page)), (4, vec![4]));
    let (total, page) = list_undeleted(&rows, None, true);
    assert_eq!((total, ids(&page)), (4, vec![2, 4]));
    assert_eq!(ids(&select_live(&rows, true)), vec![2, 4]);
    assert_eq!(ids(&select_live(&rows, false)), vec![4]);
}

#[test]
fn an_empty_scan_lists_nothing() {
    let rows: Vec<Entry> = Vec::new();
    assert_eq!(list_undeleted(&rows, None, false), (0, Vec::new()));
    assert_eq!(list_undeleted(&rows, Some(&1), false), (0, Vec::new()));
}

#[test]
fn the_cursor_selects_what_follows_its_row() {
    let rows = vec![guest(3, 30, 0), guest(1, 10, 0), guest(2, 20, 0), guest(4, 40, 0)];
    assert_eq!(ids(&list_undeleted(&rows, Some(&1), false).1), vec![2, 3, 4]);
    assert_eq!(ids(&list_undeleted(&rows, Some(&2), false).1), vec![3, 4]);
    assert_eq!(ids(&list_undeleted(&rows, Some(&3), false).1), vec![4]);
    assert_eq!(ids(&list_undeleted(&rows, Some(&4), false).1), Vec::<u128>::new());
}

#[test]
fn a_cursor_that_names_no_listed_row_selects_everything() {
    let mut deleted = guest(2, 20, 0);
    deleted.deleted_at = Some(Timestamp::new(21, 0));
    let rows = vec![guest(3, 30, 0), guest(1, 10, 0), deleted];
    // never existed
    assert_eq!(ids(&list_undeleted(&rows, Some(&99), false).1), vec![1, 3]);
    // deleted since the cursor was handed out
    assert_eq!(ids(&list_undeleted(&rows, Some(&2), false).1), vec![1, 3]);
}

#[test]
fn the_prefix_through_the_cursor_and_the_page_make_the_listing() {
    let rows: Vec<Entry> = (1..=6u128).map(|i| guest(i, 100 - i as i64, 0)).collect();
    let (_, all) = list_undeleted(&rows, None, false);
    assert_eq!(ids(&all), vec![6, 5, 4, 3, 2, 1]);
    for i in 0..all.len() {
        let (_, page) = list_undeleted(&rows, Some(&all[i].id), false);
        let mut joined = ids(&all[..=i]);
        joined.extend(ids(&page));
        assert_eq!(joined, ids(&all));
    }
}

#[test]
fn sorting_keeps_every_row() {
    let rows = vec![guest(5, 1, 0), guest(5, 1, 0), guest(4, 1, 0), guest(6, 0, 999_999_999)];
    let sorted = sort_rows(rows);
    assert_eq!(ids(&sorted), vec![6, 4, 5, 5]);
    let mut v = vec![guest(1, 1, 0), guest(3, 3, 0)];
    insert_ordered(&mut v, guest(2, 2, 0));
    insert_ordered(&mut v, guest(0, 0, 0));
    insert_ordered(&mut v, guest(9, 9, 0));
    assert_eq!(ids(&v), vec![0, 1, 2, 3, 9]);
}

#[test]
fn the_window_starts_behind_the_first_row_with_the_key() {
    let v = vec![guest(1, 1, 0), guest(2, 2, 0), guest(3, 3, 0)];
    assert_eq!(ids(&window_after(v, Some(&2))), vec![3]);
    let v = vec![guest(1, 1, 0), guest(2, 2, 0), guest(3, 3, 0)];
    assert_eq!(ids(&window_after(v, None)), vec![1, 2, 3]);
    let v = vec![guest(1, 1, 0), guest(2, 2, 0), guest(3, 3, 0)];
    assert_eq!(ids(&window_after(v, Some(&7))), vec![1, 2, 3]);
}

#[test]
fn records_are_compared_by_instant_then_key() {
    assert!(comes_before(&guest(9, 1, 0), &guest(1, 2, 0)));
    assert!(comes_before(&guest(9, 1, 5), &guest(1, 1, 6)));
    assert!(comes_before(&guest(1, 1, 5), &guest(2, 1, 5)));
    assert!(!comes_before(&guest(2, 1, 5), &guest(1, 1, 5)));
    assert!(!comes_before(&guest(1, 1, 5), &guest(1, 1, 5)));
    assert!(Timestamp::new(-5, 0).before(&Timestamp::new(-4, 0)));
    assert!(!Timestamp::new(3, 7).before(&Timestamp::new(3, 7)));
    assert!(guest(1, 1, 0).has_key(&1));
    assert!(!guest(1, 1, 0).has_key(&2));
    assert!(link("abc", 1).has_key(&"abc".to_string()));
    assert!(link("abc", 1).same_key(&link("abc", 9)));
    assert!(link("abc", 1).key_before(&link("abd", 0)));
}

#[test]
fn texts_are_compared_by_their_bytes() {
    assert!(str_eq("", ""));
    assert!(str_eq("abc", "abc"));
    assert!(!str_eq("abc", "abd"));
    assert!(!str_eq("abc", "ab"));
    assert!(str_before("", "a"));
    assert!(!str_before("a", ""));
    assert!(!str_before("a", "a"));
    assert!(str_before("a", "ab"));
    assert!(str_before("ab", "b"));
    assert!(str_before("Z", "a"));
    assert!(str_before("z", "é"));
    assert_eq!("z" < "é", str_before("z", "é"));
    assert_eq!(byte_len("é"), 2);
    assert_eq!(byte_len(""), 0);
}

#[test]
fn a_tombstone_changes_nothing_but_the_deletion_instant() {
    let e = guest(1, 10, 0);
    let gone = e.tombstone(Timestamp::new(20, 0));
    let mut expected = guest(1, 10, 0);
    expected.deleted_at = Some(Timestamp::new(20, 0));
    assert_eq!(gone, expected);
    assert!(gone.is_deleted());
    assert_eq!(gone.duplicate(), expected);
    assert_eq!(gone.created(), Timestamp::new(10, 0));
    assert!(!gone.is_flagged());
}
