use peoplemodeler::model::FacetKind;
use peoplemodeler::person::{InteractionEntry, Person};
use peoplemodeler::person_edit::blank_person_with_facet;
use peoplemodeler::timeline::{add_log_entry, remove_log_entry, timeline};

fn person(id: &str, name: &str, log: &[(&str, i64)]) -> Person {
    let mut p = blank_person_with_facet(FacetKind::Base, id.to_string(), 0);
    p.name = name.to_string();
    p.avatar_emoji = "🙂".to_string();
    for (eid, ts) in log {
        p.log.push(InteractionEntry { id: eid.to_string(), timestamp: *ts, text: format!("note {eid}") });
    }
    p
}

#[test]
fn timeline_latest_first_across_people() {
    let people = vec![person("a", "Ann", &[("a1", 10), ("a2", 30)]), person("b", "Bob", &[("b1", 20)])];
    let lines = timeline(&people);
    let ids: Vec<&str> = lines.iter().map(|l| l.entry.id.as_str()).collect();
    assert_eq!(ids, vec!["a2", "b1", "a1"]);
    assert_eq!(lines[1].name, "Bob");
    assert_eq!(lines[1].person_id, "b");
    assert_eq!(lines[1].emoji, "🙂");
    assert_eq!(lines[1].entry.text, "note b1");
}

#[test]
fn timeline_keeps_order_of_equal_times() {
    let people = vec![person("a", "Ann", &[("a1", 5), ("a2", 5)]), person("b", "Bob", &[("b1", 5), ("b2", 9)])];
    let ids: Vec<String> = timeline(&people).into_iter().map(|l| l.entry.id).collect();
    assert_eq!(ids, vec!["b2", "a1", "a2", "b1"]);
}

#[test]
fn timeline_of_nobody_is_empty() {
    assert!(timeline(&vec![]).is_empty());
    assert!(timeline(&vec![person("a", "Ann", &[])]).is_empty());
}

#[test]
fn log_entries_are_added_and_removed() {
    let mut p = person("a", "Ann", &[("x", 1)]);
    assert!(!add_log_entry(&mut p, "y".into(), 2, String::new()));
    assert_eq!(p.log.len(), 1);
    assert!(add_log_entry(&mut p, "y".into(), 2, "met for lunch".into()));
    assert_eq!(p.log.len(), 2);
    assert_eq!(p.log[1].text, "met for lunch");
    remove_log_entry(&mut p, "x");
    assert_eq!(p.log.iter().map(|e| e.id.as_str()).collect::<Vec<_>>(), vec!["y"]);
    remove_log_entry(&mut p, "nope");
    assert_eq!(p.log.len(), 1);
    assert_eq!(p.name, "Ann");
}
