use peoplemodeler::chord::{
    chord_view, text_lt, toggle_type, type_color, type_index, PersonCard, ALL_RELATION_TYPES,
};
use peoplemodeler::relationship::{RelationType, Relationship};

fn card(id: &str, name: &str) -> PersonCard {
    PersonCard { id: id.into(), name: name.into(), emoji: "🙂".into() }
}

fn rel(s: &str, t: &str, rtype: RelationType) -> Relationship {
    Relationship {
        id: format!("{s}{t}"),
        source_id: s.into(),
        target_id: t.into(),
        rtype,
        strength: 5,
        notes: String::new(),
        created_at: 0,
    }
}

fn all_types() -> Vec<RelationType> {
    ALL_RELATION_TYPES.to_vec()
}

#[test]
fn type_index_and_colour_follow_display_order() {
    for (i, t) in ALL_RELATION_TYPES.iter().enumerate() {
        assert_eq!(type_index(*t), i);
    }
    assert_eq!(type_color(RelationType::Manages), "var(--cyan)");
    assert_eq!(type_color(RelationType::WorksWith), "var(--blue)");
}

#[test]
fn chips_toggle() {
    let mut active = vec![RelationType::Friends, RelationType::Family];
    toggle_type(&mut active, RelationType::Friends);
    assert_eq!(active, vec![RelationType::Family]);
    toggle_type(&mut active, RelationType::Friends);
    assert_eq!(active, vec![RelationType::Family, RelationType::Friends]);
}

#[test]
fn ids_compare_like_strings() {
    for (a, b) in [("a", "b"), ("b", "a"), ("ab", "a"), ("a", "ab"), ("", "x"), ("x", "x"), ("Z", "a")] {
        assert_eq!(text_lt(a, b), a < b, "{a} {b}");
    }
}

#[test]
fn map_without_search_shows_everyone() {
    let persons = vec![card("p1", "Ann"), card("p2", "Bob"), card("p3", "Cy")];
    let rels = vec![
        rel("p2", "p1", RelationType::WorksWith),
        rel("p1", "p2", RelationType::Friends),
        rel("p1", "p2", RelationType::Friends),
        rel("p3", "p1", RelationType::Manages),
    ];
    let v = chord_view(&persons, &rels, "", &all_types());
    assert_eq!(v.nodes.iter().map(|n| n.index).collect::<Vec<_>>(), vec![0, 1, 2]);
    assert!(v.nodes.iter().all(|n| n.matched));
    assert_eq!(v.pairs.len(), 2);
    assert_eq!((v.pairs[0].a.as_str(), v.pairs[0].b.as_str()), ("p1", "p2"));
    assert_eq!(v.pairs[0].types, vec![RelationType::Friends, RelationType::WorksWith]);
    assert_eq!((v.pairs[1].a.as_str(), v.pairs[1].b.as_str()), ("p1", "p3"));
    assert_eq!(v.pairs[1].types, vec![RelationType::Manages]);
}

#[test]
fn map_search_shows_matches_and_their_links() {
    let persons = vec![card("p1", "Ann"), card("p2", "Bob"), card("p3", "Cy"), card("p4", "Dee")];
    let rels = vec![rel("p1", "p2", RelationType::Friends), rel("p3", "p4", RelationType::Family)];
    let v = chord_view(&persons, &rels, "AN", &all_types());
    let nodes: Vec<(usize, bool)> = v.nodes.iter().map(|n| (n.index, n.matched)).collect();
    assert_eq!(nodes, vec![(0, true), (1, false)]);
    assert_eq!(v.pairs.len(), 1);
    assert_eq!(v.pairs[0].types, vec![RelationType::Friends]);
}

#[test]
fn map_hides_unselected_types() {
    let persons = vec![card("p1", "Ann"), card("p2", "Bob")];
    let rels = vec![rel("p1", "p2", RelationType::Friends)];
    let v = chord_view(&persons, &rels, "", &vec![RelationType::Family]);
    assert_eq!(v.nodes.len(), 2);
    assert!(v.pairs.is_empty());
    let w = chord_view(&persons, &rels, "bob", &vec![RelationType::Family]);
    assert_eq!(w.nodes.iter().map(|n| n.index).collect::<Vec<_>>(), vec![1]);
    assert!(w.pairs.is_empty());
}
