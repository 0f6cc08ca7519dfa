use peoplemodeler::chord::PersonCard;
use peoplemodeler::detail::{
    ocean_average, prediction_stats, relationship_candidates, relationships_of, rep_items,
};
use peoplemodeler::model::{OceanScores, RepDim, RepScores};
use peoplemodeler::prediction::Prediction;
use peoplemodeler::relationship::{RelationType, Relationship};

fn pred(resolved: bool, accuracy: Option<u8>) -> Prediction {
    Prediction {
        id: "p".into(),
        person_id: "a".into(),
        context: "c".into(),
        predicted_outcome: "o".into(),
        actual_outcome: None,
        accuracy,
        created_at: 0,
        resolved_at: None,
        resolved,
    }
}

#[test]
fn stats_count_resolved_and_average_grades() {
    assert!(prediction_stats(&vec![]).is_none());
    assert!(prediction_stats(&vec![pred(false, None)]).is_none());
    let st = prediction_stats(&vec![pred(true, Some(8)), pred(false, None), pred(true, Some(5))]).unwrap();
    assert_eq!((st.resolved, st.total, st.average), (2, 3, 6));
}

#[test]
fn stats_count_resolved_without_grade() {
    let st = prediction_stats(&vec![pred(true, Some(9)), pred(true, None)]).unwrap();
    assert_eq!((st.resolved, st.total, st.average), (2, 2, 4));
}

#[test]
fn ocean_average_of_set_scores() {
    assert_eq!(ocean_average(&OceanScores::unset()), 0);
    let o = OceanScores {
        openness: Some(8),
        conscientiousness: None,
        extraversion: Some(3),
        agreeableness: None,
        neuroticism: Some(5),
    };
    assert_eq!(ocean_average(&o), 5);
}

#[test]
fn rep_items_in_display_order() {
    let mut r = RepScores::unset();
    r.adaptable_rigid = Some(4);
    r.hardworker_lazy = Some(9);
    assert_eq!(rep_items(&r), vec![(RepDim::HardworkerLazy, 9), (RepDim::AdaptableRigid, 4)]);
    assert!(rep_items(&RepScores::unset()).is_empty());
}

fn rel(id: &str, s: &str, t: &str) -> Relationship {
    Relationship {
        id: id.into(),
        source_id: s.into(),
        target_id: t.into(),
        rtype: RelationType::Friends,
        strength: 5,
        notes: String::new(),
        created_at: 0,
    }
}

#[test]
fn relationships_of_a_person_in_order() {
    let rels = vec![rel("1", "a", "b"), rel("2", "b", "c"), rel("3", "c", "a")];
    let ids: Vec<String> = relationships_of(rels, "a").into_iter().map(|r| r.id).collect();
    assert_eq!(ids, vec!["1", "3"]);
}

#[test]
fn candidates_exclude_the_person_and_follow_search() {
    let persons = vec![
        PersonCard { id: "a".into(), name: "Ann".into(), emoji: "".into() },
        PersonCard { id: "b".into(), name: "Bob".into(), emoji: "".into() },
        PersonCard { id: "c".into(), name: "Anna".into(), emoji: "".into() },
    ];
    assert_eq!(relationship_candidates(&persons, "a", ""), vec![1, 2]);
    assert_eq!(relationship_candidates(&persons, "a", "ANN"), vec![2]);
}
