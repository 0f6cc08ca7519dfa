//! Decision logic of the People Modeler application: themes, the undo
//! history, the guided tour, predictions, relationships, teams, per-trigger
//! insight strategies, pairwise comparison analysis and persona editing.

pub mod model;
pub mod person;
pub mod person_edit;
pub mod prediction;
pub mod relationship;
pub mod team;
pub mod templates;
pub mod text;
pub mod theme;
pub mod undo;
pub mod tutorial;
pub mod compare;
pub mod compare_text;
pub mod insight;
pub mod sync;
pub mod backup;
pub mod ranking;
pub mod timeline;
pub mod people;
pub mod chord;
pub mod detail;
pub mod facet_fields;
pub mod consistency;
