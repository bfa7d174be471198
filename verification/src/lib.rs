//! Archive library: domain model, filtering and sorting, presentation rules and
//! path guards of the analysis archive, each stated over mathematical models.

pub mod analysis;
pub mod detail_view;
pub mod dialogs;
pub mod dictionary;
pub mod dnd;
pub mod error;
pub mod filter;
pub mod flows;
pub mod indexer;
pub mod labels;
pub mod model;
pub mod models;
pub mod panel;
pub mod payload;
pub mod present;
pub mod preview;
pub mod resource;
pub mod resource_view;
pub mod seqs;
pub mod service;
pub mod sorting;
pub mod text;
