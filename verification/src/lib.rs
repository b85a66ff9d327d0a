//! Convention checks, repairs, fetching and help for a workspace of many
//! repositories.

pub mod attributes;
pub mod branches;
pub mod collect;
pub mod consent;
pub mod doctor;
pub mod drift;
pub mod durable_file;
pub mod explain;
pub mod fetch;
pub mod fetch_repo;
pub mod find;
pub mod hygiene;
pub mod identity;
pub mod issue;
pub mod kinds;
pub mod legacy;
pub mod lists;
pub mod migration;
pub mod model;
pub mod order;
pub mod paths;
pub mod probes;
pub mod provenance;
pub mod receipts;
pub mod registry;
pub mod repairs;
pub mod report;
pub mod scan_text;
pub mod scope;
pub mod siblings;
pub mod targets;
pub mod text;
pub mod topology;
pub mod tree;
pub mod violation;
pub mod violation_view;
pub mod wire;
pub mod wording;
pub mod workspace_repairs;
pub mod world;
