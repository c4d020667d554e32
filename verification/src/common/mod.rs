//! What the model and the planner share.
pub mod cns_table;
pub mod deco;
pub mod deco_laws;
pub mod deco_model;
pub mod depth;
pub mod fixed;
pub mod gas;
pub mod global_types;
pub mod ox_tox;
pub mod record;
pub mod sim;
pub mod time;
