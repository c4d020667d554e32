//! The Buehlmann ZH-L16C model with gradient factors.
pub mod buehlmann_config;
pub mod buehlmann_model;
pub mod compartment;
pub mod kinetics;
pub mod model_laws;
pub mod zhl_values;
