//! Project bookkeeping: a feature and fact store, project health checks,
//! validation, suggestions and generated guides, with their contracts proved.

pub mod text;
pub mod time;
pub mod features;
pub mod feature_suggestions;
pub mod check;
pub mod config;
pub mod validation;
pub mod facts;
pub mod progress;
pub mod suggest;
pub mod docs;
pub mod howto;
pub mod suggestions;
pub mod scaffold;
pub mod reset;
pub mod design;
