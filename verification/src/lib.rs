pub mod archer;
pub mod bow_type;
pub mod class;
pub mod date;
pub mod eligibility;
pub mod line_data;
pub mod locale;
pub mod model;
pub mod target_face;
mod text;
