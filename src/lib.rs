//! Resolution of HTML report templates that embed SQL-tagged blocks, and the
//! decisions of the report and conversion workflows around it.
pub mod text;
pub mod placeholder;
pub mod resolution;
pub mod render;
pub mod report;
pub mod upload;
