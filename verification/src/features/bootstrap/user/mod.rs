pub mod execute;
pub mod human;
pub mod input;
pub mod plan;
pub mod report;
pub mod validate;
