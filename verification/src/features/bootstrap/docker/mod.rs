pub mod execute;
pub mod generate;
pub mod input;
pub mod plan;
pub mod report;
pub mod validate;
pub mod human;
