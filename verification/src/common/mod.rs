pub mod elevation;
pub mod operation;
pub mod argv;
pub mod path;
pub mod validation;
pub mod doctor;
