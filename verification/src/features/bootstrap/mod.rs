pub mod docker;
pub mod k3s;
pub mod netbird;
pub mod user;
pub mod flux;
pub mod infisical;
pub mod komodo;
