pub mod approvals;
pub mod command;
pub mod pets;
pub mod plan_implementation;
pub mod styled;
pub mod text;
pub mod visualization;
