pub mod field_validation;
