//! Checks of prepared point queries on a file-backed database: what each check
//! asks of the database, and what it concludes from the answers.
pub mod check;
pub mod complaints;
pub mod database;
pub mod fixtures;
pub mod laws;
pub mod profile;
pub mod promises;
pub mod protocol;
pub mod run;
pub mod scenarios;
pub mod script;
pub mod steps;
pub mod text;
pub mod value;
pub mod verdicts;
