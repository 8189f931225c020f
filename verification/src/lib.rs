//! Level-1 character creation rules, validation and portable sharing.

pub mod text;
pub mod srd;
pub mod ids;
pub mod content;
pub mod record;
pub mod abilities;
pub mod derived;
pub mod validation;
pub mod resolve;
pub mod rules;
pub mod data_pack;
pub mod share;
pub mod storage;
pub mod canonical;
pub mod prompts;
pub mod drafts;
pub mod wizard;
pub mod review;
pub mod app_error;
pub mod cli;
pub mod provenance;
pub mod sheet;
