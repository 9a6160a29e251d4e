pub mod chat;
pub mod cubemap;
pub mod input;
pub mod labels;
pub mod report;
pub mod scene;
pub mod scores;
pub mod tokens;
