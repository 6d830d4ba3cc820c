pub mod chat;
pub mod dispatch;
pub mod history;
pub mod hook;
pub mod host;
pub mod input;
pub mod plugin;
pub mod reassembly;
pub mod text;
pub mod tick;
pub mod trigger;
