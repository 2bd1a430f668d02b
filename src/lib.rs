//! Client library for a catalog of user-made game courses: the slots of a
//! local save, the catalog's metadata of courses, and the client's decisions
//! between the two.
pub mod app;
pub mod cache;
pub mod catalog;
pub mod components;
pub mod container;
pub mod download;
pub mod emu;
pub mod endpoints;
pub mod page;
pub mod pages;
pub mod save;
pub mod save_data;
pub mod settings;
pub mod smmdb;
pub mod widgets;

pub use app::{App, AppErrorState, AppState, Command, Message};
pub use catalog::Smmdb;
pub use download::{Download, Progress};
pub use emu::{EmuSave, EmuType};
pub use pages::Page;
pub use settings::Settings;
