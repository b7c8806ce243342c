//! Verified core of the QuantumLauncher terminal front end: the state
//! machine behind the TUI, argument parsing, version filtering, log buffers,
//! mod-list helpers and rich-presence planning.

pub mod text;
pub mod args;
pub mod arg_list;
pub mod versions;
pub mod logs;
pub mod licenses;
pub mod accounts;
pub mod app_state;
pub mod app_nav;
pub mod app_accounts;
pub mod app_create;
pub mod app_instance;
pub mod keys;
pub mod events;
pub mod launch;
pub mod popups;
pub mod presence;
pub mod mods;
pub mod mod_order;
pub mod mod_select;
pub mod manage_mods;
pub mod saved_accounts;
pub mod gui_accounts;
pub mod mod_store;
pub mod launcher_settings;
pub mod log_view;
pub mod form_view;
pub mod gui_create;
pub mod lwjgl;
pub mod token_password;
pub mod token_store;
pub mod startup;
pub mod tab_views;
pub mod jarmods;
pub mod laws;
