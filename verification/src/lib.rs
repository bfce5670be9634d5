//! Verified core of a project-scaffolding tool: archetype registry,
//! settings-document parsing and rendering, the per-run settings slot,
//! and install planning. File, editor and subprocess work lives outside
//! the library and consumes the values these functions produce.
mod archetype;
mod cli;
mod errors;
mod gitignore;
mod install;
mod lifecycle;
mod parse;
mod render;
mod roundtrip;
mod scaffold;
mod settings;
mod text;
mod utils;

pub use archetype::AppType;
pub use archetype::determine_packages;
pub use archetype::determine_dev_packages;
pub use archetype::spec_packages;
pub use archetype::spec_dev_packages;
pub use archetype::lemma_packages_nonempty;
pub use archetype::lemma_dev_packages_absent_for_exactly_one;
pub use cli::App;
pub use cli::Command;
pub use errors::CreateAppError;
pub use settings::CreateAppConfig;
pub use settings::ConfigModel;
pub use settings::Integrations;
pub use settings::spec_default_config;
pub use text::str_eq;
pub use parse::parse_config;
pub use parse::spec_parse_settings;
pub use gitignore::determine_content;
pub use gitignore::spec_gitignore;
pub use install::InstallInvocation;
pub use install::InvocationModel;
pub use install::PackageManager;
pub use install::plan_installs;
pub use install::plan_integrations;
pub use install::resolve_package_manager;
pub use install::spec_manager_of;
pub use lifecycle::SettingsSlot;
pub use lifecycle::check_config_extension;
pub use lifecycle::read_and_store_config;
pub use render::render_config;
pub use render::spec_render_config;
pub use roundtrip::lemma_render_parse_round_trip;
pub use roundtrip::renderable_all;
pub use roundtrip::renderable_name;
pub use scaffold::AppWithPath;
pub use scaffold::EntryModel;
pub use scaffold::ScaffoldEntry;
pub use scaffold::create_app_structure;
pub use scaffold::create_astro_app;
pub use scaffold::create_next_app;
pub use scaffold::create_react_app;
pub use scaffold::entries_view;
pub use scaffold::spec_structure;
pub use utils::get_extension_from_filename;
pub use utils::spec_extension;
