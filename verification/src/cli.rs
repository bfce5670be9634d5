use vstd::prelude::*;

use crate::archetype::AppType;

verus! {

/// A request to create one application: its archetype, its name, and
/// an optional path to a user-supplied settings file.
#[derive(Debug)]
pub struct App {
    pub app_type: AppType,
    pub app_name: String,
    pub config: Option<String>,
}

/// The tool's subcommands.
#[derive(Debug)]
pub enum Command {
    Create(App),
}

} // verus!
