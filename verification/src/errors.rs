use vstd::prelude::*;

verus! {

/// Every way a run of the tool can fail. One variant per failure class:
/// settings-file extension, settings parsing, filesystem work, the
/// interactive editor, package-manager resolution, the install
/// subprocess, and reading the settings slot before it was filled.
#[derive(Clone, Copy, Debug, PartialEq, Eq, Structural)]
pub enum CreateAppError {
    InvalidConfigFormat,
    ParseError,
    IoError,
    EditorError,
    UnknownPackageManager,
    InstallError,
    NotFound,
}

impl CreateAppError {
    /// A human-readable description of the failure.
    pub fn message(&self) -> (r: &'static str)
        ensures
            r@ == spec_message(*self),
    {
        match self {
            CreateAppError::InvalidConfigFormat => "Configuration file must be a toml file",
            CreateAppError::ParseError => "Configuration file could not be parsed",
            CreateAppError::IoError => "Filesystem operation failed",
            CreateAppError::EditorError => "Editor exited with an error",
            CreateAppError::UnknownPackageManager => "Unknown package manager",
            CreateAppError::InstallError => "Package installation failed",
            CreateAppError::NotFound => "No settings have been stored",
        }
    }
}

pub open spec fn spec_message(e: CreateAppError) -> Seq<char> {
    match e {
        CreateAppError::InvalidConfigFormat => "Configuration file must be a toml file"@,
        CreateAppError::ParseError => "Configuration file could not be parsed"@,
        CreateAppError::IoError => "Filesystem operation failed"@,
        CreateAppError::EditorError => "Editor exited with an error"@,
        CreateAppError::UnknownPackageManager => "Unknown package manager"@,
        CreateAppError::InstallError => "Package installation failed"@,
        CreateAppError::NotFound => "No settings have been stored"@,
    }
}

} // verus!
