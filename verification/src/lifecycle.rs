use vstd::prelude::*;

use crate::errors::CreateAppError;
use crate::parse::{parse_config, spec_parse_settings};
use crate::settings::{ConfigModel, CreateAppConfig};
use crate::text::str_eq;
use crate::utils::{get_extension_from_filename, spec_extension};

verus! {

/// The per-run settings slot: written once by the configuration step,
/// read back by every later step. One writer, then readers; the slot is
/// passed explicitly rather than living in ambient state.
pub struct SettingsSlot {
    stored: Option<CreateAppConfig>,
}

impl SettingsSlot {
    /// The document the slot holds, if any.
    pub closed spec fn spec_stored(&self) -> Option<ConfigModel> {
        match self.stored {
            Some(ref c) => Some(c@),
            None => None,
        }
    }

    /// A fresh, empty slot.
    pub fn new() -> (r: Self)
        ensures
            r.spec_stored() is None,
    {
        SettingsSlot { stored: None }
    }

    /// The settings of this run; fails while nothing has been stored.
    pub fn current_settings(&self) -> (r: Result<&CreateAppConfig, CreateAppError>)
        ensures
            match r {
                Ok(c) => self.spec_stored() == Some(c@),
                Err(e) => self.spec_stored() is None && e == CreateAppError::NotFound,
            },
    {
        match &self.stored {
            Some(c) => Ok(c),
            None => Err(CreateAppError::NotFound),
        }
    }
}

/// A user-supplied settings file must carry the recognized extension;
/// this check runs before any content is read or parsed.
pub fn check_config_extension(path: &str) -> (r: Result<(), CreateAppError>)
    ensures
        match r {
            Ok(u) => spec_extension(path@) == Some("toml"@),
            Err(e) => spec_extension(path@) != Some("toml"@) && e
                == CreateAppError::InvalidConfigFormat,
        },
{
    match get_extension_from_filename(path) {
        Some(ext) => {
            if str_eq(ext, "toml") {
                Ok(())
            } else {
                Err(CreateAppError::InvalidConfigFormat)
            }
        },
        None => Err(CreateAppError::InvalidConfigFormat),
    }
}

/// Parse a settings document and, only on success, store it in the
/// slot. A failed parse changes nothing: a later read of the slot sees
/// exactly what it would have seen before the attempt.
pub fn read_and_store_config(content: &str, slot: &mut SettingsSlot) -> (r: Result<
    (),
    CreateAppError,
>)
    ensures
        match r {
            Ok(u) => spec_parse_settings(content@) matches Some(m) && final(slot).spec_stored()
                == Some(m),
            Err(e) => spec_parse_settings(content@) is None && e == CreateAppError::ParseError
                && final(slot).spec_stored() == old(slot).spec_stored(),
        },
{
    match parse_config(content) {
        Ok(c) => {
            slot.stored = Some(c);
            Ok(())
        },
        Err(e) => Err(e),
    }
}

} // verus!
