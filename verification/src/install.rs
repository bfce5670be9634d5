use vstd::prelude::*;

use crate::errors::CreateAppError;
use crate::lifecycle::SettingsSlot;
use crate::settings::Integrations;

verus! {

/// The supported package-manager backends.
#[derive(Clone, Copy, Debug, PartialEq, Eq, Structural)]
pub enum PackageManager {
    Npm,
    Pnpm,
    Yarn,
}

/// The backend a package-manager identifier names, if any.
pub open spec fn spec_manager_of(s: Seq<char>) -> Option<PackageManager> {
    if s == "npm"@ {
        Some(PackageManager::Npm)
    } else if s == "pnpm"@ {
        Some(PackageManager::Pnpm)
    } else if s == "yarn"@ {
        Some(PackageManager::Yarn)
    } else {
        None
    }
}

/// Resolve a package-manager identifier; anything outside the
/// supported set is rejected.
pub fn resolve_package_manager(s: &str) -> (r: Result<PackageManager, CreateAppError>)
    ensures
        match r {
            Ok(m) => spec_manager_of(s@) == Some(m),
            Err(e) => spec_manager_of(s@) is None && e == CreateAppError::UnknownPackageManager,
        },
{
    if crate::text::str_eq(s, "npm") {
        Ok(PackageManager::Npm)
    } else if crate::text::str_eq(s, "pnpm") {
        Ok(PackageManager::Pnpm)
    } else if crate::text::str_eq(s, "yarn") {
        Ok(PackageManager::Yarn)
    } else {
        Err(CreateAppError::UnknownPackageManager)
    }
}

/// One run of the package manager: which packages, and whether they are
/// installed as development dependencies.
#[derive(Debug)]
pub struct InstallInvocation {
    pub packages: Vec<String>,
    pub dev: bool,
}

/// Mathematical model of one install invocation.
pub struct InvocationModel {
    pub packages: Seq<Seq<char>>,
    pub dev: bool,
}

impl View for InstallInvocation {
    type V = InvocationModel;

    open spec fn view(&self) -> InvocationModel {
        InvocationModel { packages: self.packages.deep_view(), dev: self.dev }
    }
}

/// The install invocations a run owes, in order: the runtime packages
/// first, then, only if development packages are present and non-empty,
/// those as a second invocation. Resolves the package manager from the
/// stored settings; an unresolvable identifier yields no invocation at
/// all, and an unfilled slot fails likewise before any work.
pub fn plan_installs(slot: &SettingsSlot, packages: Vec<String>, dev_packages: Option<Vec<String>>)
    -> (r: Result<(PackageManager, Vec<InstallInvocation>), CreateAppError>)
    ensures
        match r {
            Ok(p) => {
                &&& slot.spec_stored() matches Some(m) && spec_manager_of(m.package_manager)
                    == Some(p.0)
                &&& p.1@.len() >= 1
                &&& p.1@[0]@.packages == packages.deep_view()
                &&& p.1@[0]@.dev == false
                &&& match dev_packages {
                    Some(d) => {
                        if d@.len() > 0 {
                            p.1@.len() == 2 && p.1@[1]@.packages == d.deep_view() && p.1@[1]@.dev
                                == true
                        } else {
                            p.1@.len() == 1
                        }
                    },
                    None => p.1@.len() == 1,
                }
            },
            Err(e) => {
                ||| (slot.spec_stored() is None && e == CreateAppError::NotFound)
                ||| (slot.spec_stored() matches Some(m) && spec_manager_of(m.package_manager)
                    is None && e == CreateAppError::UnknownPackageManager)
            },
        },
{
    let cfg = match slot.current_settings() {
        Ok(c) => c,
        Err(e) => {
            return Err(e);
        },
    };
    let manager = match resolve_package_manager(cfg.package_manager.as_str()) {
        Ok(m) => m,
        Err(e) => {
            return Err(e);
        },
    };
    let mut plan: Vec<InstallInvocation> = Vec::new();
    plan.push(InstallInvocation { packages, dev: false });
    match dev_packages {
        Some(d) => {
            if d.len() > 0 {
                plan.push(InstallInvocation { packages: d, dev: true });
            }
        },
        None => {},
    }
    Ok((manager, plan))
}

/// The integrations the stored settings select, in document order; an
/// absent list means none.
pub fn plan_integrations(slot: &SettingsSlot) -> (r: Result<Vec<Integrations>, CreateAppError>)
    ensures
        match r {
            Ok(v) => slot.spec_stored() matches Some(m) && v@ == (match m.integrations {
                Some(gs) => gs,
                None => Seq::<Integrations>::empty(),
            }),
            Err(e) => slot.spec_stored() is None && e == CreateAppError::NotFound,
        },
{
    let cfg = match slot.current_settings() {
        Ok(c) => c,
        Err(e) => {
            return Err(e);
        },
    };
    let mut out: Vec<Integrations> = Vec::new();
    match &cfg.integrations {
        Some(gs) => {
            let mut i: usize = 0;
            while i < gs.len()
                invariant
                    i <= gs@.len(),
                    out@ =~= gs@.take(i as int),
                decreases gs@.len() - i,
            {
                out.push(gs[i]);
                proof {
                    assert(out@ =~= gs@.take(i + 1 as int));
                }
                i += 1;
            }
            proof {
                assert(gs@.take(gs@.len() as int) =~= gs@);
            }
        },
        None => {},
    }
    Ok(out)
}

} // verus!
