use vstd::prelude::*;

verus! {

/// Optional post-scaffold steps a settings document can select.
#[derive(Clone, Copy, Debug, PartialEq, Eq, Structural)]
pub enum Integrations {
    Git,
    Tailwind,
}

/// The settings document: the single record of user choices that drives
/// every step after scaffolding. Parsed once per run and then read back
/// from the settings slot by later steps.
#[derive(Debug)]
pub struct CreateAppConfig {
    pub app_name: String,
    pub package_manager: String,
    pub packages: Option<Vec<String>>,
    pub dev_packages: Option<Vec<String>>,
    pub integrations: Option<Vec<Integrations>>,
}

/// Mathematical model of a settings document.
pub struct ConfigModel {
    pub app_name: Seq<char>,
    pub package_manager: Seq<char>,
    pub packages: Option<Seq<Seq<char>>>,
    pub dev_packages: Option<Seq<Seq<char>>>,
    pub integrations: Option<Seq<Integrations>>,
}

impl View for CreateAppConfig {
    type V = ConfigModel;

    open spec fn view(&self) -> ConfigModel {
        ConfigModel {
            app_name: self.app_name@,
            package_manager: self.package_manager@,
            packages: match self.packages {
                Some(v) => Some(v.deep_view()),
                None => None,
            },
            dev_packages: match self.dev_packages {
                Some(v) => Some(v.deep_view()),
                None => None,
            },
            integrations: match self.integrations {
                Some(v) => Some(v@),
                None => None,
            },
        }
    }
}

/// The document the tool assumes when the user supplies nothing:
/// placeholder name, default package manager, no lists.
pub open spec fn spec_default_config() -> ConfigModel {
    ConfigModel {
        app_name: "DeezNuts"@,
        package_manager: "pnpm"@,
        packages: None,
        dev_packages: None,
        integrations: None,
    }
}

impl Default for CreateAppConfig {
    fn default() -> (r: Self)
        ensures
            r@ == spec_default_config(),
    {
        let r = CreateAppConfig {
            app_name: String::from_str("DeezNuts"),
            package_manager: String::from_str("pnpm"),
            packages: None,
            dev_packages: None,
            integrations: None,
        };
        r
    }
}

} // verus!
