use vstd::prelude::*;

verus! {

/// The three supported application archetypes.
#[derive(Clone, Copy, Debug, PartialEq, Eq, Structural)]
pub enum AppType {
    React,
    Next,
    Astro,
}

/// The fixed runtime packages of each archetype.
pub open spec fn spec_packages(t: AppType) -> Seq<Seq<char>> {
    match t {
        AppType::React => seq!["react"@, "react-dom"@],
        AppType::Next => seq!["react"@, "react-dom"@, "next"@],
        AppType::Astro => seq!["astro"@],
    }
}

/// The fixed development packages of each archetype; absent where the
/// archetype needs no dev tooling.
pub open spec fn spec_dev_packages(t: AppType) -> Option<Seq<Seq<char>>> {
    match t {
        AppType::React => Some(
            seq![
                "vite"@,
                "typescript"@,
                "@types/react"@,
                "@types/react-dom"@,
                "@vitejs/plugin-react"@,
            ],
        ),
        AppType::Next => Some(
            seq!["typescript"@, "@types/node"@, "@types/react"@, "@types/react-dom"@],
        ),
        AppType::Astro => None,
    }
}

/// Runtime dependencies of an archetype. The result is a fixed function
/// of the archetype alone, so repeated calls agree.
pub fn determine_packages(app_type: &AppType) -> (r: Vec<String>)
    ensures
        r.deep_view() == spec_packages(*app_type),
{
    let mut v: Vec<String> = Vec::new();
    match app_type {
        AppType::React => {
            v.push(String::from_str("react"));
            v.push(String::from_str("react-dom"));
        },
        AppType::Next => {
            v.push(String::from_str("react"));
            v.push(String::from_str("react-dom"));
            v.push(String::from_str("next"));
        },
        AppType::Astro => {
            v.push(String::from_str("astro"));
        },
    }
    proof {
        assert(v.deep_view() =~~= spec_packages(*app_type));
    }
    v
}

/// Development dependencies of an archetype; `None` where it has none.
/// The result is a fixed function of the archetype alone.
pub fn determine_dev_packages(app_type: &AppType) -> (r: Option<Vec<String>>)
    ensures
        match r {
            Some(v) => spec_dev_packages(*app_type) == Some(v.deep_view()),
            None => spec_dev_packages(*app_type) is None,
        },
{
    match app_type {
        AppType::React => {
            let mut v: Vec<String> = Vec::new();
            v.push(String::from_str("vite"));
            v.push(String::from_str("typescript"));
            v.push(String::from_str("@types/react"));
            v.push(String::from_str("@types/react-dom"));
            v.push(String::from_str("@vitejs/plugin-react"));
            proof {
                assert(Some(v.deep_view()) =~~= spec_dev_packages(*app_type));
            }
            Some(v)
        },
        AppType::Next => {
            let mut v: Vec<String> = Vec::new();
            v.push(String::from_str("typescript"));
            v.push(String::from_str("@types/node"));
            v.push(String::from_str("@types/react"));
            v.push(String::from_str("@types/react-dom"));
            proof {
                assert(Some(v.deep_view()) =~~= spec_dev_packages(*app_type));
            }
            Some(v)
        },
        AppType::Astro => None,
    }
}

/// Every archetype maps to a non-empty runtime-package list.
pub proof fn lemma_packages_nonempty(t: AppType)
    ensures
        spec_packages(t).len() > 0,
{
    match t {
        AppType::React => assert(spec_packages(t).len() == 2),
        AppType::Next => assert(spec_packages(t).len() == 3),
        AppType::Astro => assert(spec_packages(t).len() == 1),
    }
}

/// Development packages are absent for exactly one archetype, and
/// non-empty for each of the other two.
pub proof fn lemma_dev_packages_absent_for_exactly_one(t: AppType)
    ensures
        (spec_dev_packages(t) is None) <==> (t == AppType::Astro),
        spec_dev_packages(t) matches Some(d) ==> d.len() > 0,
{
    match t {
        AppType::React => assert(spec_dev_packages(t) matches Some(d) && d.len() == 5),
        AppType::Next => assert(spec_dev_packages(t) matches Some(d) && d.len() == 4),
        AppType::Astro => assert(spec_dev_packages(t) is None),
    }
}

} // verus!
