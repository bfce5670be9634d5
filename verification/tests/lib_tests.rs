use deez::{
    check_config_extension, create_app_structure, determine_content, determine_dev_packages,
    determine_packages, get_extension_from_filename, parse_config, plan_installs,
    plan_integrations, read_and_store_config, render_config, resolve_package_manager, AppType,
    AppWithPath, CreateAppError, Integrations, PackageManager, ScaffoldEntry, SettingsSlot,
};

fn strings(v: &[&str]) -> Vec<String> {
    v.iter().map(|s| s.to_string()).collect()
}

#[test]
fn packages_for_all_archetypes() {
    assert_eq!(determine_packages(&AppType::React), strings(&["react", "react-dom"]));
    assert_eq!(determine_packages(&AppType::Next), strings(&["react", "react-dom", "next"]));
    assert_eq!(determine_packages(&AppType::Astro), strings(&["astro"]));
    for t in [AppType::React, AppType::Next, AppType::Astro] {
        let first = determine_packages(&t);
        let second = determine_packages(&t);
        assert!(!first.is_empty());
        assert_eq!(first, second);
    }
}

#[test]
fn dev_packages_absent_for_exactly_one() {
    let react = determine_dev_packages(&AppType::React);
    let next = determine_dev_packages(&AppType::Next);
    let astro = determine_dev_packages(&AppType::Astro);
    assert_eq!(
        react,
        Some(strings(&[
            "vite",
            "typescript",
            "@types/react",
            "@types/react-dom",
            "@vitejs/plugin-react"
        ]))
    );
    assert_eq!(
        next,
        Some(strings(&["typescript", "@types/node", "@types/react", "@types/react-dom"]))
    );
    assert_eq!(astro, None);
    let absent = [&react, &next, &astro].iter().filter(|d| d.is_none()).count();
    assert_eq!(absent, 1);
    assert!(react.unwrap().len() > 0);
    assert!(next.unwrap().len() > 0);
}

#[test]
fn render_exact_document() {
    let doc = render_config(&strings(&["x"]), &strings(&[]));
    assert_eq!(
        doc,
        "app_name = 'DeezNuts'\npackage_manager = 'pnpm'\npackages = [\"x\"]\ndev_packages = []\nintegrations = []"
    );
}

#[test]
fn round_trip_synthesized_document() {
    let doc = render_config(&strings(&["react", "react-dom"]), &strings(&["vite"]));
    let cfg = parse_config(&doc).expect("synthesized document must parse");
    assert_eq!(cfg.app_name, "DeezNuts");
    assert_eq!(cfg.package_manager, "pnpm");
    assert_eq!(cfg.packages, Some(strings(&["react", "react-dom"])));
    assert_eq!(cfg.dev_packages, Some(strings(&["vite"])));
    assert_eq!(cfg.integrations, Some(vec![]));
}

#[test]
fn extension_values() {
    assert_eq!(get_extension_from_filename("conf.toml"), Some("toml"));
    assert_eq!(get_extension_from_filename("a/b/conf.json"), Some("json"));
    assert_eq!(get_extension_from_filename("a.b.c"), Some("c"));
    assert_eq!(get_extension_from_filename("trailing."), Some(""));
    assert_eq!(get_extension_from_filename(".env"), None);
    assert_eq!(get_extension_from_filename("dir.d/file"), None);
    assert_eq!(get_extension_from_filename("plain"), None);
}

#[test]
fn json_extension_rejected_before_parse() {
    assert_eq!(check_config_extension("settings.json"), Err(CreateAppError::InvalidConfigFormat));
    assert_eq!(check_config_extension("no_extension"), Err(CreateAppError::InvalidConfigFormat));
    assert_eq!(check_config_extension("./dir/settings.toml"), Ok(()));
}

#[test]
fn invalid_document_leaves_slot_empty() {
    let mut slot = SettingsSlot::new();
    let r = read_and_store_config("app_name = oops, not quoted", &mut slot);
    assert_eq!(r, Err(CreateAppError::ParseError));
    assert!(matches!(slot.current_settings(), Err(CreateAppError::NotFound)));
}

#[test]
fn invalid_document_keeps_previous_settings() {
    let mut slot = SettingsSlot::new();
    read_and_store_config("app_name = 'one'\npackage_manager = 'npm'", &mut slot).unwrap();
    let r = read_and_store_config("no equals sign here", &mut slot);
    assert_eq!(r, Err(CreateAppError::ParseError));
    let kept = slot.current_settings().unwrap();
    assert_eq!(kept.app_name, "one");
    assert_eq!(kept.package_manager, "npm");
}

#[test]
fn parse_rejections() {
    // missing required field
    assert!(parse_config("app_name = 'x'").is_err());
    assert!(parse_config("package_manager = 'npm'").is_err());
    // duplicate key
    assert!(parse_config("app_name = 'x'\napp_name = 'y'\npackage_manager = 'npm'").is_err());
    // unknown key
    assert!(parse_config("app_name = 'x'\npackage_manager = 'npm'\ncolour = 'red'").is_err());
    // wrong value shape
    assert!(parse_config("app_name = ['x']\npackage_manager = 'npm'").is_err());
    // unknown integration token
    assert!(
        parse_config("app_name = 'x'\npackage_manager = 'npm'\nintegrations = [\"Svn\"]").is_err()
    );
    // unterminated string
    assert!(parse_config("app_name = 'x\npackage_manager = 'npm'").is_err());
    assert!(parse_config("").is_err());
}

#[test]
fn parse_accepts_flexible_spacing() {
    let cfg = parse_config(
        "  app_name   =  \"Spaced\"  \n\npackage_manager = 'yarn'\npackages = [ 'a' ,'b', ]\n",
    )
    .unwrap();
    assert_eq!(cfg.app_name, "Spaced");
    assert_eq!(cfg.package_manager, "yarn");
    assert_eq!(cfg.packages, Some(strings(&["a", "b"])));
    assert_eq!(cfg.dev_packages, None);
    assert_eq!(cfg.integrations, None);
}

#[test]
fn resolve_supported_managers() {
    assert_eq!(resolve_package_manager("npm"), Ok(PackageManager::Npm));
    assert_eq!(resolve_package_manager("pnpm"), Ok(PackageManager::Pnpm));
    assert_eq!(resolve_package_manager("yarn"), Ok(PackageManager::Yarn));
    assert_eq!(resolve_package_manager("npmx"), Err(CreateAppError::UnknownPackageManager));
}

#[test]
fn single_invocation_without_dev_packages() {
    let mut slot = SettingsSlot::new();
    read_and_store_config("app_name = 'x'\npackage_manager = 'pnpm'", &mut slot).unwrap();
    let (manager, plan) = plan_installs(&slot, strings(&["a", "b"]), None).unwrap();
    assert_eq!(manager, PackageManager::Pnpm);
    assert_eq!(plan.len(), 1);
    assert_eq!(plan[0].packages, strings(&["a", "b"]));
    assert!(!plan[0].dev);
}

#[test]
fn two_invocations_with_dev_packages() {
    let mut slot = SettingsSlot::new();
    read_and_store_config("app_name = 'x'\npackage_manager = 'npm'", &mut slot).unwrap();
    let (manager, plan) = plan_installs(&slot, strings(&["a"]), Some(strings(&["d"]))).unwrap();
    assert_eq!(manager, PackageManager::Npm);
    assert_eq!(plan.len(), 2);
    assert!(!plan[0].dev);
    assert_eq!(plan[1].packages, strings(&["d"]));
    assert!(plan[1].dev);
}

#[test]
fn unresolvable_manager_plans_nothing() {
    let mut slot = SettingsSlot::new();
    read_and_store_config("app_name = 'x'\npackage_manager = 'npmx'", &mut slot).unwrap();
    let r = plan_installs(&slot, strings(&["a", "b"]), None);
    assert_eq!(
        r.map(|(_, plan)| plan.len()),
        Err(CreateAppError::UnknownPackageManager)
    );
}

#[test]
fn install_planning_requires_stored_settings() {
    let slot = SettingsSlot::new();
    assert_eq!(
        plan_installs(&slot, strings(&["a"]), None).map(|(m, _)| m),
        Err(CreateAppError::NotFound)
    );
    assert_eq!(plan_integrations(&slot), Err(CreateAppError::NotFound));
}

#[test]
fn integrations_follow_document_order() {
    let mut slot = SettingsSlot::new();
    read_and_store_config(
        "app_name = 'x'\npackage_manager = 'npm'\nintegrations = [\"Tailwind\", \"Git\"]",
        &mut slot,
    )
    .unwrap();
    assert_eq!(plan_integrations(&slot), Ok(vec![Integrations::Tailwind, Integrations::Git]));

    let mut bare = SettingsSlot::new();
    read_and_store_config("app_name = 'x'\npackage_manager = 'npm'", &mut bare).unwrap();
    assert_eq!(plan_integrations(&bare), Ok(vec![]));
}

fn entry_paths(entries: &[ScaffoldEntry]) -> Vec<String> {
    entries
        .iter()
        .map(|e| match e {
            ScaffoldEntry::Dir { path } => path.clone(),
            ScaffoldEntry::File { path, .. } => path.clone(),
        })
        .collect()
}

fn file_content<'a>(entries: &'a [ScaffoldEntry], want: &str) -> &'a str {
    for e in entries {
        if let ScaffoldEntry::File { path, content } = e {
            if path == want {
                return content;
            }
        }
    }
    panic!("no file entry named {want}");
}

#[test]
fn react_scaffold_file_set() {
    let plan = create_app_structure(AppWithPath {
        app_type: AppType::React,
        app_name: "demo".to_string(),
        app_path: "./demo".to_string(),
    });
    assert_eq!(
        entry_paths(&plan),
        strings(&[
            "package.json",
            "tsconfig.json",
            "tsconfig.node.json",
            "vite.config.ts",
            "index.html",
            "public",
            "src/assets",
            "src/components",
            "src/vite-env.d.ts",
            "src/main.tsx",
            "src/App.tsx",
        ])
    );
    let pkg = file_content(&plan, "package.json");
    assert_eq!(
        pkg,
        format!(
            "{{\n  \"name\": \"demo\",\n  \"private\": true,\n  \"version\": \"0.1.0\",\n  \"type\": \"module\",\n  \"scripts\": {{\n    \"dev\": \"vite\",\n    \"build\": \"tsc && vite build\",\n    \"preview\": \"vite preview\"\n  }}\n}}"
        )
    );
    assert!(file_content(&plan, "index.html").contains("<title>demo</title>"));
}

#[test]
fn next_and_astro_scaffold_file_sets() {
    let next = create_app_structure(AppWithPath {
        app_type: AppType::Next,
        app_name: "n".to_string(),
        app_path: ".".to_string(),
    });
    assert_eq!(
        entry_paths(&next),
        strings(&[
            "package.json",
            "tsconfig.json",
            "next.config.js",
            "next-env.d.ts",
            "pages/api",
            "public",
            "components",
            "styles",
            "styles/globals.css",
            "pages/_app.tsx",
            "pages/index.tsx",
            "components/Layout.tsx",
        ])
    );
    assert_eq!(file_content(&next, "styles/globals.css"), "");
    assert!(file_content(&next, "pages/index.tsx").contains("<title>n</title>"));

    let astro = create_app_structure(AppWithPath {
        app_type: AppType::Astro,
        app_name: "a".to_string(),
        app_path: ".".to_string(),
    });
    assert_eq!(
        entry_paths(&astro),
        strings(&[
            "package.json",
            "tsconfig.json",
            "astro.config.mjs",
            "public",
            "src/pages",
            "src/components",
            "src/layouts",
            "src/env.d.ts",
            "src/pages/index.astro",
            "src/layouts/Layout.astro",
        ])
    );
    assert!(file_content(&astro, "src/layouts/Layout.astro").contains("<title>a</title>"));
}

#[test]
fn gitignore_bodies_differ_by_archetype() {
    let react = determine_content(&AppType::React);
    let next = determine_content(&AppType::Next);
    let astro = determine_content(&AppType::Astro);
    assert!(react.starts_with("# Logs\nlogs\n*.log\n"));
    assert!(next.starts_with("# dependencies\n/node_modules\n"));
    assert!(astro.starts_with("# build output\ndist/\n"));
    assert_ne!(react, next);
    assert_ne!(next, astro);
    assert_ne!(react, astro);
}

#[test]
fn error_messages() {
    assert_eq!(
        CreateAppError::InvalidConfigFormat.message(),
        "Configuration file must be a toml file"
    );
    assert_eq!(CreateAppError::ParseError.message(), "Configuration file could not be parsed");
    assert_eq!(CreateAppError::UnknownPackageManager.message(), "Unknown package manager");
    assert_eq!(CreateAppError::NotFound.message(), "No settings have been stored");
    assert_eq!(CreateAppError::IoError.message(), "Filesystem operation failed");
    assert_eq!(CreateAppError::EditorError.message(), "Editor exited with an error");
    assert_eq!(CreateAppError::InstallError.message(), "Package installation failed");
}

#[test]
fn demo_end_to_end_library_side() {
    // A run for a React-style app named "demo" with no user settings
    // file: synthesize the document, take a user edit that selects the
    // version-control integration, store it, and plan the later steps.
    let name = "demo".to_string();
    let packages = determine_packages(&AppType::React);
    let dev_packages = determine_dev_packages(&AppType::React);
    let synthesized = render_config(&packages, &dev_packages.clone().unwrap_or_default());
    let edited = synthesized.replace("integrations = []", "integrations = [\"Git\"]");

    let mut slot = SettingsSlot::new();
    read_and_store_config(&edited, &mut slot).unwrap();

    let plan = create_app_structure(AppWithPath {
        app_type: AppType::React,
        app_name: name,
        app_path: "./demo".to_string(),
    });
    let paths = entry_paths(&plan);
    assert!(paths.contains(&"package.json".to_string()));
    assert!(paths.contains(&"src/main.tsx".to_string()));

    assert_eq!(plan_integrations(&slot), Ok(vec![Integrations::Git]));
    let ignore = determine_content(&AppType::React);
    assert!(!ignore.is_empty());

    let (manager, installs) = plan_installs(&slot, packages, dev_packages).unwrap();
    assert_eq!(manager, PackageManager::Pnpm);
    assert_eq!(installs.len(), 2);
    assert_eq!(installs[0].packages, strings(&["react", "react-dom"]));
    assert!(installs[1].dev);
}
