use vstd::prelude::*;
use vstd::string::StringExecFns;

use crate::archetype::AppType;

verus! {

/// An application to scaffold: its archetype, display name, and target
/// directory.
#[derive(Debug)]
pub struct AppWithPath {
    pub app_type: AppType,
    pub app_name: String,
    pub app_path: String,
}

/// One planned piece of a scaffold: a directory to create, or a file
/// with its full contents. Paths are relative to the target directory,
/// and directories precede the files inside them.
#[derive(Debug)]
pub enum ScaffoldEntry {
    Dir { path: String },
    File { path: String, content: String },
}

/// Mathematical model of one scaffold entry.
#[verifier::ext_equal]
pub enum EntryModel {
    Dir { path: Seq<char> },
    File { path: Seq<char>, content: Seq<char> },
}

impl View for ScaffoldEntry {
    type V = EntryModel;

    open spec fn view(&self) -> EntryModel {
        match self {
            ScaffoldEntry::Dir { path } => EntryModel::Dir { path: path@ },
            ScaffoldEntry::File { path, content } => EntryModel::File {
                path: path@,
                content: content@,
            },
        }
    }
}

pub open spec fn entries_view(s: Seq<ScaffoldEntry>) -> Seq<EntryModel> {
    s.map_values(|e: ScaffoldEntry| e@)
}

/// The React-style scaffold: bundler-driven, with an HTML entry.
pub open spec fn spec_react_entries(name: Seq<char>) -> Seq<EntryModel> {
    seq![
        EntryModel::File {
            path: "package.json"@,
            content: "{\n  \"name\": \""@ + name + "\",\n  \"private\": true,\n  \"version\": \"0.1.0\",\n  \"type\": \"module\",\n  \"scripts\": {\n    \"dev\": \"vite\",\n    \"build\": \"tsc && vite build\",\n    \"preview\": \"vite preview\"\n  }\n}"@,
        },
        EntryModel::File {
            path: "tsconfig.json"@,
            content: "{\n  \"compilerOptions\": {\n    \"allowJs\": false,\n    \"allowSyntheticDefaultImports\": true,\n    \"esModuleInterop\": false,\n    \"forceConsistentCasingInFileNames\": true,\n    \"isolatedModules\": true,\n    \"jsx\": \"react-jsx\",\n    \"lib\": [\"DOM\", \"DOM.Iterable\", \"ESNext\"],\n    \"module\": \"ESNext\",\n    \"moduleResolution\": \"Node\",\n    \"noEmit\": true,\n    \"resolveJsonModule\": true,\n    \"skipLibCheck\": true,\n    \"strict\": true,\n    \"target\": \"ESNext\",\n    \"useDefineForClassFields\": true\n  },\n  \"include\": [\"src\"],\n  \"references\": [\n    {\n      \"path\": \"./tsconfig.node.json\"\n    }\n  ]\n  }"@,
        },
        EntryModel::File {
            path: "tsconfig.node.json"@,
            content: "{\n  \"compilerOptions\": {\n    \"allowSyntheticDefaultImports\": true,\n    \"composite\": true,\n    \"module\": \"ESNext\",\n    \"moduleResolution\": \"Node\"\n  },\n  \"include\": [\"vite.config.ts\"]\n  }"@,
        },
        EntryModel::File {
            path: "vite.config.ts"@,
            content: "import { defineConfig } from \"vite\";\nimport react from \"@vitejs/plugin-react\";\n\nexport default defineConfig({\n  plugins: [react()],\n});"@,
        },
        EntryModel::File {
            path: "index.html"@,
            content: "<!DOCTYPE html>\n<html lang=\"en\">\n  <head>\n    <meta charset=\"UTF-8\" />\n    <meta name=\"viewport\" content=\"width=device-width, initial-scale=1.0\" />\n    <title>"@ + name + "</title>\n  </head>\n  <body>\n    <div id=\"root\"></div>\n    <script type=\"module\" src=\"/src/main.tsx\"></script>\n  </body>\n</html>"@,
        },
        EntryModel::Dir { path: "public"@ },
        EntryModel::Dir { path: "src/assets"@ },
        EntryModel::Dir { path: "src/components"@ },
        EntryModel::File {
            path: "src/vite-env.d.ts"@,
            content: "/// <reference types=\"vite/client\" />"@,
        },
        EntryModel::File {
            path: "src/main.tsx"@,
            content: "import React from \"react\";\nimport ReactDOM from \"react-dom/client\";\nimport App from \"./App\";\n\nReactDOM.createRoot(document.getElementById(\"root\") as HTMLElement).render(\n  <React.StrictMode>\n    <App />\n  </React.StrictMode>\n);"@,
        },
        EntryModel::File {
            path: "src/App.tsx"@,
            content: "import type { FC } from \"react\";\n\nconst App: FC = () => {\n  return <main></main>;\n};\n\nexport default App;"@,
        },
    ]
}

/// The scaffold plan of this archetype, parameterized by the
/// application's name alone, exactly as `spec_react_entries` states it.
pub fn create_react_app(app: AppWithPath) -> (r: Vec<ScaffoldEntry>)
    ensures
        entries_view(r@) == spec_react_entries(app.app_name@),
{
    let name = app.app_name.as_str();
    let mut v: Vec<ScaffoldEntry> = Vec::new();
    v.push(
        ScaffoldEntry::File {
            path: String::from_str("package.json"),
            content: String::from_str("{\n  \"name\": \"").concat(name).concat("\",\n  \"private\": true,\n  \"version\": \"0.1.0\",\n  \"type\": \"module\",\n  \"scripts\": {\n    \"dev\": \"vite\",\n    \"build\": \"tsc && vite build\",\n    \"preview\": \"vite preview\"\n  }\n}"),
        },
    );
    v.push(
        ScaffoldEntry::File {
            path: String::from_str("tsconfig.json"),
            content: String::from_str("{\n  \"compilerOptions\": {\n    \"allowJs\": false,\n    \"allowSyntheticDefaultImports\": true,\n    \"esModuleInterop\": false,\n    \"forceConsistentCasingInFileNames\": true,\n    \"isolatedModules\": true,\n    \"jsx\": \"react-jsx\",\n    \"lib\": [\"DOM\", \"DOM.Iterable\", \"ESNext\"],\n    \"module\": \"ESNext\",\n    \"moduleResolution\": \"Node\",\n    \"noEmit\": true,\n    \"resolveJsonModule\": true,\n    \"skipLibCheck\": true,\n    \"strict\": true,\n    \"target\": \"ESNext\",\n    \"useDefineForClassFields\": true\n  },\n  \"include\": [\"src\"],\n  \"references\": [\n    {\n      \"path\": \"./tsconfig.node.json\"\n    }\n  ]\n  }"),
        },
    );
    v.push(
        ScaffoldEntry::File {
            path: String::from_str("tsconfig.node.json"),
            content: String::from_str("{\n  \"compilerOptions\": {\n    \"allowSyntheticDefaultImports\": true,\n    \"composite\": true,\n    \"module\": \"ESNext\",\n    \"moduleResolution\": \"Node\"\n  },\n  \"include\": [\"vite.config.ts\"]\n  }"),
        },
    );
    v.push(
        ScaffoldEntry::File {
            path: String::from_str("vite.config.ts"),
            content: String::from_str("import { defineConfig } from \"vite\";\nimport react from \"@vitejs/plugin-react\";\n\nexport default defineConfig({\n  plugins: [react()],\n});"),
        },
    );
    v.push(
        ScaffoldEntry::File {
            path: String::from_str("index.html"),
            content: String::from_str("<!DOCTYPE html>\n<html lang=\"en\">\n  <head>\n    <meta charset=\"UTF-8\" />\n    <meta name=\"viewport\" content=\"width=device-width, initial-scale=1.0\" />\n    <title>").concat(name).concat("</title>\n  </head>\n  <body>\n    <div id=\"root\"></div>\n    <script type=\"module\" src=\"/src/main.tsx\"></script>\n  </body>\n</html>"),
        },
    );
    v.push(ScaffoldEntry::Dir { path: String::from_str("public") });
    v.push(ScaffoldEntry::Dir { path: String::from_str("src/assets") });
    v.push(ScaffoldEntry::Dir { path: String::from_str("src/components") });
    v.push(
        ScaffoldEntry::File {
            path: String::from_str("src/vite-env.d.ts"),
            content: String::from_str("/// <reference types=\"vite/client\" />"),
        },
    );
    v.push(
        ScaffoldEntry::File {
            path: String::from_str("src/main.tsx"),
            content: String::from_str("import React from \"react\";\nimport ReactDOM from \"react-dom/client\";\nimport App from \"./App\";\n\nReactDOM.createRoot(document.getElementById(\"root\") as HTMLElement).render(\n  <React.StrictMode>\n    <App />\n  </React.StrictMode>\n);"),
        },
    );
    v.push(
        ScaffoldEntry::File {
            path: String::from_str("src/App.tsx"),
            content: String::from_str("import type { FC } from \"react\";\n\nconst App: FC = () => {\n  return <main></main>;\n};\n\nexport default App;"),
        },
    );
    proof {
        assert(entries_view(v@) =~~= spec_react_entries(app.app_name@));
    }
    v
}

/// The Next-style scaffold: page-directory driven.
pub open spec fn spec_next_entries(name: Seq<char>) -> Seq<EntryModel> {
    seq![
        EntryModel::File {
            path: "package.json"@,
            content: "{\n  \"name\": \""@ + name + "\",\n  \"version\": \"0.1.0\",\n  \"private\": true,\n  \"scripts\": {\n    \"dev\": \"next dev\",\n    \"build\": \"next build\",\n    \"start\": \"next start\",\n    \"lint\": \"next lint\"\n  }\n}"@,
        },
        EntryModel::File {
            path: "tsconfig.json"@,
            content: "{\n  \"compilerOptions\": {\n    \"target\": \"es5\",\n    \"lib\": [\"dom\", \"dom.iterable\", \"esnext\"],\n    \"allowJs\": true,\n    \"skipLibCheck\": true,\n    \"strict\": true,\n    \"forceConsistentCasingInFileNames\": true,\n    \"noEmit\": true,\n    \"esModuleInterop\": true,\n    \"module\": \"esnext\",\n    \"moduleResolution\": \"node\",\n    \"resolveJsonModule\": true,\n    \"isolatedModules\": true,\n    \"jsx\": \"preserve\",\n    \"incremental\": true,\n    \"baseUrl\": \".\",\n    \"paths\": {\n      \"@/*\": [\"components/*\"],\n      \"@utils/*\": [\"utils/*\"],\n      \"@public/*\": [\"public/*\"],\n      \"@styles/*\": [\"styles/*\"]\n    }\n  },\n  \"include\": [\"next-env.d.ts\", \"**/*.ts\", \"**/*.tsx\"],\n  \"exclude\": [\"node_modules\"]\n}"@,
        },
        EntryModel::File {
            path: "next.config.js"@,
            content: "/** @type {import('next').NextConfig} */\nconst nextConfig = {\n  reactStrictMode: true,\n  swcMinify: true,\n}\n\nmodule.exports = nextConfig"@,
        },
        EntryModel::File {
            path: "next-env.d.ts"@,
            content: "/// <reference types=\"next\" />\n/// <reference types=\"next/image-types/global\" />"@,
        },
        EntryModel::Dir { path: "pages/api"@ },
        EntryModel::Dir { path: "public"@ },
        EntryModel::Dir { path: "components"@ },
        EntryModel::Dir { path: "styles"@ },
        EntryModel::File {
            path: "styles/globals.css"@,
            content: Seq::<char>::empty(),
        },
        EntryModel::File {
            path: "pages/_app.tsx"@,
            content: "import type { AppProps } from \"next/app\";\nimport Layout from \"../components/Layout\";\nimport \"@styles/globals.css\";\n\nconst App = ({ Component, pageProps }: AppProps) => {\n  return (\n    <Layout>\n      <Component {...pageProps} />\n    </Layout>\n  );\n};\n\nexport default App;"@,
        },
        EntryModel::File {
            path: "pages/index.tsx"@,
            content: "import Head from \"next/head\";\n\nconst Home = () => {\n  return (\n    <div>\n      <Head>\n        <title>"@ + name + "</title>\n      </Head>\n    </div>\n  );\n};\n\nexport default Home;"@,
        },
        EntryModel::File {
            path: "components/Layout.tsx"@,
            content: "import type { FC, ReactNode } from \"react\";\n\ninterface IProps {\n  children: ReactNode;\n}\n\nconst Layout: FC<IProps> = ({ children }) => <main>{children}</main>;\n\nexport default Layout;"@,
        },
    ]
}

/// The scaffold plan of this archetype, parameterized by the
/// application's name alone, exactly as `spec_next_entries` states it.
pub fn create_next_app(app: AppWithPath) -> (r: Vec<ScaffoldEntry>)
    ensures
        entries_view(r@) == spec_next_entries(app.app_name@),
{
    let name = app.app_name.as_str();
    let mut v: Vec<ScaffoldEntry> = Vec::new();
    v.push(
        ScaffoldEntry::File {
            path: String::from_str("package.json"),
            content: String::from_str("{\n  \"name\": \"").concat(name).concat("\",\n  \"version\": \"0.1.0\",\n  \"private\": true,\n  \"scripts\": {\n    \"dev\": \"next dev\",\n    \"build\": \"next build\",\n    \"start\": \"next start\",\n    \"lint\": \"next lint\"\n  }\n}"),
        },
    );
    v.push(
        ScaffoldEntry::File {
            path: String::from_str("tsconfig.json"),
            content: String::from_str("{\n  \"compilerOptions\": {\n    \"target\": \"es5\",\n    \"lib\": [\"dom\", \"dom.iterable\", \"esnext\"],\n    \"allowJs\": true,\n    \"skipLibCheck\": true,\n    \"strict\": true,\n    \"forceConsistentCasingInFileNames\": true,\n    \"noEmit\": true,\n    \"esModuleInterop\": true,\n    \"module\": \"esnext\",\n    \"moduleResolution\": \"node\",\n    \"resolveJsonModule\": true,\n    \"isolatedModules\": true,\n    \"jsx\": \"preserve\",\n    \"incremental\": true,\n    \"baseUrl\": \".\",\n    \"paths\": {\n      \"@/*\": [\"components/*\"],\n      \"@utils/*\": [\"utils/*\"],\n      \"@public/*\": [\"public/*\"],\n      \"@styles/*\": [\"styles/*\"]\n    }\n  },\n  \"include\": [\"next-env.d.ts\", \"**/*.ts\", \"**/*.tsx\"],\n  \"exclude\": [\"node_modules\"]\n}"),
        },
    );
    v.push(
        ScaffoldEntry::File {
            path: String::from_str("next.config.js"),
            content: String::from_str("/** @type {import('next').NextConfig} */\nconst nextConfig = {\n  reactStrictMode: true,\n  swcMinify: true,\n}\n\nmodule.exports = nextConfig"),
        },
    );
    v.push(
        ScaffoldEntry::File {
            path: String::from_str("next-env.d.ts"),
            content: String::from_str("/// <reference types=\"next\" />\n/// <reference types=\"next/image-types/global\" />"),
        },
    );
    v.push(ScaffoldEntry::Dir { path: String::from_str("pages/api") });
    v.push(ScaffoldEntry::Dir { path: String::from_str("public") });
    v.push(ScaffoldEntry::Dir { path: String::from_str("components") });
    v.push(ScaffoldEntry::Dir { path: String::from_str("styles") });
    v.push(
        ScaffoldEntry::File {
            path: String::from_str("styles/globals.css"),
            content: String::new(),
        },
    );
    v.push(
        ScaffoldEntry::File {
            path: String::from_str("pages/_app.tsx"),
            content: String::from_str("import type { AppProps } from \"next/app\";\nimport Layout from \"../components/Layout\";\nimport \"@styles/globals.css\";\n\nconst App = ({ Component, pageProps }: AppProps) => {\n  return (\n    <Layout>\n      <Component {...pageProps} />\n    </Layout>\n  );\n};\n\nexport default App;"),
        },
    );
    v.push(
        ScaffoldEntry::File {
            path: String::from_str("pages/index.tsx"),
            content: String::from_str("import Head from \"next/head\";\n\nconst Home = () => {\n  return (\n    <div>\n      <Head>\n        <title>").concat(name).concat("</title>\n      </Head>\n    </div>\n  );\n};\n\nexport default Home;"),
        },
    );
    v.push(
        ScaffoldEntry::File {
            path: String::from_str("components/Layout.tsx"),
            content: String::from_str("import type { FC, ReactNode } from \"react\";\n\ninterface IProps {\n  children: ReactNode;\n}\n\nconst Layout: FC<IProps> = ({ children }) => <main>{children}</main>;\n\nexport default Layout;"),
        },
    );
    proof {
        assert(entries_view(v@) =~~= spec_next_entries(app.app_name@));
    }
    v
}

/// The Astro-style scaffold: layout- and page-driven.
pub open spec fn spec_astro_entries(name: Seq<char>) -> Seq<EntryModel> {
    seq![
        EntryModel::File {
            path: "package.json"@,
            content: "{\n  \"name\": \""@ + name + "\",\n  \"type\": \"module\",\n  \"version\": \"0.0.1\",\n  \"private\": true,\n  \"scripts\": {\n    \"dev\": \"astro dev\",\n    \"start\": \"astro dev\",\n    \"build\": \"astro build\",\n    \"preview\": \"astro preview\",\n    \"astro\": \"astro\"\n  }\n}"@,
        },
        EntryModel::File {
            path: "tsconfig.json"@,
            content: "{\n  \"extends\": \"astro/tsconfigs/strict\"\n}"@,
        },
        EntryModel::File {
            path: "astro.config.mjs"@,
            content: "import { defineConfig } from \"astro/config\";\n\nexport default defineConfig({});"@,
        },
        EntryModel::Dir { path: "public"@ },
        EntryModel::Dir { path: "src/pages"@ },
        EntryModel::Dir { path: "src/components"@ },
        EntryModel::Dir { path: "src/layouts"@ },
        EntryModel::File {
            path: "src/env.d.ts"@,
            content: "/// <reference types=\"astro/client\" />"@,
        },
        EntryModel::File {
            path: "src/pages/index.astro"@,
            content: "---\nimport Layout from \"../layouts/Layout.astro\";\n---\n\n<Layout></Layout>"@,
        },
        EntryModel::File {
            path: "src/layouts/Layout.astro"@,
            content: "---\n---\n\n<html lang=\"en\">\n  <head>\n    <meta charset=\"utf-8\" />\n    <meta name=\"viewport\" content=\"width=device-width\" />\n    <meta name=\"generator\" content={Astro.generator} />\n    <title>"@ + name + "</title>\n  </head>\n  <body>\n    <slot />\n  </body>\n</html>"@,
        },
    ]
}

/// The scaffold plan of this archetype, parameterized by the
/// application's name alone, exactly as `spec_astro_entries` states it.
pub fn create_astro_app(app: AppWithPath) -> (r: Vec<ScaffoldEntry>)
    ensures
        entries_view(r@) == spec_astro_entries(app.app_name@),
{
    let name = app.app_name.as_str();
    let mut v: Vec<ScaffoldEntry> = Vec::new();
    v.push(
        ScaffoldEntry::File {
            path: String::from_str("package.json"),
            content: String::from_str("{\n  \"name\": \"").concat(name).concat("\",\n  \"type\": \"module\",\n  \"version\": \"0.0.1\",\n  \"private\": true,\n  \"scripts\": {\n    \"dev\": \"astro dev\",\n    \"start\": \"astro dev\",\n    \"build\": \"astro build\",\n    \"preview\": \"astro preview\",\n    \"astro\": \"astro\"\n  }\n}"),
        },
    );
    v.push(
        ScaffoldEntry::File {
            path: String::from_str("tsconfig.json"),
            content: String::from_str("{\n  \"extends\": \"astro/tsconfigs/strict\"\n}"),
        },
    );
    v.push(
        ScaffoldEntry::File {
            path: String::from_str("astro.config.mjs"),
            content: String::from_str("import { defineConfig } from \"astro/config\";\n\nexport default defineConfig({});"),
        },
    );
    v.push(ScaffoldEntry::Dir { path: String::from_str("public") });
    v.push(ScaffoldEntry::Dir { path: String::from_str("src/pages") });
    v.push(ScaffoldEntry::Dir { path: String::from_str("src/components") });
    v.push(ScaffoldEntry::Dir { path: String::from_str("src/layouts") });
    v.push(
        ScaffoldEntry::File {
            path: String::from_str("src/env.d.ts"),
            content: String::from_str("/// <reference types=\"astro/client\" />"),
        },
    );
    v.push(
        ScaffoldEntry::File {
            path: String::from_str("src/pages/index.astro"),
            content: String::from_str("---\nimport Layout from \"../layouts/Layout.astro\";\n---\n\n<Layout></Layout>"),
        },
    );
    v.push(
        ScaffoldEntry::File {
            path: String::from_str("src/layouts/Layout.astro"),
            content: String::from_str("---\n---\n\n<html lang=\"en\">\n  <head>\n    <meta charset=\"utf-8\" />\n    <meta name=\"viewport\" content=\"width=device-width\" />\n    <meta name=\"generator\" content={Astro.generator} />\n    <title>").concat(name).concat("</title>\n  </head>\n  <body>\n    <slot />\n  </body>\n</html>"),
        },
    );
    proof {
        assert(entries_view(v@) =~~= spec_astro_entries(app.app_name@));
    }
    v
}

/// The fixed file tree each archetype scaffolds.
pub open spec fn spec_structure(t: AppType, name: Seq<char>) -> Seq<EntryModel> {
    match t {
        AppType::React => spec_react_entries(name),
        AppType::Next => spec_next_entries(name),
        AppType::Astro => spec_astro_entries(name),
    }
}

/// Dispatch to exactly one archetype writer; the plan depends only on
/// the archetype and the application's name.
pub fn create_app_structure(app: AppWithPath) -> (r: Vec<ScaffoldEntry>)
    ensures
        entries_view(r@) == spec_structure(app.app_type, app.app_name@),
{
    let t = app.app_type;
    match t {
        AppType::React => create_react_app(app),
        AppType::Next => create_next_app(app),
        AppType::Astro => create_astro_app(app),
    }
}

} // verus!
