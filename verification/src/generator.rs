use vstd::prelude::*;

use crate::config::{directories, spec_directory_list, ProjectConfig};
use crate::error::GenError;
use crate::files::{
    api_client_content, app_layout_content, app_page_content, button_component_content,
    eslint_config_content, example_hooks_content, gitignore_content, globals_css_content,
    next_config_content, npmrc_content, package_json_content, postcss_config_content,
    query_provider_content, readme_content, spec_api_client, spec_app_layout, spec_app_page,
    spec_button_component, spec_eslint_config, spec_example_hooks, spec_gitignore,
    spec_globals_css, spec_next_config, spec_npmrc, spec_package_json, spec_postcss_config,
    spec_query_provider, spec_readme, spec_tsconfig, tsconfig_content,
};

verus! {

/// One output file of a run: where it goes, relative to the destination
/// root, and the text it holds.
#[derive(Debug)]
pub struct PlannedFile {
    pub path: String,
    pub content: String,
}

/// Everything a run writes, computed up front from the configuration alone:
/// the fixed directory set, the ordered file manifest, and whether the
/// external dependency install is to be invoked afterwards.
#[derive(Debug)]
pub struct ProjectPlan {
    pub directories: Vec<String>,
    pub files: Vec<PlannedFile>,
    pub install: bool,
}

/// The file manifest as (path, content) pairs, in creation order: the eleven
/// unconditional files, then, only with the data-fetching library, its three
/// files, then the README.
pub open spec fn spec_planned_files(
    name: Seq<char>,
    use_turbo: bool,
    use_react_query: bool,
) -> Seq<(Seq<char>, Seq<char>)> {
    seq![
        ("package.json"@, spec_package_json(name, use_turbo, use_react_query)),
        ("tsconfig.json"@, spec_tsconfig()),
        ("postcss.config.mjs"@, spec_postcss_config()),
        ("next.config.ts"@, spec_next_config()),
        (".eslintrc.json"@, spec_eslint_config()),
        (".gitignore"@, spec_gitignore()),
        (".npmrc"@, spec_npmrc()),
        ("src/app/layout.tsx"@, spec_app_layout(name, use_react_query)),
        ("src/app/page.tsx"@, spec_app_page(name)),
        ("src/styles/globals.css"@, spec_globals_css()),
        ("src/components/Button.tsx"@, spec_button_component()),
    ] + (if use_react_query {
        seq![
            ("src/libs/query-provider.tsx"@, spec_query_provider()),
            ("src/libs/api.ts"@, spec_api_client()),
            ("src/hooks/use-api.ts"@, spec_example_hooks()),
        ]
    } else {
        Seq::empty()
    }) + seq![("README.md"@, spec_readme(name))]
}

/// Builds the file manifest for a configuration, in creation order.
pub fn plan_files(config: &ProjectConfig) -> (files: Vec<PlannedFile>)
    ensures
        files@.map_values(|f: PlannedFile| (f.path@, f.content@)) == spec_planned_files(
            config.name@,
            config.use_turbo,
            config.use_react_query,
        ),
{
    let mut files: Vec<PlannedFile> = Vec::new();
    files.push(
        PlannedFile { path: "package.json".to_owned(), content: package_json_content(config) },
    );
    files.push(PlannedFile { path: "tsconfig.json".to_owned(), content: tsconfig_content() });
    files.push(
        PlannedFile { path: "postcss.config.mjs".to_owned(), content: postcss_config_content() },
    );
    files.push(PlannedFile { path: "next.config.ts".to_owned(), content: next_config_content() });
    files.push(PlannedFile { path: ".eslintrc.json".to_owned(), content: eslint_config_content() });
    files.push(PlannedFile { path: ".gitignore".to_owned(), content: gitignore_content() });
    files.push(PlannedFile { path: ".npmrc".to_owned(), content: npmrc_content() });
    files.push(
        PlannedFile {
            path: "src/app/layout.tsx".to_owned(),
            content: app_layout_content(config.name.as_str(), config),
        },
    );
    files.push(
        PlannedFile {
            path: "src/app/page.tsx".to_owned(),
            content: app_page_content(config.name.as_str()),
        },
    );
    files.push(
        PlannedFile { path: "src/styles/globals.css".to_owned(), content: globals_css_content() },
    );
    files.push(
        PlannedFile {
            path: "src/components/Button.tsx".to_owned(),
            content: button_component_content(),
        },
    );
    if config.use_react_query {
        files.push(
            PlannedFile {
                path: "src/libs/query-provider.tsx".to_owned(),
                content: query_provider_content(),
            },
        );
        files.push(PlannedFile { path: "src/libs/api.ts".to_owned(), content: api_client_content() });
        files.push(
            PlannedFile { path: "src/hooks/use-api.ts".to_owned(), content: example_hooks_content() },
        );
    }
    files.push(
        PlannedFile { path: "README.md".to_owned(), content: readme_content(config.name.as_str()) },
    );
    proof {
        assert(files@.map_values(|f: PlannedFile| (f.path@, f.content@)) =~= spec_planned_files(
            config.name@,
            config.use_turbo,
            config.use_react_query,
        ));
    }
    files
}

/// Decides a materialization before anything touches the filesystem.
///
/// A destination that already exists is a hard failure naming the project,
/// and no plan — hence no write — is produced.  A fresh destination yields
/// the full plan: the ten fixed directories in order, the file manifest in
/// creation order, and the install flag carried over from the configuration.
pub fn plan_project(config: &ProjectConfig, destination_exists: bool) -> (r: Result<
    ProjectPlan,
    GenError,
>)
    requires
        config.wf(),
    ensures
        r is Ok <==> !destination_exists,
        r matches Err(e) ==> (e matches GenError::DestinationExists(n) && n@ == config.name@),
        r matches Ok(plan) ==> ({
            &&& plan.directories@.map_values(|d: String| d@) == spec_directory_list()
            &&& plan.files@.map_values(|f: PlannedFile| (f.path@, f.content@))
                == spec_planned_files(config.name@, config.use_turbo, config.use_react_query)
            &&& plan.install == config.install_deps
        }),
{
    if destination_exists {
        return Err(GenError::DestinationExists(config.name.clone()));
    }
    Ok(
        ProjectPlan {
            directories: directories(),
            files: plan_files(config),
            install: config.install_deps,
        },
    )
}

/// How the final, optional dependency-install step ended.
#[derive(Debug, PartialEq, Eq, Structural)]
pub enum InstallOutcome {
    /// The configuration did not ask for installation.
    NotRequested,
    /// The external install ran and succeeded.
    Installed,
    /// The external install ran and failed; the user installs manually.
    WarnManualInstall,
}

/// The one partial-success policy in the system: a non-zero exit from the
/// dependency-install collaborator is reported as a warning, never as a
/// failure of the materialization itself.
pub fn install_step_outcome(install_requested: bool, install_succeeded: bool) -> (o: InstallOutcome)
    ensures
        o == (if !install_requested {
            InstallOutcome::NotRequested
        } else if install_succeeded {
            InstallOutcome::Installed
        } else {
            InstallOutcome::WarnManualInstall
        }),
{
    if !install_requested {
        InstallOutcome::NotRequested
    } else if install_succeeded {
        InstallOutcome::Installed
    } else {
        InstallOutcome::WarnManualInstall
    }
}

/// Whether some planned file lands at `path`.
pub open spec fn spec_plan_has_file(files: Seq<(Seq<char>, Seq<char>)>, path: Seq<char>) -> bool {
    exists|i: int| 0 <= i < files.len() && (#[trigger] files[i]).0 == path
}

/// The three data-fetching files are planned exactly when the data-fetching
/// library was chosen — in lockstep with the extra dependency entries and
/// the shell's import line and wrapper tags
/// ([`crate::files::lemma_react_query_markers`]).
pub proof fn lemma_data_fetching_consistency(
    name: Seq<char>,
    use_turbo: bool,
    use_react_query: bool,
)
    ensures
        spec_plan_has_file(
            spec_planned_files(name, use_turbo, use_react_query),
            "src/libs/query-provider.tsx"@,
        ) <==> use_react_query,
        spec_plan_has_file(
            spec_planned_files(name, use_turbo, use_react_query),
            "src/libs/api.ts"@,
        ) <==> use_react_query,
        spec_plan_has_file(
            spec_planned_files(name, use_turbo, use_react_query),
            "src/hooks/use-api.ts"@,
        ) <==> use_react_query,
        crate::files::spec_react_query_deps(use_react_query).len() > 0 <==> use_react_query,
        crate::files::spec_query_import(use_react_query).len() > 0 <==> use_react_query,
        crate::files::spec_query_wrapper_open(use_react_query).len() > 0 <==> use_react_query,
        crate::files::spec_query_wrapper_close(use_react_query).len() > 0 <==> use_react_query,
{
    crate::files::lemma_react_query_markers(use_react_query);
    reveal_strlit("package.json");
    reveal_strlit("tsconfig.json");
    reveal_strlit("postcss.config.mjs");
    reveal_strlit("next.config.ts");
    reveal_strlit(".eslintrc.json");
    reveal_strlit(".gitignore");
    reveal_strlit(".npmrc");
    reveal_strlit("src/app/layout.tsx");
    reveal_strlit("src/app/page.tsx");
    reveal_strlit("src/styles/globals.css");
    reveal_strlit("src/components/Button.tsx");
    reveal_strlit("README.md");
    reveal_strlit("src/libs/query-provider.tsx");
    reveal_strlit("src/libs/api.ts");
    reveal_strlit("src/hooks/use-api.ts");
    let files = spec_planned_files(name, use_turbo, use_react_query);
    if use_react_query {
        assert(files[11].0 == "src/libs/query-provider.tsx"@);
        assert(files[12].0 == "src/libs/api.ts"@);
        assert(files[13].0 == "src/hooks/use-api.ts"@);
    } else {
        assert(files.len() == 12);
        assert forall|i: int| 0 <= i < files.len() implies (#[trigger] files[i]).0
            != "src/libs/query-provider.tsx"@ && files[i].0 != "src/libs/api.ts"@ && files[i].0
            != "src/hooks/use-api.ts"@ by {
            assert(files[i].0.len() != 27 && files[i].0.len() != 15 && files[i].0.len() != 20);
        }
    }
}

/// The shape every plan shares: ten directories, the base files, the three
/// optional files exactly when chosen, and the README last.
pub proof fn lemma_plan_shape(name: Seq<char>, use_turbo: bool, use_react_query: bool)
    ensures
        spec_directory_list().len() == 10,
        spec_planned_files(name, use_turbo, use_react_query).len() == (if use_react_query {
            15int
        } else {
            12int
        }),
        spec_planned_files(name, use_turbo, use_react_query).last().0 == "README.md"@,
{
}

} // verus!
