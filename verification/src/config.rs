use vstd::prelude::*;

verus! {

/// Immutable record of the resolved user choices that drive materialization.
///
/// A configuration is created once, after validation, and is read-only from
/// then on.  `name` is the destination directory name and the display name
/// embedded in the generated content; the three flags select the optional
/// parts of the output.
#[derive(Debug, Clone, PartialEq)]
pub struct ProjectConfig {
    pub name: String,
    pub install_deps: bool,
    pub use_turbo: bool,
    pub use_react_query: bool,
}

impl ProjectConfig {
    /// A configuration is well formed when its project name is non-empty;
    /// an empty name is rejected before a configuration is ever built.
    pub open spec fn wf(&self) -> bool {
        self.name@.len() > 0
    }

    pub fn new(name: String, install_deps: bool, use_turbo: bool, use_react_query: bool) -> (c: Self)
        requires
            name@.len() > 0,
        ensures
            c.name@ == name@,
            c.install_deps == install_deps,
            c.use_turbo == use_turbo,
            c.use_react_query == use_react_query,
            c.wf(),
    {
        ProjectConfig { name, install_deps, use_turbo, use_react_query }
    }
}

/// The fixed directory set: every run creates exactly these ten relative
/// paths beneath the destination root, in this order, whatever the flags say.
pub open spec fn spec_directory_list() -> Seq<Seq<char>> {
    seq![
        "src/app"@,
        "src/components"@,
        "src/constants"@,
        "src/hooks"@,
        "src/libs"@,
        "src/assets"@,
        "src/types"@,
        "src/fonts"@,
        "src/styles"@,
        "public"@,
    ]
}

/// The directory set as executable values, exactly [`spec_directory_list`].
pub fn directories() -> (dirs: Vec<String>)
    ensures
        dirs@.map_values(|d: String| d@) == spec_directory_list(),
        dirs@.len() == 10,
{
    let mut dirs: Vec<String> = Vec::new();
    dirs.push("src/app".to_owned());
    dirs.push("src/components".to_owned());
    dirs.push("src/constants".to_owned());
    dirs.push("src/hooks".to_owned());
    dirs.push("src/libs".to_owned());
    dirs.push("src/assets".to_owned());
    dirs.push("src/types".to_owned());
    dirs.push("src/fonts".to_owned());
    dirs.push("src/styles".to_owned());
    dirs.push("public".to_owned());
    proof {
        assert(dirs@.map_values(|d: String| d@) =~= spec_directory_list());
    }
    dirs
}

} // verus!
