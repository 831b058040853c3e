use vstd::prelude::*;

use crate::config::ProjectConfig;
use crate::error::GenError;
use crate::text::{spec_trim, trim_str};

verus! {

/// The invocation surface: an optional positional project name and a flag
/// that skips dependency installation.  The shell that reads the real
/// command line fills this in and hands it over as plain values.
pub struct Cli {
    /// Project name (optional - will prompt if not provided)
    pub name: Option<String>,
    /// Skip dependency installation
    pub skip_install: bool,
}

/// Turns the user's answers into a configuration.
///
/// `name` is the project name, supplied on the command line or obtained by
/// prompting; a name that is empty after trimming whitespace is a usage
/// error.  When installation is skipped, every dependent flag resolves to
/// `false` without consulting the remaining answers; the accelerator and
/// data-fetching flags likewise resolve to `false` whenever installation is
/// not affirmed.
pub fn resolve_config(
    name: String,
    skip_install: bool,
    install_answer: bool,
    turbo_answer: bool,
    react_query_answer: bool,
) -> (r: Result<ProjectConfig, GenError>)
    ensures
        r is Ok <==> spec_trim(name@).len() > 0,
        r matches Ok(c) ==> ({
            &&& c.name@ == name@
            &&& c.install_deps == (!skip_install && install_answer)
            &&& c.use_turbo == (!skip_install && install_answer && turbo_answer)
            &&& c.use_react_query == (!skip_install && install_answer && react_query_answer)
            &&& c.wf()
        }),
        r matches Ok(c) ==> (!c.install_deps ==> !c.use_turbo && !c.use_react_query),
        r matches Err(e) ==> (e matches GenError::Usage(m) && m@
            == "Project name cannot be empty"@),
{
    let trimmed = trim_str(name.as_str());
    if trimmed.unicode_len() == 0 {
        return Err(GenError::Usage("Project name cannot be empty".to_owned()));
    }
    proof {
        crate::text::lemma_trim_shorter(name@);
    }
    let install_deps = !skip_install && install_answer;
    let use_turbo = install_deps && turbo_answer;
    let use_react_query = install_deps && react_query_answer;
    Ok(ProjectConfig::new(name, install_deps, use_turbo, use_react_query))
}

/// The closing report shown after a successful run: the features that were
/// included, and the commands left for the user to run.
pub open spec fn spec_success_message(
    name: Seq<char>,
    install_deps: bool,
    use_turbo: bool,
    use_react_query: bool,
) -> Seq<char> {
    "\n🎉 Project created successfully!\n━━━━━━━━━━━━━━━━━━━━━━━━━━━━━━━━\n✨ Included features:\n   • Next.js 15 with App Router\n   • Tailwind CSS v4 & TypeScript\n"@
        + (if use_turbo {
        "   • Turbopack for faster development\n"@
    } else {
        Seq::<char>::empty()
    }) + (if use_react_query {
        "   • React Query (TanStack Query)\n"@
    } else {
        Seq::<char>::empty()
    }) + "\n📋 Next steps:\n   cd "@ + name + "\n"@ + (if !install_deps {
        "   pnpm install\n"@
    } else {
        Seq::<char>::empty()
    }) + "   pnpm dev\n\n🌐 Then open http://localhost:3000\n"@
}

pub fn success_message(config: &ProjectConfig) -> (msg: String)
    ensures
        msg@ == spec_success_message(
            config.name@,
            config.install_deps,
            config.use_turbo,
            config.use_react_query,
        ),
{
    let mut msg =
        "\n🎉 Project created successfully!\n━━━━━━━━━━━━━━━━━━━━━━━━━━━━━━━━\n✨ Included features:\n   • Next.js 15 with App Router\n   • Tailwind CSS v4 & TypeScript\n".to_owned();
    if config.use_turbo {
        msg.append("   • Turbopack for faster development\n");
    }
    if config.use_react_query {
        msg.append("   • React Query (TanStack Query)\n");
    }
    msg.append("\n📋 Next steps:\n   cd ");
    msg.append(config.name.as_str());
    msg.append("\n");
    if !config.install_deps {
        msg.append("   pnpm install\n");
    }
    msg.append("   pnpm dev\n\n🌐 Then open http://localhost:3000\n");
    proof {
        assert(msg@ =~= spec_success_message(
            config.name@,
            config.install_deps,
            config.use_turbo,
            config.use_react_query,
        ));
    }
    msg
}

} // verus!
