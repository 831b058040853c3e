use vstd::prelude::*;

use crate::error::GenError;
use crate::text::{
    find_char, is_u32_numeral, parse_u32_decimal, spec_trim, trim_str, u32_numeral_value,
};

verus! {

/// Why a version string was rejected.
#[derive(Debug)]
pub enum VersionError {
    /// No `major.minor` shape could be found; holds the text that was read
    /// (after any leading `v` was removed).
    Unrecognized(String),
    InvalidMajor,
    InvalidMinor,
}

impl VersionError {
    pub open spec fn spec_message(&self) -> Seq<char> {
        match self {
            VersionError::Unrecognized(v) => "Could not parse Node.js version: "@ + v@,
            VersionError::InvalidMajor => "Invalid major version"@,
            VersionError::InvalidMinor => "Invalid minor version"@,
        }
    }

    pub fn message(&self) -> (m: String)
        ensures
            m@ == self.spec_message(),
    {
        match self {
            VersionError::Unrecognized(v) => {
                let mut s = "Could not parse Node.js version: ".to_owned();
                s.append(v.as_str());
                s
            },
            VersionError::InvalidMajor => "Invalid major version".to_owned(),
            VersionError::InvalidMinor => "Invalid minor version".to_owned(),
        }
    }
}

/// A version string with one leading `v` removed, as `strip_prefix('v')`
/// leaves it.
pub open spec fn spec_clean_version(s: Seq<char>) -> Seq<char> {
    if s.len() > 0 && s[0] == 'v' {
        s.subrange(1, s.len() as int)
    } else {
        s
    }
}

/// The first two `.`-separated fields of `c`, or `None` when `c` holds no
/// separator at all (fewer than two fields).
pub open spec fn spec_split_major_minor(c: Seq<char>) -> Option<(Seq<char>, Seq<char>)> {
    match c.index_of_first('.') {
        Option::None => Option::None,
        Option::Some(d1) => {
            let rest = c.subrange(d1 + 1, c.len() as int);
            let minor = match rest.index_of_first('.') {
                Option::None => rest,
                Option::Some(d2) => rest.subrange(0, d2),
            };
            Option::Some((c.subrange(0, d1), minor))
        },
    }
}

/// Whether `s` (after `v`-stripping) yields a well-formed `major.minor` pair.
pub open spec fn spec_version_parses(s: Seq<char>) -> bool {
    match spec_split_major_minor(spec_clean_version(s)) {
        Option::None => false,
        Option::Some((ma, mi)) => is_u32_numeral(ma) && is_u32_numeral(mi),
    }
}

pub open spec fn spec_version_major(s: Seq<char>) -> int {
    u32_numeral_value(spec_split_major_minor(spec_clean_version(s)).unwrap().0)
}

pub open spec fn spec_version_minor(s: Seq<char>) -> int {
    u32_numeral_value(spec_split_major_minor(spec_clean_version(s)).unwrap().1)
}

/// Reads `major.minor` out of a version string such as `v20.10.0`.
/// A leading `v` is skipped; everything after the second `.` is ignored.
pub fn parse_node_version(version_str: &str) -> (r: Result<(u32, u32), VersionError>)
    ensures
        r is Ok <==> spec_version_parses(version_str@),
        r matches Ok(v) ==> v.0 as int == spec_version_major(version_str@) && v.1 as int
            == spec_version_minor(version_str@),
        r matches Err(e) ==> match spec_split_major_minor(spec_clean_version(version_str@)) {
            Option::None => e matches VersionError::Unrecognized(t) && t@ == spec_clean_version(
                version_str@,
            ),
            Option::Some((ma, mi)) => if !is_u32_numeral(ma) {
                e is InvalidMajor
            } else {
                !is_u32_numeral(mi) && e is InvalidMinor
            },
        },
{
    let n = version_str.unicode_len();
    let start: usize = if n > 0 && version_str.get_char(0) == 'v' {
        1
    } else {
        0
    };
    let clean = version_str.substring_char(start, n);
    proof {
        if start == 0 {
            assert(version_str@.subrange(0, n as int) =~= version_str@);
        }
    }
    let m = clean.unicode_len();
    match find_char(clean, '.') {
        None => Err(VersionError::Unrecognized(clean.to_owned())),
        Some(d1) => {
            let rest = clean.substring_char(d1 + 1, m);
            let minor_str = match find_char(rest, '.') {
                None => rest,
                Some(d2) => rest.substring_char(0, d2),
            };
            let major_str = clean.substring_char(0, d1);
            match parse_u32_decimal(major_str) {
                None => Err(VersionError::InvalidMajor),
                Some(major) => match parse_u32_decimal(minor_str) {
                    None => Err(VersionError::InvalidMinor),
                    Some(minor) => Ok((major, minor)),
                },
            }
        },
    }
}

/// The supported floor: Node.js 18.18.0 or newer.
pub open spec fn spec_version_compatible(major: int, minor: int) -> bool {
    major > 18 || (major == 18 && minor >= 18)
}

pub fn is_node_version_compatible(major: u32, minor: u32) -> (compatible: bool)
    ensures
        compatible == spec_version_compatible(major as int, minor as int),
{
    let required_major: u32 = 18;
    let required_minor: u32 = 18;
    major > required_major || (major == required_major && minor >= required_minor)
}

/// Whether a runtime probe satisfies the precondition: the probe ran, its
/// (trimmed) output parses as `major.minor`, and the version is supported.
pub open spec fn spec_node_check_ok(probe_succeeded: bool, probe_output: Seq<char>) -> bool {
    &&& probe_succeeded
    &&& spec_version_parses(spec_trim(probe_output))
    &&& spec_version_compatible(
        spec_version_major(spec_trim(probe_output)),
        spec_version_minor(spec_trim(probe_output)),
    )
}

/// The message reported when the runtime precondition fails.
pub open spec fn spec_node_check_err_message(
    probe_succeeded: bool,
    probe_output: Seq<char>,
) -> Seq<char> {
    if !probe_succeeded {
        "Node.js is not installed or not in PATH"@
    } else {
        let c = spec_clean_version(spec_trim(probe_output));
        match spec_split_major_minor(c) {
            Option::None => "Could not parse Node.js version: "@ + c,
            Option::Some((ma, mi)) => if !is_u32_numeral(ma) {
                "Invalid major version"@
            } else if !is_u32_numeral(mi) {
                "Invalid minor version"@
            } else {
                "Node.js version "@ + c + " is not supported"@
            },
        }
    }
}

/// The pure half of the runtime check: judges the result of running
/// `node --version`.  `probe_succeeded` is whether that process exited
/// successfully; `probe_output` is what it printed.
pub fn evaluate_node_version(probe_succeeded: bool, probe_output: &str) -> (r: Result<
    (u32, u32),
    GenError,
>)
    ensures
        r is Ok <==> spec_node_check_ok(probe_succeeded, probe_output@),
        r matches Ok(v) ==> v.0 as int == spec_version_major(spec_trim(probe_output@))
            && v.1 as int == spec_version_minor(spec_trim(probe_output@)),
        r matches Err(e) ==> e matches GenError::EnvironmentPrecondition(m) && m@
            == spec_node_check_err_message(probe_succeeded, probe_output@),
{
    if !probe_succeeded {
        return Err(
            GenError::EnvironmentPrecondition("Node.js is not installed or not in PATH".to_owned()),
        );
    }
    let trimmed = trim_str(probe_output);
    match parse_node_version(trimmed) {
        Err(e) => Err(GenError::EnvironmentPrecondition(e.message())),
        Ok((major, minor)) => {
            if is_node_version_compatible(major, minor) {
                Ok((major, minor))
            } else {
                let tn = trimmed.unicode_len();
                let start: usize = if tn > 0 && trimmed.get_char(0) == 'v' {
                    1
                } else {
                    0
                };
                let clean = trimmed.substring_char(start, tn);
                proof {
                    if start == 0 {
                        assert(trimmed@.subrange(0, tn as int) =~= trimmed@);
                    }
                }
                let mut msg = "Node.js version ".to_owned();
                msg.append(clean);
                msg.append(" is not supported");
                Err(GenError::EnvironmentPrecondition(msg))
            }
        },
    }
}

/// What to do about the package manager, given whether it is already on the
/// path.
#[derive(Debug)]
pub enum PnpmAction {
    UseExisting,
    InstallGlobally,
}

/// Decision half of the package-manager precondition: a present binary is
/// used as is; an absent one is installed globally only with the user's
/// consent, and declining is fatal.
pub fn plan_pnpm_setup(pnpm_found: bool, agree_install: bool) -> (r: Result<PnpmAction, GenError>)
    ensures
        pnpm_found ==> (r matches Ok(a) && a is UseExisting),
        !pnpm_found && agree_install ==> (r matches Ok(a) && a is InstallGlobally),
        !pnpm_found && !agree_install ==> (r matches Err(e) && e
            matches GenError::EnvironmentPrecondition(m) && m@ == "pnpm installation required"@),
{
    if pnpm_found {
        Ok(PnpmAction::UseExisting)
    } else if agree_install {
        Ok(PnpmAction::InstallGlobally)
    } else {
        Err(GenError::EnvironmentPrecondition("pnpm installation required".to_owned()))
    }
}

/// Judges the result of the global package-manager install: a failed install
/// is fatal, unlike the project-dependency install at the end of a run.
pub fn pnpm_install_outcome(install_succeeded: bool) -> (r: Result<(), GenError>)
    ensures
        install_succeeded <==> r is Ok,
        r matches Err(e) ==> e matches GenError::EnvironmentPrecondition(m) && m@
            == "pnpm installation failed"@,
{
    if install_succeeded {
        Ok(())
    } else {
        Err(GenError::EnvironmentPrecondition("pnpm installation failed".to_owned()))
    }
}

} // verus!
