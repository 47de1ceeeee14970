//! The declarative build-step schema: install locations, steps and
//! programs, as a configuration describes them.

use std::collections::HashMap;

use vstd::prelude::*;

use target_tuples::Target;

use crate::text::{find_seq, find_text, same_text};

verus! {

/// A standard installation directory, or one the configuration names.
#[derive(Hash, PartialEq, Eq, Debug)]
pub enum InstallDirectory {
    Prefix,
    ExecPrefix,
    BinDir,
    SbinDir,
    LibexecDir,
    LibDir,
    IncludeDir,
    DatarootDir,
    DataDir,
    DocDir,
    InfoDir,
    ManDir,
    HtmlDir,
    PdfDir,
    DviDir,
    LocaleDir,
    LocalStateDir,
    SharedStateDir,
    RunStateDir,
    SysconfDir,
    Custom(String),
}

/// The standard directory that `name` names, if it is one.
pub open spec fn known_directory(name: Seq<char>) -> Option<InstallDirectory> {
    if name == "prefix"@ {
        Some(InstallDirectory::Prefix)
    } else if name == "exec-prefix"@ {
        Some(InstallDirectory::ExecPrefix)
    } else if name == "bindir"@ {
        Some(InstallDirectory::BinDir)
    } else if name == "sbindir"@ {
        Some(InstallDirectory::SbinDir)
    } else if name == "libdir"@ {
        Some(InstallDirectory::LibDir)
    } else if name == "libexecdir"@ {
        Some(InstallDirectory::LibexecDir)
    } else if name == "includedir"@ {
        Some(InstallDirectory::IncludeDir)
    } else if name == "datadir"@ {
        Some(InstallDirectory::DataDir)
    } else if name == "datarootdir"@ {
        Some(InstallDirectory::DatarootDir)
    } else if name == "docdir"@ {
        Some(InstallDirectory::DocDir)
    } else if name == "infodir"@ {
        Some(InstallDirectory::InfoDir)
    } else if name == "mandir"@ {
        Some(InstallDirectory::ManDir)
    } else if name == "htmldir"@ {
        Some(InstallDirectory::HtmlDir)
    } else if name == "pdfdir"@ {
        Some(InstallDirectory::PdfDir)
    } else if name == "dvidir"@ {
        Some(InstallDirectory::DviDir)
    } else if name == "localedir"@ {
        Some(InstallDirectory::LocaleDir)
    } else if name == "localstatedir"@ {
        Some(InstallDirectory::LocalStateDir)
    } else if name == "sharedstatedir"@ {
        Some(InstallDirectory::SharedStateDir)
    } else if name == "runstatedir"@ {
        Some(InstallDirectory::RunStateDir)
    } else if name == "sysconfdir"@ {
        Some(InstallDirectory::SysconfDir)
    } else {
        None
    }
}

/// `d` is the directory that `name` names.
pub open spec fn names_directory(d: InstallDirectory, name: Seq<char>) -> bool {
    match known_directory(name) {
        Some(k) => d == k,
        None => d matches InstallDirectory::Custom(c) && c@ == name,
    }
}

impl InstallDirectory {
    /// The directory that `name` names: a standard one, or a custom one.
    pub fn from_name(name: &str) -> (r: InstallDirectory)
        ensures
            names_directory(r, name@),
    {
        if same_text(name, "prefix") {
            InstallDirectory::Prefix
        } else if same_text(name, "exec-prefix") {
            InstallDirectory::ExecPrefix
        } else if same_text(name, "bindir") {
            InstallDirectory::BinDir
        } else if same_text(name, "sbindir") {
            InstallDirectory::SbinDir
        } else if same_text(name, "libdir") {
            InstallDirectory::LibDir
        } else if same_text(name, "libexecdir") {
            InstallDirectory::LibexecDir
        } else if same_text(name, "includedir") {
            InstallDirectory::IncludeDir
        } else if same_text(name, "datadir") {
            InstallDirectory::DataDir
        } else if same_text(name, "datarootdir") {
            InstallDirectory::DatarootDir
        } else if same_text(name, "docdir") {
            InstallDirectory::DocDir
        } else if same_text(name, "infodir") {
            InstallDirectory::InfoDir
        } else if same_text(name, "mandir") {
            InstallDirectory::ManDir
        } else if same_text(name, "htmldir") {
            InstallDirectory::HtmlDir
        } else if same_text(name, "pdfdir") {
            InstallDirectory::PdfDir
        } else if same_text(name, "dvidir") {
            InstallDirectory::DviDir
        } else if same_text(name, "localedir") {
            InstallDirectory::LocaleDir
        } else if same_text(name, "localstatedir") {
            InstallDirectory::LocalStateDir
        } else if same_text(name, "sharedstatedir") {
            InstallDirectory::SharedStateDir
        } else if same_text(name, "runstatedir") {
            InstallDirectory::RunStateDir
        } else if same_text(name, "sysconfdir") {
            InstallDirectory::SysconfDir
        } else {
            InstallDirectory::Custom(name.to_owned())
        }
    }
}

/// Where a file is installed: under a directory, or at an absolute path.
pub enum InstallTarget {
    Base { base: InstallDirectory, path: String },
    Absolute(String),
}

/// The directory name in the text after `$`: up to the first `/`.
pub open spec fn directory_part(rest: Seq<char>) -> Seq<char> {
    match find_seq(rest, "/"@) {
        Some(i) => rest.subrange(0, i),
        None => rest,
    }
}

/// `s` without the `/` characters it begins with.
pub open spec fn trim_leading_slashes(s: Seq<char>) -> Seq<char>
    decreases s.len(),
{
    if s.len() > 0 && s[0] == '/' {
        trim_leading_slashes(s.drop_first())
    } else {
        s
    }
}

/// The path in the text after `$`: what follows the first `/`, relative,
/// so without the slashes that empty components leave at its start.
pub open spec fn path_part(rest: Seq<char>) -> Seq<char> {
    match find_seq(rest, "/"@) {
        Some(i) => trim_leading_slashes(rest.subrange(i + 1, rest.len() as int)),
        None => Seq::empty(),
    }
}

/// `s` without the `/` characters it begins with.
fn trim_slashes(s: &str) -> (r: String)
    ensures
        r@ == trim_leading_slashes(s@),
{
    let n = s.unicode_len();
    let mut j: usize = 0;
    assert(s@.subrange(0, n as int) =~= s@);
    while j < n && s.get_char(j) == '/'
        invariant
            n == s@.len(),
            j <= n,
            trim_leading_slashes(s@.subrange(j as int, n as int)) == trim_leading_slashes(s@),
        decreases n - j,
    {
        assert(s@.subrange(j as int, n as int).drop_first() =~= s@.subrange(j + 1, n as int));
        j = j + 1;
    }
    s.substring_char(j, n).to_owned()
}

impl InstallTarget {
    /// Reads an install target: `$dir/path` is `path` under the directory
    /// `dir` names; anything else is an absolute path.
    pub fn parse(st: &str) -> (r: InstallTarget)
        ensures
            st@.len() > 0 && st@[0] == '$' ==> (r matches InstallTarget::Base { base, path }
                && names_directory(base, directory_part(st@.drop_first())) && path@ == path_part(
                st@.drop_first(),
            )),
            !(st@.len() > 0 && st@[0] == '$') ==> (r matches InstallTarget::Absolute(p) && p@
                == st@),
    {
        let n = st.unicode_len();
        if n == 0 || st.get_char(0) != '$' {
            return InstallTarget::Absolute(st.to_owned());
        }
        let rest = st.substring_char(1, n);
        assert(rest@ =~= st@.drop_first());
        let m = n - 1;
        match find_text(rest, "/") {
            Some(i) => {
                proof {
                    crate::text::lemma_find_in_bounds(rest@, "/"@);
                    reveal_strlit("/");
                }
                let base = InstallDirectory::from_name(rest.substring_char(0, i));
                let path = trim_slashes(rest.substring_char(i + 1, m));
                InstallTarget::Base { base, path }
            },
            None => {
                let base = InstallDirectory::from_name(rest);
                InstallTarget::Base { base, path: String::new() }
            },
        }
    }
}

/// Install directories by role.
pub struct Directories {
    pub dirs: HashMap<String, InstallTarget>,
}

/// The target a step builds for.
pub enum BuildTarget {
    Build,
    Host,
    Target,
    Input(Target),
}

/// A build step.
pub enum Step {
    BuildCrate(BuildCrateStep),
    Subdirectory(SubdirectoryStep),
    Install(InstallStep),
    Command(CommandStep),
    GenerateDocs(GenerateDocsStep),
    ConfigureFile(ConfigureFileStep),
}

/// Builds the crate at `path` with `features`, for `target`.
pub struct BuildCrateStep {
    pub path: String,
    pub features: Vec<String>,
    pub target: BuildTarget,
}

/// Generates documentation.
pub struct GenerateDocsStep {}

/// Descends into a subdirectory.
pub struct SubdirectoryStep {}

/// File permissions, as a number or in `chmod` notation.
pub enum Mode {
    Octal(i32),
    Chmod(String),
}

/// Installs `file` at `target`, with `mode` where it is given.
pub struct InstallStep {
    pub file: String,
    pub target: InstallTarget,
    pub mode: Option<Mode>,
}

/// Runs `cmd` with `args`.
pub struct CommandStep {
    pub cmd: String,
    pub args: Vec<String>,
}

/// Produces `base` from a template, `input` where it is given.
pub struct ConfigureFileStep {
    pub base: String,
    pub input: Option<String>,
}

/// The kind of a program the build needs.
pub enum ProgramType {
    Rustc,
    Cargo,
    Cc,
    Cxx,
    As,
    Ar,
    Ld,
    Objdump,
    Objcopy,
    Strip,
    Ln,
    LnS,
    Install,
    Yacc,
    Lex,
    Other(String),
}

/// A program the build needs, how to find it, and how to check it.
pub struct Program {
    pub ty: ProgramType,
    pub names: Option<Vec<String>>,
    pub test_steps: Vec<Step>,
    pub compiler_target: Option<BuildTarget>,
    pub extra: HashMap<String, String>,
}

} // verus!
