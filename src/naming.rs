//! Artifact naming: the prefixes and suffixes that a compiler gives the
//! files it produces, read off the names it predicts for a probe crate.

use vstd::prelude::*;

use crate::text::{find_seq, find_text};

verus! {

/// The crate name under which the compiler is asked to predict file names.
pub const PROBE_CRATE: &'static str = "comptest";

/// How many artifact kinds are asked about, one predicted name each.
pub const ARTIFACT_KINDS: usize = 6;

/// What a compiler names its artifacts for one target.
pub struct RustcTargetInfo {
    /// The target argument that worked, or the compiler's own name for it.
    pub target: String,
    pub exe_suffix: String,
    pub rlib_prefix: String,
    pub rlib_suffix: String,
    pub dylib_prefix: String,
    pub dylib_suffix: String,
    pub staticlib_prefix: String,
    pub staticlib_suffix: String,
    pub cdylib_prefix: String,
    pub cdylib_suffix: String,
    pub procmacro_prefix: String,
    pub procmacro_suffix: String,
}

/// The mathematical content of a [`RustcTargetInfo`].
pub struct TargetInfoView {
    pub target: Seq<char>,
    pub exe_suffix: Seq<char>,
    pub rlib_prefix: Seq<char>,
    pub rlib_suffix: Seq<char>,
    pub dylib_prefix: Seq<char>,
    pub dylib_suffix: Seq<char>,
    pub staticlib_prefix: Seq<char>,
    pub staticlib_suffix: Seq<char>,
    pub cdylib_prefix: Seq<char>,
    pub cdylib_suffix: Seq<char>,
    pub procmacro_prefix: Seq<char>,
    pub procmacro_suffix: Seq<char>,
}

impl View for RustcTargetInfo {
    type V = TargetInfoView;

    open spec fn view(&self) -> TargetInfoView {
        TargetInfoView {
            target: self.target@,
            exe_suffix: self.exe_suffix@,
            rlib_prefix: self.rlib_prefix@,
            rlib_suffix: self.rlib_suffix@,
            dylib_prefix: self.dylib_prefix@,
            dylib_suffix: self.dylib_suffix@,
            staticlib_prefix: self.staticlib_prefix@,
            staticlib_suffix: self.staticlib_suffix@,
            cdylib_prefix: self.cdylib_prefix@,
            cdylib_suffix: self.cdylib_suffix@,
            procmacro_prefix: self.procmacro_prefix@,
            procmacro_suffix: self.procmacro_suffix@,
        }
    }
}

/// The part of a file name from its first `.` on; empty if it has none.
pub open spec fn suffix_of(name: Seq<char>) -> Seq<char> {
    match find_seq(name, "."@) {
        Some(i) => name.subrange(i, name.len() as int),
        None => Seq::empty(),
    }
}

/// The part of a file name before the probe crate's name; empty if the
/// name does not occur in it.
pub open spec fn prefix_of(name: Seq<char>) -> Seq<char> {
    match find_seq(name, PROBE_CRATE@) {
        Some(i) => name.subrange(0, i),
        None => Seq::empty(),
    }
}

/// The naming conventions that six predicted file names show, in the order
/// executable, rlib, dylib, staticlib, cdylib, proc-macro.
pub open spec fn naming_of(lines: Seq<Seq<char>>, target: Seq<char>) -> TargetInfoView {
    TargetInfoView {
        target: target,
        exe_suffix: suffix_of(lines[0]),
        rlib_prefix: prefix_of(lines[1]),
        rlib_suffix: suffix_of(lines[1]),
        dylib_prefix: prefix_of(lines[2]),
        dylib_suffix: suffix_of(lines[2]),
        staticlib_prefix: prefix_of(lines[3]),
        staticlib_suffix: suffix_of(lines[3]),
        cdylib_prefix: prefix_of(lines[4]),
        cdylib_suffix: suffix_of(lines[4]),
        procmacro_prefix: prefix_of(lines[5]),
        procmacro_suffix: suffix_of(lines[5]),
    }
}

/// The part of `name` from its first `.` on.
pub fn name_suffix(name: &str) -> (r: String)
    ensures
        r@ == suffix_of(name@),
{
    match find_text(name, ".") {
        Some(i) => {
            proof {
                crate::text::lemma_find_in_bounds(name@, "."@);
            }
            name.substring_char(i, name.unicode_len()).to_owned()
        },
        None => String::new(),
    }
}

/// The part of `name` before the probe crate's name.
pub fn name_prefix(name: &str) -> (r: String)
    ensures
        r@ == prefix_of(name@),
{
    match find_text(name, PROBE_CRATE) {
        Some(i) => {
            proof {
                crate::text::lemma_find_in_bounds(name@, PROBE_CRATE@);
            }
            name.substring_char(0, i).to_owned()
        },
        None => String::new(),
    }
}

/// Derives the naming conventions from the file names a compiler predicted.
/// Fewer than six names is no answer.
pub fn derive_naming(lines: &Vec<String>, target: &str) -> (r: Option<RustcTargetInfo>)
    ensures
        r is None <==> lines@.len() < 6,
        r matches Some(info) ==> info@ == naming_of(
            lines@.map_values(|t: String| t@),
            target@,
        ),
{
    if lines.len() < ARTIFACT_KINDS {
        return None;
    }
    let ghost lv = lines@.map_values(|t: String| t@);
    assert(lv[0] == lines@[0]@ && lv[1] == lines@[1]@ && lv[2] == lines@[2]@);
    assert(lv[3] == lines@[3]@ && lv[4] == lines@[4]@ && lv[5] == lines@[5]@);
    Some(
        RustcTargetInfo {
            target: target.to_owned(),
            exe_suffix: name_suffix(lines[0].as_str()),
            rlib_prefix: name_prefix(lines[1].as_str()),
            rlib_suffix: name_suffix(lines[1].as_str()),
            dylib_prefix: name_prefix(lines[2].as_str()),
            dylib_suffix: name_suffix(lines[2].as_str()),
            staticlib_prefix: name_prefix(lines[3].as_str()),
            staticlib_suffix: name_suffix(lines[3].as_str()),
            cdylib_prefix: name_prefix(lines[4].as_str()),
            cdylib_suffix: name_suffix(lines[4].as_str()),
            procmacro_prefix: name_prefix(lines[5].as_str()),
            procmacro_suffix: name_suffix(lines[5].as_str()),
        },
    )
}

/// The naming conventions depend on the first six predicted names alone:
/// deriving them again from the same names, whatever follows, gives the
/// same prefixes and suffixes.
pub proof fn lemma_naming_depends_on_names_alone(
    a: Seq<Seq<char>>,
    b: Seq<Seq<char>>,
    target: Seq<char>,
)
    requires
        a.len() >= 6,
        b.len() >= 6,
        a.subrange(0, 6) == b.subrange(0, 6),
    ensures
        naming_of(a, target) == naming_of(b, target),
{
    assert forall|k: int| 0 <= k < 6 implies a[k] == b[k] by {
        assert(a[k] == a.subrange(0, 6)[k]);
        assert(b[k] == b.subrange(0, 6)[k]);
    }
}

} // verus!
