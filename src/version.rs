//! The compiler's account of itself: program name, version and release
//! channel, read from the first line it prints for `--version`.

use vstd::prelude::*;

use crate::text::{all_digits, digits_value, int_of, lemma_split_at_separator, lemma_split_without_separator, i32_of, parse_i32, same_text, split_on, split_text, starts_with};

verus! {

/// A compiler's release channel.
#[derive(PartialEq, Eq, Structural, Clone, Copy, Debug)]
pub enum RustcChannel {
    Stable,
    Beta,
    Nightly,
    Dev,
    Unstable,
}

/// What a compiler reports about itself.
pub struct RustcVersion {
    pub prgname: String,
    pub major: i32,
    pub minor: i32,
    pub patch: i32,
    pub channel: RustcChannel,
}

/// The mathematical content of a [`RustcVersion`].
pub struct VersionView {
    pub prgname: Seq<char>,
    pub major: i32,
    pub minor: i32,
    pub patch: i32,
    pub channel: RustcChannel,
}

impl View for RustcVersion {
    type V = VersionView;

    open spec fn view(&self) -> VersionView {
        VersionView {
            prgname: self.prgname@,
            major: self.major,
            minor: self.minor,
            patch: self.patch,
            channel: self.channel,
        }
    }
}

/// The channel that a pre-release tag names; no tag is a stable release.
pub open spec fn channel_of_tag(tag: Option<Seq<char>>) -> RustcChannel {
    match tag {
        None => RustcChannel::Stable,
        Some(t) => if t == "beta"@ {
            RustcChannel::Beta
        } else if t == "nightly"@ {
            RustcChannel::Nightly
        } else {
            RustcChannel::Dev
        },
    }
}

/// The text inside a token that opens with `(` and closes with `)`.
pub open spec fn marker_payload(token: Seq<char>) -> Option<Seq<char>> {
    if token.len() >= 2 && token[0] == '(' && token.last() == ')' {
        Some(token.subrange(1, token.len() - 1))
    } else {
        None
    }
}

/// The program name that an implementation marker stands for, if it is a
/// known one.
pub open spec fn marker_alias(token: Seq<char>) -> Option<Seq<char>> {
    match marker_payload(token) {
        Some(p) => if p == "mrustc"@ {
            Some("mrust"@)
        } else if p == "lccc"@ {
            Some("lcrustc"@)
        } else {
            None
        },
        None => None,
    }
}

/// Program names that begin with this belong to a family whose releases are
/// all unstable, whatever their version says.
pub open spec fn unstable_family(name: Seq<char>) -> bool {
    "lc"@.is_prefix_of(name)
}

/// The version record that a `--version` line describes: the program name,
/// or the alias of a known marker in the third token; major and minor from
/// the first two dotted parts of the second token; patch and pre-release tag
/// from the third part, split at `-`.
pub open spec fn version_of(line: Seq<char>) -> Option<VersionView> {
    let tokens = split_on(line, ' ');
    if tokens.len() < 2 {
        None
    } else {
        let parts = split_on(tokens[1], '.');
        if parts.len() < 3 {
            None
        } else {
            let tail = split_on(parts[2], '-');
            match (i32_of(parts[0]), i32_of(parts[1]), i32_of(tail[0])) {
                (Some(major), Some(minor), Some(patch)) => {
                    let alias = if tokens.len() >= 3 {
                        marker_alias(tokens[2])
                    } else {
                        None
                    };
                    let prgname = match alias {
                        Some(a) => a,
                        None => tokens[0],
                    };
                    let tag = if tail.len() >= 2 {
                        Some(tail[1])
                    } else {
                        None
                    };
                    let channel = if unstable_family(prgname) {
                        RustcChannel::Unstable
                    } else {
                        channel_of_tag(tag)
                    };
                    Some(
                        VersionView {
                            prgname: prgname,
                            major: major,
                            minor: minor,
                            patch: patch,
                            channel: channel,
                        },
                    )
                },
                _ => None,
            }
        }
    }
}

/// The channel that a pre-release tag names.
fn channel_for_tag(tag: Option<&str>) -> (r: RustcChannel)
    ensures
        r == channel_of_tag(
            match tag {
                Some(t) => Some(t@),
                None => None,
            },
        ),
{
    match tag {
        None => RustcChannel::Stable,
        Some(t) => if same_text(t, "beta") {
            RustcChannel::Beta
        } else if same_text(t, "nightly") {
            RustcChannel::Nightly
        } else {
            RustcChannel::Dev
        },
    }
}

/// The program name that an implementation marker token stands for.
fn alias_for_marker(token: &str) -> (r: Option<String>)
    ensures
        r matches Some(a) ==> marker_alias(token@) == Some(a@),
        r is None ==> marker_alias(token@) is None,
{
    let n = token.unicode_len();
    if n < 2 || token.get_char(0) != '(' || token.get_char(n - 1) != ')' {
        return None;
    }
    let payload = token.substring_char(1, n - 1);
    if same_text(payload, "mrustc") {
        Some("mrust".to_owned())
    } else if same_text(payload, "lccc") {
        Some("lcrustc".to_owned())
    } else {
        None
    }
}

/// Parses the first line of a compiler's `--version` output.
pub fn parse_version(line: &str) -> (r: Option<RustcVersion>)
    ensures
        r is None <==> version_of(line@) is None,
        r matches Some(v) ==> version_of(line@) == Some(v@),
{
    let tokens = split_text(line, ' ');
    let ghost tv = tokens@.map_values(|t: String| t@);
    if tokens.len() < 2 {
        return None;
    }
    assert(tv[0] == tokens@[0]@ && tv[1] == tokens@[1]@);
    let parts = split_text(tokens[1].as_str(), '.');
    let ghost pv = parts@.map_values(|t: String| t@);
    if parts.len() < 3 {
        return None;
    }
    assert(pv[0] == parts@[0]@ && pv[1] == parts@[1]@ && pv[2] == parts@[2]@);
    let tail = split_text(parts[2].as_str(), '-');
    let ghost lv = tail@.map_values(|t: String| t@);
    proof {
        crate::text::lemma_split_nonempty(pv[2], '-');
    }
    assert(lv[0] == tail@[0]@);
    let major = match parse_i32(parts[0].as_str()) {
        Some(x) => x,
        None => return None,
    };
    let minor = match parse_i32(parts[1].as_str()) {
        Some(x) => x,
        None => return None,
    };
    let patch = match parse_i32(tail[0].as_str()) {
        Some(x) => x,
        None => return None,
    };
    let alias = if tokens.len() >= 3 {
        assert(tv[2] == tokens@[2]@);
        alias_for_marker(tokens[2].as_str())
    } else {
        None
    };
    let prgname = match alias {
        Some(a) => a,
        None => tokens[0].clone(),
    };
    let tag = if tail.len() >= 2 {
        assert(lv[1] == tail@[1]@);
        Some(tail[1].as_str())
    } else {
        None
    };
    let channel = if starts_with(prgname.as_str(), "lc") {
        RustcChannel::Unstable
    } else {
        channel_for_tag(tag)
    };
    Some(RustcVersion { prgname, major, minor, patch, channel })
}

/// A version without a pre-release tag, from a program outside the unstable
/// family, is a stable release.
pub proof fn lemma_untagged_version_is_stable(line: Seq<char>)
    requires
        version_of(line) is Some,
        split_on(split_on(split_on(line, ' ')[1], '.')[2], '-').len() == 1,
        !unstable_family(version_of(line)->0.prgname),
    ensures
        version_of(line)->0.channel == RustcChannel::Stable,
{
}

/// An unadorned version line, `rustc 1.70.0`, describes stable release
/// 1.70.0 of `rustc`.
pub proof fn lemma_plain_version_line()
    ensures
        version_of("rustc 1.70.0"@) == Some(
            VersionView {
                prgname: "rustc"@,
                major: 1,
                minor: 70,
                patch: 0,
                channel: RustcChannel::Stable,
            },
        ),
{
    reveal_strlit("rustc 1.70.0");
    reveal_strlit("rustc");
    reveal_strlit("lc");
    let name = seq!['r', 'u', 's', 't', 'c'];
    let one = seq!['1'];
    let seventy = seq!['7', '0'];
    let zero = seq!['0'];
    let ver = one + seq!['.'] + seventy + seq!['.'] + zero;
    let line = "rustc 1.70.0"@;
    assert(line =~= name + seq![' '] + ver);
    assert(name =~= "rustc"@);
    lemma_split_without_separator(name, ' ');
    lemma_split_without_separator(ver, ' ');
    lemma_split_at_separator(name, ' ', ver);
    let tokens = split_on(line, ' ');
    assert(tokens =~= seq![name, ver]);
    lemma_split_without_separator(one, '.');
    lemma_split_without_separator(seventy, '.');
    lemma_split_without_separator(zero, '.');
    lemma_split_at_separator(one + seq!['.'] + seventy, '.', zero);
    lemma_split_at_separator(one, '.', seventy);
    assert(split_on(ver, '.') =~= seq![one, seventy, zero]);
    lemma_split_without_separator(zero, '-');
    assert(split_on(zero, '-') =~= seq![zero]);
    assert(digits_value(one.drop_last()) == 0);
    assert(digits_value(one) == 1);
    assert(seventy.drop_last() =~= seq!['7']);
    let seven = seq!['7'];
    assert(seven.drop_last() =~= Seq::<char>::empty());
    assert(seven.last() == '7');
    assert(digits_value(seven.drop_last()) == 0);
    assert(digits_value(seven) == 7);
    assert(seventy.last() == '0');
    assert(digits_value(seventy) == 70);
    assert(zero.drop_last() =~= Seq::<char>::empty());
    assert(digits_value(zero) == 0);
    assert(all_digits(one) && all_digits(seventy) && all_digits(zero));
    assert(int_of(one) == Some(1int));
    assert(int_of(seventy) == Some(70int));
    assert(int_of(zero) == Some(0int));
    assert(!unstable_family(name)) by {
        assert("lc"@[0] != name[0]);
    }
}

} // verus!
