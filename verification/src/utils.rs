//! Small shared helpers: tool availability, project-kind probes, plugin-name
//! validation and byte-count formatting.

use vstd::prelude::*;
use crate::errors::CliError;
use crate::probe;
use crate::text;
use crate::text::{digit_char, digit_str, spec_dec, u64_dec_string};

verus! {

/// Relies on which::which: Ok exactly when the command resolves on the
/// search path; the result depends on the environment.
#[verifier::external_body]
pub fn command_exists(command: &str) -> bool {
    which::which(command).is_ok()
}

/// The availability verdict for a tool: Ok exactly when the tool was found.
pub fn tool_outcome(present: bool, tool: &str) -> (r: Result<(), CliError>)
    ensures
        present ==> r is Ok,
        !present ==> (r matches Err(CliError::ToolMissing(t)) && t@ == tool@),
{
    if present {
        Ok(())
    } else {
        Err(CliError::ToolMissing(String::from_str(tool)))
    }
}

/// Fails exactly when git is not on the search path.
pub fn check_git_available() -> (r: Result<(), CliError>)
    ensures
        r matches Err(e) ==> (e matches CliError::ToolMissing(t) && t@ == "Git"@),
{
    let present = command_exists("git");
    tool_outcome(present, "Git")
}

/// Fails exactly when cargo is not on the search path.
pub fn check_cargo_available() -> (r: Result<(), CliError>)
    ensures
        r matches Err(e) ==> (e matches CliError::ToolMissing(t) && t@ == "Cargo"@),
{
    let present = command_exists("cargo");
    tool_outcome(present, "Cargo")
}

/// Whether the directory holds version-control metadata.
pub fn is_git_repository(path: &str) -> bool {
    let marker = text::join_path(path, ".git");
    probe::path_exists(marker.as_str())
}

/// Whether the directory holds a package manifest.
pub fn is_rust_project(path: &str) -> bool {
    let marker = text::join_path(path, "Cargo.toml");
    probe::path_exists(marker.as_str())
}

/// Whether the character counts as alphanumeric for plugin names.
pub uninterp spec fn unicode_alphanumeric(c: char) -> bool;

/// Relies on char::is_alphanumeric: true exactly for the Unicode letter and
/// number categories, a property of the character alone. ASCII letters and
/// digits are in those categories; punctuation and spaces are not.
#[verifier::external_body]
fn char_is_alphanumeric(c: char) -> (r: bool)
    ensures
        r == unicode_alphanumeric(c),
        (97 <= c as u32 <= 122 || 65 <= c as u32 <= 90 || 48 <= c as u32 <= 57) ==> r,
        (c == '_' || c == '-' || c == ' ' || c == '@') ==> !r,
{
    c.is_alphanumeric()
}

/// A character a plugin name may hold.
pub open spec fn valid_name_char(c: char) -> bool {
    unicode_alphanumeric(c) || c == '_' || c == '-'
}

/// A well-formed plugin name: non-empty, alphanumeric with underscores and
/// hyphens, not starting with either separator.
pub open spec fn valid_plugin_name(s: Seq<char>) -> bool {
    &&& s.len() > 0
    &&& forall|i: int| 0 <= i < s.len() ==> valid_name_char(#[trigger] s[i])
    &&& s[0] != '-'
    &&& s[0] != '_'
}

/// Accepts exactly the well-formed plugin names.
pub fn validate_plugin_name(name: &str) -> (r: Result<(), CliError>)
    ensures
        r is Ok <==> valid_plugin_name(name@),
        r is Err ==> r matches Err(CliError::InvalidName(_)),
{
    let len = name.unicode_len();
    if len == 0 {
        return Err(CliError::InvalidName(String::from_str("Plugin name cannot be empty")));
    }
    let mut i: usize = 0;
    while i < len
        invariant
            len == name@.len(),
            0 <= i <= len,
            forall|k: int| 0 <= k < i ==> valid_name_char(#[trigger] name@[k]),
        decreases len - i,
    {
        let c = name.get_char(i);
        if !(char_is_alphanumeric(c) || c == '_' || c == '-') {
            return Err(CliError::InvalidName(String::from_str(
                "Plugin name can only contain alphanumeric characters, underscores, and hyphens",
            )));
        }
        i += 1;
    }
    let first = name.get_char(0);
    if first == '-' || first == '_' {
        return Err(CliError::InvalidName(String::from_str(
            "Plugin name cannot start with a hyphen or underscore",
        )));
    }
    Ok(())
}

/// The branch name from the version-control tool's branch query: the
/// trimmed output, which must be non-empty, of a successful run.
pub fn branch_from_output(success: bool, stdout: &str) -> (r: Result<String, CliError>)
    ensures
        !success ==> r matches Err(CliError::Vcs(_)),
        success && text::trimmed(stdout@).len() == 0 ==> r matches Err(CliError::Vcs(_)),
        success && text::trimmed(stdout@).len() > 0 ==> crate::errors::ok_string(
            r,
            text::trimmed(stdout@),
        ),
{
    if !success {
        return Err(CliError::Vcs(String::from_str("Failed to get current branch")));
    }
    let branch = text::trim(stdout);
    if branch.as_str().is_empty() {
        return Err(CliError::Vcs(String::from_str("No current branch found")));
    }
    Ok(branch)
}

/// The rounded count of tenths of `bytes / den`, ties to even.
pub open spec fn spec_rounded_tenths(bytes: nat, den: nat) -> nat {
    let q = bytes * 10 / den;
    let r = (bytes * 10) % den;
    if 2 * r > den {
        q + 1
    } else if 2 * r < den {
        q
    } else if q % 2 == 1 {
        q + 1
    } else {
        q
    }
}

/// `bytes` scaled by `den`, rendered with one decimal place and the unit.
pub open spec fn spec_scaled(bytes: nat, den: nat, unit: Seq<char>) -> Seq<char> {
    let t = spec_rounded_tenths(bytes, den);
    spec_dec(t / 10) + seq!['.', digit_char(t % 10), ' '] + unit
}

/// A byte count rendered with the largest fitting unit, one decimal place
/// past the plain-byte range. The tenths digit comes from exact rational
/// rounding with ties to even, over the whole 64-bit range; a rendering
/// that went through a double-precision value instead would already have
/// rounded counts beyond 2^53 once before formatting.
pub open spec fn spec_format_bytes(b: nat) -> Seq<char> {
    if b < 1024 {
        spec_dec(b) + seq![' ', 'B']
    } else if b < 1048576 {
        spec_scaled(b, 1024, seq!['K', 'B'])
    } else if b < 1073741824 {
        spec_scaled(b, 1048576, seq!['M', 'B'])
    } else if b < 1099511627776 {
        spec_scaled(b, 1073741824, seq!['G', 'B'])
    } else {
        spec_scaled(b, 1099511627776, seq!['T', 'B'])
    }
}

fn scaled(bytes: u64, den: u64, unit: &str) -> (r: String)
    requires
        1024 <= den,
    ensures
        r@ == spec_scaled(bytes as nat, den as nat, unit@),
{
    let num: u128 = (bytes as u128) * 10;
    let d: u128 = den as u128;
    let q: u128 = num / d;
    let rem: u128 = num % d;
    let t: u128 = if 2 * rem > d {
        q + 1
    } else if 2 * rem < d {
        q
    } else if q % 2 == 1 {
        q + 1
    } else {
        q
    };
    proof {
        assert(q * d <= num) by (nonlinear_arith)
            requires
                d >= 1,
                q == num / d,
        ;
        assert(q < 0x8000000000000000) by (nonlinear_arith)
            requires
                q * d <= num,
                num < 0xa0000000000000000,
                d >= 1024,
        ;
        assert(t == spec_rounded_tenths(bytes as nat, den as nat));
    }
    let t64: u64 = t as u64;
    let whole = u64_dec_string(t64 / 10);
    let frac = digit_str(t64 % 10);
    let head = text::concat3(whole.as_str(), ".", frac);
    let r = text::concat3(head.as_str(), " ", unit);
    proof {
        reveal_strlit(".");
        reveal_strlit(" ");
        assert(r@ =~= spec_scaled(bytes as nat, den as nat, unit@));
    }
    r
}

/// Renders a byte count as a human-readable string.
pub fn format_bytes(bytes: u64) -> (r: String)
    ensures
        r@ == spec_format_bytes(bytes as nat),
{
    if bytes < 1024 {
        let r = text::concat2(u64_dec_string(bytes).as_str(), " B");
        proof {
            reveal_strlit(" B");
            assert(r@ =~= spec_format_bytes(bytes as nat));
        }
        r
    } else if bytes < 1048576 {
        let r = scaled(bytes, 1024, "KB");
        proof {
            reveal_strlit("KB");
            assert(r@ =~= spec_format_bytes(bytes as nat));
        }
        r
    } else if bytes < 1073741824 {
        let r = scaled(bytes, 1048576, "MB");
        proof {
            reveal_strlit("MB");
            assert(r@ =~= spec_format_bytes(bytes as nat));
        }
        r
    } else if bytes < 1099511627776 {
        let r = scaled(bytes, 1073741824, "GB");
        proof {
            reveal_strlit("GB");
            assert(r@ =~= spec_format_bytes(bytes as nat));
        }
        r
    } else {
        let r = scaled(bytes, 1099511627776, "TB");
        proof {
            reveal_strlit("TB");
            assert(r@ =~= spec_format_bytes(bytes as nat));
        }
        r
    }
}

} // verus!
