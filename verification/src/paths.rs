//! Platform-dependent path handling for the server entry point.

use vstd::prelude::*;
use vstd::string::StrSliceExecFns;
use vstd::string::StringExecFns;

verus! {

/// The platform the host editor reports itself to run on.
#[derive(Clone, Copy, PartialEq, Eq, Debug)]
pub enum Os {
    Mac,
    Linux,
    Windows,
}

/// The npm package that provides the Tact language server.
pub open spec fn package_name_spec() -> Seq<char> {
    "@tact-lang/tact-language-server"@
}

/// Returns the name of the npm package that provides the Tact language server.
pub fn package_name() -> (r: &'static str)
    ensures
        r@ == package_name_spec(),
{
    "@tact-lang/tact-language-server"
}

/// What remains of a character sequence once a single leading `/`, if there
/// is one, is removed.
pub open spec fn strip_leading_separator(s: Seq<char>) -> Seq<char> {
    if s.len() > 0 && s[0] == '/' {
        s.drop_first()
    } else {
        s
    }
}

/// The sanitized form of a path: on windows a single leading `/` is stripped,
/// elsewhere the path is kept as it is.
pub open spec fn sanitize_spec(os: Os, path: Seq<char>) -> Seq<char> {
    match os {
        Os::Windows => strip_leading_separator(path),
        _ => path,
    }
}

/// Strips the single leading `/` that the host runtime wrongly puts in front
/// of absolute paths on windows; on mac and linux the path is returned
/// unchanged.
pub fn sanitize_windows_path(os: Os, path: String) -> (r: String)
    ensures
        r@ == sanitize_spec(os, path@),
{
    match os {
        Os::Mac => path,
        Os::Linux => path,
        Os::Windows => {
            let s = path.as_str();
            let n = s.unicode_len();
            if n > 0 && s.get_char(0) == '/' {
                proof {
                    assert(path@.drop_first() =~= path@.subrange(1, path@.len() as int));
                }
                String::from_str(s.substring_char(1, n))
            } else {
                path
            }
        },
    }
}

/// Law: on mac and linux, path sanitization is a no-op for every input path;
/// only windows paths are ever rewritten.
pub proof fn lemma_sanitize_noop_off_windows(os: Os, path: Seq<char>)
    requires
        os != Os::Windows,
    ensures
        sanitize_spec(os, path) == path,
{
}

/// The fixed path from a project root to the installed server's entry point.
pub open spec fn entry_suffix() -> Seq<char> {
    "/node_modules/@tact-lang/tact-language-server/server.js"@
}

/// Joins the sanitized working directory with the fixed location of the
/// installed server package's entry-point file.
pub fn server_entry_path(os: Os, cwd: String) -> (r: String)
    ensures
        r@ == sanitize_spec(os, cwd@) + entry_suffix(),
{
    let base = sanitize_windows_path(os, cwd);
    base.concat("/node_modules/@tact-lang/tact-language-server/server.js")
}

} // verus!
