//! The decision procedure that resolves how the Tact language server is
//! started.
//!
//! The host editor owns every outside effect: querying the npm registry,
//! installing the package, reading settings, probing the filesystem. It feeds
//! each result into the functions here as a plain value; the functions decide
//! the next step and finally assemble the command descriptor the host spawns.

use vstd::prelude::*;
use vstd::string::StringExecFns;

verus! {

/// The command descriptor handed back to the host: the executable to spawn,
/// its arguments, and the environment it runs under.
pub struct Command {
    pub command: String,
    pub args: Vec<String>,
    pub env: Vec<(String, String)>,
}

/// User-configured override for the language-server binary, as read from the
/// host's settings: an optional explicit path and optional arguments.
pub struct BinarySettings {
    pub path: Option<String>,
    pub arguments: Option<Vec<String>>,
}

/// Session state: the names of packages whose installation has already been
/// confirmed once during this session.
pub struct TactExtension {
    installed: Vec<String>,
}

/// What to do about installation when a resolution begins: skip the update
/// check entirely, or check the registry for the latest version.
pub enum UpdateCheck {
    Skip,
    Check { installed: Option<String> },
}

/// The update decision taken at the start of a resolution: the check is
/// skipped exactly when some version is installed and this session has
/// already confirmed the package.
pub open spec fn update_check_spec(
    ext: TactExtension,
    package_name: Seq<char>,
    installed_version: Option<String>,
) -> UpdateCheck {
    if installed_version is Some && ext.session_checked(package_name) {
        UpdateCheck::Skip
    } else {
        UpdateCheck::Check { installed: installed_version }
    }
}

/// Whether the latest published version must be installed: it must unless the
/// installed version equals the latest one.
pub open spec fn install_needed_spec(installed_version: Option<String>, latest: Seq<char>) -> bool {
    !(installed_version matches Some(v) && v@ == latest)
}

/// The outcome of an installation attempt: a failure is propagated only when
/// no previously installed version can serve as a fallback.
pub open spec fn settle_install_spec(
    installed_version: Option<String>,
    install_result: Result<(), String>,
) -> Result<(), String> {
    match install_result {
        Ok(u) => Ok(u),
        Err(e) => if installed_version is Some {
            Ok(())
        } else {
            Err(e)
        },
    }
}

/// Whether user settings carry an explicit binary path that overrides the
/// managed installation.
pub open spec fn user_binary_overrides(binary: Option<BinarySettings>) -> bool {
    binary matches Some(b) && b.path is Some
}

impl TactExtension {
    /// Whether this session has already confirmed the installation of the
    /// package with the given name.
    pub closed spec fn session_checked(self, package_name: Seq<char>) -> bool {
        exists|i: int|
            0 <= i < self.installed@.len() && self.installed@[i]@ == package_name
    }

    /// A fresh session: no package has been confirmed yet.
    pub fn new() -> (r: Self)
        ensures
            forall|p: Seq<char>| !r.session_checked(p),
    {
        TactExtension { installed: Vec::new() }
    }

    fn contains_name(&self, package_name: &String) -> (r: bool)
        ensures
            r == self.session_checked(package_name@),
    {
        let n = self.installed.len();
        let mut k: usize = 0;
        loop
            invariant
                k <= n,
                n == self.installed@.len(),
                forall|j: int| 0 <= j < k ==> self.installed@[j]@ != package_name@,
            decreases n - k,
        {
            if k < n {
                if self.installed[k].eq(package_name) {
                    assert(self.installed@[k as int]@ == package_name@);
                    return true;
                }
                k = k + 1;
            } else {
                return false;
            }
        }
    }

    /// Decides whether the update check for `package_name` can be skipped:
    /// it can exactly when a version is installed and this session already
    /// confirmed the package; otherwise the registry must be consulted, with
    /// the installed version carried along.
    pub fn begin_install_check(
        &self,
        package_name: &String,
        installed_version: Option<String>,
    ) -> (r: UpdateCheck)
        ensures
            r == update_check_spec(*self, package_name@, installed_version),
    {
        if installed_version.is_some() && self.contains_name(package_name) {
            UpdateCheck::Skip
        } else {
            UpdateCheck::Check { installed: installed_version }
        }
    }

    /// Records that the installation of `package_name` has been confirmed for
    /// this session; every package recorded before stays recorded.
    pub fn record_checked(&mut self, package_name: String)
        ensures
            final(self).session_checked(package_name@),
            forall|p: Seq<char>|
                old(self).session_checked(p) ==> final(self).session_checked(p),
            forall|p: Seq<char>|
                final(self).session_checked(p) ==> old(self).session_checked(p) || p
                    == package_name@,
    {
        self.installed.push(package_name);
        proof {
            let n = old(self).installed@.len() as int;
            assert(self.installed@[n]@ == package_name@);
            assert forall|p: Seq<char>|
                old(self).session_checked(p) implies self.session_checked(p) by {
                let i = choose|i: int|
                    0 <= i < old(self).installed@.len() && old(self).installed@[i]@ == p;
                assert(self.installed@[i]@ == p);
            }
            assert forall|p: Seq<char>|
                self.session_checked(p) implies old(self).session_checked(p) || p
                == package_name@ by {
                let i = choose|i: int|
                    0 <= i < self.installed@.len() && self.installed@[i]@ == p;
                if i < n {
                    assert(old(self).installed@[i]@ == p);
                }
            }
        }
    }
}

/// Decides whether the latest version must be installed: it must unless the
/// installed version equals the latest published one.
pub fn check_update(installed_version: &Option<String>, latest_version: &String) -> (r: bool)
    ensures
        r == install_needed_spec(*installed_version, latest_version@),
{
    match installed_version {
        Some(v) => !v.eq(latest_version),
        None => true,
    }
}

/// Settles an installation attempt: a failure is propagated exactly when no
/// version was installed before; with a fallback installed, the error is
/// swallowed and resolution continues on the existing installation.
pub fn settle_install(
    installed_version: &Option<String>,
    install_result: Result<(), String>,
) -> (r: Result<(), String>)
    ensures
        r == settle_install_spec(*installed_version, install_result),
{
    match install_result {
        Ok(u) => Ok(u),
        Err(e) => if installed_version.is_some() {
            Ok(())
        } else {
            Err(e)
        },
    }
}

/// Builds the command for a user-configured binary override, independently of
/// any package-installation state: the result is the configured path verbatim,
/// the configured arguments (empty when absent), and the worktree's shell
/// environment. Returns nothing exactly when no binary path is configured.
pub fn user_binary_command(
    binary: Option<BinarySettings>,
    shell_env: Vec<(String, String)>,
) -> (r: Option<Command>)
    ensures
        r is Some <==> user_binary_overrides(binary),
        (match binary {
            Some(b) => match b.path {
                Some(p) => (r matches Some(c) && {
                    &&& c.command == p
                    &&& (b.arguments matches Some(a) ==> c.args == a)
                    &&& (b.arguments is None ==> c.args@ == Seq::<String>::empty())
                    &&& c.env == shell_env
                }),
                None => r is None,
            },
            None => r is None,
        }),
{
    match binary {
        None => None,
        Some(b) => match b.path {
            None => None,
            Some(p) => {
                let args: Vec<String> = match b.arguments {
                    Some(a) => a,
                    None => Vec::new(),
                };
                Some(Command { command: p, args, env: shell_env })
            },
        },
    }
}

/// The error reported when the installed server's entry-point file is absent.
pub open spec fn missing_entry_message() -> Seq<char> {
    "tact-language-server not found."@
}

/// Accepts the entry-point path when the host found the file on disk and
/// fails with the fixed error message otherwise.
pub fn require_entry_point(entry_path: String, entry_exists: bool) -> (r: Result<String, String>)
    ensures
        entry_exists ==> (r matches Ok(p) && p == entry_path),
        !entry_exists ==> (r matches Err(e) && e@ == missing_entry_message()),
{
    if entry_exists {
        Ok(entry_path)
    } else {
        Err(String::from_str("tact-language-server not found."))
    }
}

/// The flag that tells the server to speak over standard input and output.
pub open spec fn stdio_flag() -> Seq<char> {
    "--stdio"@
}

/// Builds the command that starts the installed server: the host's managed
/// runtime binary, handed the entry-point path and the stdio transport flag,
/// with an empty environment.
pub fn node_server_command(node_path: String, entry_path: String) -> (r: Command)
    ensures
        r.command == node_path,
        r.args@.len() == 2,
        r.args@[0] == entry_path,
        r.args@[1]@ == stdio_flag(),
        r.env@ == Seq::<(String, String)>::empty(),
{
    let mut args: Vec<String> = Vec::new();
    args.push(entry_path);
    args.push(String::from_str("--stdio"));
    Command { command: node_path, args, env: Vec::new() }
}

/// Law: once a session has recorded a package as checked, an update check for
/// that package that sees some installed version decides `Skip`. Together with
/// `record_checked`, which records the package on every completed resolution,
/// this bounds the registry's latest-version queries to at most one per
/// package name after its first confirmed installation in a session.
pub proof fn lemma_checked_session_skips_query(
    ext: TactExtension,
    package_name: Seq<char>,
    installed_version: Option<String>,
)
    requires
        ext.session_checked(package_name),
        installed_version is Some,
    ensures
        update_check_spec(ext, package_name, installed_version) is Skip,
{
}

/// Law: when no version is installed and the installation attempt fails,
/// resolution fails with the installer's own error — no command is produced.
pub proof fn lemma_install_failure_is_fatal_without_fallback(error: String)
    ensures
        settle_install_spec(None, Err(error)) == Result::<(), String>::Err(error),
{
}

/// Law: when some version is already installed, a failed update never fails
/// the resolution: the outcome equals that of a successful install, so the
/// server is started from the existing installation's entry-point path, which
/// does not depend on the attempt's outcome.
pub proof fn lemma_failed_update_keeps_existing_install(
    installed: String,
    error: String,
)
    ensures
        settle_install_spec(Some(installed), Err(error)) is Ok,
        settle_install_spec(Some(installed), Err(error)) == settle_install_spec(
            Some(installed),
            Ok(()),
        ),
{
}

} // verus!
