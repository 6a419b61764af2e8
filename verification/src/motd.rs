//! The announcement file: its content, its name, the naming scheme of the
//! temporary files used while writing it, and the distinct failure conditions
//! of a write.

use vstd::prelude::*;
use vstd::string::StringExecFns;

verus! {

/// Permission bits of the published file: owner and group read-write, others
/// read-only.
pub const MOTD_FILE_MODE: u32 = 0o664;

/// Permission bits a freshly created temporary file carries before they are
/// explicitly widened.
pub const TEMP_INITIAL_MODE: u32 = 0o600;

/// The fixed part of every announcement line.
pub open spec fn motd_prefix() -> Seq<char> {
    "This release is a dead-end and won't auto-update"@
}

/// The exact content of the announcement file for a given reason: one line,
/// newline-terminated.  An empty reason renders the generic message with no
/// reason clause.
pub open spec fn motd_content(reason: Seq<char>) -> Seq<char> {
    if reason.len() > 0 {
        motd_prefix() + ": "@ + reason + "\n"@
    } else {
        motd_prefix() + ".\n"@
    }
}

/// Render the announcement line for `reason`.
pub fn render_motd(reason: &str) -> (r: String)
    ensures
        r@ == motd_content(reason@),
{
    let mut s = "This release is a dead-end and won't auto-update".to_owned();
    if reason.is_empty() {
        s.append(".\n");
    } else {
        s.append(": ");
        s.append(reason);
        s.append("\n");
    }
    proof {
        assert(s@ =~= motd_content(reason@));
    }
    s
}

/// Name of the published file inside the target directory.
pub open spec fn spec_motd_name() -> Seq<char> {
    "deadend.motd"@
}

/// Name of the published file inside the target directory.
pub fn motd_name() -> (r: &'static str)
    ensures
        r@ == spec_motd_name(),
{
    "deadend.motd"
}

/// Prefix of every in-progress temporary file's name.
pub open spec fn spec_temp_prefix() -> Seq<char> {
    ".deadend."@
}

/// Prefix of every in-progress temporary file's name.
pub fn temp_prefix() -> (r: &'static str)
    ensures
        r@ == spec_temp_prefix(),
{
    ".deadend."
}

/// Suffix of every in-progress temporary file's name.
pub open spec fn spec_temp_suffix() -> Seq<char> {
    ".motd.partial"@
}

/// Suffix of every in-progress temporary file's name.
pub fn temp_suffix() -> (r: &'static str)
    ensures
        r@ == spec_temp_suffix(),
{
    ".motd.partial"
}

/// A name the writer may give an in-progress temporary file: hidden
/// (dot-prefixed) and recognizably partial, so a stale one can be identified
/// for manual cleanup.
pub open spec fn is_temp_name(n: Seq<char>) -> bool {
    &&& n.len() >= spec_temp_prefix().len() + spec_temp_suffix().len()
    &&& n.take(spec_temp_prefix().len() as int) == spec_temp_prefix()
    &&& n.skip(n.len() - spec_temp_suffix().len()) == spec_temp_suffix()
}

/// A temporary name is never the published name, so an in-progress file can
/// never be mistaken for the announcement itself.
pub proof fn lemma_temp_name_is_not_motd_name(n: Seq<char>)
    requires
        is_temp_name(n),
    ensures
        n != spec_motd_name(),
{
    reveal_strlit(".deadend.");
    reveal_strlit("deadend.motd");
    assert(n.take(spec_temp_prefix().len() as int)[0] == n[0]);
    assert(n[0] == '.');
    assert(spec_motd_name()[0] == 'd');
}

/// The full path of the published file inside directory `dir`.
pub open spec fn spec_target_path(dir: Seq<char>) -> Seq<char> {
    dir + "/"@ + spec_motd_name()
}

/// The full path of the published file inside directory `dir`.
pub fn target_path(dir: &str) -> (r: String)
    ensures
        r@ == spec_target_path(dir@),
{
    let mut s = dir.to_owned();
    s.append("/");
    s.append("deadend.motd");
    s
}

/// The distinct failure conditions of a write, one per step of the protocol.
/// Each leaves any previously published file untouched.
#[derive(Clone, Copy, Debug, PartialEq, Eq, Structural)]
pub enum WriteError {
    /// Creating the temporary file failed (directory missing or unwritable).
    TempCreate,
    /// Widening the temporary file's permission bits failed.
    SetPermissions,
    /// Writing or flushing the rendered content failed.
    WriteContent,
    /// Atomically renaming the temporary file onto the target failed.
    Persist,
}

impl WriteError {
    /// A short description of the failed step, for the daemon's log stream.
    pub fn message(&self) -> (r: &'static str)
        ensures
            *self == WriteError::TempCreate ==> r@ == "failed to create temporary MOTD file"@,
            *self == WriteError::SetPermissions ==> r@
                == "failed to set permissions of temporary MOTD file"@,
            *self == WriteError::WriteContent ==> r@ == "failed to write MOTD"@,
            *self == WriteError::Persist ==> r@ == "failed to persist temporary MOTD file"@,
    {
        match self {
            WriteError::TempCreate => "failed to create temporary MOTD file",
            WriteError::SetPermissions => "failed to set permissions of temporary MOTD file",
            WriteError::WriteContent => "failed to write MOTD",
            WriteError::Persist => "failed to persist temporary MOTD file",
        }
    }
}

} // verus!
