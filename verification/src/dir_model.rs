//! A model of the target directory while the announcement file is written.
//!
//! The write protocol is: create a fresh temporary file in the target
//! directory, widen its permission bits, fill it with the rendered line, then
//! rename it onto the published name in one step.  Each step is a spec
//! function on [`DirModel`]; the lemmas state the protocol's invariants — the
//! published file is only ever seen as the complete old version or the
//! complete new version, a write that stops before the rename changes nothing
//! observable, and a repeated write with the same reason changes nothing at
//! all.  The surrounding process performs the steps, in this order, on the
//! real directory.

use crate::motd::{
    is_temp_name, lemma_temp_name_is_not_motd_name, motd_content, spec_motd_name, MOTD_FILE_MODE,
    TEMP_INITIAL_MODE,
};
use vstd::prelude::*;

verus! {

/// One file of the target directory: its text and its permission bits.
pub struct FileModel {
    pub content: Seq<char>,
    pub mode: u32,
}

/// The target directory: the names it holds, each with its file.
pub struct DirModel {
    pub files: Map<Seq<char>, FileModel>,
}

/// What a reader polling the directory observes of name `n`.
pub open spec fn observed(d: DirModel, n: Seq<char>) -> Option<FileModel> {
    if d.files.dom().contains(n) {
        Some(d.files[n])
    } else {
        None
    }
}

/// A usable temporary name for a write against directory `d`: recognizably
/// temporary, and not yet taken.
pub open spec fn fresh_temp(d: DirModel, tmp: Seq<char>) -> bool {
    is_temp_name(tmp) && !d.files.dom().contains(tmp)
}

/// Step one: the temporary file appears, empty, with the restrictive creation
/// default permissions.
pub open spec fn create_temp(d: DirModel, tmp: Seq<char>) -> DirModel {
    DirModel {
        files: d.files.insert(tmp, FileModel { content: Seq::empty(), mode: TEMP_INITIAL_MODE }),
    }
}

/// Step two: the temporary file's permission bits are widened to the
/// published mode, before the file becomes visible under its final name.
pub open spec fn widen_temp(d: DirModel, tmp: Seq<char>) -> DirModel {
    DirModel {
        files: d.files.insert(
            tmp,
            FileModel { content: d.files[tmp].content, mode: MOTD_FILE_MODE },
        ),
    }
}

/// Step three: the rendered text is written into the temporary file.
pub open spec fn fill_temp(d: DirModel, tmp: Seq<char>, text: Seq<char>) -> DirModel {
    DirModel {
        files: d.files.insert(tmp, FileModel { content: text, mode: d.files[tmp].mode }),
    }
}

/// Step four: the temporary file is renamed onto the published name in one
/// indivisible step, replacing any file of that name.
pub open spec fn persist_temp(d: DirModel, tmp: Seq<char>) -> DirModel {
    DirModel { files: d.files.remove(tmp).insert(spec_motd_name(), d.files[tmp]) }
}

/// A write abandoned before the rename: the temporary file is removed (on an
/// orderly failure) — everything else stays.
pub open spec fn drop_temp(d: DirModel, tmp: Seq<char>) -> DirModel {
    DirModel { files: d.files.remove(tmp) }
}

/// Every state the directory passes through during a complete write of
/// `reason` through the temporary name `tmp`: the initial state, one state
/// after each of the four steps.
pub open spec fn write_states(d: DirModel, tmp: Seq<char>, reason: Seq<char>) -> Seq<DirModel> {
    let d1 = create_temp(d, tmp);
    let d2 = widen_temp(d1, tmp);
    let d3 = fill_temp(d2, tmp, motd_content(reason));
    let d4 = persist_temp(d3, tmp);
    seq![d, d1, d2, d3, d4]
}

/// The directory after a complete write.
pub open spec fn write_result(d: DirModel, tmp: Seq<char>, reason: Seq<char>) -> DirModel {
    write_states(d, tmp, reason).last()
}

/// A complete write publishes exactly the rendered line under the published
/// name with the published permission bits, leaves no temporary artifact, and
/// touches no other name.
pub proof fn lemma_write_success(d: DirModel, tmp: Seq<char>, reason: Seq<char>)
    requires
        fresh_temp(d, tmp),
    ensures
        observed(write_result(d, tmp, reason), spec_motd_name()) == Some(
            FileModel { content: motd_content(reason), mode: MOTD_FILE_MODE },
        ),
        observed(write_result(d, tmp, reason), tmp) is None,
        forall|n: Seq<char>|
            n != tmp && n != spec_motd_name() ==> observed(write_result(d, tmp, reason), n)
                == observed(d, n),
{
    lemma_temp_name_is_not_motd_name(tmp);
}

/// Atomicity: before the final rename the published file is, at every
/// observable instant, exactly what it was before the write began — never
/// absent, empty or truncated when it existed, never partially new; the
/// rename itself installs the complete new content in one step.
pub proof fn lemma_write_atomic(d: DirModel, tmp: Seq<char>, reason: Seq<char>, i: int)
    requires
        fresh_temp(d, tmp),
        0 <= i < write_states(d, tmp, reason).len(),
    ensures
        i < write_states(d, tmp, reason).len() - 1 ==> observed(
            write_states(d, tmp, reason)[i],
            spec_motd_name(),
        ) == observed(d, spec_motd_name()),
        i == write_states(d, tmp, reason).len() - 1 ==> observed(
            write_states(d, tmp, reason)[i],
            spec_motd_name(),
        ) == Some(FileModel { content: motd_content(reason), mode: MOTD_FILE_MODE }),
{
    lemma_temp_name_is_not_motd_name(tmp);
}

/// A write that stops at any point before the rename — a failed step, or the
/// process dying — leaves the published file exactly as it was; once the
/// abandoned temporary file is cleaned up, the whole directory is as it was.
pub proof fn lemma_failed_write_preserves_target(
    d: DirModel,
    tmp: Seq<char>,
    reason: Seq<char>,
    i: int,
)
    requires
        fresh_temp(d, tmp),
        0 <= i < write_states(d, tmp, reason).len() - 1,
    ensures
        observed(write_states(d, tmp, reason)[i], spec_motd_name()) == observed(
            d,
            spec_motd_name(),
        ),
        forall|n: Seq<char>|
            n != tmp ==> observed(drop_temp(write_states(d, tmp, reason)[i], tmp), n) == observed(
                d,
                n,
            ),
        drop_temp(write_states(d, tmp, reason)[i], tmp).files =~= d.files,
{
    lemma_temp_name_is_not_motd_name(tmp);
}

/// Idempotence: a second complete write with the same reason leaves the
/// published file exactly as the first write left it.
pub proof fn lemma_write_idempotent(
    d: DirModel,
    tmp1: Seq<char>,
    tmp2: Seq<char>,
    reason: Seq<char>,
)
    requires
        fresh_temp(d, tmp1),
        fresh_temp(write_result(d, tmp1, reason), tmp2),
    ensures
        observed(
            write_result(write_result(d, tmp1, reason), tmp2, reason),
            spec_motd_name(),
        ) == observed(write_result(d, tmp1, reason), spec_motd_name()),
{
    lemma_write_success(d, tmp1, reason);
    lemma_write_success(write_result(d, tmp1, reason), tmp2, reason);
}

} // verus!
