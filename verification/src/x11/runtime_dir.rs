//! Where the files of the managed server are found.

use vstd::prelude::*;

use crate::x11::error::{X11ErrorView, X11ForwardingError, X11Result};

verus! {

/// The variable that names the runtime directory outright.
pub const RUNTIME_DIR_VARIABLE: &'static str = "OXIDETERM_X11_RUNTIME_DIR";

/// The variable that names the directory of installed programs.
pub const PROGRAM_FILES_VARIABLE: &'static str = "ProgramFiles";

/// The executable of the server.
pub const SERVER_EXECUTABLE: &'static str = "vcxsrv.exe";

/// The executable of the cookie tool.
pub const XAUTH_EXECUTABLE: &'static str = "xauth.exe";

/// The directory of the keyboard tables.
pub const KEYBOARD_DIRECTORY: &'static str = "xkbdata";

/// What a look into a directory found of the things that a runtime needs.
#[derive(Clone, Copy, Debug, PartialEq, Eq, Structural)]
pub struct RuntimeDirProbe {
    /// `SERVER_EXECUTABLE` is a file.
    pub server_is_file: bool,
    /// `XAUTH_EXECUTABLE` is a file.
    pub xauth_is_file: bool,
    /// `KEYBOARD_DIRECTORY` is a directory.
    pub keyboard_is_dir: bool,
}

/// Whether a directory holds all that a runtime needs.
pub open spec fn is_complete(probe: RuntimeDirProbe) -> bool {
    probe.server_is_file && probe.xauth_is_file && probe.keyboard_is_dir
}

/// Whether a directory holds a complete runtime.
pub fn runtime_dir_is_complete(probe: RuntimeDirProbe) -> (complete: bool)
    ensures
        complete == is_complete(probe),
        complete ==> probe.server_is_file,
        complete ==> probe.xauth_is_file,
        complete ==> probe.keyboard_is_dir,
        probe.server_is_file && probe.xauth_is_file && probe.keyboard_is_dir ==> complete,
{
    probe.server_is_file && probe.xauth_is_file && probe.keyboard_is_dir
}

/// A directory and what was found in it.
pub struct ProbedDir<P> {
    pub path: P,
    pub probe: RuntimeDirProbe,
}

/// The error for a directory that was named outright and is not complete.
pub open spec fn named_dir_incomplete() -> X11ErrorView {
    X11ErrorView::ManagedRuntimeUnavailable(
        "OXIDETERM_X11_RUNTIME_DIR does not contain a complete VcXsrv runtime"@,
    )
}

/// The error for a search that found no complete directory.
pub open spec fn runtime_not_found() -> X11ErrorView {
    X11ErrorView::ManagedRuntimeUnavailable("the bundled VcXsrv files were not found"@)
}

/// Accepts a directory that was named outright if it is complete.
pub fn validate_runtime_dir<P>(dir: ProbedDir<P>) -> (result: X11Result<P>)
    ensures
        match result {
            Ok(path) => is_complete(dir.probe) && path == dir.path,
            Err(error) => !is_complete(dir.probe) && error@ == named_dir_incomplete(),
        },
        result matches Ok(path) ==> {
            &&& path == dir.path
            &&& dir.probe.server_is_file
            &&& dir.probe.xauth_is_file
            &&& dir.probe.keyboard_is_dir
        },
        result matches Err(error) ==> {
            &&& !(dir.probe.server_is_file && dir.probe.xauth_is_file && dir.probe.keyboard_is_dir)
            &&& error matches X11ForwardingError::ManagedRuntimeUnavailable(text)
            &&& text@ == "OXIDETERM_X11_RUNTIME_DIR does not contain a complete VcXsrv runtime"@
        },
{
    if runtime_dir_is_complete(dir.probe) {
        Ok(dir.path)
    } else {
        Err(
            X11ForwardingError::ManagedRuntimeUnavailable(
                "OXIDETERM_X11_RUNTIME_DIR does not contain a complete VcXsrv runtime".to_owned(),
            ),
        )
    }
}

/// The directory that a candidate is relative to.
#[derive(Clone, Copy, Debug, PartialEq, Eq, Structural)]
pub enum CandidateBase {
    /// The directory of the running executable.
    ExecutableDir,
    /// The directory of installed programs.
    ProgramFiles,
}

/// A directory that may hold the runtime.
pub struct RuntimeCandidate {
    pub base: CandidateBase,
    pub subdirectory: String,
}

/// A candidate as a mathematical value: its base and its path below it.
pub open spec fn candidate_view(candidate: RuntimeCandidate) -> (CandidateBase, Seq<char>) {
    (candidate.base, candidate.subdirectory@)
}

/// The candidates below the directory of the executable, if that is known.
pub open spec fn executable_candidates(known: bool) -> Seq<(CandidateBase, Seq<char>)> {
    if known {
        seq![
            (CandidateBase::ExecutableDir, "resources/x11/vcxsrv"@),
            (CandidateBase::ExecutableDir, "x11/vcxsrv"@),
        ]
    } else {
        seq![]
    }
}

/// The candidate below the directory of installed programs, if that is known.
pub open spec fn program_candidates(known: bool) -> Seq<(CandidateBase, Seq<char>)> {
    if known {
        seq![(CandidateBase::ProgramFiles, "VcXsrv"@)]
    } else {
        seq![]
    }
}

/// The directories to look into, in order, when none is named outright: those
/// that come with the application before one that was installed apart.
pub fn runtime_dir_candidates(
    executable_dir_known: bool,
    program_files_known: bool,
) -> (candidates: Vec<RuntimeCandidate>)
    ensures
        candidates@.map_values(|candidate: RuntimeCandidate| candidate_view(candidate))
            == executable_candidates(executable_dir_known) + program_candidates(
            program_files_known,
        ),
        candidates@.len() == (if executable_dir_known { 2int } else { 0 }) + (
        if program_files_known { 1int } else { 0 }),
        executable_dir_known ==> {
            &&& candidates@[0].base == CandidateBase::ExecutableDir
            &&& candidates@[0].subdirectory@ == "resources/x11/vcxsrv"@
            &&& candidates@[1].base == CandidateBase::ExecutableDir
            &&& candidates@[1].subdirectory@ == "x11/vcxsrv"@
        },
        program_files_known ==> {
            &&& candidates@.last().base == CandidateBase::ProgramFiles
            &&& candidates@.last().subdirectory@ == "VcXsrv"@
        },
{
    let mut candidates: Vec<RuntimeCandidate> = Vec::new();
    if executable_dir_known {
        candidates.push(
            RuntimeCandidate {
                base: CandidateBase::ExecutableDir,
                subdirectory: "resources/x11/vcxsrv".to_owned(),
            },
        );
        candidates.push(
            RuntimeCandidate {
                base: CandidateBase::ExecutableDir,
                subdirectory: "x11/vcxsrv".to_owned(),
            },
        );
    }
    if program_files_known {
        candidates.push(
            RuntimeCandidate {
                base: CandidateBase::ProgramFiles,
                subdirectory: "VcXsrv".to_owned(),
            },
        );
    }
    assert(candidates@.map_values(|candidate: RuntimeCandidate| candidate_view(candidate))
        =~= executable_candidates(executable_dir_known) + program_candidates(program_files_known));
    candidates
}

/// Whether a directory is the first complete one.
pub open spec fn is_first_complete<P>(dirs: Seq<ProbedDir<P>>, index: int) -> bool {
    &&& 0 <= index < dirs.len()
    &&& is_complete(dirs[index].probe)
    &&& forall|i: int| 0 <= i < index ==> !is_complete((#[trigger] dirs[i]).probe)
}

/// The first complete candidate.
fn first_complete_dir<P>(candidates: Vec<ProbedDir<P>>) -> (result: X11Result<P>)
    ensures
        match result {
            Ok(path) => exists|i: int| #[trigger]
                is_first_complete(candidates@, i) && path == candidates@[i].path,
            Err(error) => error@ == runtime_not_found() && forall|i: int|
                0 <= i < candidates@.len() ==> !is_complete((#[trigger] candidates@[i]).probe),
        },
        result matches Err(error) ==> (error matches X11ForwardingError::ManagedRuntimeUnavailable(
            text,
        ) && text@ == "the bundled VcXsrv files were not found"@),
{
    let mut remaining = candidates;
    let mut at: usize = 0;
    while at < remaining.len()
        invariant
            remaining@ == candidates@,
            at <= candidates@.len(),
            forall|i: int| 0 <= i < at ==> !is_complete((#[trigger] candidates@[i]).probe),
        decreases candidates@.len() - at,
    {
        if runtime_dir_is_complete(remaining[at].probe) {
            let dir = remaining.swap_remove(at);
            assert(is_first_complete(candidates@, at as int));
            return Ok(dir.path);
        }
        at += 1;
    }
    Err(
        X11ForwardingError::ManagedRuntimeUnavailable(
            "the bundled VcXsrv files were not found".to_owned(),
        ),
    )
}

/// Decides where the runtime is. A directory that is named outright is used or
/// refused, without a look at the candidates; otherwise the first complete
/// candidate is used.
pub fn find_runtime_dir<P>(named: Option<ProbedDir<P>>, candidates: Vec<ProbedDir<P>>) -> (result:
    X11Result<P>)
    ensures
        match named {
            Some(dir) => match result {
                Ok(path) => is_complete(dir.probe) && path == dir.path,
                Err(error) => !is_complete(dir.probe) && error@ == named_dir_incomplete(),
            },
            None => match result {
                Ok(path) => exists|i: int| #[trigger]
                    is_first_complete(candidates@, i) && path == candidates@[i].path,
                Err(error) => error@ == runtime_not_found() && forall|i: int|
                    0 <= i < candidates@.len() ==> !is_complete((#[trigger] candidates@[i]).probe),
            },
        },
        named matches Some(dir) ==> {
            &&& result is Ok <==> dir.probe.server_is_file && dir.probe.xauth_is_file
                && dir.probe.keyboard_is_dir
            &&& result matches Ok(path) ==> path == dir.path
        },
        named is None ==> (result matches Ok(path) ==> exists|i: int|
            {
                &&& 0 <= i < candidates@.len()
                &&& path == (#[trigger] candidates@[i]).path
                &&& candidates@[i].probe.server_is_file
                &&& candidates@[i].probe.xauth_is_file
                &&& candidates@[i].probe.keyboard_is_dir
                &&& forall|j: int|
                    0 <= j < i ==> !((#[trigger] candidates@[j]).probe.server_is_file
                        && candidates@[j].probe.xauth_is_file
                        && candidates@[j].probe.keyboard_is_dir)
            }),
        named is None ==> (result is Err <==> forall|i: int|
            0 <= i < candidates@.len() ==> !((#[trigger] candidates@[i]).probe.server_is_file
                && candidates@[i].probe.xauth_is_file && candidates@[i].probe.keyboard_is_dir)),
        result matches Err(error) ==> (error matches X11ForwardingError::ManagedRuntimeUnavailable(
            text,
        ) && text@ == if named is Some {
            "OXIDETERM_X11_RUNTIME_DIR does not contain a complete VcXsrv runtime"@
        } else {
            "the bundled VcXsrv files were not found"@
        }),
{
    proof {
        lemma_complete_means_every_part(candidates@);
    }
    match named {
        Some(dir) => validate_runtime_dir(dir),
        None => first_complete_dir(candidates),
    }
}

/// A directory is complete if and only if the server, the cookie tool and the
/// keyboard tables are all there. So the first complete one has each of them, and
/// none before it has all three.
pub proof fn lemma_complete_means_every_part<P>(dirs: Seq<ProbedDir<P>>)
    ensures
        forall|probe: RuntimeDirProbe| #[trigger]
            is_complete(probe) <==> probe.server_is_file && probe.xauth_is_file
                && probe.keyboard_is_dir,
        forall|i: int| #[trigger]
            is_first_complete(dirs, i) <==> {
                &&& 0 <= i < dirs.len()
                &&& dirs[i].probe.server_is_file
                &&& dirs[i].probe.xauth_is_file
                &&& dirs[i].probe.keyboard_is_dir
                &&& forall|j: int|
                    0 <= j < i ==> !((#[trigger] dirs[j]).probe.server_is_file
                        && dirs[j].probe.xauth_is_file && dirs[j].probe.keyboard_is_dir)
            },
{
}

/// There is at most one first complete directory, so the choice is determined.
pub proof fn lemma_first_complete_is_unique<P>(dirs: Seq<ProbedDir<P>>, first: int, second: int)
    requires
        is_first_complete(dirs, first),
        is_first_complete(dirs, second),
    ensures
        first == second,
{
}

} // verus!
