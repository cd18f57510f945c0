//! The service: an uploads root and the registry of what was uploaded.
//!
//! Registration records where an artifact was stored. A run consumes the
//! record and hands back an [`Attempt`], which leads its driver through the
//! process's life and the removal of the handle's directory.

use crate::attempt::{Attempt, AttemptView, RunAction, RunActionView};
use crate::error::{outcome_view, ServiceError, ServiceErrorView};
use crate::paths::{
    artifact_dir, artifact_dir_of, lemma_stored_path_inside_artifact_dir, stored_path,
    stored_path_of, SEPARATOR,
};
use crate::registry::{
    apply_all, lemma_absent_until_registered, lemma_other_handles_leave_entry, listed,
    never_registers, never_touches, Entries, Registry, RegistryOp,
};
use vstd::prelude::*;
use vstd::string::StringExecFns;

verus! {

/// What a request to run an artifact names: the handle and the command.
#[derive(Debug)]
pub struct ExecParams {
    id: String,
    cmd: String,
}

/// An [`ExecParams`] as a plain value.
pub struct ExecParamsView {
    /// The handle of the artifact.
    pub id: Seq<char>,
    /// The command to run it with.
    pub cmd: Seq<char>,
}

impl View for ExecParams {
    type V = ExecParamsView;

    closed spec fn view(&self) -> ExecParamsView {
        ExecParamsView { id: self.id@, cmd: self.cmd@ }
    }
}

impl ExecParams {
    /// The request to run the artifact of handle `id` with `cmd`.
    pub fn new(id: String, cmd: String) -> (params: ExecParams)
        ensures
            params@ == (ExecParamsView { id: id@, cmd: cmd@ }),
    {
        ExecParams { id, cmd }
    }

    /// The handle of the artifact.
    pub fn id(&self) -> (id: &str)
        ensures
            id@ == self@.id,
    {
        self.id.as_str()
    }

    /// The command to run it with.
    pub fn cmd(&self) -> (cmd: &str)
        ensures
            cmd@ == self@.cmd,
    {
        self.cmd.as_str()
    }
}

/// The uploads root and the registry.
pub struct ProdServices {
    uploads_dir: String,
    files: Registry,
}

/// A [`ProdServices`] as a plain value.
pub struct ProdServicesView {
    /// The directory under which every handle has its own.
    pub uploads_dir: Seq<char>,
    /// The stored path of each registered handle.
    pub files: Entries,
}

impl ProdServicesView {
    /// The service after the artifact uploaded as `file_path` for `id` has
    /// been stored and recorded.
    pub open spec fn registered(self, id: Seq<char>, file_path: Seq<char>) -> ProdServicesView {
        ProdServicesView {
            files: (RegistryOp::Register {
                handle: id,
                stored_path: stored_path_of(self.uploads_dir, id, file_path),
            }).apply(self.files),
            ..self
        }
    }

    /// The service after a run has looked `id` up.
    pub open spec fn consumed(self, id: Seq<char>) -> ProdServicesView {
        ProdServicesView { files: (RegistryOp::Consume { handle: id }).apply(self.files), ..self }
    }

    /// The attempt that a run of `id` begins with.
    pub open spec fn first_state(self, id: Seq<char>) -> AttemptView {
        if self.files.contains_key(id) {
            AttemptView::started(artifact_dir_of(self.uploads_dir, id))
        } else {
            AttemptView::rejected(artifact_dir_of(self.uploads_dir, id))
        }
    }

    /// Every stored path lies in the directory of its handle, so that
    /// removing the directory removes the artifact.
    pub open spec fn well_placed(self) -> bool {
        forall|id: Seq<char>|
            self.files.contains_key(id) ==> (artifact_dir_of(self.uploads_dir, id) + seq![
                SEPARATOR,
            ]).is_prefix_of(#[trigger] self.files[id])
    }

    /// What a run of `id` with `cmd` asks for first: the process, with the
    /// stored path as its argument, or, where `id` has no entry, nothing but
    /// to end with that failure.
    pub open spec fn first_action(self, id: Seq<char>, cmd: Seq<char>) -> RunActionView {
        if self.files.contains_key(id) {
            RunActionView::Spawn { program: cmd, argument: self.files[id] }
        } else {
            RunActionView::Finish(Err(ServiceErrorView::UploadedFileNotFound { id }))
        }
    }
}

impl View for ProdServices {
    type V = ProdServicesView;

    closed spec fn view(&self) -> ProdServicesView {
        ProdServicesView { uploads_dir: self.uploads_dir@, files: self.files@ }
    }
}

impl ProdServices {
    /// A service that stores under `uploads_dir` and has nothing registered.
    pub fn new(uploads_dir: String) -> (services: ProdServices)
        ensures
            services@ == (ProdServicesView { uploads_dir: uploads_dir@, files: Entries::empty() }),
    {
        ProdServices { uploads_dir, files: Registry::new() }
    }

    /// A service that stores under `uploads_dir` and has registered what
    /// `files` lists: pairs of a handle and its stored path.
    pub fn with_init_files(uploads_dir: String, files: Vec<(String, String)>) -> (services:
        ProdServices)
        ensures
            services@ == (ProdServicesView { uploads_dir: uploads_dir@, files: listed(files@) }),
    {
        ProdServices { uploads_dir, files: Registry::from_pairs(&files) }
    }

    /// The stored path registered for `id`, if any.
    pub fn get_file(&self, id: &str) -> (stored_path: Option<String>)
        ensures
            match stored_path {
                Some(path) => self@.files.contains_key(id@) && path@ == self@.files[id@],
                None => !self@.files.contains_key(id@),
            },
    {
        self.files.lookup(id)
    }

    /// The directory under which every handle has its own.
    pub fn uploads_dir(&self) -> (dir: &str)
        ensures
            dir@ == self@.uploads_dir,
    {
        self.uploads_dir.as_str()
    }

    /// Where the artifact uploaded as `file_path` for `id` is to be stored.
    pub fn stored_path(&self, id: &str, file_path: &str) -> (path: String)
        ensures
            path@ == stored_path_of(self@.uploads_dir, id@, file_path@),
    {
        stored_path(self.uploads_dir.as_str(), id, file_path)
    }

    /// Closes a registration. `saved` says whether the artifact was written
    /// to its stored path, parent directories included.
    ///
    /// Where it was, the stored path is recorded for `id`, in place of any
    /// earlier record. Where it was not, nothing is recorded and the failure
    /// names the handle and the path; what may have been written stays.
    pub fn register_file(&mut self, id: &str, file_path: &str, saved: bool) -> (result: Result<
        (),
        ServiceError,
    >)
        ensures
            final(self)@ == (if saved {
                old(self)@.registered(id@, file_path@)
            } else {
                old(self)@
            }),
            outcome_view(result) == (if saved {
                Ok(())
            } else {
                Err(
                    ServiceErrorView::FileSaveError {
                        id: id@,
                        path: stored_path_of(old(self)@.uploads_dir, id@, file_path@),
                    },
                )
            }),
    {
        let full_path = self.stored_path(id, file_path);
        if saved {
            self.files.register(id, full_path);
            Ok(())
        } else {
            Err(ServiceError::FileSaveError { id: String::from_str(id), path: full_path })
        }
    }

    /// Begins the run of the artifact of `id` with `cmd`.
    ///
    /// The entry of `id` is consumed. Where there was one, the attempt asks
    /// for `cmd` to be started on the stored path. Where there was none, the
    /// attempt is over at once: it asks only to end with
    /// `UploadedFileNotFound`, and no directory is touched.
    pub fn run_cmd(&mut self, id: &str, cmd: &str) -> (begun: (Attempt, RunAction))
        ensures
            final(self)@ == old(self)@.consumed(id@),
            begun.0@ == old(self)@.first_state(id@),
            begun.1@ == old(self)@.first_action(id@, cmd@),
    {
        let dir = artifact_dir(self.uploads_dir.as_str(), id);
        match self.files.consume(id) {
            Some(stored_path) => (
                Attempt::started(dir),
                RunAction::Spawn { program: String::from_str(cmd), argument: stored_path },
            ),
            None => (
                Attempt::rejected(dir),
                RunAction::Finish(
                    Err(ServiceError::UploadedFileNotFound { id: String::from_str(id) }),
                ),
            ),
        }
    }
}

/// A run of a handle that was never registered ends at once with
/// `UploadedFileNotFound`, whatever was registered and run under other
/// handles before.
pub proof fn lemma_unregistered_handle_is_not_found(
    uploads_dir: Seq<char>,
    ops: Seq<RegistryOp>,
    id: Seq<char>,
    cmd: Seq<char>,
)
    requires
        never_registers(ops, id),
    ensures
        ({
            let services = ProdServicesView {
                uploads_dir,
                files: apply_all(Entries::empty(), ops),
            };
            &&& services.first_action(id, cmd) == RunActionView::Finish(
                Err(ServiceErrorView::UploadedFileNotFound { id }),
            )
            &&& services.first_state(id) == AttemptView::rejected(artifact_dir_of(uploads_dir, id))
            &&& services.consumed(id).files == services.files
        }),
{
    lemma_absent_until_registered(Entries::empty(), ops, id);
}

/// Only one run can consume the entry of a handle: once a run of it has
/// begun, every further run of it ends at once with `UploadedFileNotFound`,
/// whether or not the first is over and whatever happens to other handles in
/// between, as long as the handle is not registered anew.
pub proof fn lemma_handle_runs_once(
    services: ProdServicesView,
    ops: Seq<RegistryOp>,
    id: Seq<char>,
    cmd: Seq<char>,
)
    requires
        never_registers(ops, id),
    ensures
        ({
            let later = ProdServicesView {
                files: apply_all(services.consumed(id).files, ops),
                ..services
            };
            later.first_action(id, cmd) == RunActionView::Finish(
                Err(ServiceErrorView::UploadedFileNotFound { id }),
            )
        }),
{
    lemma_absent_until_registered(services.files.remove(id), ops, id);
}

/// A registered handle stays runnable, with the path it was registered
/// with, while other handles are registered and run: its run asks for the
/// command to be started on that very path.
pub proof fn lemma_registered_handle_is_found(
    services: ProdServicesView,
    ops: Seq<RegistryOp>,
    id: Seq<char>,
    file_path: Seq<char>,
    cmd: Seq<char>,
)
    requires
        never_touches(ops, id),
    ensures
        ({
            let later = ProdServicesView {
                files: apply_all(services.registered(id, file_path).files, ops),
                ..services
            };
            later.first_action(id, cmd) == RunActionView::Spawn {
                program: cmd,
                argument: stored_path_of(services.uploads_dir, id, file_path),
            }
        }),
{
    lemma_other_handles_leave_entry(services.registered(id, file_path).files, ops, id);
}

/// A service that has nothing registered is well placed, and registering
/// and running keep it so: what is stored for a handle is stored in the
/// handle's directory.
pub proof fn lemma_artifacts_stay_in_place(
    services: ProdServicesView,
    id: Seq<char>,
    file_path: Seq<char>,
)
    ensures
        (ProdServicesView { files: Entries::empty(), ..services }).well_placed(),
        services.well_placed() ==> services.registered(id, file_path).well_placed(),
        services.well_placed() ==> services.consumed(id).well_placed(),
{
    lemma_stored_path_inside_artifact_dir(services.uploads_dir, id, file_path);
}

/// A run removes what it ran: the path on which it asks for the process to
/// be started lies in the directory that it asks to be removed in the end.
pub proof fn lemma_run_removes_what_it_ran(services: ProdServicesView, id: Seq<char>, cmd: Seq<char>)
    requires
        services.well_placed(),
        services.files.contains_key(id),
    ensures
        services.first_action(id, cmd) matches RunActionView::Spawn { argument, .. } && (
        services.first_state(id).dir + seq![SEPARATOR]).is_prefix_of(argument),
{
}

} // verus!
