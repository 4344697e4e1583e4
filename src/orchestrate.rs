//! Executing a project by name: lookup, resolution, and the reply that the
//! HTTP layer gives.
use vstd::prelude::*;
use crate::config::{Project, Resolution, ResolveError, resolve, resolves_to};
use crate::fanout::ExecuteError;

verus! {

/// The path under an agent's address that reports its capabilities.
pub const CAPABILITIES_PATH: &'static str = "/api/v1/capabilities";

/// The path under an agent's address that accepts a command batch.
pub const EXECUTE_PATH: &'static str = "/api/v1/execute";

/// A project under its name.
pub struct NamedProject {
    pub name: String,
    pub project: Project,
}

/// The projects that the server is configured with.
pub struct ServerConfig {
    pub projects: Vec<NamedProject>,
}

/// Whether some project of `projects` is named `name`.
pub open spec fn is_named(projects: Seq<NamedProject>, name: Seq<char>) -> bool {
    exists|i: int| 0 <= i < projects.len() && #[trigger] projects[i].name@ == name
}

/// No two projects of `projects` share a name.
pub open spec fn names_unique(projects: Seq<NamedProject>) -> bool {
    forall|i: int, j: int|
        0 <= i < j < projects.len() ==> #[trigger] projects[i].name@ != #[trigger] projects[j].name@
}

impl ServerConfig {
    /// A project is identified by its name.
    pub open spec fn wf(&self) -> bool {
        names_unique(self.projects@)
    }

    /// The configuration of `projects`, or `None` where two of them share a
    /// name.
    pub fn new(projects: Vec<NamedProject>) -> (r: Option<ServerConfig>)
        ensures
            r is Some <==> names_unique(projects@),
            r matches Some(c) ==> c.projects == projects && c.wf(),
    {
        let mut j: usize = 0;
        while j < projects.len()
            invariant
                0 <= j <= projects.len(),
                forall|a: int, b: int|
                    0 <= a < b < j ==> #[trigger] projects@[a].name@ != #[trigger] projects@[b].name@,
            decreases projects.len() - j,
        {
            let mut i: usize = 0;
            while i < j
                invariant
                    0 <= i <= j < projects.len(),
                    forall|a: int| 0 <= a < i ==> projects@[a].name@ != projects@[j as int].name@,
                decreases j - i,
            {
                if projects[i].name == projects[j].name {
                    assert(!names_unique(projects@)) by {
                        assert(projects@[i as int].name@ == projects@[j as int].name@);
                    }
                    return None;
                }
                i = i + 1;
            }
            j = j + 1;
        }
        Some(ServerConfig { projects })
    }

    /// The position of the project named `name`; where names repeat, the
    /// first of them.
    pub fn find_project(&self, name: &String) -> (r: Option<usize>)
        ensures
            r is None <==> !is_named(self.projects@, name@),
            r matches Some(i) ==> i < self.projects@.len()
                && self.projects@[i as int].name@ == name@
                && forall|j: int| 0 <= j < i ==> self.projects@[j].name@ != name@,
    {
        let mut i: usize = 0;
        while i < self.projects.len()
            invariant
                0 <= i <= self.projects.len(),
                forall|j: int| 0 <= j < i ==> self.projects@[j].name@ != name@,
            decreases self.projects.len() - i,
        {
            if self.projects[i].name == *name {
                return Some(i);
            }
            i = i + 1;
        }
        None
    }

    /// Whether a project named `name` is configured.
    pub fn has_project(&self, name: &String) -> (r: bool)
        ensures
            r == is_named(self.projects@, name@),
    {
        self.find_project(name).is_some()
    }
}

/// The error of an execution whose resolution failed with `e`.
pub fn resolve_failure(e: ResolveError) -> (r: ExecuteError)
    ensures
        e == ResolveError::Configuration ==> r == ExecuteError::Configuration,
        e == ResolveError::Resolution ==> r == ExecuteError::Resolution,
{
    match e {
        ResolveError::Configuration => ExecuteError::Configuration,
        ResolveError::Resolution => ExecuteError::Resolution,
    }
}

/// The first step of executing the project named `name`: an unknown name is
/// `NotFound`, before anything is resolved or dispatched; otherwise the
/// project's configuration is resolved.
pub fn begin_execute(config: &ServerConfig, name: &String) -> (r: Result<Resolution, ExecuteError>)
    ensures
        !is_named(config.projects@, name@) ==> r == Err::<Resolution, ExecuteError>(
            ExecuteError::NotFound,
        ),
        is_named(config.projects@, name@) ==> exists|i: int|
            0 <= i < config.projects@.len() && config.projects@[i].name@ == name@
                && (forall|j: int| 0 <= j < i ==> config.projects@[j].name@ != name@)
                && match r {
                Ok(res) => resolves_to(config.projects@[i].project, Ok(res)),
                Err(e) => e == ExecuteError::Configuration && resolves_to(
                    config.projects@[i].project,
                    Err(ResolveError::Configuration),
                ),
            },
{
    match config.find_project(name) {
        None => Err(ExecuteError::NotFound),
        Some(i) => match resolve(&config.projects[i].project) {
            Ok(res) => Ok(res),
            Err(e) => Err(resolve_failure(e)),
        },
    }
}

/// The answer to an execution request.
#[derive(PartialEq, Eq, Structural, Clone, Copy, Debug)]
pub enum ReplyKind {
    /// Redirect to the page the request named.
    Redirect,
    /// An empty JSON object.
    Done,
    /// No such project.
    NotFound,
    /// Resolution or dispatch failed.
    InternalError,
}

/// The reply to an execution that ended in `outcome`, where the request may
/// name a page to return to.
pub fn reply_kind(outcome: Result<(), ExecuteError>, has_next: bool) -> (r: ReplyKind)
    ensures
        r == match outcome {
            Ok(()) => if has_next { ReplyKind::Redirect } else { ReplyKind::Done },
            Err(ExecuteError::NotFound) => ReplyKind::NotFound,
            Err(_) => ReplyKind::InternalError,
        },
{
    match outcome {
        Ok(()) => if has_next {
            ReplyKind::Redirect
        } else {
            ReplyKind::Done
        },
        Err(ExecuteError::NotFound) => ReplyKind::NotFound,
        Err(_) => ReplyKind::InternalError,
    }
}

} // verus!
