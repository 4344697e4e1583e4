//! Projects, their job configurations, and how a configuration is resolved.
use vstd::prelude::*;
use vstd::string::StringExecFns;

verus! {

/// The name of the configuration file read from a repository when a project
/// names none.
pub const DEFAULT_FILENAME: &'static str = "synchronik.yml";

/// A copy of a list of strings, element for element.
pub fn copy_strings(v: &Vec<String>) -> (r: Vec<String>)
    ensures
        r@ == v@,
{
    let mut r: Vec<String> = Vec::new();
    let mut i: usize = 0;
    while i < v.len()
        invariant
            0 <= i <= v.len(),
            r@ == v@.subrange(0, i as int),
        decreases v.len() - i,
    {
        r.push(v[i].clone());
        i = i + 1;
    }
    assert(r@ =~= v@);
    r
}

/// The resolved, executable form of a project: what it needs of an agent,
/// and the commands to run, in order.
pub struct JobConfig {
    pub needs: Vec<String>,
    pub commands: Vec<String>,
}

impl JobConfig {
    pub fn new(needs: Vec<String>, commands: Vec<String>) -> (r: JobConfig)
        ensures
            r.needs == needs,
            r.commands == commands,
    {
        JobConfig { needs, commands }
    }

    /// A copy with the same needs and commands.
    pub fn duplicate(&self) -> (r: JobConfig)
        ensures
            r.needs@ == self.needs@,
            r.commands@ == self.commands@,
    {
        JobConfig { needs: copy_strings(&self.needs), commands: copy_strings(&self.commands) }
    }
}

/// Where a project's configuration comes from.
pub enum Scm {
    /// No repository: the project carries its configuration inline.
    Nonexistent,
    /// A file in a GitHub repository, read at the given reference.
    GitHub { owner: String, repo: String, scm_ref: String },
}

/// A project as the server's configuration describes it.
pub struct Project {
    pub scm: Scm,
    pub inline: Option<JobConfig>,
    pub filename: Option<String>,
}

impl Project {
    pub fn new(scm: Scm, inline: Option<JobConfig>, filename: Option<String>) -> (r: Project)
        ensures
            r.scm == scm,
            r.inline == inline,
            r.filename == filename,
    {
        Project { scm, inline, filename }
    }
}

/// A file to read from a repository: `owner/repo` at `scm_ref`.
pub struct FetchRequest {
    pub owner: String,
    pub repo: String,
    pub scm_ref: String,
    pub filename: String,
}

/// The first stage of resolving a project's configuration.
pub enum Resolution {
    /// The configuration is known without any network call.
    Ready(JobConfig),
    /// The configuration must be read from a repository and parsed.
    Fetch(FetchRequest),
}

/// Why a configuration could not be resolved.
#[derive(PartialEq, Eq, Structural, Clone, Copy, Debug)]
pub enum ResolveError {
    /// The project has no repository and no inline configuration.
    Configuration,
    /// The remote file could not be read, or was not a valid document.
    Resolution,
}

/// The file name read from a repository for `project`.
pub open spec fn file_for(project: Project) -> Seq<char> {
    match project.filename {
        Some(f) => f@,
        None => DEFAULT_FILENAME@,
    }
}

/// What resolving `project` gives: its inline configuration as it stands, a
/// configuration error where a project without repository has none, and
/// exactly one file to read where it names a repository.
pub open spec fn resolves_to(project: Project, r: Result<Resolution, ResolveError>) -> bool {
    match project.scm {
        Scm::Nonexistent => match project.inline {
            Some(c) => r matches Ok(Resolution::Ready(d))
                && d.needs@ == c.needs@ && d.commands@ == c.commands@,
            None => r == Err::<Resolution, ResolveError>(ResolveError::Configuration),
        },
        Scm::GitHub { owner, repo, scm_ref } => r matches Ok(Resolution::Fetch(f))
            && f.owner@ == owner@ && f.repo@ == repo@ && f.scm_ref@ == scm_ref@
            && f.filename@ == file_for(project),
    }
}

/// Decides how `project`'s configuration is obtained, with no network call.
pub fn resolve(project: &Project) -> (r: Result<Resolution, ResolveError>)
    ensures
        resolves_to(*project, r),
{
    match &project.scm {
        Scm::Nonexistent => match &project.inline {
            Some(c) => Ok(Resolution::Ready(c.duplicate())),
            None => Err(ResolveError::Configuration),
        },
        Scm::GitHub { owner, repo, scm_ref } => {
            let filename = match &project.filename {
                Some(f) => f.clone(),
                None => String::from_str(DEFAULT_FILENAME),
            };
            Ok(Resolution::Fetch(FetchRequest {
                owner: owner.clone(),
                repo: repo.clone(),
                scm_ref: scm_ref.clone(),
                filename,
            }))
        },
    }
}

/// Completes a remote resolution with the parsed document, or `None` when the
/// file could not be read or parsed: then the result is an error, never a
/// partial configuration.
pub fn complete_fetch(document: Option<JobConfig>) -> (r: Result<JobConfig, ResolveError>)
    ensures
        match document {
            Some(c) => r == Ok::<JobConfig, ResolveError>(c),
            None => r == Err::<JobConfig, ResolveError>(ResolveError::Resolution),
        },
{
    match document {
        Some(c) => Ok(c),
        None => Err(ResolveError::Resolution),
    }
}

} // verus!
