use synchronik_server::capability;
use synchronik_server::capability::Agent;
use synchronik_server::config::{
    complete_fetch, resolve, JobConfig, Project, ResolveError, Resolution, Scm, DEFAULT_FILENAME,
};
use synchronik_server::dispatch::{execute_body, matching_agents};
use synchronik_server::fanout::{ExecuteError, FanOut};
use synchronik_server::orchestrate::{
    begin_execute, reply_kind, NamedProject, ReplyKind, ServerConfig,
};

fn strings(v: &[&str]) -> Vec<String> {
    v.iter().map(|s| s.to_string()).collect()
}

fn agent(name: &str, caps: &[&str]) -> Agent {
    Agent::new(name.to_string(), format!("http://{}:9000", name), strings(caps))
}

fn inline_project(needs: &[&str], commands: &[&str]) -> Project {
    Project::new(
        Scm::Nonexistent,
        Some(JobConfig::new(strings(needs), strings(commands))),
        None,
    )
}

fn github_project(filename: Option<&str>) -> Project {
    Project::new(
        Scm::GitHub {
            owner: "rtyler".to_string(),
            repo: "synchronik".to_string(),
            scm_ref: "main".to_string(),
        },
        None,
        filename.map(|f| f.to_string()),
    )
}

#[test]
fn matches_when_needs_are_a_subset() {
    assert!(capability::matches(&strings(&["rustc"]), &strings(&["rustc", "cargo"])));
    assert!(capability::matches(&strings(&["cargo", "rustc"]), &strings(&["rustc", "cargo"])));
}

#[test]
fn does_not_match_a_missing_need() {
    assert!(!capability::matches(&strings(&["rustc", "git"]), &strings(&["rustc", "cargo"])));
    assert!(!capability::matches(&strings(&["rustc"]), &strings(&[])));
}

#[test]
fn empty_needs_match_every_agent() {
    assert!(capability::matches(&strings(&[]), &strings(&[])));
    assert!(capability::matches(&strings(&[]), &strings(&["rustc"])));
}

#[test]
fn matching_is_case_sensitive() {
    assert!(!capability::matches(&strings(&["Rustc"]), &strings(&["rustc"])));
}

#[test]
fn agent_can_meet_its_own_capabilities() {
    let a = agent("a", &["x", "y"]);
    assert!(a.can_meet(&strings(&["y", "x"])));
    assert!(!a.can_meet(&strings(&["z"])));
}

#[test]
fn inline_configuration_is_returned_as_it_stands() {
    let project = inline_project(&["x"], &["make", "make test"]);
    match resolve(&project) {
        Ok(Resolution::Ready(c)) => {
            assert_eq!(c.needs, strings(&["x"]));
            assert_eq!(c.commands, strings(&["make", "make test"]));
        }
        _ => panic!("expected an inline configuration"),
    }
}

#[test]
fn missing_inline_configuration_is_a_configuration_error() {
    let project = Project::new(Scm::Nonexistent, None, None);
    assert!(matches!(resolve(&project), Err(ResolveError::Configuration)));
}

#[test]
fn remote_project_reads_the_default_file() {
    match resolve(&github_project(None)) {
        Ok(Resolution::Fetch(f)) => {
            assert_eq!(f.owner, "rtyler");
            assert_eq!(f.repo, "synchronik");
            assert_eq!(f.scm_ref, "main");
            assert_eq!(f.filename, "synchronik.yml");
            assert_eq!(f.filename, DEFAULT_FILENAME);
        }
        _ => panic!("expected a fetch"),
    }
}

#[test]
fn remote_project_reads_the_named_file() {
    match resolve(&github_project(Some("ci/build.yml"))) {
        Ok(Resolution::Fetch(f)) => assert_eq!(f.filename, "ci/build.yml"),
        _ => panic!("expected a fetch"),
    }
}

#[test]
fn malformed_remote_document_is_a_resolution_error() {
    assert!(matches!(complete_fetch(None), Err(ResolveError::Resolution)));
    let c = complete_fetch(Some(JobConfig::new(strings(&["x"]), strings(&["ls"])))).unwrap();
    assert_eq!(c.commands, strings(&["ls"]));
}

#[test]
fn unknown_project_is_not_found() {
    let config = ServerConfig::new(vec![NamedProject {
        name: "known".to_string(),
        project: inline_project(&[], &["ls"]),
    }])
    .unwrap();
    assert!(!config.has_project(&"unknown".to_string()));
    assert!(matches!(
        begin_execute(&config, &"unknown".to_string()),
        Err(ExecuteError::NotFound)
    ));
    assert!(config.has_project(&"known".to_string()));
    assert!(matches!(
        begin_execute(&config, &"known".to_string()),
        Ok(Resolution::Ready(_))
    ));
}

#[test]
fn known_project_without_configuration_fails_to_resolve() {
    let config = ServerConfig::new(vec![NamedProject {
        name: "bare".to_string(),
        project: Project::new(Scm::Nonexistent, None, None),
    }])
    .unwrap();
    assert!(matches!(
        begin_execute(&config, &"bare".to_string()),
        Err(ExecuteError::Configuration)
    ));
}

#[test]
fn both_agents_receive_a_job_needing_x() {
    let agents = vec![agent("a", &["x"]), agent("b", &["x", "y"])];
    let job = JobConfig::new(strings(&["x"]), strings(&["make"]));
    let f = FanOut::plan(&agents, &job);
    assert_eq!(f.targets, vec![0, 1]);
    assert_eq!(f.body, "{\"commands\":[{\"script\":\"make\"}]}");
}

#[test]
fn only_b_receives_a_job_needing_y() {
    let agents = vec![agent("a", &["x"]), agent("b", &["x", "y"])];
    assert_eq!(matching_agents(&agents, &strings(&["y"])), vec![1]);
    let job = JobConfig::new(strings(&["y"]), strings(&["make"]));
    let f = FanOut::plan(&agents, &job);
    assert_eq!(f.targets, vec![1]);
}

#[test]
fn a_failed_send_does_not_stop_the_next() {
    let agents = vec![agent("a", &["x"]), agent("b", &["x"])];
    let job = JobConfig::new(strings(&["x"]), strings(&["make"]));
    let mut f = FanOut::plan(&agents, &job);
    assert_eq!(f.next_target(), Some(0));
    f.record(false);
    assert_eq!(f.next_target(), Some(1));
    f.record(true);
    assert_eq!(f.next_target(), None);
    assert_eq!(f.failed, 1);
    assert!(matches!(f.outcome(), Err(ExecuteError::Dispatch)));
}

#[test]
fn all_sends_accepted_is_success() {
    let agents = vec![agent("a", &[]), agent("b", &["x"])];
    let job = JobConfig::new(strings(&[]), strings(&["make"]));
    let mut f = FanOut::plan(&agents, &job);
    while f.next_target().is_some() {
        f.record(true);
    }
    assert_eq!(f.next, 2);
    assert!(f.outcome().is_ok());
}

#[test]
fn no_matching_agent_is_success_with_no_send() {
    let agents = vec![agent("a", &["x"])];
    let job = JobConfig::new(strings(&["z"]), strings(&["make"]));
    let f = FanOut::plan(&agents, &job);
    assert_eq!(f.next_target(), None);
    assert!(f.outcome().is_ok());
}

#[test]
fn body_keeps_command_order() {
    let body = execute_body(&strings(&["make", "make test", "make install"]));
    assert_eq!(
        body,
        "{\"commands\":[{\"script\":\"make\"},{\"script\":\"make test\"},{\"script\":\"make install\"}]}"
    );
}

#[test]
fn body_of_no_commands() {
    assert_eq!(execute_body(&strings(&[])), "{\"commands\":[]}");
}

#[test]
fn body_escapes_commands_as_json() {
    let body = execute_body(&strings(&["echo \"hi\"\n"]));
    assert_eq!(body, "{\"commands\":[{\"script\":\"echo \\\"hi\\\"\\n\"}]}");
}

#[test]
fn replies_follow_the_outcome() {
    assert_eq!(reply_kind(Ok(()), true), ReplyKind::Redirect);
    assert_eq!(reply_kind(Ok(()), false), ReplyKind::Done);
    assert_eq!(reply_kind(Err(ExecuteError::NotFound), true), ReplyKind::NotFound);
    assert_eq!(reply_kind(Err(ExecuteError::Resolution), false), ReplyKind::InternalError);
    assert_eq!(reply_kind(Err(ExecuteError::Dispatch), false), ReplyKind::InternalError);
    assert_eq!(reply_kind(Err(ExecuteError::Configuration), true), ReplyKind::InternalError);
}

#[test]
fn framing_keeps_the_literals_as_given() {
    let literals = strings(&["\"a\"", "\"b\""]);
    assert_eq!(
        synchronik_server::dispatch::frame_scripts(&literals),
        "{\"commands\":[{\"script\":\"a\"},{\"script\":\"b\"}]}"
    );
    assert_eq!(
        synchronik_server::dispatch::frame_scripts(&strings(&[])),
        "{\"commands\":[]}"
    );
}

#[test]
fn repeated_project_names_are_refused() {
    let config = ServerConfig::new(vec![
        NamedProject {
            name: "a".to_string(),
            project: inline_project(&[], &["ls"]),
        },
        NamedProject {
            name: "b".to_string(),
            project: inline_project(&[], &["ls"]),
        },
        NamedProject {
            name: "b".to_string(),
            project: Project::new(Scm::Nonexistent, None, None),
        },
    ]);
    assert!(config.is_none());
}

#[test]
fn execution_reaches_a_remote_project_with_one_fetch() {
    let config = ServerConfig::new(vec![NamedProject {
        name: "remote".to_string(),
        project: github_project(None),
    }])
    .unwrap();
    match begin_execute(&config, &"remote".to_string()) {
        Ok(Resolution::Fetch(f)) => {
            assert_eq!(f.filename, "synchronik.yml");
            assert_eq!(f.owner, "rtyler");
        }
        _ => panic!("expected a fetch"),
    }
}

#[test]
fn projects_are_found_by_name() {
    let config = ServerConfig::new(vec![
        NamedProject {
            name: "a".to_string(),
            project: inline_project(&[], &["ls"]),
        },
        NamedProject {
            name: "b".to_string(),
            project: Project::new(Scm::Nonexistent, None, None),
        },
    ])
    .unwrap();
    assert_eq!(config.find_project(&"b".to_string()), Some(1));
    assert_eq!(config.find_project(&"a".to_string()), Some(0));
    assert_eq!(config.find_project(&"c".to_string()), None);
}

#[test]
fn plain_commands_are_sent_between_quotes() {
    let body = execute_body(&strings(&["cargo build --release"]));
    assert_eq!(body, "{\"commands\":[{\"script\":\"cargo build --release\"}]}");
}
