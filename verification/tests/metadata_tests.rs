use nunu_cli::ci_metadata::{collect_ci_metadata, CiEnvironment};
use nunu_cli::metadata::{
    collect_git_metadata, collect_git_metadata_from_commands, detect_git_provider, GitCommandOutput,
    GitEnvironment,
};

fn empty_git_env() -> GitEnvironment {
    GitEnvironment {
        git_commit: None,
        git_branch: None,
        git_url: None,
        git_author_email: None,
        git_author_name: None,
        change_id: None,
        change_title: None,
        change_url: None,
        change_branch: None,
        change_target: None,
        github_actions: None,
        github_sha: None,
        github_ref: None,
        github_ref_name: None,
        github_repository: None,
        github_event_name: None,
        github_server_url: None,
        github_head_ref: None,
        github_base_ref: None,
        github_actor: None,
        gitlab_ci: None,
        ci_commit_sha: None,
        ci_commit_short_sha: None,
        ci_commit_branch: None,
        ci_commit_tag: None,
        ci_commit_message: None,
        ci_commit_author: None,
        ci_commit_timestamp: None,
        ci_project_url: None,
        ci_merge_request_iid: None,
        ci_merge_request_title: None,
        ci_merge_request_project_url: None,
        ci_merge_request_source_branch_name: None,
        ci_merge_request_target_branch_name: None,
    }
}

fn empty_git_commands() -> GitCommandOutput {
    GitCommandOutput {
        in_repository: false,
        head_hash: None,
        head_short_hash: None,
        remote_url: None,
        last_message: None,
        last_author: None,
        last_timestamp: None,
        branch: None,
        tag: None,
    }
}

fn empty_ci_env() -> CiEnvironment {
    CiEnvironment {
        github_actions: None,
        github_run_number: None,
        github_workflow: None,
        github_run_id: None,
        github_server_url: None,
        github_repository: None,
        github_actor: None,
        runner_name: None,
        jenkins_home: None,
        jenkins_url: None,
        build_number: None,
        job_name: None,
        build_id: None,
        build_url: None,
        build_user: None,
        node_name: None,
        gitlab_ci: None,
        ci_pipeline_iid: None,
        ci_job_name: None,
        ci_pipeline_id: None,
        ci_pipeline_url: None,
        gitlab_user_login: None,
        ci_runner_description: None,
        circleci: None,
        circle_build_num: None,
        circle_job: None,
        circle_workflow_id: None,
        circle_build_url: None,
        circle_username: None,
        circle_node_index: None,
        travis: None,
        travis_build_number: None,
        travis_job_name: None,
        travis_job_id: None,
        travis_build_web_url: None,
        tf_build: None,
        build_buildnumber: None,
        build_definitionname: None,
        build_buildid: None,
        system_teamfoundationcollectionuri: None,
        system_teamproject: None,
        build_requestedfor: None,
        agent_name: None,
        bitrise_io: None,
        bitrise_build_number: None,
        bitrise_triggered_workflow_id: None,
        bitrise_build_slug: None,
        bitrise_build_url: None,
        bitrise_triggered_workflow_title: None,
    }
}

#[test]
fn test_detect_git_provider() {
    assert_eq!(
        detect_git_provider("https://github.com/a/b.git").as_deref(),
        Some("github")
    );
    assert_eq!(
        detect_git_provider("git@gitlab.com:a/b.git").as_deref(),
        Some("gitlab")
    );
    assert_eq!(
        detect_git_provider("https://bitbucket.org/a/b").as_deref(),
        Some("bitbucket")
    );
    assert_eq!(
        detect_git_provider("https://dev.azure.com/org/proj").as_deref(),
        Some("azure-devops")
    );
    assert_eq!(
        detect_git_provider("https://team.visualstudio.com/p").as_deref(),
        Some("azure-devops")
    );
    assert_eq!(detect_git_provider("https://example.test/repo.git"), None);
}

#[test]
fn test_jenkins_metadata() {
    let mut env = empty_git_env();
    env.git_commit = Some("0123456789abcdef".to_string());
    env.git_branch = Some("origin/main".to_string());
    env.git_url = Some("https://github.com/a/b.git".to_string());
    env.git_author_name = Some("dev".to_string());
    env.change_id = Some("42".to_string());
    env.change_title = Some("A change".to_string());
    let v = collect_git_metadata(&env, &empty_git_commands()).unwrap();
    assert_eq!(v.vcs_type, "git");
    assert_eq!(v.commit.hash, "0123456789abcdef");
    assert_eq!(v.commit.short_hash, "0123456");
    assert_eq!(v.commit.author.as_deref(), Some("dev"));
    assert_eq!(v.branch.as_deref(), Some("main"));
    assert_eq!(v.provider.as_deref(), Some("github"));
    let pr = v.pr.unwrap();
    assert_eq!(pr.number, 42);
    assert_eq!(pr.title.as_deref(), Some("A change"));
}

#[test]
fn test_jenkins_bad_change_id_means_no_pr() {
    let mut env = empty_git_env();
    env.git_commit = Some("abc".to_string());
    env.change_id = Some("not-a-number".to_string());
    let v = collect_git_metadata(&env, &empty_git_commands()).unwrap();
    assert!(v.pr.is_none());
    assert_eq!(v.commit.short_hash, "abc");
}

#[test]
fn test_github_actions_metadata_branch() {
    let mut env = empty_git_env();
    env.github_actions = Some("true".to_string());
    env.github_sha = Some("fedcba9876543210".to_string());
    env.github_ref = Some("refs/heads/feature/x".to_string());
    env.github_repository = Some("org/repo".to_string());
    env.github_actor = Some("octo".to_string());
    let v = collect_git_metadata(&env, &empty_git_commands()).unwrap();
    assert_eq!(v.provider.as_deref(), Some("github"));
    assert_eq!(v.repository_url.as_deref(), Some("https://github.com/org/repo"));
    assert_eq!(v.branch.as_deref(), Some("feature/x"));
    assert!(v.tag.is_none());
    assert_eq!(v.commit.short_hash, "fedcba9");
    assert!(v.pr.is_none());
}

#[test]
fn test_github_actions_metadata_pull_request() {
    let mut env = empty_git_env();
    env.github_actions = Some("true".to_string());
    env.github_sha = Some("fedcba9876543210".to_string());
    env.github_ref = Some("refs/pull/42/merge".to_string());
    env.github_repository = Some("org/repo".to_string());
    env.github_event_name = Some("pull_request".to_string());
    env.github_head_ref = Some("feature".to_string());
    env.github_base_ref = Some("main".to_string());
    let v = collect_git_metadata(&env, &empty_git_commands()).unwrap();
    let pr = v.pr.unwrap();
    assert_eq!(pr.number, 42);
    assert_eq!(pr.url.as_deref(), Some("https://github.com/org/repo/pull/42"));
    assert_eq!(pr.source_branch.as_deref(), Some("feature"));
    assert_eq!(pr.target_branch.as_deref(), Some("main"));
}

#[test]
fn test_github_actions_requires_exact_marker() {
    let mut env = empty_git_env();
    env.github_actions = Some("TRUE".to_string());
    env.github_sha = Some("x".to_string());
    env.github_ref = Some("refs/heads/main".to_string());
    assert!(collect_git_metadata(&env, &empty_git_commands()).is_none());
}

#[test]
fn test_gitlab_metadata() {
    let mut env = empty_git_env();
    env.gitlab_ci = Some("true".to_string());
    env.ci_commit_sha = Some("0011223344556677".to_string());
    env.ci_commit_branch = Some("main".to_string());
    env.ci_commit_tag = Some("v1.0".to_string());
    env.ci_project_url = Some("https://gitlab.com/a/b".to_string());
    env.ci_merge_request_iid = Some("7".to_string());
    env.ci_merge_request_project_url = Some("https://gitlab.com/a/b".to_string());
    let v = collect_git_metadata(&env, &empty_git_commands()).unwrap();
    assert_eq!(v.provider.as_deref(), Some("gitlab"));
    assert_eq!(v.commit.short_hash, "0011223");
    let pr = v.pr.unwrap();
    assert_eq!(pr.number, 7);
    assert_eq!(
        pr.url.as_deref(),
        Some("https://gitlab.com/a/b/-/merge_requests/7")
    );
}

#[test]
fn test_git_commands_fallback() {
    let mut git = empty_git_commands();
    git.in_repository = true;
    git.head_hash = Some("aabbccddeeff0011".to_string());
    git.remote_url = Some("git@github.com:a/b.git".to_string());
    git.branch = Some("main".to_string());
    git.last_message = Some("fix".to_string());
    let v = collect_git_metadata(&empty_git_env(), &git).unwrap();
    assert_eq!(v.commit.hash, "aabbccddeeff0011");
    assert_eq!(v.commit.short_hash, "aabbccd");
    assert_eq!(v.provider.as_deref(), Some("github"));
    assert_eq!(v.commit.message.as_deref(), Some("fix"));
    assert!(v.pr.is_none());
}

#[test]
fn test_no_git_metadata_outside_repository() {
    assert!(collect_git_metadata(&empty_git_env(), &empty_git_commands()).is_none());
}

#[test]
fn test_ci_metadata_github() {
    let mut env = empty_ci_env();
    env.github_actions = Some("true".to_string());
    env.github_run_number = Some("12".to_string());
    env.github_workflow = Some("ci".to_string());
    env.github_run_id = Some("999".to_string());
    env.github_server_url = Some("https://github.com".to_string());
    env.github_repository = Some("org/repo".to_string());
    let m = collect_ci_metadata(&env).unwrap();
    assert_eq!(m.system, "github-actions");
    assert_eq!(m.build_number.as_deref(), Some("12"));
    assert_eq!(
        m.run_url.as_deref(),
        Some("https://github.com/org/repo/actions/runs/999")
    );
}

#[test]
fn test_ci_metadata_jenkins_priority() {
    let mut env = empty_ci_env();
    env.jenkins_url = Some("https://jenkins.test".to_string());
    env.gitlab_ci = Some("true".to_string());
    let m = collect_ci_metadata(&env).unwrap();
    assert_eq!(m.system, "jenkins");
}

#[test]
fn test_ci_metadata_azure() {
    let mut env = empty_ci_env();
    env.tf_build = Some("True".to_string());
    env.system_teamfoundationcollectionuri = Some("https://dev.azure.com/org/".to_string());
    env.system_teamproject = Some("proj".to_string());
    env.build_buildid = Some("55".to_string());
    let m = collect_ci_metadata(&env).unwrap();
    assert_eq!(m.system, "azure-pipelines");
    assert_eq!(
        m.run_url.as_deref(),
        Some("https://dev.azure.com/org/proj/_build/results?buildId=55")
    );
}

#[test]
fn test_ci_metadata_none() {
    assert!(collect_ci_metadata(&empty_ci_env()).is_none());
}
