use vstd::prelude::*;
use vstd::string::StringExecFns;
use crate::numbers::{spec_dec, u64_to_string};
use crate::text::{
    clone_opt_string, contains_sub, parse_u32, prefix_chars, spec_contains, spec_parse_u32,
    spec_starts_with, spec_trim_start_matches, str_eq, strip_prefix_str, text_before, spec_before,
    trim_start_matches_str,
};

verus! {

/// Version-control metadata attached to an upload.
#[derive(Debug, Clone)]
pub struct VcsMetadata {
    pub vcs_type: String,
    pub provider: Option<String>,
    pub repository_url: Option<String>,
    pub commit: CommitInfo,
    pub branch: Option<String>,
    pub tag: Option<String>,
    pub pr: Option<PullRequestInfo>,
}

/// The commit an upload was built from.
#[derive(Debug, Clone)]
pub struct CommitInfo {
    pub hash: String,
    pub short_hash: String,
    pub message: Option<String>,
    pub author: Option<String>,
    pub timestamp: Option<String>,
}

/// The pull or merge request an upload belongs to.
#[derive(Debug, Clone)]
pub struct PullRequestInfo {
    pub number: u32,
    pub title: Option<String>,
    pub url: Option<String>,
    pub source_branch: Option<String>,
    pub target_branch: Option<String>,
}

/// The Git-related environment variables of one invocation, read by the
/// embedding program and handed over as plain values.
#[derive(Debug, Clone)]
pub struct GitEnvironment {
    pub git_commit: Option<String>,
    pub git_branch: Option<String>,
    pub git_url: Option<String>,
    pub git_author_email: Option<String>,
    pub git_author_name: Option<String>,
    pub change_id: Option<String>,
    pub change_title: Option<String>,
    pub change_url: Option<String>,
    pub change_branch: Option<String>,
    pub change_target: Option<String>,
    pub github_actions: Option<String>,
    pub github_sha: Option<String>,
    pub github_ref: Option<String>,
    pub github_ref_name: Option<String>,
    pub github_repository: Option<String>,
    pub github_event_name: Option<String>,
    pub github_server_url: Option<String>,
    pub github_head_ref: Option<String>,
    pub github_base_ref: Option<String>,
    pub github_actor: Option<String>,
    pub gitlab_ci: Option<String>,
    pub ci_commit_sha: Option<String>,
    pub ci_commit_short_sha: Option<String>,
    pub ci_commit_branch: Option<String>,
    pub ci_commit_tag: Option<String>,
    pub ci_commit_message: Option<String>,
    pub ci_commit_author: Option<String>,
    pub ci_commit_timestamp: Option<String>,
    pub ci_project_url: Option<String>,
    pub ci_merge_request_iid: Option<String>,
    pub ci_merge_request_title: Option<String>,
    pub ci_merge_request_project_url: Option<String>,
    pub ci_merge_request_source_branch_name: Option<String>,
    pub ci_merge_request_target_branch_name: Option<String>,
}

/// What the fallback git commands answered, as the embedding program
/// collected them (`None` where a command failed or printed nothing).
#[derive(Debug, Clone)]
pub struct GitCommandOutput {
    pub in_repository: bool,
    pub head_hash: Option<String>,
    pub head_short_hash: Option<String>,
    pub remote_url: Option<String>,
    pub last_message: Option<String>,
    pub last_author: Option<String>,
    pub last_timestamp: Option<String>,
    pub branch: Option<String>,
    pub tag: Option<String>,
}

/// The first seven characters of a commit hash, or all of it if shorter.
pub open spec fn spec_short7(s: Seq<char>) -> Seq<char> {
    if s.len() <= 7 {
        s
    } else {
        s.subrange(0, 7)
    }
}

fn short7(s: &str) -> (r: String)
    ensures
        r@ == spec_short7(s@),
{
    let r = prefix_chars(s, 7);
    proof {
        if s@.len() <= 7 {
            assert(s@.subrange(0, s@.len() as int) =~= s@);
        }
    }
    r
}

/// The hosting provider a repository URL names, by its well-known domain.
pub open spec fn spec_provider_name(url: Seq<char>) -> Option<Seq<char>> {
    if spec_contains(url, "github.com"@) {
        Some("github"@)
    } else if spec_contains(url, "gitlab.com"@) {
        Some("gitlab"@)
    } else if spec_contains(url, "bitbucket.org"@) {
        Some("bitbucket"@)
    } else if spec_contains(url, "dev.azure.com"@) || spec_contains(url, "visualstudio.com"@) {
        Some("azure-devops"@)
    } else {
        None
    }
}

/// Names the hosting provider of a repository URL, or nothing for an
/// unknown host.
pub fn detect_git_provider(url: &str) -> (r: Option<String>)
    ensures
        r.deep_view() == spec_provider_name(url@),
{
    if contains_sub(url, "github.com") {
        Some("github".to_owned())
    } else if contains_sub(url, "gitlab.com") {
        Some("gitlab".to_owned())
    } else if contains_sub(url, "bitbucket.org") {
        Some("bitbucket".to_owned())
    } else if contains_sub(url, "dev.azure.com") || contains_sub(url, "visualstudio.com") {
        Some("azure-devops".to_owned())
    } else {
        None
    }
}

fn provider_of_opt(url: &Option<String>) -> (r: Option<String>)
    ensures
        r.deep_view() == (match url.deep_view() {
            Some(u) => spec_provider_name(u),
            None => None,
        }),
{
    match url {
        Some(u) => detect_git_provider(u.as_str()),
        None => None,
    }
}

/// The metadata the Jenkins Git plugin environment yields.
pub open spec fn spec_jenkins_vcs(env: &GitEnvironment, v: &VcsMetadata) -> bool {
    &&& v.vcs_type@ == "git"@
    &&& v.provider.deep_view() == (match env.git_url.deep_view() {
        Some(u) => spec_provider_name(u),
        None => None,
    })
    &&& v.repository_url.deep_view() == env.git_url.deep_view()
    &&& v.commit.hash@ == env.git_commit.unwrap()@
    &&& v.commit.short_hash@ == spec_short7(env.git_commit.unwrap()@)
    &&& v.commit.message is None
    &&& v.commit.author.deep_view() == (if env.git_author_email is Some {
        env.git_author_email.deep_view()
    } else {
        env.git_author_name.deep_view()
    })
    &&& v.commit.timestamp is None
    &&& v.branch.deep_view() == (match env.git_branch.deep_view() {
        Some(b) => Some(spec_trim_start_matches(b, "origin/"@)),
        None => None::<Seq<char>>,
    })
    &&& v.tag is None
    &&& (match env.change_id.deep_view() {
        Some(cid) => match spec_parse_u32(cid) {
            Some(n) => v.pr matches Some(p) && p.number == n && p.title.deep_view()
                == env.change_title.deep_view() && p.url.deep_view()
                == env.change_url.deep_view() && p.source_branch.deep_view()
                == env.change_branch.deep_view() && p.target_branch.deep_view()
                == env.change_target.deep_view(),
            None => v.pr is None,
        },
        None => v.pr is None,
    })
}

/// Collects what the Jenkins Git plugin exposes: present exactly when
/// `GIT_COMMIT` is set.
pub fn collect_jenkins_git_metadata(env: &GitEnvironment) -> (r: Option<VcsMetadata>)
    ensures
        r is Some <==> env.git_commit is Some,
        r matches Some(v) ==> spec_jenkins_vcs(env, &v),
{
    let commit: &String = match &env.git_commit {
        Some(c) => c,
        None => {
            return None;
        },
    };
    let branch: Option<String> = match &env.git_branch {
        Some(b) => Some(trim_start_matches_str(b.as_str(), "origin/")),
        None => None,
    };
    let provider = provider_of_opt(&env.git_url);
    let pr: Option<PullRequestInfo> = match &env.change_id {
        Some(cid) => match parse_u32(cid.as_str()) {
            Some(n) => Some(
                PullRequestInfo {
                    number: n,
                    title: clone_opt_string(&env.change_title),
                    url: clone_opt_string(&env.change_url),
                    source_branch: clone_opt_string(&env.change_branch),
                    target_branch: clone_opt_string(&env.change_target),
                },
            ),
            None => None,
        },
        None => None,
    };
    let author: Option<String> = if env.git_author_email.is_some() {
        clone_opt_string(&env.git_author_email)
    } else {
        clone_opt_string(&env.git_author_name)
    };
    Some(
        VcsMetadata {
            vcs_type: "git".to_owned(),
            provider,
            repository_url: clone_opt_string(&env.git_url),
            commit: CommitInfo {
                hash: commit.clone(),
                short_hash: short7(commit.as_str()),
                message: None,
                author,
                timestamp: None,
            },
            branch,
            tag: None,
            pr,
        },
    )
}

/// GitHub Actions is active: the marker variable is exactly `true` and
/// the commit and ref are present.
pub open spec fn spec_github_active(env: &GitEnvironment) -> bool {
    &&& env.github_actions.deep_view() == Some("true"@)
    &&& env.github_sha is Some
    &&& env.github_ref is Some
}

/// The metadata the GitHub Actions environment yields.
pub open spec fn spec_github_vcs(env: &GitEnvironment, v: &VcsMetadata) -> bool {
    let gref = env.github_ref.unwrap()@;
    &&& v.vcs_type@ == "git"@
    &&& v.provider.deep_view() == Some("github"@)
    &&& v.repository_url.deep_view() == (match env.github_repository.deep_view() {
        Some(repo) => Some("https://github.com/"@ + repo),
        None => None::<Seq<char>>,
    })
    &&& v.commit.hash@ == env.github_sha.unwrap()@
    &&& v.commit.short_hash@ == spec_short7(env.github_sha.unwrap()@)
    &&& v.commit.message is None
    &&& v.commit.author.deep_view() == env.github_actor.deep_view()
    &&& v.commit.timestamp is None
    &&& v.branch.deep_view() == (if spec_starts_with(gref, "refs/heads/"@) {
        Some(spec_trim_start_matches(gref, "refs/heads/"@))
    } else {
        env.github_ref_name.deep_view()
    })
    &&& v.tag.deep_view() == (if spec_starts_with(gref, "refs/tags/"@) {
        Some(spec_trim_start_matches(gref, "refs/tags/"@))
    } else {
        None::<Seq<char>>
    })
    &&& spec_github_pr(env, &v.pr)
}

/// The pull-request part of the GitHub Actions metadata: present exactly
/// for a `pull_request` event whose ref carries a parsable number.
pub open spec fn spec_github_pr(env: &GitEnvironment, pr: &Option<PullRequestInfo>) -> bool {
    let gref = env.github_ref.unwrap()@;
    if env.github_event_name.deep_view() == Some("pull_request"@) && spec_starts_with(
        gref,
        "refs/pull/"@,
    ) {
        let stripped = gref.subrange("refs/pull/"@.len() as int, gref.len() as int);
        let numpart = spec_before(stripped, "/"@);
        match spec_parse_u32(numpart) {
            Some(n) => {
                let server = match env.github_server_url.deep_view() {
                    Some(s) => s,
                    None => "https://github.com"@,
                };
                let repo = match env.github_repository.deep_view() {
                    Some(s) => s,
                    None => Seq::<char>::empty(),
                };
                pr matches Some(p) && p.number == n && p.title is None && p.url.deep_view()
                    == Some(server + "/"@ + repo + "/pull/"@ + spec_dec(n as int))
                    && p.source_branch.deep_view() == env.github_head_ref.deep_view()
                    && p.target_branch.deep_view() == env.github_base_ref.deep_view()
            },
            None => pr is None,
        }
    } else {
        pr is None
    }
}

/// Collects what GitHub Actions exposes: present exactly when the runner
/// marker, the commit and the ref are all set.
pub fn collect_github_actions_git_metadata(env: &GitEnvironment) -> (r: Option<VcsMetadata>)
    ensures
        r is Some <==> spec_github_active(env),
        r matches Some(v) ==> spec_github_vcs(env, &v),
{
    match &env.github_actions {
        Some(flag) => {
            if !str_eq(flag.as_str(), "true") {
                return None;
            }
        },
        None => {
            return None;
        },
    };
    let sha: &String = match &env.github_sha {
        Some(s) => s,
        None => {
            return None;
        },
    };
    let gref: &String = match &env.github_ref {
        Some(s) => s,
        None => {
            return None;
        },
    };
    let branch: Option<String> = match strip_prefix_str(gref.as_str(), "refs/heads/") {
        Some(_) => Some(trim_start_matches_str(gref.as_str(), "refs/heads/")),
        None => clone_opt_string(&env.github_ref_name),
    };
    let tag: Option<String> = match strip_prefix_str(gref.as_str(), "refs/tags/") {
        Some(_) => Some(trim_start_matches_str(gref.as_str(), "refs/tags/")),
        None => None,
    };
    let repository_url: Option<String> = match &env.github_repository {
        Some(repo) => {
            let mut m: String = String::new();
            m.append("https://github.com/");
            m.append(repo.as_str());
            Some(m)
        },
        None => None,
    };
    let is_pull_request: bool = match &env.github_event_name {
        Some(ev) => str_eq(ev.as_str(), "pull_request"),
        None => false,
    };
    let pr: Option<PullRequestInfo> = if is_pull_request {
        match strip_prefix_str(gref.as_str(), "refs/pull/") {
            Some(stripped) => {
                let numpart = text_before(stripped.as_str(), "/");
                match parse_u32(numpart.as_str()) {
                    Some(n) => {
                        let mut url: String = String::new();
                        match &env.github_server_url {
                            Some(s) => url.append(s.as_str()),
                            None => url.append("https://github.com"),
                        };
                        url.append("/");
                        match &env.github_repository {
                            Some(repo) => url.append(repo.as_str()),
                            None => (),
                        };
                        url.append("/pull/");
                        let num = u64_to_string(n as u64);
                        url.append(num.as_str());
                        Some(
                            PullRequestInfo {
                                number: n,
                                title: None,
                                url: Some(url),
                                source_branch: clone_opt_string(&env.github_head_ref),
                                target_branch: clone_opt_string(&env.github_base_ref),
                            },
                        )
                    },
                    None => None,
                }
            },
            None => None,
        }
    } else {
        None
    };
    Some(
        VcsMetadata {
            vcs_type: "git".to_owned(),
            provider: Some("github".to_owned()),
            repository_url,
            commit: CommitInfo {
                hash: sha.clone(),
                short_hash: short7(sha.as_str()),
                message: None,
                author: clone_opt_string(&env.github_actor),
                timestamp: None,
            },
            branch,
            tag,
            pr,
        },
    )
}

/// GitLab CI is active: the marker variable is exactly `true` and the
/// commit is present.
pub open spec fn spec_gitlab_active(env: &GitEnvironment) -> bool {
    &&& env.gitlab_ci.deep_view() == Some("true"@)
    &&& env.ci_commit_sha is Some
}

/// The metadata the GitLab CI environment yields.
pub open spec fn spec_gitlab_vcs(env: &GitEnvironment, v: &VcsMetadata) -> bool {
    &&& v.vcs_type@ == "git"@
    &&& v.provider.deep_view() == Some("gitlab"@)
    &&& v.repository_url.deep_view() == env.ci_project_url.deep_view()
    &&& v.commit.hash@ == env.ci_commit_sha.unwrap()@
    &&& v.commit.short_hash@ == (match env.ci_commit_short_sha.deep_view() {
        Some(s) => s,
        None => spec_short7(env.ci_commit_sha.unwrap()@),
    })
    &&& v.commit.message.deep_view() == env.ci_commit_message.deep_view()
    &&& v.commit.author.deep_view() == env.ci_commit_author.deep_view()
    &&& v.commit.timestamp.deep_view() == env.ci_commit_timestamp.deep_view()
    &&& v.branch.deep_view() == env.ci_commit_branch.deep_view()
    &&& v.tag.deep_view() == env.ci_commit_tag.deep_view()
    &&& (match env.ci_merge_request_iid.deep_view() {
        Some(iid) => match spec_parse_u32(iid) {
            Some(n) => v.pr matches Some(p) && p.number == n && p.title.deep_view()
                == env.ci_merge_request_title.deep_view() && p.url.deep_view() == (
            match env.ci_merge_request_project_url.deep_view() {
                Some(base) => Some(base + "/-/merge_requests/"@ + spec_dec(n as int)),
                None => None::<Seq<char>>,
            }) && p.source_branch.deep_view()
                == env.ci_merge_request_source_branch_name.deep_view()
                && p.target_branch.deep_view()
                == env.ci_merge_request_target_branch_name.deep_view(),
            None => v.pr is None,
        },
        None => v.pr is None,
    })
}

/// Collects what GitLab CI exposes: present exactly when the runner
/// marker and the commit are set.
pub fn collect_gitlab_ci_git_metadata(env: &GitEnvironment) -> (r: Option<VcsMetadata>)
    ensures
        r is Some <==> spec_gitlab_active(env),
        r matches Some(v) ==> spec_gitlab_vcs(env, &v),
{
    match &env.gitlab_ci {
        Some(flag) => {
            if !str_eq(flag.as_str(), "true") {
                return None;
            }
        },
        None => {
            return None;
        },
    };
    let sha: &String = match &env.ci_commit_sha {
        Some(s) => s,
        None => {
            return None;
        },
    };
    let short_hash: String = match &env.ci_commit_short_sha {
        Some(s) => s.clone(),
        None => short7(sha.as_str()),
    };
    let pr: Option<PullRequestInfo> = match &env.ci_merge_request_iid {
        Some(iid) => match parse_u32(iid.as_str()) {
            Some(n) => {
                let url: Option<String> = match &env.ci_merge_request_project_url {
                    Some(base) => {
                        let mut m: String = String::new();
                        m.append(base.as_str());
                        m.append("/-/merge_requests/");
                        let num = u64_to_string(n as u64);
                        m.append(num.as_str());
                        Some(m)
                    },
                    None => None,
                };
                Some(
                    PullRequestInfo {
                        number: n,
                        title: clone_opt_string(&env.ci_merge_request_title),
                        url,
                        source_branch: clone_opt_string(
                            &env.ci_merge_request_source_branch_name,
                        ),
                        target_branch: clone_opt_string(
                            &env.ci_merge_request_target_branch_name,
                        ),
                    },
                )
            },
            None => None,
        },
        None => None,
    };
    Some(
        VcsMetadata {
            vcs_type: "git".to_owned(),
            provider: Some("gitlab".to_owned()),
            repository_url: clone_opt_string(&env.ci_project_url),
            commit: CommitInfo {
                hash: sha.clone(),
                short_hash,
                message: clone_opt_string(&env.ci_commit_message),
                author: clone_opt_string(&env.ci_commit_author),
                timestamp: clone_opt_string(&env.ci_commit_timestamp),
            },
            branch: clone_opt_string(&env.ci_commit_branch),
            tag: clone_opt_string(&env.ci_commit_tag),
            pr,
        },
    )
}

/// The git commands yield metadata: the directory is a repository and
/// `HEAD` resolved.
pub open spec fn spec_commands_active(git: &GitCommandOutput) -> bool {
    git.in_repository && git.head_hash is Some
}

/// The metadata the fallback git commands yield.
pub open spec fn spec_commands_vcs(git: &GitCommandOutput, v: &VcsMetadata) -> bool {
    &&& v.vcs_type@ == "git"@
    &&& v.provider.deep_view() == (match git.remote_url.deep_view() {
        Some(u) => spec_provider_name(u),
        None => None,
    })
    &&& v.repository_url.deep_view() == git.remote_url.deep_view()
    &&& v.commit.hash@ == git.head_hash.unwrap()@
    &&& v.commit.short_hash@ == (match git.head_short_hash.deep_view() {
        Some(s) => s,
        None => spec_short7(git.head_hash.unwrap()@),
    })
    &&& v.commit.message.deep_view() == git.last_message.deep_view()
    &&& v.commit.author.deep_view() == git.last_author.deep_view()
    &&& v.commit.timestamp.deep_view() == git.last_timestamp.deep_view()
    &&& v.branch.deep_view() == git.branch.deep_view()
    &&& v.tag.deep_view() == git.tag.deep_view()
    &&& v.pr is None
}

/// Builds metadata from the fallback git command answers: present exactly
/// when the directory is a repository and `HEAD` resolved.
pub fn collect_git_metadata_from_commands(git: &GitCommandOutput) -> (r: Option<VcsMetadata>)
    ensures
        r is Some <==> spec_commands_active(git),
        r matches Some(v) ==> spec_commands_vcs(git, &v),
{
    if !git.in_repository {
        return None;
    }
    let hash: &String = match &git.head_hash {
        Some(h) => h,
        None => {
            return None;
        },
    };
    let short_hash: String = match &git.head_short_hash {
        Some(s) => s.clone(),
        None => short7(hash.as_str()),
    };
    Some(
        VcsMetadata {
            vcs_type: "git".to_owned(),
            provider: provider_of_opt(&git.remote_url),
            repository_url: clone_opt_string(&git.remote_url),
            commit: CommitInfo {
                hash: hash.clone(),
                short_hash,
                message: clone_opt_string(&git.last_message),
                author: clone_opt_string(&git.last_author),
                timestamp: clone_opt_string(&git.last_timestamp),
            },
            branch: clone_opt_string(&git.branch),
            tag: clone_opt_string(&git.tag),
            pr: None,
        },
    )
}

/// Collects VCS metadata, trying the CI environments in priority order —
/// Jenkins, GitHub Actions, GitLab CI — and falling back to the answers
/// of the git commands.
pub fn collect_git_metadata(env: &GitEnvironment, git: &GitCommandOutput) -> (r: Option<
    VcsMetadata,
>)
    ensures
        env.git_commit is Some ==> (r matches Some(v) && spec_jenkins_vcs(env, &v)),
        env.git_commit is None && spec_github_active(env) ==> (r matches Some(v)
            && spec_github_vcs(env, &v)),
        env.git_commit is None && !spec_github_active(env) && spec_gitlab_active(env) ==> (
        r matches Some(v) && spec_gitlab_vcs(env, &v)),
        env.git_commit is None && !spec_github_active(env) && !spec_gitlab_active(env)
            && spec_commands_active(git) ==> (r matches Some(v) && spec_commands_vcs(git, &v)),
        env.git_commit is None && !spec_github_active(env) && !spec_gitlab_active(env)
            && !spec_commands_active(git) ==> r is None,
{
    match collect_jenkins_git_metadata(env) {
        Some(v) => {
            return Some(v);
        },
        None => (),
    };
    match collect_github_actions_git_metadata(env) {
        Some(v) => {
            return Some(v);
        },
        None => (),
    };
    match collect_gitlab_ci_git_metadata(env) {
        Some(v) => {
            return Some(v);
        },
        None => (),
    };
    collect_git_metadata_from_commands(git)
}

} // verus!
