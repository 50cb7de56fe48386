use vstd::prelude::*;
use vstd::string::StringExecFns;
use crate::text::{clone_opt_string, str_eq};

verus! {

/// CI/CD run metadata attached to an upload.
#[derive(Debug, Clone)]
pub struct CiMetadata {
    pub system: String,
    pub build_number: Option<String>,
    pub job_name: Option<String>,
    pub run_id: Option<String>,
    pub run_url: Option<String>,
    pub triggered_by: Option<String>,
    pub agent: Option<String>,
}

/// The CI-related environment variables of one invocation, read by the
/// embedding program and handed over as plain values.
#[derive(Debug, Clone)]
pub struct CiEnvironment {
    pub github_actions: Option<String>,
    pub github_run_number: Option<String>,
    pub github_workflow: Option<String>,
    pub github_run_id: Option<String>,
    pub github_server_url: Option<String>,
    pub github_repository: Option<String>,
    pub github_actor: Option<String>,
    pub runner_name: Option<String>,
    pub jenkins_home: Option<String>,
    pub jenkins_url: Option<String>,
    pub build_number: Option<String>,
    pub job_name: Option<String>,
    pub build_id: Option<String>,
    pub build_url: Option<String>,
    pub build_user: Option<String>,
    pub node_name: Option<String>,
    pub gitlab_ci: Option<String>,
    pub ci_pipeline_iid: Option<String>,
    pub ci_job_name: Option<String>,
    pub ci_pipeline_id: Option<String>,
    pub ci_pipeline_url: Option<String>,
    pub gitlab_user_login: Option<String>,
    pub ci_runner_description: Option<String>,
    pub circleci: Option<String>,
    pub circle_build_num: Option<String>,
    pub circle_job: Option<String>,
    pub circle_workflow_id: Option<String>,
    pub circle_build_url: Option<String>,
    pub circle_username: Option<String>,
    pub circle_node_index: Option<String>,
    pub travis: Option<String>,
    pub travis_build_number: Option<String>,
    pub travis_job_name: Option<String>,
    pub travis_job_id: Option<String>,
    pub travis_build_web_url: Option<String>,
    pub tf_build: Option<String>,
    pub build_buildnumber: Option<String>,
    pub build_definitionname: Option<String>,
    pub build_buildid: Option<String>,
    pub system_teamfoundationcollectionuri: Option<String>,
    pub system_teamproject: Option<String>,
    pub build_requestedfor: Option<String>,
    pub agent_name: Option<String>,
    pub bitrise_io: Option<String>,
    pub bitrise_build_number: Option<String>,
    pub bitrise_triggered_workflow_id: Option<String>,
    pub bitrise_build_slug: Option<String>,
    pub bitrise_build_url: Option<String>,
    pub bitrise_triggered_workflow_title: Option<String>,
}

pub open spec fn spec_on_github(env: &CiEnvironment) -> bool {
    env.github_actions.deep_view() == Some("true"@)
}

pub open spec fn spec_on_jenkins(env: &CiEnvironment) -> bool {
    env.jenkins_home is Some || env.jenkins_url is Some
}

pub open spec fn spec_on_gitlab(env: &CiEnvironment) -> bool {
    env.gitlab_ci.deep_view() == Some("true"@)
}

pub open spec fn spec_on_circle(env: &CiEnvironment) -> bool {
    env.circleci.deep_view() == Some("true"@)
}

pub open spec fn spec_on_travis(env: &CiEnvironment) -> bool {
    env.travis.deep_view() == Some("true"@)
}

pub open spec fn spec_on_azure(env: &CiEnvironment) -> bool {
    env.tf_build.deep_view() == Some("True"@)
}

pub open spec fn spec_on_bitrise(env: &CiEnvironment) -> bool {
    env.bitrise_io.deep_view() == Some("true"@)
}

/// The metadata a GitHub Actions run yields; the run URL exists exactly
/// when the server, repository and run id are all known.
pub open spec fn spec_github_ci(env: &CiEnvironment, m: &CiMetadata) -> bool {
    &&& m.system@ == "github-actions"@
    &&& m.build_number.deep_view() == env.github_run_number.deep_view()
    &&& m.job_name.deep_view() == env.github_workflow.deep_view()
    &&& m.run_id.deep_view() == env.github_run_id.deep_view()
    &&& m.run_url.deep_view() == (match (
        env.github_server_url.deep_view(),
        env.github_repository.deep_view(),
        env.github_run_id.deep_view(),
    ) {
        (Some(url), Some(repo), Some(id)) => Some(
            url + "/"@ + repo + "/actions/runs/"@ + id,
        ),
        _ => None::<Seq<char>>,
    })
    &&& m.triggered_by.deep_view() == env.github_actor.deep_view()
    &&& m.agent.deep_view() == env.runner_name.deep_view()
}

pub open spec fn spec_jenkins_ci(env: &CiEnvironment, m: &CiMetadata) -> bool {
    &&& m.system@ == "jenkins"@
    &&& m.build_number.deep_view() == env.build_number.deep_view()
    &&& m.job_name.deep_view() == env.job_name.deep_view()
    &&& m.run_id.deep_view() == env.build_id.deep_view()
    &&& m.run_url.deep_view() == env.build_url.deep_view()
    &&& m.triggered_by.deep_view() == env.build_user.deep_view()
    &&& m.agent.deep_view() == env.node_name.deep_view()
}

pub open spec fn spec_gitlab_ci_meta(env: &CiEnvironment, m: &CiMetadata) -> bool {
    &&& m.system@ == "gitlab-ci"@
    &&& m.build_number.deep_view() == env.ci_pipeline_iid.deep_view()
    &&& m.job_name.deep_view() == env.ci_job_name.deep_view()
    &&& m.run_id.deep_view() == env.ci_pipeline_id.deep_view()
    &&& m.run_url.deep_view() == env.ci_pipeline_url.deep_view()
    &&& m.triggered_by.deep_view() == env.gitlab_user_login.deep_view()
    &&& m.agent.deep_view() == env.ci_runner_description.deep_view()
}

pub open spec fn spec_circle_ci(env: &CiEnvironment, m: &CiMetadata) -> bool {
    &&& m.system@ == "circleci"@
    &&& m.build_number.deep_view() == env.circle_build_num.deep_view()
    &&& m.job_name.deep_view() == env.circle_job.deep_view()
    &&& m.run_id.deep_view() == env.circle_workflow_id.deep_view()
    &&& m.run_url.deep_view() == env.circle_build_url.deep_view()
    &&& m.triggered_by.deep_view() == env.circle_username.deep_view()
    &&& m.agent.deep_view() == env.circle_node_index.deep_view()
}

pub open spec fn spec_travis_ci(env: &CiEnvironment, m: &CiMetadata) -> bool {
    &&& m.system@ == "travis"@
    &&& m.build_number.deep_view() == env.travis_build_number.deep_view()
    &&& m.job_name.deep_view() == env.travis_job_name.deep_view()
    &&& m.run_id.deep_view() == env.travis_job_id.deep_view()
    &&& m.run_url.deep_view() == env.travis_build_web_url.deep_view()
    &&& m.triggered_by is None
    &&& m.agent is None
}

/// The metadata an Azure Pipelines run yields; the run URL exists exactly
/// when the collection URI, project and build id are all known.
pub open spec fn spec_azure_ci(env: &CiEnvironment, m: &CiMetadata) -> bool {
    &&& m.system@ == "azure-pipelines"@
    &&& m.build_number.deep_view() == env.build_buildnumber.deep_view()
    &&& m.job_name.deep_view() == env.build_definitionname.deep_view()
    &&& m.run_id.deep_view() == env.build_buildid.deep_view()
    &&& m.run_url.deep_view() == (match (
        env.system_teamfoundationcollectionuri.deep_view(),
        env.system_teamproject.deep_view(),
        env.build_buildid.deep_view(),
    ) {
        (Some(uri), Some(project), Some(id)) => Some(
            uri + project + "/_build/results?buildId="@ + id,
        ),
        _ => None::<Seq<char>>,
    })
    &&& m.triggered_by.deep_view() == env.build_requestedfor.deep_view()
    &&& m.agent.deep_view() == env.agent_name.deep_view()
}

pub open spec fn spec_bitrise_ci(env: &CiEnvironment, m: &CiMetadata) -> bool {
    &&& m.system@ == "bitrise"@
    &&& m.build_number.deep_view() == env.bitrise_build_number.deep_view()
    &&& m.job_name.deep_view() == env.bitrise_triggered_workflow_id.deep_view()
    &&& m.run_id.deep_view() == env.bitrise_build_slug.deep_view()
    &&& m.run_url.deep_view() == env.bitrise_build_url.deep_view()
    &&& m.triggered_by.deep_view() == env.bitrise_triggered_workflow_title.deep_view()
    &&& m.agent is None
}

fn is_flag(o: &Option<String>, word: &str) -> (r: bool)
    ensures
        r == (o.deep_view() == Some(word@)),
{
    match o {
        Some(s) => str_eq(s.as_str(), word),
        None => false,
    }
}

/// Detects the CI system from its environment, in the priority order
/// GitHub Actions, Jenkins, GitLab CI, CircleCI, Travis CI, Azure
/// Pipelines, Bitrise, and collects that system's run metadata; yields
/// nothing outside CI.
pub fn collect_ci_metadata(env: &CiEnvironment) -> (r: Option<CiMetadata>)
    ensures
        spec_on_github(env) ==> (r matches Some(m) && spec_github_ci(env, &m)),
        !spec_on_github(env) && spec_on_jenkins(env) ==> (r matches Some(m) && spec_jenkins_ci(
            env,
            &m,
        )),
        !spec_on_github(env) && !spec_on_jenkins(env) && spec_on_gitlab(env) ==> (
        r matches Some(m) && spec_gitlab_ci_meta(env, &m)),
        !spec_on_github(env) && !spec_on_jenkins(env) && !spec_on_gitlab(env) && spec_on_circle(
            env,
        ) ==> (r matches Some(m) && spec_circle_ci(env, &m)),
        !spec_on_github(env) && !spec_on_jenkins(env) && !spec_on_gitlab(env) && !spec_on_circle(
            env,
        ) && spec_on_travis(env) ==> (r matches Some(m) && spec_travis_ci(env, &m)),
        !spec_on_github(env) && !spec_on_jenkins(env) && !spec_on_gitlab(env) && !spec_on_circle(
            env,
        ) && !spec_on_travis(env) && spec_on_azure(env) ==> (r matches Some(m) && spec_azure_ci(
            env,
            &m,
        )),
        !spec_on_github(env) && !spec_on_jenkins(env) && !spec_on_gitlab(env) && !spec_on_circle(
            env,
        ) && !spec_on_travis(env) && !spec_on_azure(env) && spec_on_bitrise(env) ==> (
        r matches Some(m) && spec_bitrise_ci(env, &m)),
        !spec_on_github(env) && !spec_on_jenkins(env) && !spec_on_gitlab(env) && !spec_on_circle(
            env,
        ) && !spec_on_travis(env) && !spec_on_azure(env) && !spec_on_bitrise(env) ==> r is None,
{
    if is_flag(&env.github_actions, "true") {
        let run_url: Option<String> = match (&env.github_server_url, &env.github_repository) {
            (Some(url), Some(repo)) => match &env.github_run_id {
                Some(id) => {
                    let mut m: String = String::new();
                    m.append(url.as_str());
                    m.append("/");
                    m.append(repo.as_str());
                    m.append("/actions/runs/");
                    m.append(id.as_str());
                    Some(m)
                },
                None => None,
            },
            _ => None,
        };
        return Some(
            CiMetadata {
                system: "github-actions".to_owned(),
                build_number: clone_opt_string(&env.github_run_number),
                job_name: clone_opt_string(&env.github_workflow),
                run_id: clone_opt_string(&env.github_run_id),
                run_url,
                triggered_by: clone_opt_string(&env.github_actor),
                agent: clone_opt_string(&env.runner_name),
            },
        );
    }
    if env.jenkins_home.is_some() || env.jenkins_url.is_some() {
        return Some(
            CiMetadata {
                system: "jenkins".to_owned(),
                build_number: clone_opt_string(&env.build_number),
                job_name: clone_opt_string(&env.job_name),
                run_id: clone_opt_string(&env.build_id),
                run_url: clone_opt_string(&env.build_url),
                triggered_by: clone_opt_string(&env.build_user),
                agent: clone_opt_string(&env.node_name),
            },
        );
    }
    if is_flag(&env.gitlab_ci, "true") {
        return Some(
            CiMetadata {
                system: "gitlab-ci".to_owned(),
                build_number: clone_opt_string(&env.ci_pipeline_iid),
                job_name: clone_opt_string(&env.ci_job_name),
                run_id: clone_opt_string(&env.ci_pipeline_id),
                run_url: clone_opt_string(&env.ci_pipeline_url),
                triggered_by: clone_opt_string(&env.gitlab_user_login),
                agent: clone_opt_string(&env.ci_runner_description),
            },
        );
    }
    if is_flag(&env.circleci, "true") {
        return Some(
            CiMetadata {
                system: "circleci".to_owned(),
                build_number: clone_opt_string(&env.circle_build_num),
                job_name: clone_opt_string(&env.circle_job),
                run_id: clone_opt_string(&env.circle_workflow_id),
                run_url: clone_opt_string(&env.circle_build_url),
                triggered_by: clone_opt_string(&env.circle_username),
                agent: clone_opt_string(&env.circle_node_index),
            },
        );
    }
    if is_flag(&env.travis, "true") {
        return Some(
            CiMetadata {
                system: "travis".to_owned(),
                build_number: clone_opt_string(&env.travis_build_number),
                job_name: clone_opt_string(&env.travis_job_name),
                run_id: clone_opt_string(&env.travis_job_id),
                run_url: clone_opt_string(&env.travis_build_web_url),
                triggered_by: None,
                agent: None,
            },
        );
    }
    if is_flag(&env.tf_build, "True") {
        let run_url: Option<String> = match (
            &env.system_teamfoundationcollectionuri,
            &env.system_teamproject,
        ) {
            (Some(uri), Some(project)) => match &env.build_buildid {
                Some(id) => {
                    let mut m: String = String::new();
                    m.append(uri.as_str());
                    m.append(project.as_str());
                    m.append("/_build/results?buildId=");
                    m.append(id.as_str());
                    Some(m)
                },
                None => None,
            },
            _ => None,
        };
        return Some(
            CiMetadata {
                system: "azure-pipelines".to_owned(),
                build_number: clone_opt_string(&env.build_buildnumber),
                job_name: clone_opt_string(&env.build_definitionname),
                run_id: clone_opt_string(&env.build_buildid),
                run_url,
                triggered_by: clone_opt_string(&env.build_requestedfor),
                agent: clone_opt_string(&env.agent_name),
            },
        );
    }
    if is_flag(&env.bitrise_io, "true") {
        return Some(
            CiMetadata {
                system: "bitrise".to_owned(),
                build_number: clone_opt_string(&env.bitrise_build_number),
                job_name: clone_opt_string(&env.bitrise_triggered_workflow_id),
                run_id: clone_opt_string(&env.bitrise_build_slug),
                run_url: clone_opt_string(&env.bitrise_build_url),
                triggered_by: clone_opt_string(&env.bitrise_triggered_workflow_title),
                agent: None,
            },
        );
    }
    None
}

} // verus!
