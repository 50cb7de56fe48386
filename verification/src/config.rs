use vstd::prelude::*;
use vstd::string::StringExecFns;
use crate::error::Error;

verus! {

/// The resolved client configuration: credentials and endpoint.
#[derive(Debug, Clone)]
pub struct Config {
    pub token: String,
    pub project_id: String,
    pub api_url: String,
}

impl Config {
    /// Builds a configuration, rejecting an empty token or project id.
    pub fn new(token: String, project_id: String, api_url: String) -> (r: Result<Config, Error>)
        ensures
            match r {
                Ok(c) => token@.len() > 0 && project_id@.len() > 0 && c.token == token
                    && c.project_id == project_id && c.api_url == api_url,
                Err(e) => e is ConfigError && (token@.len() == 0 || project_id@.len() == 0)
                    && e.spec_text() == if token@.len() == 0 {
                        "API token cannot be empty"@
                    } else {
                        "Project ID cannot be empty"@
                    },
            },
    {
        if token.as_str().unicode_len() == 0 {
            return Err(Error::ConfigError("API token cannot be empty".to_owned()));
        }
        if project_id.as_str().unicode_len() == 0 {
            return Err(Error::ConfigError("Project ID cannot be empty".to_owned()));
        }
        Ok(Config { token, project_id, api_url })
    }

    /// The base URL under which every upload call of this project lives.
    pub fn base_upload_url(&self) -> (r: String)
        ensures
            r@ == self.api_url@ + "/nexus/projects/"@ + self.project_id@ + "/builds"@,
    {
        let mut m: String = String::new();
        m.append(self.api_url.as_str());
        m.append("/nexus/projects/");
        m.append(self.project_id.as_str());
        m.append("/builds");
        m
    }
}

} // verus!
