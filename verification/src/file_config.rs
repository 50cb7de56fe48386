use vstd::prelude::*;

verus! {

/// Configuration read from a JSON file; every field may be absent.
#[derive(Debug, Clone)]
pub struct FileConfig {
    pub api_token: Option<String>,
    pub project_id: Option<String>,
    pub api_url: Option<String>,
}

/// The first of two optional values, preferring the first.
pub open spec fn spec_prefer(a: Option<Seq<char>>, b: Option<Seq<char>>) -> Option<Seq<char>> {
    if a is Some {
        a
    } else {
        b
    }
}

fn prefer_clone(a: &Option<String>, b: &Option<String>) -> (r: Option<String>)
    ensures
        r.deep_view() == spec_prefer(a.deep_view(), b.deep_view()),
{
    match a {
        Some(s) => Some(s.clone()),
        None => match b {
            Some(s) => Some(s.clone()),
            None => None,
        },
    }
}

impl Default for FileConfig {
    /// The empty configuration: no field set.
    fn default() -> (r: FileConfig)
        ensures
            r.api_token is None,
            r.project_id is None,
            r.api_url is None,
    {
        FileConfig { api_token: None, project_id: None, api_url: None }
    }
}

impl FileConfig {
    /// Merges with another configuration, preferring values from `self`.
    pub fn merge_with(&self, other: &FileConfig) -> (r: FileConfig)
        ensures
            r.api_token.deep_view() == spec_prefer(
                self.api_token.deep_view(),
                other.api_token.deep_view(),
            ),
            r.project_id.deep_view() == spec_prefer(
                self.project_id.deep_view(),
                other.project_id.deep_view(),
            ),
            r.api_url.deep_view() == spec_prefer(
                self.api_url.deep_view(),
                other.api_url.deep_view(),
            ),
    {
        FileConfig {
            api_token: prefer_clone(&self.api_token, &other.api_token),
            project_id: prefer_clone(&self.project_id, &other.project_id),
            api_url: prefer_clone(&self.api_url, &other.api_url),
        }
    }
}

} // verus!
