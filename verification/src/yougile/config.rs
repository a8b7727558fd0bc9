use vstd::prelude::*;

verus! {

/// The settings of the task-tracker integration.
#[derive(Debug)]
pub struct YougileConfig {
    pub enabled: bool,
    pub api_url: String,
    pub api_token: Option<String>,
    pub project_id: Option<String>,
    pub board_id: Option<String>,
    pub column_id: Option<String>,
    pub assignee_id: Option<String>,
}

pub fn clone_opt(o: &Option<String>) -> (r: Option<String>)
    ensures
        r == *o,
{
    match o {
        Some(s) => Some(s.clone()),
        None => None,
    }
}

impl Clone for YougileConfig {
    fn clone(&self) -> (r: Self)
        ensures
            r == *self,
    {
        YougileConfig {
            enabled: self.enabled,
            api_url: self.api_url.clone(),
            api_token: clone_opt(&self.api_token),
            project_id: clone_opt(&self.project_id),
            board_id: clone_opt(&self.board_id),
            column_id: clone_opt(&self.column_id),
            assignee_id: clone_opt(&self.assignee_id),
        }
    }
}

impl Default for YougileConfig {
    /// The integration switched off, pointed at the public tracker, with nothing chosen.
    fn default() -> (r: Self)
        ensures
            !r.enabled,
            r.api_url@ == "https://yougile.com"@,
            r.api_token is None,
            r.project_id is None,
            r.board_id is None,
            r.column_id is None,
            r.assignee_id is None,
    {
        YougileConfig {
            enabled: false,
            api_url: String::from_str("https://yougile.com"),
            api_token: None,
            project_id: None,
            board_id: None,
            column_id: None,
            assignee_id: None,
        }
    }
}

} // verus!
