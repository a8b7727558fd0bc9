use vstd::prelude::*;

use crate::yougile::config::YougileConfig;

verus! {

/// The tracker settings as the web API shows them: everything but the API token.
#[derive(Debug)]
pub struct YougileConfigResponse {
    pub enabled: bool,
    pub api_url: String,
    pub project_id: Option<String>,
    pub board_id: Option<String>,
    pub column_id: Option<String>,
    pub assignee_id: Option<String>,
}

impl From<YougileConfig> for YougileConfigResponse {
    fn from(config: YougileConfig) -> (r: Self) {
        YougileConfigResponse {
            enabled: config.enabled,
            api_url: config.api_url,
            project_id: config.project_id,
            board_id: config.board_id,
            column_id: config.column_id,
            assignee_id: config.assignee_id,
        }
    }
}

impl vstd::std_specs::convert::FromSpecImpl<YougileConfig> for YougileConfigResponse {
    open spec fn obeys_from_spec() -> bool {
        true
    }

    open spec fn from_spec(config: YougileConfig) -> YougileConfigResponse {
        YougileConfigResponse {
            enabled: config.enabled,
            api_url: config.api_url,
            project_id: config.project_id,
            board_id: config.board_id,
            column_id: config.column_id,
            assignee_id: config.assignee_id,
        }
    }
}

/// The query of the board listing: the project whose boards to list.
#[derive(Debug)]
pub struct BoardsQuery {
    pub project_id: String,
}

/// The query of the column listing: the board whose columns to list.
#[derive(Debug)]
pub struct ColumnsQuery {
    pub board_id: String,
}

/// The query of the user listing: the project whose users to list.
#[derive(Debug)]
pub struct UsersQuery {
    pub project_id: String,
}

} // verus!
