use vstd::prelude::*;

verus! {

/// A tracker project, as the settings page lists it.
#[derive(Debug)]
pub struct ProjectInfo {
    pub id: String,
    pub title: String,
}

/// A tracker board.
#[derive(Debug)]
pub struct BoardInfo {
    pub id: String,
    pub title: String,
}

/// A column of a tracker board.
#[derive(Debug)]
pub struct ColumnInfo {
    pub id: String,
    pub title: String,
}

/// A tracker user.
#[derive(Debug)]
pub struct UserInfo {
    pub id: String,
    pub email: String,
    pub name: String,
}

} // verus!
