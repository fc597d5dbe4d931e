//! Teams that own applications.

use crate::decode::{
    DecodeError, expect_object, FromJson, object_fault, opt, optional, req, required,
};
use crate::json::{Json, JsonView, member};
use crate::snowflake::Snowflake;
use crate::user::{User, UserView};
use vstd::prelude::*;

verus! {

/// A group of users that owns applications together.
#[derive(Debug, Clone, PartialEq, Eq)]
pub struct Team {
    pub icon: Option<String>,
    pub id: Snowflake,
    pub members: Vec<TeamMember>,
    pub name: String,
    pub owner_user_id: Snowflake,
}

/// The model of [`Team`].
pub struct TeamView {
    pub icon: Option<Seq<char>>,
    pub id: u64,
    pub members: Seq<TeamMemberView>,
    pub name: Seq<char>,
    pub owner_user_id: u64,
}

impl DeepView for Team {
    type V = TeamView;

    open spec fn deep_view(&self) -> TeamView {
        TeamView {
            icon: self.icon.deep_view(),
            id: self.id.deep_view(),
            members: self.members.deep_view(),
            name: self.name.deep_view(),
            owner_user_id: self.owner_user_id.deep_view(),
        }
    }
}

impl FromJson for Team {
    open spec fn decoding(j: JsonView) -> Result<TeamView, DecodeError> {
        let icon = optional::<String>(j, "icon");
        let id = required::<Snowflake>(j, "id");
        let members = required::<Vec<TeamMember>>(j, "members");
        let name = required::<String>(j, "name");
        let owner_user_id = required::<Snowflake>(j, "owner_user_id");
        if object_fault(j) is Some {
            Err(object_fault(j)->0)
        } else if icon is Err {
            Err(icon->Err_0)
        } else if id is Err {
            Err(id->Err_0)
        } else if members is Err {
            Err(members->Err_0)
        } else if name is Err {
            Err(name->Err_0)
        } else if owner_user_id is Err {
            Err(owner_user_id->Err_0)
        } else {
            Ok(
                TeamView {
                    icon: icon->Ok_0,
                    id: id->Ok_0,
                    members: members->Ok_0,
                    name: name->Ok_0,
                    owner_user_id: owner_user_id->Ok_0,
                },
            )
        }
    }

    fn from_json(j: &Json) -> (r: Result<Team, DecodeError>) {
        expect_object(j)?;
        let icon = opt::<String>(j, "icon")?;
        let id = req::<Snowflake>(j, "id")?;
        let members = req::<Vec<TeamMember>>(j, "members")?;
        let name = req::<String>(j, "name")?;
        let owner_user_id = req::<Snowflake>(j, "owner_user_id")?;
        Ok(
            Team {
                icon,
                id,
                members,
                name,
                owner_user_id,
            },
        )
    }
}

/// A user as a member of a team.
#[derive(Debug, Clone, PartialEq, Eq)]
pub struct TeamMember {
    pub membership_state: u64,
    pub permissions: Vec<String>,
    pub team_id: Snowflake,
    pub user: User,
}

/// The model of [`TeamMember`].
pub struct TeamMemberView {
    pub membership_state: u64,
    pub permissions: Seq<Seq<char>>,
    pub team_id: u64,
    pub user: UserView,
}

impl DeepView for TeamMember {
    type V = TeamMemberView;

    open spec fn deep_view(&self) -> TeamMemberView {
        TeamMemberView {
            membership_state: self.membership_state.deep_view(),
            permissions: self.permissions.deep_view(),
            team_id: self.team_id.deep_view(),
            user: self.user.deep_view(),
        }
    }
}

impl FromJson for TeamMember {
    open spec fn decoding(j: JsonView) -> Result<TeamMemberView, DecodeError> {
        let membership_state = required::<u64>(j, "membership_state");
        let permissions = required::<Vec<String>>(j, "permissions");
        let team_id = required::<Snowflake>(j, "team_id");
        let user = required::<User>(j, "user");
        if object_fault(j) is Some {
            Err(object_fault(j)->0)
        } else if membership_state is Err {
            Err(membership_state->Err_0)
        } else if permissions is Err {
            Err(permissions->Err_0)
        } else if team_id is Err {
            Err(team_id->Err_0)
        } else if user is Err {
            Err(user->Err_0)
        } else {
            Ok(
                TeamMemberView {
                    membership_state: membership_state->Ok_0,
                    permissions: permissions->Ok_0,
                    team_id: team_id->Ok_0,
                    user: user->Ok_0,
                },
            )
        }
    }

    fn from_json(j: &Json) -> (r: Result<TeamMember, DecodeError>) {
        expect_object(j)?;
        let membership_state = req::<u64>(j, "membership_state")?;
        let permissions = req::<Vec<String>>(j, "permissions")?;
        let team_id = req::<Snowflake>(j, "team_id")?;
        let user = req::<User>(j, "user")?;
        Ok(TeamMember { membership_state, permissions, team_id, user })
    }
}

} // verus!
