use vstd::prelude::*;

use crate::model::UserId;

verus! {

/// The mathematical value of a change command.
#[verifier::ext_equal]
pub ghost struct ChangeUserCommandView {
    pub initiator_id: UserId,
    pub user_id: UserId,
    pub email: Option<Seq<char>>,
    pub state: Option<Seq<char>>,
    pub status: Option<Seq<char>>,
    pub password: Option<Seq<char>>,
}

/// One requested edit of a user: each present field is one requested
/// mutation, an absent field is untouched.  Ephemeral, never persisted.
#[derive(Debug, Clone)]
pub struct ChangeUserCommand {
    pub initiator_id: UserId,
    pub user_id: UserId,
    pub email: Option<String>,
    pub state: Option<String>,
    pub status: Option<String>,
    pub password: Option<String>,
}

impl View for ChangeUserCommand {
    type V = ChangeUserCommandView;

    open spec fn view(&self) -> ChangeUserCommandView {
        ChangeUserCommandView {
            initiator_id: self.initiator_id,
            user_id: self.user_id,
            email: match self.email {
                Some(s) => Some(s@),
                None => None,
            },
            state: match self.state {
                Some(s) => Some(s@),
                None => None,
            },
            status: match self.status {
                Some(s) => Some(s@),
                None => None,
            },
            password: match self.password {
                Some(s) => Some(s@),
                None => None,
            },
        }
    }
}

} // verus!
