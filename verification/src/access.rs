//! Who may call an endpoint.

use crate::error::{AppError, AppErrorView, ExpectedError, UNAUTHORIZED};
use crate::model;
use vstd::prelude::*;
use vstd::string::*;

verus! {

/// Who makes a request, as far as its token shows.
#[derive(Debug)]
pub enum Caller {
    /// There is no token, or it is not valid.
    Unknown,
    /// The token is that of a machine.
    Machine,
    /// The token is that of a human with these roles.
    Human { roles: Vec<String> },
}

/// Whether a caller is a human with the role.
pub open spec fn has_role(caller: Caller, role: Seq<char>) -> bool {
    match caller {
        Caller::Human { roles } => model::texts(roles@).contains(role),
        _ => false,
    }
}

/// A role is held by a human one of whose roles it is, and by no one else.
pub proof fn law_a_role_is_one_of_the_roles(caller: Caller, role: Seq<char>)
    ensures
        has_role(caller, role) <==> match caller {
            Caller::Human { roles } => exists|i: int|
                0 <= i < roles@.len() && (#[trigger] roles@[i])@ == role,
            _ => false,
        },
{
    if let Caller::Human { roles } = caller {
        if has_role(caller, role) {
            let i = choose|i: int|
                0 <= i < model::texts(roles@).len() && model::texts(roles@)[i] == role;
            assert(roles@[i]@ == role);
        }
        if exists|i: int| 0 <= i < roles@.len() && (#[trigger] roles@[i])@ == role {
            let i = choose|i: int| 0 <= i < roles@.len() && (#[trigger] roles@[i])@ == role;
            assert(model::texts(roles@)[i] == role);
        }
    }
}

/// The answer to a caller without the role.
pub open spec fn unauthorized(role: Seq<char>) -> AppErrorView {
    AppErrorView::Expected {
        status_code: UNAUTHORIZED,
        message: "Unauthorized"@,
        reason: "The role '"@ + role + "' is required"@,
        metadata: None,
    }
}

impl Caller {
    /// Whether this is a human with the role.
    pub fn has_role(&self, role: &str) -> (holds: bool)
        ensures
            holds == has_role(*self, role@),
    {
        match self {
            Caller::Human { roles } => {
                let wanted = role.to_owned();
                let mut i: usize = 0;
                while i < roles.len()
                    invariant
                        i <= roles@.len(),
                        *self == (Caller::Human { roles: *roles }),
                        wanted@ == role@,
                        forall|k: int| 0 <= k < i ==> (#[trigger] roles@[k])@ != role@,
                    decreases roles@.len() - i,
                {
                    if roles[i] == wanted {
                        assert(model::texts(roles@)[i as int] == role@);
                        return true;
                    }
                    i = i + 1;
                }
                false
            },
            _ => false,
        }
    }

    /// Lets a human with the role pass, and no one else.
    pub fn require_role(&self, role: &str) -> (passed: Result<(), AppError>)
        ensures
            passed is Ok <==> has_role(*self, role@),
            passed matches Err(error) ==> error@ == unauthorized(role@),
    {
        if self.has_role(role) {
            Ok(())
        } else {
            Err(
                AppError::Expected(
                    ExpectedError {
                        status_code: UNAUTHORIZED,
                        message: "Unauthorized".to_owned(),
                        reason: "The role '".to_owned().concat(role).concat("' is required"),
                        metadata: None,
                    },
                ),
            )
        }
    }
}

} // verus!
