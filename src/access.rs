use vstd::prelude::*;

use crate::error::{Error, STATUS_BAD_REQUEST, STATUS_FORBIDDEN, STATUS_UNAUTHORIZED};
use crate::session::Claims;

verus! {

/// An action on creator accounts; each needs the publisher role.
#[derive(Debug, Clone, Copy, PartialEq, Eq, Structural)]
pub enum AccountAction {
    Create,
    Promote,
    Demote,
    Lock,
    ChangePassword,
}

/// Why an account action by an actor on a target account is refused, if it
/// is: the status and the message.
pub open spec fn account_action_refusal(claims: Claims, action: AccountAction, target: Seq<char>) -> Option<
    (u16, Seq<char>),
> {
    if !claims.admin {
        Some((STATUS_FORBIDDEN, "Sorry, the action you are performing requires admin access!"@))
    } else if action == AccountAction::Demote && claims.sub@ == target {
        Some((STATUS_BAD_REQUEST, "Sorry, you can't revoke your own admin access!"@))
    } else if action == AccountAction::Lock && claims.sub@ == target {
        Some((STATUS_BAD_REQUEST, "Sorry, you can't lock your own account!"@))
    } else {
        None
    }
}

/// Decides whether the actor may perform an action on the account named
/// `target`: only a publisher may, and no publisher may demote or lock
/// their own account.
pub fn authorize_account_action(claims: &Claims, action: AccountAction, target: &str) -> (r: Result<
    (),
    Error,
>)
    ensures
        account_action_refusal(*claims, action, target@) is None ==> r is Ok,
        account_action_refusal(*claims, action, target@) matches Some((status, msg)) ==> (r matches Err(
            e,
        ) && e.status == status && e.err_string@ == msg),
{
    if !claims.admin {
        return Err(
            Error::create(
                "Account management",
                "Sorry, the action you are performing requires admin access!",
                STATUS_FORBIDDEN,
            ),
        );
    }
    let own = claims.sub == target.to_string();
    if own && action == AccountAction::Demote {
        return Err(
            Error::create(
                "Account management",
                "Sorry, you can't revoke your own admin access!",
                STATUS_BAD_REQUEST,
            ),
        );
    }
    if own && action == AccountAction::Lock {
        return Err(
            Error::create(
                "Account management",
                "Sorry, you can't lock your own account!",
                STATUS_BAD_REQUEST,
            ),
        );
    }
    Ok(())
}

/// Decides whether the actor may open a view or change a setting that only
/// publishers have: the site settings, the account manager, pages, images.
pub fn authorize_publisher(claims: &Claims) -> (r: Result<(), Error>)
    ensures
        claims.admin ==> r is Ok,
        !claims.admin ==> (r matches Err(e) && e.status == STATUS_UNAUTHORIZED && e.err_string@
            == "You need to be an admin to access this view!"@),
{
    if !claims.admin {
        return Err(
            Error::create(
                "Access",
                "You need to be an admin to access this view!",
                STATUS_UNAUTHORIZED,
            ),
        );
    }
    Ok(())
}

} // verus!
