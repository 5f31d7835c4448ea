//! Common permission checks: [`is_in_dms`] and [`is_in_server`].

use vstd::prelude::*;

use crate::commands::permissions::PermissionContext;

verus! {

/// The command can only be run in direct messages.
#[derive(Debug, PartialEq, Eq)]
pub struct NotInDms;

/// The command can only be run in a server.
#[derive(Debug, PartialEq, Eq)]
pub struct NotInServer;

/// Lets the command run only in direct messages (outside any server).
pub fn is_in_dms(ctx: &PermissionContext) -> (r: Result<(), NotInDms>)
    requires
        !(ctx.event is Other),
    ensures
        r is Ok <==> ctx.spec_server_id() is None,
{
    if ctx.server_id().is_none() {
        Ok(())
    } else {
        Err(NotInDms)
    }
}

/// Lets the command run only in a server.
pub fn is_in_server(ctx: &PermissionContext) -> (r: Result<(), NotInServer>)
    requires
        !(ctx.event is Other),
    ensures
        r is Ok <==> ctx.spec_server_id() is Some,
{
    if ctx.server_id().is_some() {
        Ok(())
    } else {
        Err(NotInServer)
    }
}

} // verus!
