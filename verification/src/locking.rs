//! Which actions may overlap: lobbies are only changed by the operation that holds their scope.
use vstd::prelude::*;
use crate::kinds::LobbyScope;
use crate::protocol::Action;
use crate::protocol::Next;
use crate::protocol::Turn;

verus! {

/// An operation that holds this scope, if any, may do this. It takes a scope only while it
/// holds none, gives free only what it holds, changes a lobby only while it holds its scope,
/// and starts a ready check, which takes a scope itself, only while it holds none.
pub open spec fn permits(held: Option<LobbyScope>, action: Action) -> bool {
    match action {
        Action::Lock { scope } => held is None,
        Action::Unlock { scope } => held == Some(scope),
        Action::CreateLobby { creator, scope } => held == Some(scope),
        Action::Join { player_id, scope } => held == Some(scope),
        Action::Leave { player_id, scope } => held == Some(scope),
        Action::RemovePlayers { players, scope } => held == Some(scope),
        Action::SaveMessageIds { scope, ids } => held == Some(scope),
        Action::Backdate { scope, now, seconds } => held == Some(scope),
        Action::JoinRegistered { scope, player_id, has_roles } => held == Some(scope),
        Action::RunReadycheck { .. } => held is None,
        _ => true,
    }
}

/// The scope that is held after an action.
pub open spec fn held_after(held: Option<LobbyScope>, action: Action) -> Option<LobbyScope> {
    match action {
        Action::Lock { scope } => Some(scope),
        Action::Unlock { scope } => None,
        _ => held,
    }
}

/// The actions may be done in this order.
pub open spec fn orderly(held: Option<LobbyScope>, actions: Seq<Action>) -> bool
    decreases actions.len(),
{
    actions.len() == 0 || (permits(held, actions[0]) && orderly(
        held_after(held, actions[0]),
        actions.drop_first(),
    ))
}

/// The scope that is held after the actions.
pub open spec fn held_at_end(held: Option<LobbyScope>, actions: Seq<Action>) -> Option<LobbyScope>
    decreases actions.len(),
{
    if actions.len() == 0 {
        held
    } else {
        held_at_end(held_after(held, actions[0]), actions.drop_first())
    }
}

/// A turn that begins while `pre` is held keeps to the order, and `post` is held after it;
/// nothing is held once the operation is over.
pub open spec fn keeps_order<R>(
    pre: Option<LobbyScope>,
    turn: Turn<R>,
    post: Option<LobbyScope>,
) -> bool {
    &&& orderly(pre, turn.before@)
    &&& held_at_end(pre, turn.before@) == post
    &&& turn.next matches Next::Ask(action) ==> permits(post, action) && !(action is Lock) && !(
    action is Unlock)
    &&& turn.next is End ==> post is None
}

/// The action takes or frees a scope, or changes who is in a lobby or where it is shown.
pub open spec fn touches_lobbies(action: Action) -> bool {
    match action {
        Action::Lock { .. } => true,
        Action::Unlock { .. } => true,
        Action::CreateLobby { .. } => true,
        Action::Join { .. } => true,
        Action::Leave { .. } => true,
        Action::RemovePlayers { .. } => true,
        Action::SaveMessageIds { .. } => true,
        Action::ClearLobby { .. } => true,
        Action::Backdate { .. } => true,
        Action::JoinRegistered { .. } => true,
        Action::RunReadycheck { .. } => true,
        Action::ResetLobby { .. } => true,
        _ => false,
    }
}

/// Nothing in the turn touches a lobby.
pub open spec fn leaves_lobbies_alone<R>(turn: Turn<R>) -> bool {
    &&& forall|i: int| 0 <= i < turn.before@.len() ==> !touches_lobbies(#[trigger] turn.before@[i])
    &&& turn.next matches Next::Ask(action) ==> !touches_lobbies(action)
}

} // verus!
