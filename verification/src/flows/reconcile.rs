//! Letting a running ready check follow its lobby.
use vstd::prelude::*;
use std::collections::BTreeMap;
use crate::flows::reaction::READY_EMOJI;
use crate::ids::to_u64;
use crate::kinds::LobbyScope;
use crate::message::DiscordEmoji;
use crate::protocol::Action;
use crate::protocol::Event;
use crate::protocol::Next;
use crate::protocol::Turn;
use crate::readycheck::ReadycheckBoard;
use crate::readycheck::ReadycheckGeneration;
use crate::readycheck::ReadycheckPlayerData;
use crate::roster::self_confirmed;
use crate::roster::withdrawn_reactions;
use crate::sets::key_set;
use crate::sets::valid_ids;
use crate::text::tag_i64;

verus! {

/// Where the reconciliation stands.
#[derive(Debug, PartialEq, Eq)]
pub enum ReconcileAt {
    /// The running check is being read.
    Reading,
    /// The lobby is being read.
    ReadingLobby { previous: ReadycheckGeneration },
    /// The players are being looked at.
    Classifying { previous: ReadycheckGeneration },
    /// The check is given its new roster; these players are then confirmed.
    Updating { confirmed: Vec<i64>, message_id: i64 },
    /// The check is being read again, to be repainted.
    Repainting,
    /// Nothing is left to be done.
    Over,
}

/// A reconciliation in progress.
#[derive(Debug, PartialEq, Eq)]
pub struct ReconcileFlow {
    pub scope: LobbyScope,
    pub at: ReconcileAt,
}

/// The beginning: the lobby is taken over and the running check is read.
pub open spec fn reconcile_starts(scope: LobbyScope, flow: ReconcileFlow, turn: Turn<()>) -> bool {
    &&& flow == (ReconcileFlow { scope, at: ReconcileAt::Reading })
    &&& turn.before@.len() == 1
    &&& turn.before@[0] == (Action::SyncReadyLobby { scope })
    &&& turn.next == Next::<()>::Ask(Action::ReadCheck { scope })
}

/// The users whose reaction is taken off the check, as far as Discord can know them.
pub open spec fn unmarked_users(
    previous: ReadycheckGeneration,
    players: Map<i64, ReadycheckPlayerData>,
) -> Seq<u64> {
    if previous.channel_id < 0 || previous.message_id < 0 {
        Seq::empty()
    } else {
        crate::sets::snowflakes(crate::roster::stale_reactions(previous, players))
    }
}

/// The action takes the ready reaction of a user off a check.
pub open spec fn unmarks(action: Action, previous: ReadycheckGeneration, user: u64) -> bool {
    action matches Action::Unreact { channel_id, message_id, emoji, user_id } && channel_id
        == previous.channel_id && message_id == previous.message_id && user_id == user
        && crate::message::is_unicode(emoji, READY_EMOJI@)
}

/// The actions take the ready reactions of these users off a check, in order.
pub open spec fn unmarks_all(
    actions: Seq<Action>,
    previous: ReadycheckGeneration,
    users: Seq<u64>,
) -> bool {
    &&& actions.len() == users.len()
    &&& forall|i: int| 0 <= i < users.len() ==> unmarks(#[trigger] actions[i], previous, users[i])
}

/// The players were looked at: reactions that no longer stand are taken off, and the check is
/// given its new roster.
pub open spec fn roster_known(
    scope: LobbyScope,
    previous: ReadycheckGeneration,
    players: BTreeMap<i64, ReadycheckPlayerData>,
    post: ReconcileAt,
    turn: Turn<()>,
) -> bool {
    &&& post matches ReconcileAt::Updating { confirmed, message_id } && confirmed@
        == crate::roster::auto_confirmed(players@, previous.declined@) && message_id
        == previous.message_id
    &&& unmarks_all(turn.before@, previous, unmarked_users(previous, players@))
    &&& turn.next matches Next::Ask(Action::UpdateCheck { scope: s, lobby_ids, players: p, message_id })
        && s == scope && lobby_ids@ == players@.dom() && p == players && message_id
        == previous.message_id
}

/// The actions confirm these players, in order.
pub open spec fn confirms_all(
    actions: Seq<Action>,
    scope: LobbyScope,
    players: Seq<i64>,
    message_id: i64,
) -> bool {
    &&& actions.len() == players.len()
    &&& forall|i: int|
        0 <= i < players.len() ==> crate::flows::reaction::confirms(
            #[trigger] actions[i],
            scope,
            players[i],
            message_id,
        )
}

/// The check was read again: it is repainted where its message can be found, and completion is
/// announced where it is due.
pub open spec fn repaint_known(
    scope: LobbyScope,
    generation: ReadycheckGeneration,
    post: ReconcileAt,
    turn: Turn<()>,
) -> bool {
    let notify = Action::NotifyCompletion { scope, message_id: generation.message_id };
    &&& post is Over
    &&& turn.next == Next::End(())
    &&& if generation.channel_id >= 0 && generation.message_id >= 0 {
        &&& turn.before@.len() == 2
        &&& crate::flows::reaction::repaints(
            turn.before@[0],
            generation.channel_id as u64,
            generation.message_id as u64,
            scope,
            generation,
        )
        &&& turn.before@[1] == notify
    } else {
        turn.before@.len() == 1 && turn.before@[0] == notify
    }
}

/// One step of a reconciliation.
pub open spec fn reconcile_step(
    pre: ReconcileFlow,
    event: Event,
    post: ReconcileFlow,
    turn: Turn<()>,
) -> bool {
    &&& post.scope == pre.scope
    &&& match (pre.at, event) {
        (ReconcileAt::Reading, Event::Check(check)) => match check {
            None => post.at is Over && turn.only_ends(()),
            Some(previous) => {
                &&& post.at == (ReconcileAt::ReadingLobby { previous })
                &&& turn.only_asks(Action::ReadLobby { scope: pre.scope })
            },
        },
        (ReconcileAt::ReadingLobby { previous }, Event::Lobby(lobby)) => match lobby {
            None => post.at is Over && turn.only_ends(()),
            Some(lobby) => {
                &&& post.at == (ReconcileAt::Classifying { previous })
                &&& turn.only_asks(Action::Classify { lobby })
            },
        },
        (
            ReconcileAt::Classifying { previous },
            Event::Classified { players, mentionable },
        ) => roster_known(pre.scope, previous, players, post.at, turn),
        (ReconcileAt::Updating { confirmed, message_id }, Event::Flag(updated)) => if updated {
            &&& post.at is Repainting
            &&& confirms_all(turn.before@, pre.scope, confirmed@, message_id)
            &&& turn.next == Next::<()>::Ask(Action::ReadCheck { scope: pre.scope })
        } else {
            post.at is Over && turn.only_ends(())
        },
        (ReconcileAt::Repainting, Event::Check(check)) => match check {
            None => post.at is Over && turn.only_ends(()),
            Some(generation) => repaint_known(pre.scope, generation, post.at, turn),
        },
        _ => post.at == pre.at && turn.waits(),
    }
}

fn unmark_all(
    previous: &ReadycheckGeneration,
    players: &BTreeMap<i64, ReadycheckPlayerData>,
) -> (r: Vec<Action>)
    ensures
        unmarks_all(r@, *previous, unmarked_users(*previous, players@)),
{
    let mut actions: Vec<Action> = Vec::new();
    match (to_u64(previous.channel_id), to_u64(previous.message_id)) {
        (Ok(channel_id), Ok(message_id)) => {
            let users = valid_ids(&withdrawn_reactions(previous, players));
            let mut i: usize = 0;
            while i < users.len()
                invariant
                    i <= users.len(),
                    actions@.len() == i,
                    channel_id == previous.channel_id,
                    message_id == previous.message_id,
                    forall|k: int|
                        0 <= k < i ==> unmarks(#[trigger] actions@[k], *previous, users@[k]),
                decreases users.len() - i,
            {
                actions.push(
                    Action::Unreact {
                        channel_id,
                        message_id,
                        emoji: DiscordEmoji::unicode(READY_EMOJI),
                        user_id: users[i],
                    },
                );
                i = i + 1;
            }
        },
        _ => {},
    }
    actions
}

fn confirm_all(scope: LobbyScope, players: &Vec<i64>, message_id: i64) -> (r: Vec<Action>)
    ensures
        confirms_all(r@, scope, players@, message_id),
{
    let mut actions: Vec<Action> = Vec::new();
    let mut i: usize = 0;
    while i < players.len()
        invariant
            i <= players.len(),
            actions@.len() == i,
            forall|k: int|
                0 <= k < i ==> crate::flows::reaction::confirms(
                    #[trigger] actions@[k],
                    scope,
                    players@[k],
                    message_id,
                ),
        decreases players.len() - i,
    {
        let player_id: i64 = players[i];
        actions.push(Action::Confirm { scope, player_id, mark: tag_i64(player_id), message_id });
        i = i + 1;
    }
    actions
}

fn on_roster(
    scope: LobbyScope,
    previous: ReadycheckGeneration,
    players: BTreeMap<i64, ReadycheckPlayerData>,
) -> (r: (ReconcileAt, Turn<()>))
    ensures
        roster_known(scope, previous, players, r.0, r.1),
{
    let confirmed = self_confirmed(&players, &previous.declined);
    let before = unmark_all(&previous, &players);
    let lobby_ids = key_set(&players);
    (
        ReconcileAt::Updating { confirmed, message_id: previous.message_id },
        Turn::ask_after(
            before,
            Action::UpdateCheck { scope, lobby_ids, players, message_id: previous.message_id },
        ),
    )
}

fn on_repaint(scope: LobbyScope, generation: ReadycheckGeneration) -> (r: (ReconcileAt, Turn<()>))
    ensures
        repaint_known(scope, generation, r.0, r.1),
{
    let notify = Action::NotifyCompletion { scope, message_id: generation.message_id };
    let before = match (to_u64(generation.channel_id), to_u64(generation.message_id)) {
        (Ok(channel_id), Ok(message_id)) => {
            let board = ReadycheckBoard {
                kind: scope.kind,
                players: generation.player_data,
                reacted: generation.reacted,
            };
            vec![Action::PaintCheck { channel_id, message_id, board }, notify]
        },
        _ => vec![notify],
    };
    (ReconcileAt::Over, Turn::end_after(before, ()))
}

impl ReconcileFlow {
    /// Begins a reconciliation.
    pub fn start(scope: LobbyScope) -> (r: (ReconcileFlow, Turn<()>))
        ensures
            reconcile_starts(scope, r.0, r.1),
            r.1.goes_on(|action: Action| r.0.awaits(action)),
    {
        (
            ReconcileFlow { scope, at: ReconcileAt::Reading },
            Turn::ask_after(
                vec![Action::SyncReadyLobby { scope }],
                Action::ReadCheck { scope },
            ),
        )
    }

    /// Goes on with what came of the last question.
    pub fn resume(self, event: Event) -> (r: (ReconcileFlow, Turn<()>))
        ensures
            reconcile_step(self, event, r.0, r.1),
    {
        let ReconcileFlow { scope, at } = self;
        let (at, turn) = match (at, event) {
            (ReconcileAt::Reading, Event::Check(check)) => match check {
                None => (ReconcileAt::Over, Turn::end(())),
                Some(previous) => (
                    ReconcileAt::ReadingLobby { previous },
                    Turn::ask(Action::ReadLobby { scope }),
                ),
            },
            (ReconcileAt::ReadingLobby { previous }, Event::Lobby(lobby)) => match lobby {
                None => (ReconcileAt::Over, Turn::end(())),
                Some(lobby) => (
                    ReconcileAt::Classifying { previous },
                    Turn::ask(Action::Classify { lobby }),
                ),
            },
            (
                ReconcileAt::Classifying { previous },
                Event::Classified { players, mentionable },
            ) => on_roster(scope, previous, players),
            (ReconcileAt::Updating { confirmed, message_id }, Event::Flag(updated)) => if updated {
                (
                    ReconcileAt::Repainting,
                    Turn::ask_after(
                        confirm_all(scope, &confirmed, message_id),
                        Action::ReadCheck { scope },
                    ),
                )
            } else {
                (ReconcileAt::Over, Turn::end(()))
            },
            (ReconcileAt::Repainting, Event::Check(check)) => match check {
                None => (ReconcileAt::Over, Turn::end(())),
                Some(generation) => on_repaint(scope, generation),
            },
            (at, _) => (at, Turn::wait()),
        };
        (ReconcileFlow { scope, at }, turn)
    }
}

/// Letting a check follow its lobby leaves every lobby as it is.
pub proof fn reconciliation_leaves_lobbies_alone(
    pre: ReconcileFlow,
    event: Event,
    post: ReconcileFlow,
    turn: Turn<()>,
)
    requires
        reconcile_step(pre, event, post, turn),
    ensures
        crate::locking::leaves_lobbies_alone(turn),
{
}

/// No player loses a ready reaction to a reconciliation who is still in the lobby and had
/// confirmed, or who is confirmed without one; a player who confirmed and left loses theirs,
/// if the check and the player have Discord ids.
pub proof fn reconciliation_is_fair(
    previous: ReadycheckGeneration,
    players: Map<i64, ReadycheckPlayerData>,
    user: u64,
)
    requires
        players.dom().finite(),
        previous.reacted@.dom().finite(),
        user <= i64::MAX,
    ensures
        players.dom().contains(user as i64) && previous.reacted@.dom().contains(user as i64)
            ==> !unmarked_users(previous, players).contains(user),
        crate::roster::auto_confirmed(players, previous.declined@).contains(user as i64)
            ==> !unmarked_users(previous, players).contains(user),
        !players.dom().contains(user as i64) && previous.reacted@.dom().contains(user as i64)
            && previous.channel_id >= 0 && previous.message_id >= 0 ==> unmarked_users(
            previous,
            players,
        ).contains(user),
{
    crate::roster::following_the_roster_is_fair(previous, players, user as i64);
    crate::sets::snowflakes_are_the_valid_ids(crate::roster::stale_reactions(previous, players));
    let all = crate::sets::snowflakes(crate::roster::stale_reactions(previous, players));
    assert(all.contains(user) <==> crate::roster::stale_reactions(previous, players).contains(
        user as i64,
    ));
}

impl ReconcileFlow {
    /// What is waited for: the answer to this question.
    pub open spec fn awaits(self, action: Action) -> bool {
        match self.at {
            ReconcileAt::Reading => action is ReadCheck,
            ReconcileAt::ReadingLobby { .. } => action is ReadLobby,
            ReconcileAt::Classifying { .. } => action is Classify,
            ReconcileAt::Updating { .. } => action is UpdateCheck,
            ReconcileAt::Repainting => action is ReadCheck,
            ReconcileAt::Over => false,
        }
    }
}

/// Following the roster is never left waiting by the answer to what it asked for: it goes on to its
/// end or to its next question, and waits for the answer to that.
pub proof fn reconciliations_go_on_when_answered(
    pre: ReconcileFlow,
    asked: Action,
    event: Event,
    post: ReconcileFlow,
    turn: Turn<()>,
)
    requires
        reconcile_step(pre, event, post, turn),
        pre.awaits(asked),
        asked.answered_by(event),
    ensures
        turn.goes_on(|action: Action| post.awaits(action)),
{
}

/// Reconciling lets the ready checks take over the lobby and then goes by what is read of that lobby:
/// by its running check, and by its players as they look now.
pub proof fn reconciliations_follow_their_lobby(
    scope: LobbyScope,
    start: ReconcileFlow,
    first: Turn<()>,
    pre: ReconcileFlow,
    event: Event,
    post: ReconcileFlow,
    turn: Turn<()>,
    action: Action,
)
    requires
        reconcile_starts(scope, start, first),
        pre.scope == scope,
        reconcile_step(pre, event, post, turn),
    ensures
        start.scope == scope && post.scope == scope,
        first.does(Action::SyncReadyLobby { scope }),
        first.next == Next::<()>::Ask(Action::ReadCheck { scope }),
        turn.does(action) ==> (action.lobby() matches Some(named) ==> named == scope),
        pre.at is Reading ==> (event matches Event::Check(Some(previous)) ==> turn.next == Next::<
            (),
        >::Ask(Action::ReadLobby { scope }) && post.at == (ReconcileAt::ReadingLobby { previous })),
        pre.at matches ReconcileAt::ReadingLobby { previous } ==> (event matches Event::Lobby(
            Some(lobby),
        ) ==> turn.next == Next::<()>::Ask(Action::Classify { lobby }) && post.at == (
        ReconcileAt::Classifying { previous })),
{
    assert(first.before@.contains(first.before@[0]));
    if let (ReconcileAt::Updating { confirmed, message_id }, Event::Flag(true)) = (pre.at, event) {
        if turn.before@.contains(action) {
            let k = choose|k: int| 0 <= k < turn.before@.len() && turn.before@[k] == action;
            assert(crate::flows::reaction::confirms(
                turn.before@[k],
                scope,
                confirmed@[k],
                message_id,
            ));
        }
    }
    if let (ReconcileAt::Classifying { previous }, Event::Classified { players, .. }) = (
        pre.at,
        event,
    ) {
        if turn.before@.contains(action) {
            let k = choose|k: int| 0 <= k < turn.before@.len() && turn.before@[k] == action;
            let users = unmarked_users(previous, players@);
            assert(unmarks(turn.before@[k], previous, users[k]));
        }
    }
}

/// The running check gets exactly the players of the lobby as its new roster, on its own message.
/// Those who joined recently and did not withdraw are to be confirmed.
pub proof fn rosters_are_those_of_the_lobby(
    pre: ReconcileFlow,
    previous: ReadycheckGeneration,
    players: BTreeMap<i64, ReadycheckPlayerData>,
    mentionable: std::collections::BTreeSet<i64>,
    post: ReconcileFlow,
    turn: Turn<()>,
    id: i64,
)
    requires
        pre.at == (ReconcileAt::Classifying { previous }),
        reconcile_step(pre, Event::Classified { players, mentionable }, post, turn),
        players@.dom().finite(),
    ensures
        turn.next matches Next::Ask(
            Action::UpdateCheck { scope, lobby_ids, players: given, message_id },
        ) && scope == pre.scope && given == players && message_id == previous.message_id && (
        lobby_ids@.contains(id) <==> players@.dom().contains(id)),
        post.at matches ReconcileAt::Updating { confirmed, message_id } && message_id
            == previous.message_id && (confirmed@.contains(id) <==> players@.dom().contains(id)
            && players@[id].group is Recent && !previous.declined@.contains(id)),
{
    crate::roster::recent_players_confirm_themselves(players@, previous.declined@, id);
}

/// The reactions that are taken off the message of a check are those that no longer stand: of players
/// who confirmed and left, and of players who came after the check began, never confirmed, and do
/// not confirm without a reaction. Nobody else loses theirs.
pub proof fn stale_marks_are_taken_off(
    pre: ReconcileFlow,
    previous: ReadycheckGeneration,
    players: BTreeMap<i64, ReadycheckPlayerData>,
    mentionable: std::collections::BTreeSet<i64>,
    post: ReconcileFlow,
    turn: Turn<()>,
    id: i64,
)
    requires
        pre.at == (ReconcileAt::Classifying { previous }),
        reconcile_step(pre, Event::Classified { players, mentionable }, post, turn),
        players@.dom().finite(),
        previous.reacted@.dom().finite(),
        previous.channel_id >= 0,
        previous.message_id >= 0,
        id >= 0,
    ensures
        (exists|i: int|
            {
                &&& 0 <= i < turn.before@.len()
                &&& #[trigger] turn.before@[i] matches Action::Unreact {
                    channel_id,
                    message_id,
                    emoji,
                    user_id,
                } && channel_id == previous.channel_id && message_id == previous.message_id
                    && emoji.name@ == "✅"@ && emoji.id is None && user_id == id
            }) <==> {
            ||| previous.reacted@.dom().contains(id) && !players@.dom().contains(id)
            ||| players@.dom().contains(id) && !previous.reacted@.dom().contains(id)
                && !previous.lobby_ids@.contains(id) && !(players@[id].group is Recent
                && !previous.declined@.contains(id))
        },
{
    crate::roster::reactions_go_stale_with_the_roster(previous, players@, id);
    let stale = crate::roster::stale_reactions(previous, players@);
    let users = unmarked_users(previous, players@);
    crate::sets::snowflakes_are_the_valid_ids(stale);
    assert(users.contains(id as u64) <==> stale.contains(id));
    if users.contains(id as u64) {
        let k = choose|k: int| 0 <= k < users.len() && users[k] == id as u64;
        assert(unmarks(turn.before@[k], previous, users[k]));
    }
    assert forall|i: int|
        0 <= i < turn.before@.len() && (#[trigger] turn.before@[i] matches Action::Unreact {
            user_id,
            ..
        } && user_id == id) implies users.contains(id as u64) by {
        assert(unmarks(turn.before@[i], previous, users[i]));
    }
}

/// Once the check has its new roster, each player who is to be confirmed is, by their tag and on the
/// message of the check; and what is then read of the check is painted on that check's own message,
/// with its players and with everybody who confirmed. Completion is looked at after that.
pub proof fn reconciled_checks_are_repainted(
    pre: ReconcileFlow,
    event: Event,
    post: ReconcileFlow,
    turn: Turn<()>,
    i: int,
)
    requires
        reconcile_step(pre, event, post, turn),
    ensures
        pre.at matches ReconcileAt::Updating { confirmed, message_id } ==> (event == Event::Flag(true)
            ==> {
            &&& turn.before@.len() == confirmed@.len()
            &&& 0 <= i < confirmed@.len() ==> (turn.before@[i] matches Action::Confirm {
                scope,
                player_id,
                mark,
                message_id: on,
            } && scope == pre.scope && player_id == confirmed@[i] && on == message_id && mark@
                == crate::text::tag(confirmed@[i] as int))
            &&& turn.next == Next::<()>::Ask(Action::ReadCheck { scope: pre.scope })
        }),
        pre.at is Repainting ==> (event matches Event::Check(Some(generation)) ==> {
            &&& generation.channel_id >= 0 && generation.message_id >= 0 ==> turn.does(
                Action::PaintCheck {
                    channel_id: generation.channel_id as u64,
                    message_id: generation.message_id as u64,
                    board: crate::readycheck::ReadycheckBoard {
                        kind: pre.scope.kind,
                        players: generation.player_data,
                        reacted: generation.reacted,
                    },
                },
            )
            &&& turn.does(
                Action::NotifyCompletion { scope: pre.scope, message_id: generation.message_id },
            )
        }),
{
    if let (ReconcileAt::Updating { confirmed, message_id }, Event::Flag(true)) = (pre.at, event) {
        if 0 <= i < confirmed@.len() {
            assert(crate::flows::reaction::confirms(
                turn.before@[i],
                pre.scope,
                confirmed@[i],
                message_id,
            ));
        }
    }
    if let (ReconcileAt::Repainting, Event::Check(Some(generation))) = (pre.at, event) {
        assert(turn.before@.contains(turn.before@[0]));
        assert(turn.before@.contains(turn.before@[turn.before@.len() - 1]));
    }
}

} // verus!
