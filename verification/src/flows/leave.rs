//! `/leave`: takes the invoker out of every lobby they are in.
use vstd::prelude::*;
use crate::answers::Handled;
use crate::answers::SERVER_ONLY;
use crate::answers::answer;
use crate::answers::conclude;
use crate::answers::give_up;
use crate::commands::CommandContext;
use crate::kinds::LobbyKind;
use crate::kinds::LobbyScope;
use crate::kinds::first_kind;
use crate::protocol::Action;
use crate::protocol::Event;
use crate::protocol::Next;
use crate::protocol::Turn;
use crate::protocol::WorkFailure;
use crate::protocol::whisper_back;
use crate::text::text3;

verus! {

/// The answer to somebody who is in no lobby.
pub const NOT_IN_A_LOBBY: &'static str = "⚠️ You're not in a lobby.";

/// The answer to somebody who was in a lobby when they asked, and is no longer.
pub const NO_LONGER_IN: &'static str = "⚠️ You’re no longer in the lobby.";

/// What is left to do, and what was done.
#[derive(Debug, PartialEq, Eq)]
pub struct Departure {
    pub guild_id: i64,
    pub rest: Vec<LobbyKind>,
    pub left: Vec<LobbyKind>,
    pub pinned: Vec<LobbyKind>,
}

/// Where the command stands.
#[derive(Debug, PartialEq, Eq)]
pub enum LeaveAt {
    /// The command is being acknowledged.
    Deferring,
    /// The lobbies of the invoker are being looked up.
    Looking { guild_id: i64 },
    /// The invoker is being taken out of a lobby.
    Removing { kind: LobbyKind, departure: Departure },
    /// It is being found out whether a shuffle or draft holds the invoker.
    Holding { kind: LobbyKind, departure: Departure },
    /// The labels of the lobbies that hold the invoker are being put together; none was left.
    LabellingPinned,
    /// The labels of the lobbies that were left are being put together.
    LabellingLeft { pinned: Vec<LobbyKind> },
    /// The labels of the lobbies that hold the invoker are being put together as well.
    LabellingBoth { left: String },
    /// The last answer is being sent.
    Closing,
    /// Nothing is left to be done.
    Over,
}

/// The `/leave` command in progress.
#[derive(Debug, PartialEq, Eq)]
pub struct LeaveFlow {
    pub command: CommandContext,
    pub at: LeaveAt,
}

/// The invoker is taken out of the next lobby, under its scope; after the last one the outcome
/// is put into words. These actions come before.
pub open spec fn leave_goes_on(
    command: CommandContext,
    guild_id: i64,
    kinds: Seq<LobbyKind>,
    left: Seq<LobbyKind>,
    pinned: Seq<LobbyKind>,
    done: Seq<Action>,
    post: LeaveAt,
    turn: Turn<Handled>,
) -> bool {
    if kinds.len() > 0 {
        let scope = LobbyScope { guild_id, kind: kinds[0] };
        &&& post matches LeaveAt::Removing { kind, departure } && kind == kinds[0]
            && departure.guild_id == guild_id && departure.rest@ == kinds.drop_first()
            && departure.left@ == left && departure.pinned@ == pinned
        &&& turn.before@ == done.push(Action::Lock { scope })
        &&& turn.next == Next::<Handled>::Ask(Action::Leave { player_id: command.user_id, scope })
    } else {
        &&& turn.before@ == done
        &&& if left.len() == 0 && pinned.len() == 0 {
            &&& post is Closing
            &&& turn.next matches Next::Ask(action) && crate::protocol::whispers(
                action,
                NO_LONGER_IN@,
            )
        } else if left.len() == 0 {
            &&& post is LabellingPinned
            &&& turn.next matches Next::Ask(Action::JoinLabels { kinds: shown }) && shown@ == pinned
        } else {
            &&& post matches LeaveAt::LabellingLeft { pinned: p } && p@ == pinned
            &&& turn.next matches Next::Ask(Action::JoinLabels { kinds: shown }) && shown@ == left
        }
    }
}

/// The invoker was taken out of a lobby: that is made known. Where they could not be taken out,
/// it is found out whether a shuffle or draft holds them.
pub open spec fn leave_removed(
    command: CommandContext,
    kind: LobbyKind,
    departure: Departure,
    removed: Result<bool, WorkFailure>,
    post: LeaveAt,
    turn: Turn<Handled>,
) -> bool {
    let scope = LobbyScope { guild_id: departure.guild_id, kind };
    match removed {
        Err(failure) => post is Over && crate::answers::gives_up(
            turn,
            Some(scope),
            failure.report@,
        ),
        Ok(true) => {
            let publish = Action::PublishLeave {
                scope,
                player_id: command.user_id,
                display_name: command.user_display_name,
                raw_reaction: false,
            };
            leave_goes_on(
                command,
                departure.guild_id,
                departure.rest@,
                departure.left@.push(kind),
                departure.pinned@,
                seq![publish, Action::Unlock { scope }],
                post,
                turn,
            )
        },
        Ok(false) => {
            &&& post == (LeaveAt::Holding { kind, departure })
            &&& turn.before@.len() == 0
            &&& turn.next matches Next::Ask(Action::ReadHolders { guild_id, players }) && guild_id
                == departure.guild_id && players@ == seq![command.user_id]
        },
    }
}

/// A shuffle or draft of this lobby holds the player.
pub open spec fn holds_player(holders: Seq<Option<LobbyKind>>, kind: LobbyKind) -> bool {
    holders.len() > 0 && holders[0] == Some(kind)
}

/// The answer where something was left.
pub open spec fn left_text(left: Seq<char>, pinned: Option<Seq<char>>) -> Seq<char> {
    let text = "✅ Left "@ + left + "."@;
    match pinned {
        Some(pinned) => text + "\n⚠️ Still in "@ + pinned
            + " — its shuffle or draft is in progress."@,
        None => text,
    }
}

/// The beginning of `/leave`: it is acknowledged in private.
pub open spec fn leave_starts(command: CommandContext, post: LeaveFlow, turn: Turn<Handled>) -> bool {
    &&& post == (LeaveFlow { command, at: LeaveAt::Deferring })
    &&& turn.only_asks(Action::Defer { ephemeral: true })
}

/// One step of `/leave`.
pub open spec fn leave_step(
    pre: LeaveFlow,
    event: Event,
    post: LeaveFlow,
    turn: Turn<Handled>,
) -> bool {
    let command = pre.command;
    &&& post.command == command
    &&& match (pre.at, event) {
        (LeaveAt::Deferring, Event::Done(Err(error))) => post.at is Over
            && crate::answers::gives_up(turn, None, error@),
        (LeaveAt::Deferring, Event::Done(Ok(_))) => match command.place() {
            None => post.at is Closing && crate::answers::answers(turn, SERVER_ONLY@),
            Some((guild_id, channel_id)) => {
                &&& post.at == (LeaveAt::Looking { guild_id })
                &&& turn.only_asks(
                    Action::ReadMemberships { guild_id, player_id: command.user_id },
                )
            },
        },
        (LeaveAt::Looking { guild_id }, Event::Kinds(kinds)) => if kinds@.len() == 0 {
            post.at is Closing && crate::answers::answers(turn, NOT_IN_A_LOBBY@)
        } else {
            leave_goes_on(
                command,
                guild_id,
                kinds@,
                Seq::empty(),
                Seq::empty(),
                Seq::empty(),
                post.at,
                turn,
            )
        },
        (LeaveAt::Removing { kind, departure }, Event::Outcome(removed)) => leave_removed(
            command,
            kind,
            departure,
            removed,
            post.at,
            turn,
        ),
        (LeaveAt::Holding { kind, departure }, Event::Holders(holders)) => leave_goes_on(
            command,
            departure.guild_id,
            departure.rest@,
            departure.left@,
            if holds_player(holders@, kind) {
                departure.pinned@.push(kind)
            } else {
                departure.pinned@
            },
            seq![Action::Unlock { scope: LobbyScope { guild_id: departure.guild_id, kind } }],
            post.at,
            turn,
        ),
        (LeaveAt::LabellingPinned, Event::Text(labels)) => post.at is Closing
            && crate::answers::answers(
            turn,
            "❌ You can’t leave "@ + labels@ + " while its shuffle or draft is in progress."@,
        ),
        (LeaveAt::LabellingLeft { pinned }, Event::Text(labels)) => if pinned@.len() == 0 {
            post.at is Closing && crate::answers::answers(turn, left_text(labels@, None))
        } else {
            &&& post.at == (LeaveAt::LabellingBoth { left: labels })
            &&& turn.only_asks(Action::JoinLabels { kinds: pinned })
        },
        (LeaveAt::LabellingBoth { left }, Event::Text(labels)) => post.at is Closing
            && crate::answers::answers(turn, left_text(left@, Some(labels@))),
        (LeaveAt::Closing, Event::Done(result)) => post.at is Over && crate::answers::concludes(
            turn,
            None,
            result,
        ),
        _ => post.at == pre.at && turn.waits(),
    }
}

fn go_on(command: &CommandContext, departure: Departure, done: Vec<Action>) -> (r: (
    LeaveAt,
    Turn<Handled>,
))
    ensures
        leave_goes_on(
            *command,
            departure.guild_id,
            departure.rest@,
            departure.left@,
            departure.pinned@,
            done@,
            r.0,
            r.1,
        ),
{
    let Departure { guild_id, rest, left, pinned } = departure;
    let (first, rest) = first_kind(rest);
    if let Some(kind) = first {
        let scope = LobbyScope { guild_id, kind };
        let mut before = done;
        before.push(Action::Lock { scope });
        return (
            LeaveAt::Removing { kind, departure: Departure { guild_id, rest, left, pinned } },
            Turn::ask_after(before, Action::Leave { player_id: command.user_id, scope }),
        );
    }
    if left.len() == 0 {
        if pinned.len() == 0 {
            return (
                LeaveAt::Closing,
                Turn::ask_after(done, whisper_back(NO_LONGER_IN.to_owned())),
            );
        }
        return (
            LeaveAt::LabellingPinned,
            Turn::ask_after(done, Action::JoinLabels { kinds: pinned }),
        );
    }
    (
        LeaveAt::LabellingLeft { pinned },
        Turn::ask_after(done, Action::JoinLabels { kinds: left }),
    )
}

fn on_removed(
    command: &CommandContext,
    kind: LobbyKind,
    departure: Departure,
    removed: Result<bool, WorkFailure>,
) -> (r: (LeaveAt, Turn<Handled>))
    ensures
        leave_removed(*command, kind, departure, removed, r.0, r.1),
{
    let scope = LobbyScope { guild_id: departure.guild_id, kind };
    match removed {
        Err(failure) => (LeaveAt::Over, give_up(Some(scope), failure.report)),
        Ok(true) => {
            let publish = Action::PublishLeave {
                scope,
                player_id: command.user_id,
                display_name: command.user_display_name.clone(),
                raw_reaction: false,
            };
            let ghost first = publish;
            let done = vec![publish, Action::Unlock { scope }];
            assert(done@ =~= seq![first, Action::Unlock { scope }]);
            let mut departure = departure;
            departure.left.push(kind);
            go_on(command, departure, done)
        },
        Ok(false) => {
            let guild_id = departure.guild_id;
            let players = vec![command.user_id];
            assert(players@ =~= seq![command.user_id]);
            (
                LeaveAt::Holding { kind, departure },
                Turn::ask(Action::ReadHolders { guild_id, players }),
            )
        },
    }
}

fn is_held(holders: &Vec<Option<LobbyKind>>, kind: LobbyKind) -> (r: bool)
    ensures
        r == holds_player(holders@, kind),
{
    if holders.len() == 0 {
        return false;
    }
    match holders[0] {
        Some(holder) => holder == kind,
        None => false,
    }
}

impl LeaveFlow {
    /// Begins the command.
    pub fn start(command: CommandContext) -> (r: (LeaveFlow, Turn<Handled>))
        ensures
            leave_starts(command, r.0, r.1),
            r.1.goes_on(|action: Action| r.0.awaits(action)),
    {
        (
            LeaveFlow { command, at: LeaveAt::Deferring },
            Turn::ask(Action::Defer { ephemeral: true }),
        )
    }

    /// Goes on with what came of the last question.
    pub fn resume(self, event: Event) -> (r: (LeaveFlow, Turn<Handled>))
        ensures
            leave_step(self, event, r.0, r.1),
    {
        let LeaveFlow { command, at } = self;
        let (at, turn) = match (at, event) {
            (LeaveAt::Deferring, Event::Done(Err(error))) => (LeaveAt::Over, give_up(None, error)),
            (LeaveAt::Deferring, Event::Done(Ok(_))) => match command.guild_channel() {
                None => (LeaveAt::Closing, answer(SERVER_ONLY.to_owned())),
                Some((guild_id, _)) => (
                    LeaveAt::Looking { guild_id },
                    Turn::ask(Action::ReadMemberships { guild_id, player_id: command.user_id }),
                ),
            },
            (LeaveAt::Looking { guild_id }, Event::Kinds(kinds)) => if kinds.len() == 0 {
                (LeaveAt::Closing, answer(NOT_IN_A_LOBBY.to_owned()))
            } else {
                let departure = Departure {
                    guild_id,
                    rest: kinds,
                    left: Vec::new(),
                    pinned: Vec::new(),
                };
                go_on(&command, departure, Vec::new())
            },
            (LeaveAt::Removing { kind, departure }, Event::Outcome(removed)) => on_removed(
                &command,
                kind,
                departure,
                removed,
            ),
            (LeaveAt::Holding { kind, departure }, Event::Holders(holders)) => {
                let scope = LobbyScope { guild_id: departure.guild_id, kind };
                let done = vec![Action::Unlock { scope }];
                assert(done@ =~= seq![Action::Unlock { scope }]);
                let mut departure = departure;
                if is_held(&holders, kind) {
                    departure.pinned.push(kind);
                }
                go_on(&command, departure, done)
            },
            (LeaveAt::LabellingPinned, Event::Text(labels)) => {
                let text = text3(
                    "❌ You can’t leave ",
                    labels.as_str(),
                    " while its shuffle or draft is in progress.",
                );
                (LeaveAt::Closing, answer(text))
            },
            (LeaveAt::LabellingLeft { pinned }, Event::Text(labels)) => if pinned.len() == 0 {
                (LeaveAt::Closing, answer(text3("✅ Left ", labels.as_str(), ".")))
            } else {
                (
                    LeaveAt::LabellingBoth { left: labels },
                    Turn::ask(Action::JoinLabels { kinds: pinned }),
                )
            },
            (LeaveAt::LabellingBoth { left }, Event::Text(labels)) => {
                let mut text = text3("✅ Left ", left.as_str(), ".");
                text.append("\n⚠️ Still in ");
                text.append(labels.as_str());
                text.append(" — its shuffle or draft is in progress.");
                (LeaveAt::Closing, answer(text))
            },
            (LeaveAt::Closing, Event::Done(result)) => (LeaveAt::Over, conclude(None, result)),
            (at, _) => (at, Turn::wait()),
        };
        (LeaveFlow { command, at }, turn)
    }
}

/// The scope that the command holds.
pub open spec fn leave_holds(at: LeaveAt) -> Option<LobbyScope> {
    match at {
        LeaveAt::Removing { kind, departure } => Some(
            LobbyScope { guild_id: departure.guild_id, kind },
        ),
        LeaveAt::Holding { kind, departure } => Some(
            LobbyScope { guild_id: departure.guild_id, kind },
        ),
        _ => None,
    }
}

/// `/leave` changes a lobby only while it holds its scope, holds one scope at a time, and gives
/// it free however it ends.
pub proof fn leaves_keep_order(
    pre: LeaveFlow,
    event: Event,
    post: LeaveFlow,
    turn: Turn<Handled>,
)
    requires
        leave_step(pre, event, post, turn),
    ensures
        crate::locking::keeps_order(leave_holds(pre.at), turn, leave_holds(post.at)),
{
    reveal_with_fuel(crate::locking::orderly, 4);
    reveal_with_fuel(crate::locking::held_at_end, 4);
}

/// `/leave` takes nobody out of a lobby but the invoker.
pub proof fn leavers_take_only_themselves_out(
    pre: LeaveFlow,
    event: Event,
    post: LeaveFlow,
    turn: Turn<Handled>,
    player: i64,
    scope: LobbyScope,
)
    requires
        leave_step(pre, event, post, turn),
        turn.next == Next::<Handled>::Ask(Action::Leave { player_id: player, scope }),
    ensures
        player == pre.command.user_id,
{
}

impl LeaveFlow {
    /// What is waited for: the answer to this question.
    pub open spec fn awaits(self, action: Action) -> bool {
        match self.at {
            LeaveAt::Deferring => action is Defer,
            LeaveAt::Looking { .. } => action is ReadMemberships,
            LeaveAt::Removing { .. } => action is Leave,
            LeaveAt::Holding { .. } => action is ReadHolders,
            LeaveAt::LabellingPinned => action is JoinLabels,
            LeaveAt::LabellingLeft { .. } => action is JoinLabels,
            LeaveAt::LabellingBoth { .. } => action is JoinLabels,
            LeaveAt::Closing => action is Reply,
            LeaveAt::Over => false,
        }
    }
}

/// `/leave` is never left waiting by the answer to what it asked for: it goes on to its end or to
/// its next question, and waits for the answer to that.
pub proof fn leaves_go_on_when_answered(
    pre: LeaveFlow,
    asked: Action,
    event: Event,
    post: LeaveFlow,
    turn: Turn<Handled>,
)
    requires
        leave_step(pre, event, post, turn),
        pre.awaits(asked),
        asked.answered_by(event),
    ensures
        turn.goes_on(|action: Action| post.awaits(action)),
{
}

/// A run of `/leave`: it starts, and every turn follows from what came of the one before.
pub open spec fn leave_run(
    command: CommandContext,
    states: Seq<LeaveFlow>,
    events: Seq<Event>,
    turns: Seq<Turn<Handled>>,
) -> bool {
    &&& states.len() == events.len() + 1
    &&& turns.len() == events.len()
    &&& states[0] == (LeaveFlow { command, at: LeaveAt::Deferring })
    &&& forall|n: int|
        0 <= n < events.len() ==> leave_step(
            states[n],
            #[trigger] events[n],
            states[n + 1],
            turns[n],
        )
}

/// The lobbies that let the invoker go before turn `n` of the run, in order.
pub open spec fn left_behind(states: Seq<LeaveFlow>, events: Seq<Event>, n: int) -> Seq<LobbyKind>
    decreases n,
{
    if n <= 0 {
        Seq::empty()
    } else {
        let earlier = left_behind(states, events, n - 1);
        match (states[n - 1].at, events[n - 1]) {
            (LeaveAt::Removing { kind, .. }, Event::Outcome(Ok(true))) => earlier.push(kind),
            _ => earlier,
        }
    }
}

/// The lobbies that did not let the invoker go before turn `n` of the run, because a shuffle or
/// draft of theirs holds them, in order.
pub open spec fn held_back(states: Seq<LeaveFlow>, events: Seq<Event>, n: int) -> Seq<LobbyKind>
    decreases n,
{
    if n <= 0 {
        Seq::empty()
    } else {
        let earlier = held_back(states, events, n - 1);
        match (states[n - 1].at, events[n - 1]) {
            (LeaveAt::Holding { kind, .. }, Event::Holders(holders)) => if holds_player(
                holders@,
                kind,
            ) {
                earlier.push(kind)
            } else {
                earlier
            },
            _ => earlier,
        }
    }
}

/// The lobbies that were dealt with before turn `n` of the run, in order.
pub open spec fn dealt_with(states: Seq<LeaveFlow>, events: Seq<Event>, n: int) -> Seq<LobbyKind>
    decreases n,
{
    if n <= 0 {
        Seq::empty()
    } else {
        let earlier = dealt_with(states, events, n - 1);
        match (states[n - 1].at, events[n - 1]) {
            (LeaveAt::Removing { kind, .. }, Event::Outcome(Ok(true))) => earlier.push(kind),
            (LeaveAt::Holding { kind, .. }, Event::Holders(_)) => earlier.push(kind),
            _ => earlier,
        }
    }
}

/// The lobbies that a departure still has to deal with.
pub open spec fn leave_due(at: LeaveAt) -> Seq<LobbyKind> {
    match at {
        LeaveAt::Removing { kind, departure } => seq![kind] + departure.rest@,
        LeaveAt::Holding { kind, departure } => seq![kind] + departure.rest@,
        _ => Seq::empty(),
    }
}

/// The state agrees with what the run did so far.
spec fn keeps_count(states: Seq<LeaveFlow>, events: Seq<Event>, n: int) -> bool {
    let left = left_behind(states, events, n);
    let pinned = held_back(states, events, n);
    match states[n].at {
        LeaveAt::Removing { departure, .. } => departure.left@ == left && departure.pinned@
            == pinned,
        LeaveAt::Holding { departure, .. } => departure.left@ == left && departure.pinned@
            == pinned,
        LeaveAt::LabellingPinned => left.len() == 0 && pinned.len() > 0,
        LeaveAt::LabellingLeft { pinned: p } => left.len() > 0 && p@ == pinned,
        LeaveAt::LabellingBoth { .. } => left.len() > 0 && pinned.len() > 0,
        LeaveAt::Closing => true,
        LeaveAt::Over => true,
        _ => left.len() == 0 && pinned.len() == 0 && dealt_with(states, events, n).len() == 0,
    }
}

proof fn runs_keep_count(
    command: CommandContext,
    states: Seq<LeaveFlow>,
    events: Seq<Event>,
    turns: Seq<Turn<Handled>>,
    n: int,
)
    requires
        leave_run(command, states, events, turns),
        0 <= n < states.len(),
    ensures
        states[n].command == command,
        keeps_count(states, events, n),
    decreases n,
{
    if n > 0 {
        runs_keep_count(command, states, events, turns, n - 1);
        assert(leave_step(states[n - 1], events[n - 1], states[n], turns[n - 1]));
        let left = left_behind(states, events, n - 1);
        let pinned = held_back(states, events, n - 1);
        if left.len() == 0 {
            assert(left =~= Seq::empty());
        }
        if pinned.len() == 0 {
            assert(pinned =~= Seq::empty());
        }
    }
}

proof fn runs_deal_with_every_lobby(
    command: CommandContext,
    states: Seq<LeaveFlow>,
    events: Seq<Event>,
    turns: Seq<Turn<Handled>>,
    kinds: Vec<LobbyKind>,
    c: int,
    n: int,
)
    requires
        leave_run(command, states, events, turns),
        0 <= c < n < states.len(),
        states[c].at is Looking,
        events[c] == Event::Kinds(kinds),
    ensures
        !(states[n].at is Deferring) && !(states[n].at is Looking),
        !(states[n].at is Over) ==> dealt_with(states, events, n) + leave_due(states[n].at)
            == kinds@,
    decreases n,
{
    let (pre, event, post) = (states[n - 1], events[n - 1], states[n]);
    assert(leave_step(pre, event, post, turns[n - 1]));
    if n == c + 1 {
        runs_keep_count(command, states, events, turns, c);
        assert(dealt_with(states, events, n) =~= Seq::empty());
        assert(dealt_with(states, events, n) + leave_due(post.at) =~= kinds@);
    } else {
        runs_deal_with_every_lobby(command, states, events, turns, kinds, c, n - 1);
        let before = dealt_with(states, events, n - 1);
        let after = dealt_with(states, events, n);
        if after != before {
            assert(before + leave_due(pre.at) =~= after + leave_due(post.at));
        } else if leave_due(pre.at) != leave_due(post.at) {
            assert(post.at is Over);
        }
    }
}

/// What `/leave` says is what happened. By the time it puts the outcome into words, every lobby
/// that the invoker was in was dealt with, once each and in order; the labels it asks for are
/// those of the lobbies that let the invoker go, or of those whose shuffle or draft holds them.
pub proof fn leaves_tell_what_was_left(
    command: CommandContext,
    states: Seq<LeaveFlow>,
    events: Seq<Event>,
    turns: Seq<Turn<Handled>>,
    kinds: Vec<LobbyKind>,
    c: int,
    n: int,
    shown: Vec<LobbyKind>,
)
    requires
        leave_run(command, states, events, turns),
        0 <= c <= n < turns.len(),
        states[c].at is Looking,
        events[c] == Event::Kinds(kinds),
        turns[n].next == Next::<Handled>::Ask(Action::JoinLabels { kinds: shown }),
    ensures
        dealt_with(states, events, n + 1) == kinds@,
        match states[n + 1].at {
            LeaveAt::LabellingLeft { .. } => shown@ == left_behind(states, events, n + 1)
                && shown@.len() > 0,
            LeaveAt::LabellingPinned => shown@ == held_back(states, events, n + 1) && left_behind(
                states,
                events,
                n + 1,
            ).len() == 0,
            LeaveAt::LabellingBoth { .. } => shown@ == held_back(states, events, n + 1)
                && left_behind(states, events, n + 1).len() > 0,
            _ => false,
        },
{
    assert(leave_step(states[n], events[n], states[n + 1], turns[n]));
    runs_keep_count(command, states, events, turns, n);
    runs_keep_count(command, states, events, turns, n + 1);
    runs_deal_with_every_lobby(command, states, events, turns, kinds, c, n + 1);
    assert(dealt_with(states, events, n + 1) + leave_due(states[n + 1].at) =~= dealt_with(
        states,
        events,
        n + 1,
    ));
}

spec fn departs_from(at: LeaveAt) -> Option<i64> {
    match at {
        LeaveAt::Looking { guild_id } => Some(guild_id),
        LeaveAt::Removing { departure, .. } => Some(departure.guild_id),
        LeaveAt::Holding { departure, .. } => Some(departure.guild_id),
        _ => None,
    }
}

proof fn runs_keep_their_guild(
    command: CommandContext,
    states: Seq<LeaveFlow>,
    events: Seq<Event>,
    turns: Seq<Turn<Handled>>,
    n: int,
)
    requires
        leave_run(command, states, events, turns),
        0 <= n < states.len(),
    ensures
        states[n].command == command,
        departs_from(states[n].at) matches Some(guild) ==> command.guild_id == Some(guild),
    decreases n,
{
    if n > 0 {
        runs_keep_their_guild(command, states, events, turns, n - 1);
        assert(leave_step(states[n - 1], events[n - 1], states[n], turns[n - 1]));
    }
}

/// Whatever a run of `/leave` does, it does for its invoker and in the guild it was used in. A
/// departure is made known exactly when the lobby let the invoker go: under the name they show, and
/// not as a reaction.
pub proof fn leaves_are_made_known_as_they_happened(
    command: CommandContext,
    states: Seq<LeaveFlow>,
    events: Seq<Event>,
    turns: Seq<Turn<Handled>>,
    n: int,
    action: Action,
)
    requires
        leave_run(command, states, events, turns),
        0 <= n < turns.len(),
        turns[n].does(action),
    ensures
        action.player() matches Some(player) ==> player == command.user_id,
        action.lobby() matches Some(scope) ==> command.guild_id == Some(scope.guild_id),
        action.guild() matches Some(guild) ==> command.guild_id == Some(guild),
        action matches Action::PublishLeave { scope, display_name, raw_reaction, .. } ==> {
            &&& display_name == command.user_display_name
            &&& !raw_reaction
            &&& events[n] == Event::Outcome(Ok(true))
            &&& states[n].at matches LeaveAt::Removing { kind, .. } && kind == scope.kind
        },
{
    runs_keep_their_guild(command, states, events, turns, n);
    assert(leave_step(states[n], events[n], states[n + 1], turns[n]));
}

/// `/leave` tries every lobby that the invoker is in, one after the other; each that lets them go is
/// told of it, and of each that does not it is found out whether a shuffle or draft holds them
/// there.
pub proof fn leaves_try_every_lobby(
    pre: LeaveFlow,
    event: Event,
    post: LeaveFlow,
    turn: Turn<Handled>,
)
    requires
        leave_step(pre, event, post, turn),
    ensures
        pre.at matches LeaveAt::Looking { guild_id } ==> (event matches Event::Kinds(kinds) ==> {
            &&& kinds@.len() > 0 ==> leave_due(post.at) == kinds@ && post.at is Removing
            &&& kinds@.len() == 0 ==> (turn.next matches Next::Ask(action)
                && crate::protocol::tells_invoker(action, NOT_IN_A_LOBBY@))
        }),
        pre.at matches LeaveAt::Removing { kind, departure } ==> (event == Event::Outcome(Ok(true))
            ==> turn.does(
            Action::PublishLeave {
                scope: LobbyScope { guild_id: departure.guild_id, kind },
                player_id: pre.command.user_id,
                display_name: pre.command.user_display_name,
                raw_reaction: false,
            },
        ) && (departure.rest@.len() > 0 ==> post.at is Removing && leave_due(post.at)
            == departure.rest@)),
        pre.at matches LeaveAt::Removing { kind, departure } ==> (event == Event::Outcome(Ok(false))
            ==> (turn.next matches Next::Ask(Action::ReadHolders { guild_id, players }) && guild_id
            == departure.guild_id && players@.contains(pre.command.user_id))),
        pre.at matches LeaveAt::Holding { kind, departure } ==> (event matches Event::Holders(holders)
            ==> {
            &&& departure.rest@.len() > 0 ==> post.at is Removing && leave_due(post.at)
                == departure.rest@
            &&& departure.rest@.len() == 0 && departure.left@.len() == 0 && departure.pinned@.len()
                == 0 && !(holders@.len() > 0 && holders@[0] == Some(kind)) ==> (
            turn.next matches Next::Ask(action) && crate::protocol::tells_invoker(
                action,
                NO_LONGER_IN@,
            ))
        }),
        post.at matches LeaveAt::Removing { kind, departure } ==> (!(pre.at is Removing
            && turn.waits()) ==> turn.next == Next::<Handled>::Ask(
            Action::Leave {
                player_id: pre.command.user_id,
                scope: LobbyScope { guild_id: departure.guild_id, kind },
            },
        )),
{
    crate::text::texts_contain_themselves(NOT_IN_A_LOBBY@);
    crate::text::texts_contain_themselves(NO_LONGER_IN@);
    match (pre.at, event) {
        (LeaveAt::Looking { .. }, Event::Kinds(kinds)) => {
            if kinds@.len() > 0 {
                assert(seq![kinds@[0]] + kinds@.drop_first() =~= kinds@);
            }
        },
        (LeaveAt::Removing { kind, departure }, Event::Outcome(removed)) => {
            if departure.rest@.len() > 0 {
                assert(seq![departure.rest@[0]] + departure.rest@.drop_first()
                    =~= departure.rest@);
            }
            if removed == Ok::<bool, WorkFailure>(true) {
                assert(turn.before@.contains(turn.before@[0]));
            }
            if removed == Ok::<bool, WorkFailure>(false) {
                if let Next::Ask(Action::ReadHolders { players, .. }) = turn.next {
                    assert(players@[0] == pre.command.user_id);
                }
            }
        },
        (LeaveAt::Holding { departure, .. }, _) => {
            if departure.rest@.len() > 0 {
                assert(seq![departure.rest@[0]] + departure.rest@.drop_first()
                    =~= departure.rest@);
            }
        },
        _ => {},
    }
}

/// What the invoker of `/leave` is told holds the labels of the lobbies that were left and of those
/// that hold the invoker.
pub proof fn leaves_are_answered_by_name(
    pre: LeaveFlow,
    event: Event,
    post: LeaveFlow,
    turn: Turn<Handled>,
)
    requires
        leave_step(pre, event, post, turn),
    ensures
        pre.at is LabellingPinned ==> (event matches Event::Text(labels) ==> (
        turn.next matches Next::Ask(action) && crate::protocol::tells_invoker(action, labels@))),
        pre.at matches LeaveAt::LabellingLeft { pinned } ==> (event matches Event::Text(labels) ==> (if (
        pinned@.len() == 0) {
            turn.next matches Next::Ask(action) && crate::protocol::tells_invoker(action, labels@)
        } else {
            post.at matches LeaveAt::LabellingBoth { left } && left == labels
        })),
        pre.at matches LeaveAt::LabellingBoth { left } ==> (event matches Event::Text(labels) ==> (
        turn.next matches Next::Ask(action) && crate::protocol::tells_invoker(action, labels@)
            && crate::protocol::tells_invoker(action, left@))),
        pre.at is Deferring && pre.command.guild_id is Some && pre.command.channel_id is Some ==> (
        event matches Event::Done(Ok(_)) ==> turn.next == Next::<Handled>::Ask(
            Action::ReadMemberships {
                guild_id: pre.command.guild_id->0,
                player_id: pre.command.user_id,
            },
        )),
{
    if let Event::Text(labels) = event {
        crate::text::middles_stand(
            "❌ You can’t leave "@,
            labels@,
            " while its shuffle or draft is in progress."@,
        );
        crate::text::middles_stand("✅ Left "@, labels@, "."@);
        if let LeaveAt::LabellingBoth { left } = pre.at {
            let head = "✅ Left "@ + left@ + "."@;
            let end = " — its shuffle or draft is in progress."@;
            crate::text::middles_stand("✅ Left "@, left@, "."@);
            crate::text::middles_stand(head + "\n⚠️ Still in "@, labels@, end);
            let tail = "\n⚠️ Still in "@ + labels@ + end;
            crate::text::parts_stay(Seq::empty(), head, tail, left@);
            assert(head + tail =~= head + "\n⚠️ Still in "@ + labels@ + end);
        }
    }
}

} // verus!
