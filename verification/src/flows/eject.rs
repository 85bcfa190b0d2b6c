//! Putting a suspended player out of the lobbies that the suspension covers.
use vstd::prelude::*;
use crate::ids::to_unsigned_option;
use crate::kinds::LobbyKind;
use crate::kinds::LobbyScope;
use crate::kinds::Wording;
use crate::kinds::copy_kinds;
use crate::kinds::first_kind;
use crate::lobby::LobbySnapshot;
use crate::moderation::SuspensionScope;
use crate::moderation::applicable_kinds;
use crate::protocol::Action;
use crate::protocol::Event;
use crate::protocol::Next;
use crate::protocol::Turn;
use crate::protocol::WorkFailure;
use crate::protocol::post_silently;
use crate::text::contents;
use crate::text::text3;

verus! {

/// Who is to be put out, and of what.
#[derive(Clone, Debug, PartialEq, Eq)]
pub struct AdminLobbyEjectionRequest {
    pub guild_id: i64,
    pub player_id: i64,
    pub player_display_name: String,
    pub scope: SuspensionScope,
}

/// The labels of the lobbies that the suspension covers and the player was in, and of those they
/// were put out of.
#[derive(Clone, Debug, PartialEq, Eq)]
pub struct AdminLobbyEjectionResult {
    pub applicable_lobbies: Vec<String>,
    pub evicted_lobbies: Vec<String>,
}

/// How an ejection ends.
pub type Ejected = Result<AdminLobbyEjectionResult, String>;

/// Where the ejection stands.
#[derive(Debug, PartialEq, Eq)]
pub enum EjectAt {
    /// The lobbies of the player are being looked up.
    Looking,
    /// The player is being taken out of a lobby.
    Removing { kind: LobbyKind, rest: Vec<LobbyKind> },
    /// The lobby is being read, to tell its thread.
    Telling { kind: LobbyKind, rest: Vec<LobbyKind> },
    /// Nothing is left to be done.
    Over,
}

/// An ejection in progress: the lobbies it applies to, and those the player is out of.
#[derive(Debug, PartialEq, Eq)]
pub struct EjectFlow {
    pub request: AdminLobbyEjectionRequest,
    pub applicable: Vec<LobbyKind>,
    pub evicted: Vec<LobbyKind>,
    pub at: EjectAt,
}

/// The labels of these kinds.
pub open spec fn labels(kinds: Seq<LobbyKind>, wording: Wording) -> Seq<Seq<char>> {
    kinds.map_values(|kind: LobbyKind| wording.label_of(kind))
}

/// The scope of a lobby of the guild.
pub open spec fn eject_scope(request: AdminLobbyEjectionRequest, kind: LobbyKind) -> LobbyScope {
    LobbyScope { guild_id: request.guild_id, kind }
}

/// The player is taken out of the next lobby, under its scope; after the last one the outcome is
/// reported. These actions come before.
pub open spec fn eject_goes_on(
    request: AdminLobbyEjectionRequest,
    applicable: Seq<LobbyKind>,
    evicted: Seq<LobbyKind>,
    kinds: Seq<LobbyKind>,
    done: Seq<Action>,
    post: EjectFlow,
    turn: Turn<Ejected>,
    wording: Wording,
) -> bool {
    &&& post.request == request
    &&& post.applicable@ == applicable
    &&& post.evicted@ == evicted
    &&& if kinds.len() > 0 {
        let scope = eject_scope(request, kinds[0]);
        &&& post.at matches EjectAt::Removing { kind, rest } && kind == kinds[0] && rest@
            == kinds.drop_first()
        &&& turn.before@ == done.push(Action::Lock { scope })
        &&& turn.next == Next::<Ejected>::Ask(
            Action::Leave { player_id: request.player_id, scope },
        )
    } else {
        &&& post.at is Over
        &&& turn.before@ == done
        &&& turn.next matches Next::End(Ok(result)) && contents(result.applicable_lobbies@)
            == labels(applicable, wording) && contents(result.evicted_lobbies@) == labels(
            evicted,
            wording,
        )
    }
}

/// The player was taken out of a lobby, or had not been in it: a departure shows on the lobby's
/// message and by the reaction taken off.
pub open spec fn eject_removed(
    pre: EjectFlow,
    kind: LobbyKind,
    rest: Seq<LobbyKind>,
    removed: Result<bool, WorkFailure>,
    post: EjectFlow,
    turn: Turn<Ejected>,
    wording: Wording,
) -> bool {
    let scope = eject_scope(pre.request, kind);
    match removed {
        Err(failure) => {
            &&& post.request == pre.request
            &&& post.applicable@ == pre.applicable@
            &&& post.evicted@ == pre.evicted@
            &&& post.at is Over
            &&& turn.before@.len() == 1
            &&& turn.before@[0] == (Action::Unlock { scope })
            &&& turn.next matches Next::End(Err(error)) && error@ == failure.told(
                "suspension lobby task failed: "@,
            )
        },
        Ok(false) => eject_goes_on(
            pre.request,
            pre.applicable@,
            pre.evicted@,
            rest,
            seq![Action::Unlock { scope }],
            post,
            turn,
            wording,
        ),
        Ok(true) => {
            &&& post.request == pre.request
            &&& post.applicable@ == pre.applicable@
            &&& post.evicted@ == pre.evicted@.push(kind)
            &&& post.at matches EjectAt::Telling { kind: k, rest: r } && k == kind && r@ == rest
            &&& turn.before@.len() == 3
            &&& turn.before@[0] == (Action::SyncReadyLobby { scope })
            &&& turn.before@[1] == (Action::RefreshDisplay { scope })
            &&& turn.before@[2] == (Action::RemoveReaction {
                scope,
                player_id: pre.request.player_id,
            })
            &&& turn.next == Next::<Ejected>::Ask(Action::ReadLobby { scope })
        },
    }
}

/// What the thread of a lobby is told of an ejection.
pub open spec fn eject_text(request: AdminLobbyEjectionRequest) -> Seq<char> {
    "⛔ **"@ + request.player_display_name@
        + "** was temporarily suspended from matchmaking by an admin."@
}

/// The lobby was read: its thread is told, the scope is given free, and the next lobby is next.
pub open spec fn eject_told(
    pre: EjectFlow,
    kind: LobbyKind,
    rest: Seq<LobbyKind>,
    lobby: Option<LobbySnapshot>,
    post: EjectFlow,
    turn: Turn<Ejected>,
    wording: Wording,
) -> bool {
    let free = Action::Unlock { scope: eject_scope(pre.request, kind) };
    match crate::flows::kick::thread_of(lobby) {
        Some(thread) => {
            &&& turn.before@.len() > 0
            &&& crate::protocol::posts_silently(turn.before@[0], thread, eject_text(pre.request))
            &&& eject_goes_on(
                pre.request,
                pre.applicable@,
                pre.evicted@,
                rest,
                seq![turn.before@[0], free],
                post,
                turn,
                wording,
            )
        },
        None => eject_goes_on(
            pre.request,
            pre.applicable@,
            pre.evicted@,
            rest,
            seq![free],
            post,
            turn,
            wording,
        ),
    }
}

/// The beginning of an ejection: the lobbies of the player are looked up.
pub open spec fn eject_starts(
    request: AdminLobbyEjectionRequest,
    post: EjectFlow,
    turn: Turn<Ejected>,
) -> bool {
    &&& post.request == request
    &&& post.applicable@.len() == 0
    &&& post.evicted@.len() == 0
    &&& post.at is Looking
    &&& turn.only_asks(
        Action::ReadMemberships { guild_id: request.guild_id, player_id: request.player_id },
    )
}

/// One step of an ejection.
pub open spec fn eject_step(
    pre: EjectFlow,
    event: Event,
    post: EjectFlow,
    turn: Turn<Ejected>,
    wording: Wording,
) -> bool {
    match (pre.at, event) {
        (EjectAt::Looking, Event::Kinds(kinds)) => {
            let applicable = crate::moderation::covered(pre.request.scope, kinds@);
            eject_goes_on(
                pre.request,
                applicable,
                pre.evicted@,
                applicable,
                Seq::empty(),
                post,
                turn,
                wording,
            )
        },
        (EjectAt::Removing { kind, rest }, Event::Outcome(removed)) => eject_removed(
            pre,
            kind,
            rest@,
            removed,
            post,
            turn,
            wording,
        ),
        (EjectAt::Telling { kind, rest }, Event::Lobby(lobby)) => eject_told(
            pre,
            kind,
            rest@,
            lobby,
            post,
            turn,
            wording,
        ),
        _ => post == pre && turn.waits(),
    }
}

fn label_texts(kinds: &Vec<LobbyKind>, wording: &Wording) -> (r: Vec<String>)
    ensures
        contents(r@) == labels(kinds@, *wording),
{
    let mut r: Vec<String> = Vec::new();
    let mut i: usize = 0;
    while i < kinds.len()
        invariant
            i <= kinds.len(),
            r@.len() == i,
            forall|k: int| 0 <= k < i ==> (#[trigger] r@[k])@ == wording.label_of(kinds@[k]),
        decreases kinds.len() - i,
    {
        r.push(wording.label(kinds[i]).to_owned());
        i = i + 1;
    }
    assert(contents(r@) =~= labels(kinds@, *wording));
    r
}

fn go_on(flow: EjectFlow, kinds: Vec<LobbyKind>, done: Vec<Action>, wording: &Wording) -> (r: (
    EjectFlow,
    Turn<Ejected>,
))
    ensures
        eject_goes_on(
            flow.request,
            flow.applicable@,
            flow.evicted@,
            kinds@,
            done@,
            r.0,
            r.1,
            *wording,
        ),
{
    let EjectFlow { request, applicable, evicted, at } = flow;
    let (first, rest) = first_kind(kinds);
    match first {
        Some(kind) => {
            let scope = LobbyScope { guild_id: request.guild_id, kind };
            let player_id = request.player_id;
            let mut before = done;
            before.push(Action::Lock { scope });
            (
                EjectFlow {
                    request,
                    applicable,
                    evicted,
                    at: EjectAt::Removing { kind, rest },
                },
                Turn::ask_after(before, Action::Leave { player_id, scope }),
            )
        },
        None => {
            let result = AdminLobbyEjectionResult {
                applicable_lobbies: label_texts(&applicable, wording),
                evicted_lobbies: label_texts(&evicted, wording),
            };
            (
                EjectFlow { request, applicable, evicted, at: EjectAt::Over },
                Turn::end_after(done, Ok(result)),
            )
        },
    }
}

fn on_removed(
    flow: EjectFlow,
    kind: LobbyKind,
    rest: Vec<LobbyKind>,
    removed: Result<bool, WorkFailure>,
    wording: &Wording,
) -> (r: (EjectFlow, Turn<Ejected>))
    ensures
        eject_removed(flow, kind, rest@, removed, r.0, r.1, *wording),
{
    let mut flow = flow;
    let scope = LobbyScope { guild_id: flow.request.guild_id, kind };
    match removed {
        Err(failure) => {
            let text = failure.tell("suspension lobby task failed: ");
            flow.at = EjectAt::Over;
            (flow, Turn::end_after(vec![Action::Unlock { scope }], Err(text)))
        },
        Ok(false) => {
            let done = vec![Action::Unlock { scope }];
            assert(done@ =~= seq![Action::Unlock { scope }]);
            go_on(flow, rest, done, wording)
        },
        Ok(true) => {
            let before = vec![
                Action::SyncReadyLobby { scope },
                Action::RefreshDisplay { scope },
                Action::RemoveReaction { scope, player_id: flow.request.player_id },
            ];
            flow.evicted.push(kind);
            flow.at = EjectAt::Telling { kind, rest };
            (flow, Turn::ask_after(before, Action::ReadLobby { scope }))
        },
    }
}

fn on_told(
    flow: EjectFlow,
    kind: LobbyKind,
    rest: Vec<LobbyKind>,
    lobby: Option<LobbySnapshot>,
    wording: &Wording,
) -> (r: (EjectFlow, Turn<Ejected>))
    ensures
        eject_told(flow, kind, rest@, lobby, r.0, r.1, *wording),
{
    let scope = LobbyScope { guild_id: flow.request.guild_id, kind };
    let thread = match lobby {
        Some(lobby) => to_unsigned_option(lobby.message_ids.thread_id),
        None => None,
    };
    match thread {
        Some(thread) => {
            let text = text3(
                "⛔ **",
                flow.request.player_display_name.as_str(),
                "** was temporarily suspended from matchmaking by an admin.",
            );
            let tell = post_silently(thread, text);
            let ghost told = tell;
            let done = vec![tell, Action::Unlock { scope }];
            assert(done@ =~= seq![told, Action::Unlock { scope }]);
            let r = go_on(flow, rest, done, wording);
            assert(r.1.before@[0] == told);
            r
        },
        None => {
            let done = vec![Action::Unlock { scope }];
            assert(done@ =~= seq![Action::Unlock { scope }]);
            go_on(flow, rest, done, wording)
        },
    }
}

impl EjectFlow {
    /// Begins an ejection.
    pub fn start(request: AdminLobbyEjectionRequest) -> (r: (EjectFlow, Turn<Ejected>))
        ensures
            eject_starts(request, r.0, r.1),
            r.1.goes_on(|action: Action| r.0.awaits(action)),
    {
        let guild_id = request.guild_id;
        let player_id = request.player_id;
        (
            EjectFlow {
                request,
                applicable: Vec::new(),
                evicted: Vec::new(),
                at: EjectAt::Looking,
            },
            Turn::ask(Action::ReadMemberships { guild_id, player_id }),
        )
    }

    /// Goes on with what came of the last question.
    pub fn resume(self, event: Event, wording: &Wording) -> (r: (EjectFlow, Turn<Ejected>))
        ensures
            eject_step(self, event, r.0, r.1, *wording),
    {
        let EjectFlow { request, applicable, evicted, at } = self;
        match (at, event) {
            (EjectAt::Looking, Event::Kinds(kinds)) => {
                let applicable = applicable_kinds(request.scope, &kinds);
                let kinds = copy_kinds(&applicable);
                let flow = EjectFlow { request, applicable, evicted, at: EjectAt::Over };
                go_on(flow, kinds, Vec::new(), wording)
            },
            (EjectAt::Removing { kind, rest }, Event::Outcome(removed)) => {
                let flow = EjectFlow { request, applicable, evicted, at: EjectAt::Over };
                on_removed(flow, kind, rest, removed, wording)
            },
            (EjectAt::Telling { kind, rest }, Event::Lobby(lobby)) => {
                let flow = EjectFlow { request, applicable, evicted, at: EjectAt::Over };
                on_told(flow, kind, rest, lobby, wording)
            },
            (at, _) => (EjectFlow { request, applicable, evicted, at }, Turn::wait()),
        }
    }
}

/// The scope that an ejection holds.
pub open spec fn eject_holds(flow: EjectFlow) -> Option<LobbyScope> {
    match flow.at {
        EjectAt::Removing { kind, .. } => Some(eject_scope(flow.request, kind)),
        EjectAt::Telling { kind, .. } => Some(eject_scope(flow.request, kind)),
        _ => None,
    }
}

/// An ejection changes a lobby only while it holds its scope, holds one scope at a time, and
/// gives it free however it ends.
pub proof fn ejections_keep_order(
    pre: EjectFlow,
    event: Event,
    post: EjectFlow,
    turn: Turn<Ejected>,
    wording: Wording,
)
    requires
        eject_step(pre, event, post, turn, wording),
    ensures
        crate::locking::keeps_order(eject_holds(pre), turn, eject_holds(post)),
{
    reveal_with_fuel(crate::locking::orderly, 5);
    reveal_with_fuel(crate::locking::held_at_end, 5);
}

/// The lobbies that an ejection still has to deal with.
pub open spec fn eject_due(at: EjectAt) -> Seq<LobbyKind> {
    match at {
        EjectAt::Removing { kind, rest } => seq![kind] + rest@,
        EjectAt::Telling { kind, rest } => rest@,
        _ => Seq::empty(),
    }
}

/// Everything an ejection has to deal with is covered by the suspension.
pub open spec fn eject_is_covered(flow: EjectFlow) -> bool {
    forall|i: int|
        0 <= i < eject_due(flow.at).len() ==> crate::moderation::covers(
            flow.request.scope,
            #[trigger] eject_due(flow.at)[i],
        )
}

/// A suspension reaches no lobby that it does not cover: an ejection begins with the lobbies
/// that the suspension covers and never comes to deal with another.
pub proof fn ejections_stay_in_scope(
    pre: EjectFlow,
    event: Event,
    post: EjectFlow,
    turn: Turn<Ejected>,
    wording: Wording,
)
    requires
        eject_step(pre, event, post, turn, wording),
        eject_is_covered(pre),
    ensures
        eject_is_covered(post),
        turn.next matches Next::Ask(Action::Leave { player_id, scope }) ==> player_id
            == pre.request.player_id && scope.guild_id == pre.request.guild_id
            && crate::moderation::covers(pre.request.scope, scope.kind),
{
    let before = eject_due(pre.at);
    let after = eject_due(post.at);
    assert forall|i: int| 0 <= i < after.len() implies crate::moderation::covers(
        post.request.scope,
        #[trigger] after[i],
    ) by {
        match (pre.at, event) {
            (EjectAt::Looking, Event::Kinds(kinds)) => {
                let all = crate::moderation::covered(pre.request.scope, kinds@);
                assert(all =~= after);
                assert(all.contains(all[i]));
                crate::moderation::suspensions_apply_where_they_cover(
                    pre.request.scope,
                    kinds@,
                    all[i],
                );
            },
            (EjectAt::Removing { kind, rest }, Event::Outcome(removed)) => {
                assert(rest@ =~= after);
                assert(before[i + 1] == after[i]);
            },
            (EjectAt::Telling { kind, rest }, Event::Lobby(lobby)) => {
                assert(rest@ =~= after);
                assert(before[i] == after[i]);
            },
            _ => {
                assert(before[i] == after[i]);
            },
        }
    }
    if let Next::Ask(Action::Leave { player_id, scope }) = turn.next {
        assert(after[0] == scope.kind);
    }
}

impl EjectFlow {
    /// What is waited for: the answer to this question.
    pub open spec fn awaits(self, action: Action) -> bool {
        match self.at {
            EjectAt::Looking => action is ReadMemberships,
            EjectAt::Removing { .. } => action is Leave,
            EjectAt::Telling { .. } => action is ReadLobby,
            EjectAt::Over => false,
        }
    }
}

/// An ejection is never left waiting by the answer to what it asked for: it goes on to its end or
/// to its next question, and waits for the answer to that.
pub proof fn ejections_go_on_when_answered(
    pre: EjectFlow,
    asked: Action,
    event: Event,
    post: EjectFlow,
    turn: Turn<Ejected>,
    wording: Wording,
)
    requires
        eject_step(pre, event, post, turn, wording),
        pre.awaits(asked),
        asked.answered_by(event),
    ensures
        turn.goes_on(|action: Action| post.awaits(action)),
{
}

/// A run of an ejection: it starts, and every turn follows from what came of the one before.
pub open spec fn eject_run(
    request: AdminLobbyEjectionRequest,
    states: Seq<EjectFlow>,
    events: Seq<Event>,
    turns: Seq<Turn<Ejected>>,
    wording: Wording,
) -> bool {
    &&& states.len() == events.len() + 1
    &&& turns.len() == events.len()
    &&& states[0].request == request
    &&& states[0].applicable@.len() == 0
    &&& states[0].evicted@.len() == 0
    &&& states[0].at is Looking
    &&& forall|n: int|
        0 <= n < events.len() ==> eject_step(
            states[n],
            #[trigger] events[n],
            states[n + 1],
            turns[n],
            wording,
        )
}

/// The lobbies that were asked to let the player go before turn `n`, and answered.
pub open spec fn asked_to_let_go(states: Seq<EjectFlow>, events: Seq<Event>, n: int) -> Seq<LobbyKind>
    decreases n,
{
    if n <= 0 {
        Seq::empty()
    } else {
        let earlier = asked_to_let_go(states, events, n - 1);
        match (states[n - 1].at, events[n - 1]) {
            (EjectAt::Removing { kind, .. }, Event::Outcome(Ok(_))) => earlier.push(kind),
            _ => earlier,
        }
    }
}

/// The lobbies that let the player go before turn `n`.
pub open spec fn let_go(states: Seq<EjectFlow>, events: Seq<Event>, n: int) -> Seq<LobbyKind>
    decreases n,
{
    if n <= 0 {
        Seq::empty()
    } else {
        let earlier = let_go(states, events, n - 1);
        match (states[n - 1].at, events[n - 1]) {
            (EjectAt::Removing { kind, .. }, Event::Outcome(Ok(true))) => earlier.push(kind),
            _ => earlier,
        }
    }
}

proof fn nobody_is_let_go_before_the_list(
    request: AdminLobbyEjectionRequest,
    states: Seq<EjectFlow>,
    events: Seq<Event>,
    turns: Seq<Turn<Ejected>>,
    wording: Wording,
    n: int,
)
    requires
        eject_run(request, states, events, turns, wording),
        0 <= n < states.len(),
        states[n].at is Looking,
    ensures
        states[n].request == request,
        states[n].evicted@.len() == 0,
        asked_to_let_go(states, events, n).len() == 0,
        let_go(states, events, n).len() == 0,
    decreases n,
{
    if n > 0 {
        assert(eject_step(states[n - 1], events[n - 1], states[n], turns[n - 1], wording));
        nobody_is_let_go_before_the_list(request, states, events, turns, wording, n - 1);
    }
}

proof fn runs_deal_with_every_lobby(
    request: AdminLobbyEjectionRequest,
    states: Seq<EjectFlow>,
    events: Seq<Event>,
    turns: Seq<Turn<Ejected>>,
    wording: Wording,
    kinds: Vec<LobbyKind>,
    c: int,
    n: int,
)
    requires
        eject_run(request, states, events, turns, wording),
        0 <= c < n < states.len(),
        states[c].at is Looking,
        events[c] == Event::Kinds(kinds),
    ensures
        !(states[n].at is Looking),
        !(states[n].at is Over) || (turns[n - 1].next matches Next::End(Ok(_))) ==> {
            &&& states[n].request == request
            &&& states[n].applicable@ == crate::moderation::covered(request.scope, kinds@)
            &&& states[n].evicted@ == let_go(states, events, n)
            &&& asked_to_let_go(states, events, n) + eject_due(states[n].at)
                == crate::moderation::covered(request.scope, kinds@)
        },
    decreases n,
{
    let (pre, event, post) = (states[n - 1], events[n - 1], states[n]);
    assert(eject_step(pre, event, post, turns[n - 1], wording));
    let all = crate::moderation::covered(request.scope, kinds@);
    if n == c + 1 {
        nobody_is_let_go_before_the_list(request, states, events, turns, wording, c);
        assert(asked_to_let_go(states, events, n) =~= Seq::empty());
        assert(let_go(states, events, n) =~= Seq::empty());
        assert(states[n].evicted@ =~= Seq::empty());
        assert(eject_due(post.at) =~= all);
    } else {
        runs_deal_with_every_lobby(request, states, events, turns, wording, kinds, c, n - 1);
        if !(pre.at is Over) {
            let before = asked_to_let_go(states, events, n - 1);
            let after = asked_to_let_go(states, events, n);
            match (pre.at, event) {
                (EjectAt::Removing { kind, rest }, Event::Outcome(Ok(_))) => {
                    assert(before + eject_due(pre.at) =~= before.push(kind) + rest@);
                    assert(eject_due(post.at) =~= rest@);
                },
                (EjectAt::Telling { kind, rest }, Event::Lobby(_)) => {
                    assert(eject_due(post.at) =~= rest@);
                },
                _ => {},
            }
        }
    }
}

/// An ejection that succeeds dealt with every lobby of the player that the suspension covers,
/// once each and in order; it reports all of these, and as left exactly those that let the player
/// go.
pub proof fn ejections_report_what_they_did(
    request: AdminLobbyEjectionRequest,
    states: Seq<EjectFlow>,
    events: Seq<Event>,
    turns: Seq<Turn<Ejected>>,
    wording: Wording,
    kinds: Vec<LobbyKind>,
    c: int,
    n: int,
    result: AdminLobbyEjectionResult,
)
    requires
        eject_run(request, states, events, turns, wording),
        0 <= c <= n < turns.len(),
        states[c].at is Looking,
        events[c] == Event::Kinds(kinds),
        turns[n].next == Next::<Ejected>::End(Ok(result)),
    ensures
        asked_to_let_go(states, events, n + 1) == crate::moderation::covered(request.scope, kinds@),
        contents(result.applicable_lobbies@) == labels(
            crate::moderation::covered(request.scope, kinds@),
            wording,
        ),
        contents(result.evicted_lobbies@) == labels(let_go(states, events, n + 1), wording),
{
    assert(eject_step(states[n], events[n], states[n + 1], turns[n], wording));
    runs_deal_with_every_lobby(request, states, events, turns, wording, kinds, c, n + 1);
    assert(asked_to_let_go(states, events, n + 1) + eject_due(states[n + 1].at)
        =~= asked_to_let_go(states, events, n + 1));
}

/// An ejection begins by looking the player up in the guild of the request.
pub proof fn ejections_start_with_their_player(
    request: AdminLobbyEjectionRequest,
    post: EjectFlow,
    turn: Turn<Ejected>,
)
    requires
        eject_starts(request, post, turn),
    ensures
        post.request == request,
        turn.does(
            Action::ReadMemberships { guild_id: request.guild_id, player_id: request.player_id },
        ),
{
}

/// Whatever an ejection does, it does to the player of its request and in the guild of its request.
/// It tries every lobby that the suspension covers, in turn; a lobby that lets the player go follows
/// with its ready check and its message, loses their reaction, and its thread is told by name.
pub proof fn ejections_clear_the_player_away(
    pre: EjectFlow,
    event: Event,
    post: EjectFlow,
    turn: Turn<Ejected>,
    wording: Wording,
    action: Action,
)
    requires
        eject_step(pre, event, post, turn, wording),
    ensures
        post.request == pre.request,
        turn.does(action) ==> {
            &&& action.player() matches Some(player) ==> player == pre.request.player_id
            &&& action.lobby() matches Some(scope) ==> scope.guild_id == pre.request.guild_id
        },
        pre.at matches EjectAt::Removing { kind, rest } ==> (event == Event::Outcome(Ok(true)) ==> {
            let scope = LobbyScope { guild_id: pre.request.guild_id, kind };
            &&& turn.does(Action::SyncReadyLobby { scope })
            &&& turn.does(Action::RefreshDisplay { scope })
            &&& turn.does(Action::RemoveReaction { scope, player_id: pre.request.player_id })
            &&& turn.does(Action::ReadLobby { scope })
        }),
        pre.at matches EjectAt::Telling { kind, rest } ==> (event matches Event::Lobby(Some(lobby))
            ==> (lobby.message_ids.thread_id matches Some(thread) ==> (thread >= 0
            ==> turn.before@.len() > 0 && (turn.before@[0] matches Action::Send { channel_id, message }
            && channel_id == thread && crate::text::contains_text(
            message.response.content@,
            pre.request.player_display_name@,
        ))))),
        pre.at matches EjectAt::Removing { rest, .. } ==> (event == Event::Outcome(Ok(false))
            ==> eject_due(post.at) == rest@),
        pre.at matches EjectAt::Telling { rest, .. } ==> (event is Lobby ==> eject_due(post.at)
            == rest@),
        pre.at matches EjectAt::Removing { .. } ==> (event matches Event::Outcome(Err(failure)) ==> (
        turn.next matches Next::End(Err(said)) && crate::text::contains_text(
            said@,
            failure.report@,
        ))),
        post.at matches EjectAt::Removing { kind, .. } ==> (!turn.waits() ==> turn.next == Next::<
            Ejected,
        >::Ask(
            Action::Leave {
                player_id: pre.request.player_id,
                scope: LobbyScope { guild_id: pre.request.guild_id, kind },
            },
        )),
{
    crate::text::middles_stand(
        "⛔ **"@,
        pre.request.player_display_name@,
        "** was temporarily suspended from matchmaking by an admin."@,
    );
    match (pre.at, event) {
        (EjectAt::Removing { kind, rest }, Event::Outcome(removed)) => {
            if removed == Ok::<bool, WorkFailure>(true) {
                assert(turn.before@.contains(turn.before@[0]));
                assert(turn.before@.contains(turn.before@[1]));
                assert(turn.before@.contains(turn.before@[2]));
            }
            if let Err(failure) = removed {
                crate::text::middles_stand(
                    "suspension lobby task failed: "@,
                    failure.report@,
                    Seq::empty(),
                );
                crate::text::texts_contain_themselves(failure.report@);
            }
            if rest@.len() > 0 {
                assert(seq![rest@[0]] + rest@.drop_first() =~= rest@);
            }
        },
        (EjectAt::Telling { rest, .. }, _) => {
            if rest@.len() > 0 {
                assert(seq![rest@[0]] + rest@.drop_first() =~= rest@);
            }
        },
        _ => {},
    }
}

} // verus!
