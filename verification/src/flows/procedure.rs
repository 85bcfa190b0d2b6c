//! Procedures that other procedures ask for. What is left over is for the surroundings to do.
use vstd::prelude::*;
use crate::flows::board::AnnounceFlow;
use crate::flows::board::BoardFlow;
use crate::flows::board::BoardTask;
use crate::flows::check::CheckFlow;
use crate::flows::check::CheckRequest;
use crate::flows::classify::ClassifyFlow;
use crate::flows::classify::Sightings;
use crate::flows::completion::CompletionFlow;
use crate::flows::display::DisplayFlow;
use crate::flows::display::RemovalFlow;
use crate::flows::display::Shown;
use crate::flows::display::refresh_lobby;
use crate::flows::naming::NamingFlow;
use crate::flows::notices::JoinNotice;
use crate::flows::notices::LeaveNotice;
use crate::flows::notices::Noticed;
use crate::flows::publication::PublicationFlow;
use crate::flows::publication::Ran;
use crate::flows::reconcile::ReconcileFlow;
use crate::flows::seat::SeatFlow;
use crate::flows::seat::Seated;
use crate::kinds::LobbyScope;
use crate::lobby::LobbySnapshot;
use crate::lobby::ReadySync;
use crate::lobby::sync_ready_lobby;
use crate::protocol::Action;
use crate::protocol::Event;
use crate::protocol::Next;
use crate::protocol::Settings;
use crate::protocol::Turn;

verus! {

/// A procedure that was asked for.
#[derive(Debug, PartialEq, Eq)]
pub enum Procedure {
    /// The ready checks take over the current lobby.
    ReadySync { scope: LobbyScope, over: bool },
    /// A lobby is repainted if it has a message.
    Refresh { scope: LobbyScope, over: bool },
    Display(DisplayFlow),
    Removal(RemovalFlow),
    Board(BoardFlow),
    Announce(AnnounceFlow),
    Classify(ClassifyFlow),
    Reconcile(ReconcileFlow),
    Completion(CompletionFlow),
    Check(CheckFlow),
    Publication(PublicationFlow),
    Seat(SeatFlow),
    JoinNotice(JoinNotice),
    LeaveNotice(LeaveNotice),
    Naming(NamingFlow),
}

/// The turn passes on what an inner turn does, and ends with the event that stands for its
/// result.
pub open spec fn relays<R>(
    turn: Turn<Event>,
    inner: Turn<R>,
    as_event: spec_fn(R) -> Event,
) -> bool {
    &&& turn.before@ == inner.before@
    &&& match inner.next {
        Next::Ask(action) => turn.next == Next::<Event>::Ask(action),
        Next::Wait => turn.next is Wait,
        Next::End(result) => turn.next == Next::End(as_event(result)),
    }
}

/// The event for something that is done, well or not.
pub open spec fn shown_event(result: Shown) -> Event {
    Event::Done(result)
}

/// The event for something that is simply done.
pub open spec fn done_event(result: ()) -> Event {
    Event::Done(Ok(()))
}

/// The event for what was seen of players.
pub open spec fn seen_event(seen: Sightings) -> Event {
    Event::Classified { players: seen.players, mentionable: seen.mentionable }
}

/// The event for an attempt to join.
pub open spec fn seated_event(result: Seated) -> Event {
    Event::Presented(result)
}

/// The event for a join that was made known.
pub open spec fn noticed_event(result: Noticed) -> Event {
    Event::JoinPublished(result)
}

/// The event for a ready check that was run.
pub open spec fn ran_event(result: Ran) -> Event {
    Event::CheckRan(result)
}

/// The event for a name that was looked for.
pub open spec fn name_event(name: Option<String>) -> Event {
    Event::Name(name)
}

/// What the ready checks do with the current lobby of a scope.
pub open spec fn taken_over(scope: LobbyScope, lobby: Option<LobbySnapshot>, action: Action) -> bool {
    match lobby {
        Some(lobby) => action matches Action::TakeOver { ready } && crate::lobby::mirrors(
            ready,
            lobby,
            crate::lobby::rfc3339_of_nanos(lobby.created_at_ns as int),
        ),
        None => action == (Action::ForgetCheck { scope }),
    }
}

/// A procedure begins as asked for. Actions that are no procedures are handed back.
pub open spec fn procedure_opens(
    action: Action,
    settings: Settings,
    opened: Result<(Procedure, Turn<Event>), Action>,
) -> bool {
    match action {
        Action::SyncReadyLobby { scope } => opened matches Ok((p, turn)) && p == (
        Procedure::ReadySync { scope, over: false }) && turn.only_asks(Action::ReadLobby { scope }),
        Action::RefreshDisplay { scope } => opened matches Ok((p, turn)) && p == (
        Procedure::Refresh { scope, over: false }) && turn.only_asks(Action::ReadLobby { scope }),
        Action::SyncDisplay { scope } => opened matches Ok((Procedure::Display(flow), turn))
            && flow.scope == scope && flow.at is Reading && turn.only_asks(
            Action::ReadLobby { scope },
        ),
        Action::RemoveReaction { scope, player_id } => opened matches Ok(
            (Procedure::Removal(flow), turn),
        ) && flow.player_id == player_id && flow.at is Reading && turn.only_asks(
            Action::ReadLobby { scope },
        ),
        Action::PaintCheck { channel_id, message_id, board } => opened matches Ok(
            (Procedure::Board(flow), turn),
        ) && flow == (BoardFlow {
            task: BoardTask::Paint { channel_id, message_id },
            board,
            at: crate::flows::board::BoardAt::Describing,
        }) && turn.only_asks(
            Action::DescribeCheck {
                players: board.players@.dom().len() as usize,
                threshold: settings.config.ready_threshold,
            },
        ),
        Action::PostCheck { channel_id, board } => opened matches Ok(
            (Procedure::Board(flow), turn),
        ) && flow == (BoardFlow {
            task: BoardTask::Post { channel_id },
            board,
            at: crate::flows::board::BoardAt::Describing,
        }) && turn.only_asks(
            Action::DescribeCheck {
                players: board.players@.dom().len() as usize,
                threshold: settings.config.ready_threshold,
            },
        ),
        Action::Announce { channel_id, kind, threshold } => opened matches Ok(
            (Procedure::Announce(flow), turn),
        ) && flow == (AnnounceFlow { channel_id, at: crate::flows::board::BoardAt::Describing })
            && turn.only_asks(Action::WordAnnouncement { kind, threshold }),
        Action::Classify { lobby } => opened matches Ok((Procedure::Classify(flow), turn)) && (
        exists|inner: Turn<Sightings>| #[trigger]
            crate::flows::classify::classify_starts(lobby, flow, inner) && relays(
                turn,
                inner,
                |seen| seen_event(seen),
            )),
        Action::SyncReadycheck { scope } => opened matches Ok((Procedure::Reconcile(flow), turn))
            && (exists|inner: Turn<()>| #[trigger]
            crate::flows::reconcile::reconcile_starts(scope, flow, inner) && relays(
                turn,
                inner,
                |result| done_event(result),
            )),
        Action::NotifyCompletion { scope, message_id } => opened matches Ok(
            (Procedure::Completion(flow), turn),
        ) && flow == (CompletionFlow {
            scope,
            message_id,
            threshold: settings.config.ready_threshold,
            at: crate::flows::completion::CompletionAt::Claiming,
        }) && turn.only_asks(
            Action::TakeCompletion {
                scope,
                message_id,
                threshold: settings.config.ready_threshold,
            },
        ),
        Action::RunReadycheck { scope, invoker_id, channel_id, confirm_invoker, mirror_invocation }
            => opened matches Ok((Procedure::Check(flow), turn)) && (exists|inner: Turn<Ran>|
            #[trigger]
            crate::flows::check::check_starts(
                (CheckRequest { scope, invoker_id, channel_id, confirm_invoker, mirror_invocation }),
                flow,
                inner,
            ) && relays(turn, inner, |result| ran_event(result))),
        Action::ExecutePlan { order } => opened matches Ok((Procedure::Publication(flow), turn))
            && flow.order == order && (exists|inner: Turn<Ran>| #[trigger]
            crate::flows::publication::tidies(order, 0, flow.at, inner) && relays(
                turn,
                inner,
                |result| ran_event(result),
            )),
        Action::JoinRegistered { scope, player_id, has_roles } => opened matches Ok(
            (Procedure::Seat(flow), turn),
        ) && (exists|inner: Turn<Seated>| #[trigger]
            crate::flows::seat::seat_starts(scope, player_id, has_roles, flow, inner) && relays(
                turn,
                inner,
                |result| seated_event(result),
            )),
        Action::PublishJoin { scope, joiner, raw_reaction } => opened matches Ok(
            (Procedure::JoinNotice(flow), turn),
        ) && flow == (JoinNotice { scope, joiner, raw_reaction, over: false }) && (exists|
            inner: Turn<Noticed>,
        | #[trigger]
            crate::flows::notices::join_notice_starts(scope, inner) && relays(
                turn,
                inner,
                |result| noticed_event(result),
            )),
        Action::PublishLeave { scope, player_id, display_name, raw_reaction } => opened matches Ok(
            (Procedure::LeaveNotice(flow), turn),
        ) && flow == (LeaveNotice { scope, player_id, display_name, raw_reaction, over: false }) && (
        exists|inner: Turn<()>| #[trigger]
            crate::flows::notices::leave_notice_starts(scope, player_id, inner) && relays(
                turn,
                inner,
                |result| done_event(result),
            )),
        Action::ResolveName { guild_id, user_id, known } => opened matches Ok(
            (Procedure::Naming(flow), turn),
        ) && (exists|inner: Turn<Option<String>>| #[trigger]
            crate::flows::naming::naming_starts(guild_id, user_id, known, flow, inner) && relays(
                turn,
                inner,
                |name| name_event(name),
            )),
        _ => opened == Err::<(Procedure, Turn<Event>), Action>(action),
    }
}

/// One step of a procedure: that of the procedure itself, passed on.
pub open spec fn procedure_step(
    pre: Procedure,
    event: Event,
    post: Procedure,
    turn: Turn<Event>,
    settings: Settings,
) -> bool {
    match pre {
        Procedure::ReadySync { scope, over } => match event {
            Event::Lobby(lobby) => if over {
                post == pre && turn.waits()
            } else {
                &&& post == (Procedure::ReadySync { scope, over: true })
                &&& turn.before@.len() == 1
                &&& taken_over(scope, lobby, turn.before@[0])
                &&& turn.next == Next::End(Event::Done(Ok(())))
            },
            _ => post == pre && turn.waits(),
        },
        Procedure::Refresh { scope, over } => match event {
            Event::Lobby(lobby) => if over {
                post == pre && turn.waits()
            } else {
                &&& post == (Procedure::Refresh { scope, over: true })
                &&& if crate::lobby::displayed(lobby) {
                    turn.before@.len() == 1 && turn.before@[0] == (Action::SyncDisplay { scope })
                } else {
                    turn.before@.len() == 0
                }
                &&& turn.next == Next::End(Event::Done(Ok(())))
            },
            _ => post == pre && turn.waits(),
        },
        Procedure::Display(from) => post matches Procedure::Display(to) && (exists|
            inner: Turn<Shown>,
        | #[trigger]
            crate::flows::display::display_step(from, event, to, inner) && relays(
                turn,
                inner,
                |result| shown_event(result),
            )),
        Procedure::Removal(from) => post matches Procedure::Removal(to) && (exists|
            inner: Turn<Shown>,
        | #[trigger]
            crate::flows::display::removal_step(from, event, to, inner) && relays(
                turn,
                inner,
                |result| shown_event(result),
            )),
        Procedure::Board(from) => post matches Procedure::Board(to)
            && crate::flows::board::board_step(from, event, to, turn, settings.wording),
        Procedure::Announce(from) => post matches Procedure::Announce(to)
            && crate::flows::board::announce_step(from, event, to, turn),
        Procedure::Classify(from) => post matches Procedure::Classify(to) && (exists|
            inner: Turn<Sightings>,
        | #[trigger]
            crate::flows::classify::classify_step(from, event, to, inner) && relays(
                turn,
                inner,
                |seen| seen_event(seen),
            )),
        Procedure::Reconcile(from) => post matches Procedure::Reconcile(to) && (exists|
            inner: Turn<()>,
        | #[trigger]
            crate::flows::reconcile::reconcile_step(from, event, to, inner) && relays(
                turn,
                inner,
                |result| done_event(result),
            )),
        Procedure::Completion(from) => post matches Procedure::Completion(to) && (exists|
            inner: Turn<()>,
        | #[trigger]
            crate::flows::completion::completion_step(from, event, to, inner) && relays(
                turn,
                inner,
                |result| done_event(result),
            )),
        Procedure::Check(from) => post matches Procedure::Check(to) && (exists|inner: Turn<Ran>|
            #[trigger]
            crate::flows::check::check_step(from, event, to, inner) && relays(
                turn,
                inner,
                |result| ran_event(result),
            )),
        Procedure::Publication(from) => post matches Procedure::Publication(to) && (exists|
            inner: Turn<Ran>,
        | #[trigger]
            crate::flows::publication::publication_step(
                from,
                event,
                to,
                inner,
                settings.wording,
            ) && relays(turn, inner, |result| ran_event(result))),
        Procedure::Seat(from) => post matches Procedure::Seat(to) && (exists|inner: Turn<Seated>|
            #[trigger]
            crate::flows::seat::seat_step(from, event, to, inner, settings.wording) && relays(
                turn,
                inner,
                |result| seated_event(result),
            )),
        Procedure::JoinNotice(from) => post matches Procedure::JoinNotice(to) && (exists|
            inner: Turn<Noticed>,
        | #[trigger]
            crate::flows::notices::join_notice_step(from, event, to, inner, settings) && relays(
                turn,
                inner,
                |result| noticed_event(result),
            )),
        Procedure::LeaveNotice(from) => post matches Procedure::LeaveNotice(to) && (exists|
            inner: Turn<()>,
        | #[trigger]
            crate::flows::notices::leave_notice_step(from, event, to, inner, settings.wording)
                && relays(turn, inner, |result| done_event(result))),
        Procedure::Naming(from) => post matches Procedure::Naming(to) && (exists|
            inner: Turn<Option<String>>,
        | #[trigger]
            crate::flows::naming::naming_step(from, event, to, inner) && relays(
                turn,
                inner,
                |name| name_event(name),
            )),
    }
}

fn relay_shown(inner: Turn<Shown>) -> (r: Turn<Event>)
    ensures
        relays(r, inner, |result| shown_event(result)),
{
    let next = match inner.next {
        Next::Ask(action) => Next::Ask(action),
        Next::Wait => Next::Wait,
        Next::End(result) => Next::End(Event::Done(result)),
    };
    Turn { before: inner.before, next }
}

fn relay_done(inner: Turn<()>) -> (r: Turn<Event>)
    ensures
        relays(r, inner, |result| done_event(result)),
{
    let next = match inner.next {
        Next::Ask(action) => Next::Ask(action),
        Next::Wait => Next::Wait,
        Next::End(_) => Next::End(Event::Done(Ok(()))),
    };
    Turn { before: inner.before, next }
}

fn relay_seen(inner: Turn<Sightings>) -> (r: Turn<Event>)
    ensures
        relays(r, inner, |seen| seen_event(seen)),
{
    let next = match inner.next {
        Next::Ask(action) => Next::Ask(action),
        Next::Wait => Next::Wait,
        Next::End(seen) => Next::End(
            Event::Classified { players: seen.players, mentionable: seen.mentionable },
        ),
    };
    Turn { before: inner.before, next }
}

fn relay_seated(inner: Turn<Seated>) -> (r: Turn<Event>)
    ensures
        relays(r, inner, |result| seated_event(result)),
{
    let next = match inner.next {
        Next::Ask(action) => Next::Ask(action),
        Next::Wait => Next::Wait,
        Next::End(result) => Next::End(Event::Presented(result)),
    };
    Turn { before: inner.before, next }
}

fn relay_noticed(inner: Turn<Noticed>) -> (r: Turn<Event>)
    ensures
        relays(r, inner, |result| noticed_event(result)),
{
    let next = match inner.next {
        Next::Ask(action) => Next::Ask(action),
        Next::Wait => Next::Wait,
        Next::End(result) => Next::End(Event::JoinPublished(result)),
    };
    Turn { before: inner.before, next }
}

fn relay_ran(inner: Turn<Ran>) -> (r: Turn<Event>)
    ensures
        relays(r, inner, |result| ran_event(result)),
{
    let next = match inner.next {
        Next::Ask(action) => Next::Ask(action),
        Next::Wait => Next::Wait,
        Next::End(result) => Next::End(Event::CheckRan(result)),
    };
    Turn { before: inner.before, next }
}

fn relay_name(inner: Turn<Option<String>>) -> (r: Turn<Event>)
    ensures
        relays(r, inner, |name| name_event(name)),
{
    let next = match inner.next {
        Next::Ask(action) => Next::Ask(action),
        Next::Wait => Next::Wait,
        Next::End(name) => Next::End(Event::Name(name)),
    };
    Turn { before: inner.before, next }
}

fn take_over(scope: LobbyScope, lobby: &Option<LobbySnapshot>) -> (r: Action)
    ensures
        taken_over(scope, *lobby, r),
{
    match sync_ready_lobby(lobby) {
        ReadySync::Put(ready) => Action::TakeOver { ready },
        ReadySync::Forget => Action::ForgetCheck { scope },
    }
}

impl Procedure {
    /// Begins the procedure that an action asks for; an action that asks for none is handed
    /// back.
    pub fn open(action: Action, settings: &Settings) -> (r: Result<
        (Procedure, Turn<Event>),
        Action,
    >)
        ensures
            procedure_opens(action, *settings, r),
    {
        let threshold = settings.config.ready_threshold;
        match action {
            Action::SyncReadyLobby { scope } => Ok(
                (
                    Procedure::ReadySync { scope, over: false },
                    Turn::ask(Action::ReadLobby { scope }),
                ),
            ),
            Action::RefreshDisplay { scope } => Ok(
                (
                    Procedure::Refresh { scope, over: false },
                    Turn::ask(Action::ReadLobby { scope }),
                ),
            ),
            Action::SyncDisplay { scope } => {
                let (flow, inner) = DisplayFlow::start(scope);
                Ok((Procedure::Display(flow), relay_shown(inner)))
            },
            Action::RemoveReaction { scope, player_id } => {
                let (flow, inner) = RemovalFlow::start(scope, player_id);
                Ok((Procedure::Removal(flow), relay_shown(inner)))
            },
            Action::PaintCheck { channel_id, message_id, board } => {
                let task = BoardTask::Paint { channel_id, message_id };
                let (flow, turn) = BoardFlow::start(task, board, threshold);
                Ok((Procedure::Board(flow), turn))
            },
            Action::PostCheck { channel_id, board } => {
                let (flow, turn) = BoardFlow::start(
                    BoardTask::Post { channel_id },
                    board,
                    threshold,
                );
                Ok((Procedure::Board(flow), turn))
            },
            Action::Announce { channel_id, kind, threshold } => {
                let (flow, turn) = AnnounceFlow::start(channel_id, kind, threshold);
                Ok((Procedure::Announce(flow), turn))
            },
            Action::Classify { lobby } => {
                let (flow, inner) = ClassifyFlow::start(lobby);
                let ghost first = inner;
                let turn = relay_seen(inner);
                assert(crate::flows::classify::classify_starts(lobby, flow, first));
                Ok((Procedure::Classify(flow), turn))
            },
            Action::SyncReadycheck { scope } => {
                let (flow, inner) = ReconcileFlow::start(scope);
                let ghost first = inner;
                let turn = relay_done(inner);
                assert(crate::flows::reconcile::reconcile_starts(scope, flow, first));
                Ok((Procedure::Reconcile(flow), turn))
            },
            Action::NotifyCompletion { scope, message_id } => {
                let (flow, inner) = CompletionFlow::start(scope, message_id, threshold);
                Ok((Procedure::Completion(flow), relay_done(inner)))
            },
            Action::RunReadycheck {
                scope,
                invoker_id,
                channel_id,
                confirm_invoker,
                mirror_invocation,
            } => {
                let request = CheckRequest {
                    scope,
                    invoker_id,
                    channel_id,
                    confirm_invoker,
                    mirror_invocation,
                };
                let (flow, inner) = CheckFlow::start(request);
                let ghost first = inner;
                let turn = relay_ran(inner);
                assert(crate::flows::check::check_starts(request, flow, first));
                Ok((Procedure::Check(flow), turn))
            },
            Action::ExecutePlan { order } => {
                let (flow, inner) = PublicationFlow::start(order);
                let ghost first = inner;
                let turn = relay_ran(inner);
                assert(crate::flows::publication::tidies(order, 0, flow.at, first));
                Ok((Procedure::Publication(flow), turn))
            },
            Action::JoinRegistered { scope, player_id, has_roles } => {
                let (flow, inner) = SeatFlow::start(scope, player_id, has_roles);
                let ghost first = inner;
                let turn = relay_seated(inner);
                assert(crate::flows::seat::seat_starts(scope, player_id, has_roles, flow, first));
                Ok((Procedure::Seat(flow), turn))
            },
            Action::PublishJoin { scope, joiner, raw_reaction } => {
                let (flow, inner) = JoinNotice::start(scope, joiner, raw_reaction);
                let ghost first = inner;
                let turn = relay_noticed(inner);
                assert(crate::flows::notices::join_notice_starts(scope, first));
                Ok((Procedure::JoinNotice(flow), turn))
            },
            Action::PublishLeave { scope, player_id, display_name, raw_reaction } => {
                let (flow, inner) = LeaveNotice::start(
                    scope,
                    player_id,
                    display_name,
                    raw_reaction,
                );
                let ghost first = inner;
                let turn = relay_done(inner);
                assert(crate::flows::notices::leave_notice_starts(scope, player_id, first));
                Ok((Procedure::LeaveNotice(flow), turn))
            },
            Action::ResolveName { guild_id, user_id, known } => {
                let (flow, inner) = NamingFlow::start(guild_id, user_id, known);
                let ghost first = inner;
                let turn = relay_name(inner);
                assert(crate::flows::naming::naming_starts(guild_id, user_id, known, flow, first));
                Ok((Procedure::Naming(flow), turn))
            },
            other => Err(other),
        }
    }

    /// Goes on with what came of the last question.
    pub fn resume(self, event: Event, settings: &Settings) -> (r: (Procedure, Turn<Event>))
        ensures
            procedure_step(self, event, r.0, r.1, *settings),
    {
        match self {
            Procedure::ReadySync { scope, over } => match event {
                Event::Lobby(lobby) => if over {
                    (Procedure::ReadySync { scope, over }, Turn::wait())
                } else {
                    (
                        Procedure::ReadySync { scope, over: true },
                        Turn::end_after(vec![take_over(scope, &lobby)], Event::Done(Ok(()))),
                    )
                },
                _ => (Procedure::ReadySync { scope, over }, Turn::wait()),
            },
            Procedure::Refresh { scope, over } => match event {
                Event::Lobby(lobby) => if over {
                    (Procedure::Refresh { scope, over }, Turn::wait())
                } else {
                    let before = match refresh_lobby(scope, &lobby) {
                        Some(action) => vec![action],
                        None => Vec::new(),
                    };
                    (
                        Procedure::Refresh { scope, over: true },
                        Turn::end_after(before, Event::Done(Ok(()))),
                    )
                },
                _ => (Procedure::Refresh { scope, over }, Turn::wait()),
            },
            Procedure::Display(from) => {
                let (to, inner) = from.resume(event);
                let ghost step = inner;
                let turn = relay_shown(inner);
                assert(crate::flows::display::display_step(from, event, to, step));
                (Procedure::Display(to), turn)
            },
            Procedure::Removal(from) => {
                let (to, inner) = from.resume(event);
                let ghost step = inner;
                let turn = relay_shown(inner);
                assert(crate::flows::display::removal_step(from, event, to, step));
                (Procedure::Removal(to), turn)
            },
            Procedure::Board(from) => {
                let (to, turn) = from.resume(event, &settings.wording);
                (Procedure::Board(to), turn)
            },
            Procedure::Announce(from) => {
                let (to, turn) = from.resume(event);
                (Procedure::Announce(to), turn)
            },
            Procedure::Classify(from) => {
                let (to, inner) = from.resume(event);
                let ghost step = inner;
                let turn = relay_seen(inner);
                assert(crate::flows::classify::classify_step(from, event, to, step));
                (Procedure::Classify(to), turn)
            },
            Procedure::Reconcile(from) => {
                let (to, inner) = from.resume(event);
                let ghost step = inner;
                let turn = relay_done(inner);
                assert(crate::flows::reconcile::reconcile_step(from, event, to, step));
                (Procedure::Reconcile(to), turn)
            },
            Procedure::Completion(from) => {
                let (to, inner) = from.resume(event);
                let ghost step = inner;
                let turn = relay_done(inner);
                assert(crate::flows::completion::completion_step(from, event, to, step));
                (Procedure::Completion(to), turn)
            },
            Procedure::Check(from) => {
                let (to, inner) = from.resume(event);
                let ghost step = inner;
                let turn = relay_ran(inner);
                assert(crate::flows::check::check_step(from, event, to, step));
                (Procedure::Check(to), turn)
            },
            Procedure::Publication(from) => {
                let (to, inner) = from.resume(event, &settings.wording);
                let ghost step = inner;
                let turn = relay_ran(inner);
                assert(crate::flows::publication::publication_step(
                    from,
                    event,
                    to,
                    step,
                    settings.wording,
                ));
                (Procedure::Publication(to), turn)
            },
            Procedure::Seat(from) => {
                let (to, inner) = from.resume(event, &settings.wording);
                let ghost step = inner;
                let turn = relay_seated(inner);
                assert(crate::flows::seat::seat_step(from, event, to, step, settings.wording));
                (Procedure::Seat(to), turn)
            },
            Procedure::JoinNotice(from) => {
                let (to, inner) = from.resume(event, settings);
                let ghost step = inner;
                let turn = relay_noticed(inner);
                assert(crate::flows::notices::join_notice_step(from, event, to, step, *settings));
                (Procedure::JoinNotice(to), turn)
            },
            Procedure::LeaveNotice(from) => {
                let (to, inner) = from.resume(event, &settings.wording);
                let ghost step = inner;
                let turn = relay_done(inner);
                assert(crate::flows::notices::leave_notice_step(
                    from,
                    event,
                    to,
                    step,
                    settings.wording,
                ));
                (Procedure::LeaveNotice(to), turn)
            },
            Procedure::Naming(from) => {
                let (to, inner) = from.resume(event);
                let ghost step = inner;
                let turn = relay_name(inner);
                assert(crate::flows::naming::naming_step(from, event, to, step));
                (Procedure::Naming(to), turn)
            },
        }
    }
}

impl Procedure {
    /// What is waited for: the answer to this question.
    pub open spec fn awaits(self, action: Action) -> bool {
        match self {
            Procedure::ReadySync { over, .. } => !over && action is ReadLobby,
            Procedure::Refresh { over, .. } => !over && action is ReadLobby,
            Procedure::Display(flow) => flow.awaits(action),
            Procedure::Removal(flow) => flow.awaits(action),
            Procedure::Board(flow) => flow.awaits(action),
            Procedure::Announce(flow) => flow.awaits(action),
            Procedure::Classify(flow) => flow.awaits(action),
            Procedure::Reconcile(flow) => flow.awaits(action),
            Procedure::Completion(flow) => flow.awaits(action),
            Procedure::Check(flow) => flow.awaits(action),
            Procedure::Publication(flow) => flow.awaits(action),
            Procedure::Seat(flow) => flow.awaits(action),
            Procedure::JoinNotice(flow) => flow.awaits(action),
            Procedure::LeaveNotice(flow) => flow.awaits(action),
            Procedure::Naming(flow) => flow.awaits(action),
        }
    }

    /// This action asks for the procedure.
    pub open spec fn opened_by(self, action: Action) -> bool {
        match self {
            Procedure::ReadySync { .. } => action is SyncReadyLobby,
            Procedure::Refresh { .. } => action is RefreshDisplay,
            Procedure::Display(_) => action is SyncDisplay,
            Procedure::Removal(_) => action is RemoveReaction,
            Procedure::Board(flow) => match flow.task {
                BoardTask::Post { .. } => action is PostCheck,
                BoardTask::Paint { .. } => action is PaintCheck,
            },
            Procedure::Announce(_) => action is Announce,
            Procedure::Classify(_) => action is Classify,
            Procedure::Reconcile(_) => action is SyncReadycheck,
            Procedure::Completion(_) => action is NotifyCompletion,
            Procedure::Check(_) => action is RunReadycheck,
            Procedure::Publication(_) => action is ExecutePlan,
            Procedure::Seat(_) => action is JoinRegistered,
            Procedure::JoinNotice(_) => action is PublishJoin,
            Procedure::LeaveNotice(_) => action is PublishLeave,
            Procedure::Naming(_) => action is ResolveName,
        }
    }
}

/// A procedure that is opened goes on to its end or to its first question, and waits for the
/// answer to that. Where it is over at once, its result answers the action that asked for it.
pub proof fn procedures_open_for_their_action(
    action: Action,
    settings: Settings,
    procedure: Procedure,
    turn: Turn<Event>,
)
    requires
        procedure_opens(action, settings, Ok((procedure, turn))),
    ensures
        procedure.opened_by(action),
        turn.goes_on(|question: Action| procedure.awaits(question)),
        turn.next matches Next::End(event) ==> action.answered_by(event),
{
}

/// A procedure stays the one that was asked for, and what it ends with answers the action that
/// asked for it.
pub proof fn procedures_answer_their_action(
    action: Action,
    pre: Procedure,
    event: Event,
    post: Procedure,
    turn: Turn<Event>,
    settings: Settings,
)
    requires
        pre.opened_by(action),
        procedure_step(pre, event, post, turn, settings),
    ensures
        post.opened_by(action),
        turn.next matches Next::End(answer) ==> action.answered_by(answer),
{
}

/// A procedure is never left waiting by the answer to what it asked for: it goes on to its end or
/// to its next question, and waits for the answer to that.
pub proof fn procedures_go_on_when_answered(
    pre: Procedure,
    asked: Action,
    event: Event,
    post: Procedure,
    turn: Turn<Event>,
    settings: Settings,
)
    requires
        procedure_step(pre, event, post, turn, settings),
        pre.awaits(asked),
        asked.answered_by(event),
    ensures
        turn.goes_on(|action: Action| post.awaits(action)),
{
    match (pre, post) {
        (Procedure::Board(from), Procedure::Board(to)) => {
            crate::flows::board::boards_go_on_when_answered(
                from,
                asked,
                event,
                to,
                turn,
                settings.wording,
            );
        },
        (Procedure::Announce(from), Procedure::Announce(to)) => {
            crate::flows::board::announcements_go_on_when_answered(from, asked, event, to, turn);
        },
        (Procedure::Display(from), Procedure::Display(to)) => {
            let inner = choose|inner: Turn<Shown>| #[trigger]
                crate::flows::display::display_step(from, event, to, inner) && relays(
                    turn,
                    inner,
                    |result| shown_event(result),
                );
            crate::flows::display::displays_go_on_when_answered(from, asked, event, to, inner);
        },
        (Procedure::Removal(from), Procedure::Removal(to)) => {
            let inner = choose|inner: Turn<Shown>| #[trigger]
                crate::flows::display::removal_step(from, event, to, inner) && relays(
                    turn,
                    inner,
                    |result| shown_event(result),
                );
            crate::flows::display::removals_go_on_when_answered(from, asked, event, to, inner);
        },
        (Procedure::Classify(from), Procedure::Classify(to)) => {
            let inner = choose|inner: Turn<Sightings>| #[trigger]
                crate::flows::classify::classify_step(from, event, to, inner) && relays(
                    turn,
                    inner,
                    |seen| seen_event(seen),
                );
            crate::flows::classify::sightings_go_on_when_answered(from, asked, event, to, inner);
        },
        (Procedure::Reconcile(from), Procedure::Reconcile(to)) => {
            let inner = choose|inner: Turn<()>| #[trigger]
                crate::flows::reconcile::reconcile_step(from, event, to, inner) && relays(
                    turn,
                    inner,
                    |result| done_event(result),
                );
            crate::flows::reconcile::reconciliations_go_on_when_answered(
                from,
                asked,
                event,
                to,
                inner,
            );
        },
        (Procedure::Completion(from), Procedure::Completion(to)) => {
            let inner = choose|inner: Turn<()>| #[trigger]
                crate::flows::completion::completion_step(from, event, to, inner) && relays(
                    turn,
                    inner,
                    |result| done_event(result),
                );
            crate::flows::completion::completions_go_on_when_answered(
                from,
                asked,
                event,
                to,
                inner,
            );
        },
        (Procedure::Check(from), Procedure::Check(to)) => {
            let inner = choose|inner: Turn<Ran>| #[trigger]
                crate::flows::check::check_step(from, event, to, inner) && relays(
                    turn,
                    inner,
                    |result| ran_event(result),
                );
            crate::flows::check::checks_go_on_when_answered(from, asked, event, to, inner);
        },
        (Procedure::Publication(from), Procedure::Publication(to)) => {
            let inner = choose|inner: Turn<Ran>| #[trigger]
                crate::flows::publication::publication_step(
                    from,
                    event,
                    to,
                    inner,
                    settings.wording,
                ) && relays(
                    turn,
                    inner,
                    |result| ran_event(result),
                );
            crate::flows::publication::publications_go_on_when_answered(
                from,
                asked,
                event,
                to,
                inner,
                settings.wording,
            );
        },
        (Procedure::Seat(from), Procedure::Seat(to)) => {
            let inner = choose|inner: Turn<Seated>| #[trigger]
                crate::flows::seat::seat_step(from, event, to, inner, settings.wording) && relays(
                    turn,
                    inner,
                    |result| seated_event(result),
                );
            crate::flows::seat::seats_go_on_when_answered(
                from,
                asked,
                event,
                to,
                inner,
                settings.wording,
            );
        },
        (Procedure::JoinNotice(from), Procedure::JoinNotice(to)) => {
            let inner = choose|inner: Turn<Noticed>| #[trigger]
                crate::flows::notices::join_notice_step(from, event, to, inner, settings) && relays(
                    turn,
                    inner,
                    |result| noticed_event(result),
                );
            crate::flows::notices::join_notices_go_on_when_answered(
                from,
                asked,
                event,
                to,
                inner,
                settings,
            );
        },
        (Procedure::LeaveNotice(from), Procedure::LeaveNotice(to)) => {
            let inner = choose|inner: Turn<()>| #[trigger]
                crate::flows::notices::leave_notice_step(
                    from,
                    event,
                    to,
                    inner,
                    settings.wording,
                ) && relays(
                    turn,
                    inner,
                    |result| done_event(result),
                );
            crate::flows::notices::leave_notices_go_on_when_answered(
                from,
                asked,
                event,
                to,
                inner,
                settings.wording,
            );
        },
        (Procedure::Naming(from), Procedure::Naming(to)) => {
            let inner = choose|inner: Turn<Option<String>>| #[trigger]
                crate::flows::naming::naming_step(from, event, to, inner) && relays(
                    turn,
                    inner,
                    |name| name_event(name),
                );
            crate::flows::naming::namings_go_on_when_answered(from, asked, event, to, inner);
        },
        _ => {},
    }
}

/// The procedure that an action opens is about what the action names: the same lobby, player, message,
/// board, check, plan, seat or name, and with the settings that are in force. In particular a ready
/// check runs for the invoker, from the channel and with the confirmation that it was asked for with,
/// and a seat is asked for with the roles that were found.
pub proof fn procedures_are_about_what_was_asked(
    action: Action,
    settings: Settings,
    procedure: Procedure,
    turn: Turn<Event>,
)
    requires
        procedure_opens(action, settings, Ok((procedure, turn))),
    ensures
        match action {
            Action::SyncReadyLobby { scope } => procedure matches Procedure::ReadySync {
                scope: named,
                ..
            } && named == scope && turn.does(Action::ReadLobby { scope }),
            Action::RefreshDisplay { scope } => procedure matches Procedure::Refresh {
                scope: named,
                ..
            } && named == scope && turn.does(Action::ReadLobby { scope }),
            Action::SyncDisplay { scope } => procedure matches Procedure::Display(flow) && flow.scope
                == scope && turn.does(Action::ReadLobby { scope }),
            Action::RemoveReaction { scope, player_id } => procedure matches Procedure::Removal(flow)
                && flow.player_id == player_id && turn.does(Action::ReadLobby { scope }),
            Action::PaintCheck { channel_id, message_id, board } => procedure matches Procedure::Board(
                flow,
            ) && flow.board == board && flow.task == (BoardTask::Paint { channel_id, message_id })
                && (turn.next matches Next::Ask(Action::DescribeCheck { threshold, .. }) && threshold
                == settings.config.ready_threshold),
            Action::PostCheck { channel_id, board } => procedure matches Procedure::Board(flow)
                && flow.board == board && flow.task == (BoardTask::Post { channel_id }) && (
            turn.next matches Next::Ask(Action::DescribeCheck { threshold, .. }) && threshold
                == settings.config.ready_threshold),
            Action::Announce { channel_id, kind, threshold } => procedure matches Procedure::Announce(
                flow,
            ) && flow.channel_id == channel_id && turn.does(
                Action::WordAnnouncement { kind, threshold },
            ),
            Action::Classify { lobby } => procedure matches Procedure::Classify(flow)
                && flow.guild_id == lobby.scope.guild_id && turn.does(
                Action::FindRecent { joined: lobby.player_join_times },
            ),
            Action::SyncReadycheck { scope } => procedure matches Procedure::Reconcile(flow)
                && flow.scope == scope && turn.does(Action::ReadCheck { scope }),
            Action::NotifyCompletion { scope, message_id } => procedure matches Procedure::Completion(
                flow,
            ) && flow.scope == scope && flow.message_id == message_id && flow.threshold
                == settings.config.ready_threshold && turn.does(
                Action::TakeCompletion {
                    scope,
                    message_id,
                    threshold: settings.config.ready_threshold,
                },
            ),
            Action::RunReadycheck {
                scope,
                invoker_id,
                channel_id,
                confirm_invoker,
                mirror_invocation,
            } => procedure matches Procedure::Check(flow) && flow.request.scope == scope
                && flow.request.invoker_id == invoker_id && flow.request.channel_id == channel_id
                && flow.request.confirm_invoker == confirm_invoker && flow.request.mirror_invocation
                == mirror_invocation && turn.does(Action::Lock { scope }) && turn.does(
                Action::ReadLobby { scope },
            ),
            Action::ExecutePlan { order } => procedure matches Procedure::Publication(flow)
                && flow.order == order,
            Action::JoinRegistered { scope, player_id, has_roles } => procedure matches Procedure::Seat(
                flow,
            ) && flow.scope == scope && flow.player_id == player_id && (has_roles == turn.does(
                Action::FindCurfew { scope, player_id },
            )),
            Action::PublishJoin { scope, joiner, raw_reaction } => procedure matches Procedure::JoinNotice(
                flow,
            ) && flow.scope == scope && flow.joiner == joiner && flow.raw_reaction == raw_reaction
                && turn.does(Action::ReadLobby { scope }),
            Action::PublishLeave { scope, player_id, display_name, raw_reaction } => procedure matches Procedure::LeaveNotice(
                flow,
            ) && flow.scope == scope && flow.player_id == player_id && flow.display_name
                == display_name && flow.raw_reaction == raw_reaction && turn.does(
                Action::RemoveReaction { scope, player_id },
            ),
            Action::ResolveName { guild_id, user_id, known } => procedure matches Procedure::Naming(flow)
                && flow.user_id == user_id && (known is Some ==> turn.next == Next::End(
                Event::Name(known),
            )) && (known is None ==> (guild_id matches Some(guild) ==> turn.does(
                Action::FindMember { guild_id: guild, user_id },
            ))),
            _ => false,
        },
{
    match action {
        Action::RunReadycheck { scope, .. } => {
            assert(turn.before@[0] == (Action::Lock { scope }));
        },
        Action::PublishLeave { scope, player_id, .. } => {
            assert(turn.before@[2] == (Action::RemoveReaction { scope, player_id }));
        },
        _ => {},
    }
}

/// A procedure hands on what its flow does, all of it and nothing else, and what its flow ends with.
pub proof fn flows_are_handed_on_unchanged<R>(
    turn: Turn<Event>,
    inner: Turn<R>,
    as_event: spec_fn(R) -> Event,
    action: Action,
    result: R,
)
    requires
        relays(turn, inner, as_event),
    ensures
        turn.does(action) <==> inner.does(action),
        inner.next == Next::<R>::End(result) ==> turn.next == Next::End(as_event(result)),
        inner.next is Wait <==> turn.next is Wait,
{
}

/// What a flow ends with is what whoever asked for it is handed: the outcome of a repaint, what was
/// seen of the players, the presentation of a join, the join that was made known, the outcome of a
/// check, the name that was found.
pub proof fn outcomes_are_handed_on_as_they_are(
    shown: Shown,
    seen: Sightings,
    seated: Seated,
    noticed: Noticed,
    ran: Ran,
    name: Option<String>,
)
    ensures
        shown_event(shown) == Event::Done(shown),
        done_event(()) == Event::Done(Ok(())),
        seen_event(seen) == (Event::Classified {
            players: seen.players,
            mentionable: seen.mentionable,
        }),
        seated_event(seated) == Event::Presented(seated),
        noticed_event(noticed) == Event::JoinPublished(noticed),
        ran_event(ran) == Event::CheckRan(ran),
        name_event(name) == Event::Name(name),
{
}

/// The ready checks take over the lobby that was read, with everybody in it, and forget the one of
/// their scope where there is none; a lobby is repainted exactly if it is shown.
pub proof fn ready_checks_follow_the_lobby(
    pre: Procedure,
    lobby: Option<LobbySnapshot>,
    post: Procedure,
    turn: Turn<Event>,
    settings: Settings,
    id: i64,
)
    requires
        procedure_step(pre, Event::Lobby(lobby), post, turn, settings),
    ensures
        pre matches Procedure::ReadySync { scope, over } ==> (!over ==> turn.before@.len() == 1 && (
        lobby matches Some(lobby) ==> (turn.before@[0] matches Action::TakeOver { ready }
            && ready.scope == lobby.scope && (ready.players@.contains(id)
            <==> lobby.players@.contains(id)) && ready.thread_id == lobby.message_ids.thread_id))
            && (lobby is None ==> turn.before@[0] == (Action::ForgetCheck { scope }))),
        pre matches Procedure::Refresh { scope, over } ==> (!over ==> (turn.does(
            Action::SyncDisplay { scope },
        ) <==> (lobby matches Some(lobby) && lobby.message_ids.channel_id is Some
            && lobby.message_ids.message_id is Some))),
{
    if let Procedure::Refresh { scope, over } = pre {
        if !over && crate::lobby::displayed(lobby) {
            assert(turn.before@.contains(turn.before@[0]));
        }
    }
}

} // verus!
