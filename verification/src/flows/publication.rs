//! Carrying out a planned ready check: tidying up, publishing or refreshing it, and calling the
//! players.
use vstd::prelude::*;
use crate::flows::reaction::READY_EMOJI;
use crate::ids::to_stored;
use crate::ids::to_u64;
use crate::kinds::Wording;
use crate::lobby::LobbySnapshot;
use crate::message::DiscordEmoji;
use crate::message::DiscordMessage;
use crate::message::DiscordMessageReceipt;
use crate::plan::PlanOperation;
use crate::plan::PlanOrder;
use crate::plan::PublicationMode;
use crate::plan::PublicationPermit;
use crate::protocol::Action;
use crate::protocol::Event;
use crate::protocol::Next;
use crate::protocol::Turn;
use crate::readycheck::ReadycheckBoard;
use crate::readycheck::ReadycheckCommandFailure;
use crate::readycheck::ReadycheckGeneration;
use crate::readycheck::ReadycheckRunError;
use crate::readycheck::ReadycheckRunResult;
use crate::readycheck::discord_jump_url;
use crate::readycheck::readycheck_ping;
use crate::roster::initial_reacted;
use crate::sets::common;
use crate::sets::count;

verus! {

/// How a ready check ends.
pub type Ran = Result<ReadycheckRunResult, ReadycheckRunError>;

/// Where a check stands that was published or refreshed. A new one comes with its address.
#[derive(Debug, PartialEq, Eq)]
pub struct Published {
    pub channel_id: i64,
    pub message_id: i64,
    pub receipt_url: Option<String>,
}

/// Where the plan stands.
#[derive(Debug, PartialEq, Eq)]
pub enum PublicationAt {
    /// A lobby is being repainted, and tidying goes on with this operation.
    Tidying { next: usize },
    /// The running check is being read, to be refreshed.
    Refreshing,
    /// The running check is being repainted.
    Painting { channel_id: i64, message_id: i64 },
    /// The lobby is being read, to publish a check in its thread.
    Locating { permit: PublicationPermit },
    /// The new check is being posted.
    Posting { permit: PublicationPermit },
    /// The new check is being made the running one.
    Committing { receipt: DiscordMessageReceipt, channel_id: i64, message_id: i64 },
    /// The players are being called at the check.
    Pinging { published: Published },
    /// The players are being called where the check was asked for.
    Mirroring { published: Published, url: String },
    /// Nothing is left to be done.
    Over,
}

/// A plan being carried out.
#[derive(Debug, PartialEq, Eq)]
pub struct PublicationFlow {
    pub order: PlanOrder,
    pub at: PublicationAt,
}

/// The first id of an operation that Discord cannot have issued.
pub open spec fn operation_fault(operation: PlanOperation) -> Option<i64> {
    match operation {
        PlanOperation::DeleteReadycheck { channel_id, message_id } => crate::lobby::first_bad_id(
            channel_id,
            message_id,
            0,
        ),
        PlanOperation::RemoveDepartedReaction { channel_id, message_id, player_id, emoji }
            => crate::lobby::first_bad_id(channel_id, message_id, player_id),
        _ => None,
    }
}

/// What an operation comes to that needs no answer.
pub open spec fn quiet_action(operation: PlanOperation) -> Option<Action> {
    match operation {
        PlanOperation::DeleteReadycheck { channel_id, message_id } => Some(
            Action::Delete { channel_id: channel_id as u64, message_id: message_id as u64 },
        ),
        PlanOperation::RemoveDepartedReaction { channel_id, message_id, player_id, emoji } => Some(
            Action::Unreact {
                channel_id: channel_id as u64,
                message_id: message_id as u64,
                emoji: DiscordEmoji { name: emoji, id: None },
                user_id: player_id as u64,
            },
        ),
        _ => None,
    }
}

/// The operation interrupts tidying: a lobby has to be repainted, or an id is at fault.
pub open spec fn interrupts(operation: PlanOperation) -> bool {
    operation is SyncLobbyDisplays || operation_fault(operation) is Some
}

/// The first operation from `from` on that interrupts tidying.
pub open spec fn tidied_to(operations: Seq<PlanOperation>, from: int) -> int
    decreases operations.len() - from,
{
    if from < 0 || from >= operations.len() || interrupts(operations[from]) {
        from
    } else {
        tidied_to(operations, from + 1)
    }
}

/// What the operations from `from` up to `to` come to.
pub open spec fn quiet_actions(operations: Seq<PlanOperation>, from: int, to: int) -> Seq<Action>
    decreases to - from,
{
    if from >= to {
        Seq::empty()
    } else {
        match quiet_action(operations[to - 1]) {
            Some(action) => quiet_actions(operations, from, to - 1).push(action),
            None => quiet_actions(operations, from, to - 1),
        }
    }
}

/// The check ends with this report of a failed delivery, after these actions.
pub open spec fn breaks_off(
    post: PublicationAt,
    turn: Turn<Ran>,
    before: Seq<Action>,
    text: Seq<char>,
) -> bool {
    &&& post is Over
    &&& turn.before@ == before
    &&& turn.next matches Next::End(Err(error)) && crate::readycheck::transport_error(error, text)
}

/// Tidying goes on from an operation: up to the next lobby to be repainted, or to the end, where
/// the check is refreshed or published anew.
pub open spec fn tidies(order: PlanOrder, from: int, post: PublicationAt, turn: Turn<Ran>) -> bool {
    let operations = order.plan.operations@;
    let to = tidied_to(operations, from);
    let done = quiet_actions(operations, from, to);
    if to < operations.len() {
        match operation_fault(operations[to]) {
            Some(bad) => breaks_off(
                post,
                turn,
                done,
                crate::ids::bad_snowflake_text(bad as int),
            ),
            None => operations[to] matches PlanOperation::SyncLobbyDisplays { scope } && post == (
            PublicationAt::Tidying { next: (to + 1) as usize }) && turn.before@ == done
                && turn.next == Next::<Ran>::Ask(Action::SyncDisplay { scope }),
        }
    } else if order.plan.mode == PublicationMode::Refresh {
        &&& post is Refreshing
        &&& turn.before@ == done
        &&& turn.next == Next::<Ran>::Ask(Action::ReadCheck { scope: order.plan.scope })
    } else {
        match order.plan.permit {
            None => breaks_off(post, turn, done, "new readycheck plan has no permit"@),
            Some(permit) => {
                &&& post == (PublicationAt::Locating { permit })
                &&& turn.before@ == done
                &&& turn.next == Next::<Ran>::Ask(Action::ReadLobby { scope: order.plan.scope })
            },
        }
    }
}

/// The running check was read: it is repainted.
pub open spec fn refreshes(
    order: PlanOrder,
    check: Option<ReadycheckGeneration>,
    post: PublicationAt,
    turn: Turn<Ran>,
) -> bool {
    match check {
        None => breaks_off(post, turn, Seq::empty(), "readycheck generation disappeared"@),
        Some(generation) => match crate::lobby::first_bad_id(
            generation.channel_id,
            generation.message_id,
            0,
        ) {
            Some(bad) => breaks_off(
                post,
                turn,
                Seq::empty(),
                crate::ids::bad_snowflake_text(bad as int),
            ),
            None => {
                &&& post == (PublicationAt::Painting {
                    channel_id: generation.channel_id,
                    message_id: generation.message_id,
                })
                &&& turn.before@.len() == 0
                &&& turn.next matches Next::Ask(action) && crate::flows::reaction::repaints(
                    action,
                    generation.channel_id as u64,
                    generation.message_id as u64,
                    order.plan.scope,
                    generation,
                )
            },
        },
    }
}

/// The lobby was read: the new check is posted to its thread.
pub open spec fn locates(
    order: PlanOrder,
    permit: PublicationPermit,
    lobby: Option<LobbySnapshot>,
    post: PublicationAt,
    turn: Turn<Ran>,
) -> bool {
    match lobby {
        None => breaks_off(post, turn, Seq::empty(), "lobby disappeared during readycheck"@),
        Some(lobby) => match lobby.message_ids.thread_id {
            None => post is Over && turn.only_ends(
                Err(ReadycheckRunError::Policy(ReadycheckCommandFailure::NoThread)),
            ),
            Some(thread_id) => if thread_id < 0 {
                breaks_off(
                    post,
                    turn,
                    Seq::empty(),
                    crate::ids::bad_snowflake_text(thread_id as int),
                )
            } else {
                &&& post == (PublicationAt::Posting { permit })
                &&& turn.before@.len() == 0
                &&& turn.next matches Next::Ask(Action::PostCheck { channel_id, board })
                    && channel_id == thread_id && board.kind == order.plan.scope.kind
                    && board.players@ == order.players@ && crate::roster::starting_marks(
                    board.reacted@,
                    order.players@,
                    permit.invoker_id,
                    permit.confirm_invoker,
                )
            },
        },
    }
}

/// The new check was posted: it is made the running one. Where it could not be posted, the
/// right to publish is given back.
pub open spec fn is_posted(
    order: PlanOrder,
    permit: PublicationPermit,
    posted: Result<DiscordMessageReceipt, String>,
    post: PublicationAt,
    turn: Turn<Ran>,
) -> bool {
    match posted {
        Err(error) => breaks_off(
            post,
            turn,
            seq![Action::AbortPublication { permit }],
            error@,
        ),
        Ok(receipt) => if receipt.message_id > i64::MAX {
            breaks_off(post, turn, Seq::empty(), "readycheck message id overflow"@)
        } else if receipt.channel_id > i64::MAX {
            breaks_off(post, turn, Seq::empty(), "readycheck channel id overflow"@)
        } else {
            let channel = receipt.channel_id as i64;
            let message = receipt.message_id as i64;
            &&& post == (PublicationAt::Committing {
                receipt,
                channel_id: channel,
                message_id: message,
            })
            &&& turn.before@.len() == 0
            &&& turn.next matches Next::Ask(
                Action::CommitPublication { permit: p, message_id, channel_id, players },
            ) && p == permit && message_id == message && channel_id == channel && players@
                == order.players@
        },
    }
}

/// The action puts the ready reaction on a message.
pub open spec fn offers_ready(action: Action, receipt: DiscordMessageReceipt) -> bool {
    crate::flows::lobby::reacts_with(action, receipt, READY_EMOJI@)
}

/// The new check is the running one: it gets its reaction and the players are called. One that
/// was overtaken is deleted again.
pub open spec fn is_committed(
    order: PlanOrder,
    receipt: DiscordMessageReceipt,
    channel_id: i64,
    message_id: i64,
    applied: bool,
    post: PublicationAt,
    turn: Turn<Ran>,
    wording: Wording,
) -> bool {
    if applied {
        &&& turn.before@.len() > 0
        &&& offers_ready(turn.before@[0], receipt)
        &&& pings(
            order,
            (Published { channel_id, message_id, receipt_url: Some(receipt.jump_url) }),
            seq![turn.before@[0]],
            post,
            turn,
            wording,
        )
    } else {
        breaks_off(
            post,
            turn,
            seq![
                Action::Delete { channel_id: receipt.channel_id, message_id: receipt.message_id },
            ],
            "readycheck publication was superseded"@,
        )
    }
}

/// The action calls the awaited players to this check, in this channel.
pub open spec fn calls_players(
    next: Next<Ran>,
    order: PlanOrder,
    channel: i64,
    url: Option<Seq<char>>,
    wording: Wording,
) -> bool {
    let users = crate::readycheck::called(order.plan.mention_ids@, order.mentionable@);
    next matches Next::Ask(Action::Send { channel_id, message }) && channel_id == channel
        && crate::message::calling_text(
        message,
        crate::readycheck::ping_text(order.plan.scope.kind, users, url, wording),
        users,
    )
}

/// The players are called at the check, after these actions; where there is nobody to call, the
/// call elsewhere is next.
pub open spec fn pings(
    order: PlanOrder,
    published: Published,
    before: Seq<Action>,
    post: PublicationAt,
    turn: Turn<Ran>,
    wording: Wording,
) -> bool {
    if crate::readycheck::called(order.plan.mention_ids@, order.mentionable@).len() == 0 {
        mirrors_call(order, published, before, post, turn, wording)
    } else if published.channel_id < 0 {
        breaks_off(
            post,
            turn,
            before,
            crate::ids::bad_snowflake_text(published.channel_id as int),
        )
    } else {
        &&& post == (PublicationAt::Pinging { published })
        &&& turn.before@ == before
        &&& calls_players(turn.next, order, published.channel_id, None, wording)
    }
}

/// The call is repeated where the check was asked for: it is wanted, that is elsewhere, and
/// there is somebody to call.
pub open spec fn wants_mirror(order: PlanOrder, published: Published) -> bool {
    &&& order.mirror_invocation
    &&& order.invocation_channel_id != published.channel_id
    &&& crate::readycheck::called(order.plan.mention_ids@, order.mentionable@).len() > 0
}

/// The players were called at the check: they are called where it was asked for, if that is
/// wanted, and then the check is over.
pub open spec fn mirrors_call(
    order: PlanOrder,
    published: Published,
    before: Seq<Action>,
    post: PublicationAt,
    turn: Turn<Ran>,
    wording: Wording,
) -> bool {
    match published.receipt_url {
        Some(url) => mirrors_to(order, published, url@, before, post, turn, wording),
        None => match crate::lobby::first_bad_id(
            order.plan.scope.guild_id,
            published.channel_id,
            published.message_id,
        ) {
            Some(bad) => breaks_off(
                post,
                turn,
                before,
                crate::ids::bad_snowflake_text(bad as int),
            ),
            None => mirrors_to(
                order,
                published,
                crate::readycheck::jump_url(
                    order.plan.scope.guild_id,
                    published.channel_id,
                    published.message_id,
                ),
                before,
                post,
                turn,
                wording,
            ),
        },
    }
}

/// The players are called where the check was asked for, if that is wanted; the check stands at
/// this address.
pub open spec fn mirrors_to(
    order: PlanOrder,
    published: Published,
    url: Seq<char>,
    before: Seq<Action>,
    post: PublicationAt,
    turn: Turn<Ran>,
    wording: Wording,
) -> bool {
    if wants_mirror(order, published) {
        if order.invocation_channel_id < 0 {
            breaks_off(
                post,
                turn,
                before,
                crate::ids::bad_snowflake_text(order.invocation_channel_id as int),
            )
        } else {
            &&& post matches PublicationAt::Mirroring { published: p, url: u } && p == published
                && u@ == url
            &&& turn.before@ == before
            &&& calls_players(
                turn.next,
                order,
                order.invocation_channel_id,
                Some(url),
                wording,
            )
        }
    } else {
        finishes(order, published, url, before, post, turn)
    }
}

/// What is reported of a check that was carried out.
pub open spec fn reports_run(
    result: ReadycheckRunResult,
    order: PlanOrder,
    published: Published,
    url: Seq<char>,
) -> bool {
    &&& result.jump_url@ == url
    &&& result.is_refresh == (published.receipt_url is None)
    &&& result.pruned_count == if published.receipt_url is None {
        0
    } else {
        order.plan.pruned_players@.len()
    }
    &&& result.mention_ids@ == order.plan.mention_ids@.intersect(order.mentionable@)
    &&& result.readycheck_channel_id == published.channel_id
}

/// The check is over: completion is announced where it is due, and the run is reported.
pub open spec fn finishes(
    order: PlanOrder,
    published: Published,
    url: Seq<char>,
    before: Seq<Action>,
    post: PublicationAt,
    turn: Turn<Ran>,
) -> bool {
    &&& post is Over
    &&& turn.before@ == before.push(
        Action::NotifyCompletion { scope: order.plan.scope, message_id: published.message_id },
    )
    &&& turn.next matches Next::End(Ok(result)) && reports_run(result, order, published, url)
}

/// One step of a plan being carried out.
pub open spec fn publication_step(
    pre: PublicationFlow,
    event: Event,
    post: PublicationFlow,
    turn: Turn<Ran>,
    wording: Wording,
) -> bool {
    &&& post.order == pre.order
    &&& match (pre.at, event) {
        (PublicationAt::Tidying { next }, Event::Done(Ok(_))) => tidies(
            pre.order,
            next as int,
            post.at,
            turn,
        ),
        (PublicationAt::Tidying { next }, Event::Done(Err(error))) => breaks_off(
            post.at,
            turn,
            Seq::empty(),
            error@,
        ),
        (PublicationAt::Refreshing, Event::Check(check)) => refreshes(
            pre.order,
            check,
            post.at,
            turn,
        ),
        (PublicationAt::Painting { channel_id, message_id }, Event::Done(Ok(_))) => pings(
            pre.order,
            (Published { channel_id, message_id, receipt_url: None }),
            Seq::empty(),
            post.at,
            turn,
            wording,
        ),
        (PublicationAt::Painting { channel_id, message_id }, Event::Done(Err(error))) => breaks_off(
            post.at,
            turn,
            Seq::empty(),
            error@,
        ),
        (PublicationAt::Locating { permit }, Event::Lobby(lobby)) => locates(
            pre.order,
            permit,
            lobby,
            post.at,
            turn,
        ),
        (PublicationAt::Posting { permit }, Event::Posted(posted)) => is_posted(
            pre.order,
            permit,
            posted,
            post.at,
            turn,
        ),
        (
            PublicationAt::Committing { receipt, channel_id, message_id },
            Event::Flag(applied),
        ) => is_committed(
            pre.order,
            receipt,
            channel_id,
            message_id,
            applied,
            post.at,
            turn,
            wording,
        ),
        (PublicationAt::Pinging { published }, Event::Posted(posted)) => match posted {
            Err(error) => breaks_off(post.at, turn, Seq::empty(), error@),
            Ok(_) => mirrors_call(pre.order, published, Seq::empty(), post.at, turn, wording),
        },
        (PublicationAt::Mirroring { published, url }, Event::Posted(posted)) => match posted {
            Err(error) => breaks_off(post.at, turn, Seq::empty(), error@),
            Ok(_) => finishes(pre.order, published, url@, Seq::empty(), post.at, turn),
        },
        _ => post.at == pre.at && turn.waits(),
    }
}

fn break_off(before: Vec<Action>, text: String) -> (r: (PublicationAt, Turn<Ran>))
    ensures
        breaks_off(r.0, r.1, before@, text@),
{
    (PublicationAt::Over, Turn::end_after(before, Err(ReadycheckRunError::Transport(text))))
}

fn copy_text(text: &String) -> (r: String)
    ensures
        r == *text,
{
    text.clone()
}

/// The action of an operation that needs no answer; an id at fault is reported.
fn quiet(operation: &PlanOperation) -> (r: Result<Option<Action>, String>)
    ensures
        match operation_fault(*operation) {
            Some(bad) => r matches Err(text) && text@ == crate::ids::bad_snowflake_text(bad as int),
            None => r == Ok::<Option<Action>, String>(quiet_action(*operation)),
        },
{
    match operation {
        PlanOperation::DeleteReadycheck { channel_id, message_id } => {
            let channel_id = to_u64(*channel_id)?;
            let message_id = to_u64(*message_id)?;
            Ok(Some(Action::Delete { channel_id, message_id }))
        },
        PlanOperation::RemoveDepartedReaction { channel_id, message_id, player_id, emoji } => {
            let channel_id = to_u64(*channel_id)?;
            let message_id = to_u64(*message_id)?;
            let user_id = to_u64(*player_id)?;
            let emoji = DiscordEmoji { name: copy_text(emoji), id: None };
            Ok(Some(Action::Unreact { channel_id, message_id, emoji, user_id }))
        },
        _ => Ok(None),
    }
}

proof fn tidied_further(operations: Seq<PlanOperation>, from: int, to: int)
    requires
        0 <= from <= to < operations.len(),
        tidied_to(operations, from) == tidied_to(operations, to),
        !interrupts(operations[to]),
    ensures
        tidied_to(operations, from) == tidied_to(operations, to + 1),
        quiet_actions(operations, from, to + 1) == match quiet_action(operations[to]) {
            Some(action) => quiet_actions(operations, from, to).push(action),
            None => quiet_actions(operations, from, to),
        },
{
}

fn tidy(order: &PlanOrder, from: usize) -> (r: (PublicationAt, Turn<Ran>))
    ensures
        tidies(*order, from as int, r.0, r.1),
{
    let operations = &order.plan.operations;
    let scope = order.plan.scope;
    let mut before: Vec<Action> = Vec::new();
    let mut to: usize = from;
    while to < operations.len()
        invariant
            from <= to,
            to <= operations.len() || to == from,
            operations == order.plan.operations,
            scope == order.plan.scope,
            tidied_to(operations@, from as int) == tidied_to(operations@, to as int),
            before@ == quiet_actions(operations@, from as int, to as int),
        decreases operations.len() - to,
    {
        let operation = &operations[to];
        match quiet(operation) {
            Err(text) => {
                return break_off(before, text);
            },
            Ok(action) => {
                if let PlanOperation::SyncLobbyDisplays { scope: shown } = operation {
                    return (
                        PublicationAt::Tidying { next: to + 1 },
                        Turn::ask_after(before, Action::SyncDisplay { scope: *shown }),
                    );
                }
                proof {
                    tidied_further(operations@, from as int, to as int);
                }
                if let Some(action) = action {
                    before.push(action);
                }
            },
        }
        to = to + 1;
    }
    if order.plan.mode == PublicationMode::Refresh {
        return (
            PublicationAt::Refreshing,
            Turn::ask_after(before, Action::ReadCheck { scope }),
        );
    }
    match order.plan.permit {
        None => break_off(before, "new readycheck plan has no permit".to_owned()),
        Some(permit) => (
            PublicationAt::Locating { permit },
            Turn::ask_after(before, Action::ReadLobby { scope }),
        ),
    }
}

fn refresh(order: &PlanOrder, check: Option<ReadycheckGeneration>) -> (r: (
    PublicationAt,
    Turn<Ran>,
))
    ensures
        refreshes(*order, check, r.0, r.1),
{
    let generation = match check {
        Some(generation) => generation,
        None => {
            return break_off(Vec::new(), "readycheck generation disappeared".to_owned());
        },
    };
    let channel_id = match to_u64(generation.channel_id) {
        Ok(id) => id,
        Err(text) => {
            return break_off(Vec::new(), text);
        },
    };
    let message_id = match to_u64(generation.message_id) {
        Ok(id) => id,
        Err(text) => {
            return break_off(Vec::new(), text);
        },
    };
    let at = PublicationAt::Painting {
        channel_id: generation.channel_id,
        message_id: generation.message_id,
    };
    let board = ReadycheckBoard {
        kind: order.plan.scope.kind,
        players: generation.player_data,
        reacted: generation.reacted,
    };
    (at, Turn::ask(Action::PaintCheck { channel_id, message_id, board }))
}

fn locate(order: &PlanOrder, permit: PublicationPermit, lobby: Option<LobbySnapshot>) -> (r: (
    PublicationAt,
    Turn<Ran>,
))
    ensures
        locates(*order, permit, lobby, r.0, r.1),
{
    let lobby = match lobby {
        Some(lobby) => lobby,
        None => {
            return break_off(Vec::new(), "lobby disappeared during readycheck".to_owned());
        },
    };
    let thread_id = match lobby.message_ids.thread_id {
        Some(thread_id) => thread_id,
        None => {
            return (
                PublicationAt::Over,
                Turn::end(Err(ReadycheckRunError::Policy(ReadycheckCommandFailure::NoThread))),
            );
        },
    };
    let reacted = initial_reacted(&order.players, permit.invoker_id, permit.confirm_invoker);
    match to_u64(thread_id) {
        Err(text) => break_off(Vec::new(), text),
        Ok(channel_id) => {
            let board = ReadycheckBoard {
                kind: order.plan.scope.kind,
                players: order.players.clone(),
                reacted,
            };
            (
                PublicationAt::Posting { permit },
                Turn::ask(Action::PostCheck { channel_id, board }),
            )
        },
    }
}

fn on_posted(
    order: &PlanOrder,
    permit: PublicationPermit,
    posted: Result<DiscordMessageReceipt, String>,
) -> (r: (PublicationAt, Turn<Ran>))
    ensures
        is_posted(*order, permit, posted, r.0, r.1),
{
    let receipt = match posted {
        Err(error) => {
            let before = vec![Action::AbortPublication { permit }];
            assert(before@ =~= seq![Action::AbortPublication { permit }]);
            return break_off(before, error);
        },
        Ok(receipt) => receipt,
    };
    match (to_stored(receipt.message_id), to_stored(receipt.channel_id)) {
        (Some(message_id), Some(channel_id)) => (
            PublicationAt::Committing { receipt, channel_id, message_id },
            Turn::ask(
                Action::CommitPublication {
                    permit,
                    message_id,
                    channel_id,
                    players: order.players.clone(),
                },
            ),
        ),
        (None, _) => break_off(Vec::new(), "readycheck message id overflow".to_owned()),
        _ => break_off(Vec::new(), "readycheck channel id overflow".to_owned()),
    }
}

fn finish(order: &PlanOrder, published: Published, url: String, before: Vec<Action>) -> (r: (
    PublicationAt,
    Turn<Ran>,
))
    ensures
        finishes(*order, published, url@, before@, r.0, r.1),
{
    let mut before = before;
    before.push(
        Action::NotifyCompletion { scope: order.plan.scope, message_id: published.message_id },
    );
    let is_refresh = published.receipt_url.is_none();
    let pruned_count: usize = if is_refresh {
        0
    } else {
        count(&order.plan.pruned_players)
    };
    let result = ReadycheckRunResult {
        jump_url: url,
        is_refresh,
        pruned_count,
        mention_ids: common(&order.plan.mention_ids, &order.mentionable),
        readycheck_channel_id: published.channel_id,
    };
    (PublicationAt::Over, Turn::end_after(before, Ok(result)))
}

fn mirror_to(
    order: &PlanOrder,
    published: Published,
    url: String,
    before: Vec<Action>,
    wording: &Wording,
) -> (r: (PublicationAt, Turn<Ran>))
    ensures
        mirrors_to(*order, published, url@, before@, r.0, r.1, *wording),
{
    if order.mirror_invocation && order.invocation_channel_id != published.channel_id {
        let call = readycheck_ping(
            order.plan.scope.kind,
            &order.plan.mention_ids,
            &order.mentionable,
            Some(url.as_str()),
            wording,
        );
        if let Some(message) = call {
            return match to_u64(order.invocation_channel_id) {
                Err(text) => break_off(before, text),
                Ok(channel_id) => (
                    PublicationAt::Mirroring { published, url },
                    Turn::ask_after(before, Action::Send { channel_id, message }),
                ),
            };
        }
    }
    finish(order, published, url, before)
}

fn mirror(order: &PlanOrder, published: Published, before: Vec<Action>, wording: &Wording) -> (r: (
    PublicationAt,
    Turn<Ran>,
))
    ensures
        mirrors_call(*order, published, before@, r.0, r.1, *wording),
{
    let known = match &published.receipt_url {
        Some(url) => Some(copy_text(url)),
        None => None,
    };
    let url = match known {
        Some(url) => url,
        None => match discord_jump_url(
            order.plan.scope.guild_id,
            published.channel_id,
            published.message_id,
        ) {
            Ok(url) => url,
            Err(text) => {
                return break_off(before, text);
            },
        },
    };
    mirror_to(order, published, url, before, wording)
}

fn ping(order: &PlanOrder, published: Published, before: Vec<Action>, wording: &Wording) -> (r: (
    PublicationAt,
    Turn<Ran>,
))
    ensures
        pings(*order, published, before@, r.0, r.1, *wording),
{
    let call = readycheck_ping(
        order.plan.scope.kind,
        &order.plan.mention_ids,
        &order.mentionable,
        None,
        wording,
    );
    match call {
        None => mirror(order, published, before, wording),
        Some(message) => match to_u64(published.channel_id) {
            Err(text) => break_off(before, text),
            Ok(channel_id) => (
                PublicationAt::Pinging { published },
                Turn::ask_after(before, Action::Send { channel_id, message }),
            ),
        },
    }
}

fn on_committed(
    order: &PlanOrder,
    receipt: DiscordMessageReceipt,
    channel_id: i64,
    message_id: i64,
    applied: bool,
    wording: &Wording,
) -> (r: (PublicationAt, Turn<Ran>))
    ensures
        is_committed(*order, receipt, channel_id, message_id, applied, r.0, r.1, *wording),
{
    if !applied {
        let take_back = Action::Delete {
            channel_id: receipt.channel_id,
            message_id: receipt.message_id,
        };
        let ghost taken = take_back;
        let before = vec![take_back];
        assert(before@ =~= seq![taken]);
        return break_off(before, "readycheck publication was superseded".to_owned());
    }
    let react = Action::React {
        channel_id: receipt.channel_id,
        message_id: receipt.message_id,
        emoji: DiscordEmoji::unicode(READY_EMOJI),
    };
    let ghost first = react;
    let before = vec![react];
    assert(before@ =~= seq![first]);
    let published = Published { channel_id, message_id, receipt_url: Some(receipt.jump_url) };
    ping(order, published, before, wording)
}


impl PublicationFlow {
    /// Begins to carry a plan out.
    pub fn start(order: PlanOrder) -> (r: (PublicationFlow, Turn<Ran>))
        ensures
            r.0.order == order,
            tidies(order, 0, r.0.at, r.1),
            r.1.goes_on(|action: Action| r.0.awaits(action)),
    {
        let (at, turn) = tidy(&order, 0);
        (PublicationFlow { order, at }, turn)
    }

    /// Goes on with what came of the last question.
    pub fn resume(self, event: Event, wording: &Wording) -> (r: (PublicationFlow, Turn<Ran>))
        ensures
            publication_step(self, event, r.0, r.1, *wording),
    {
        let PublicationFlow { order, at } = self;
        let (at, turn) = match (at, event) {
            (PublicationAt::Tidying { next }, Event::Done(Ok(_))) => tidy(&order, next),
            (PublicationAt::Tidying { next }, Event::Done(Err(error))) => break_off(
                Vec::new(),
                error,
            ),
            (PublicationAt::Refreshing, Event::Check(check)) => refresh(&order, check),
            (PublicationAt::Painting { channel_id, message_id }, Event::Done(Ok(_))) => ping(
                &order,
                Published { channel_id, message_id, receipt_url: None },
                Vec::new(),
                wording,
            ),
            (
                PublicationAt::Painting { channel_id, message_id },
                Event::Done(Err(error)),
            ) => break_off(Vec::new(), error),
            (PublicationAt::Locating { permit }, Event::Lobby(lobby)) => locate(
                &order,
                permit,
                lobby,
            ),
            (PublicationAt::Posting { permit }, Event::Posted(posted)) => on_posted(
                &order,
                permit,
                posted,
            ),
            (
                PublicationAt::Committing { receipt, channel_id, message_id },
                Event::Flag(applied),
            ) => on_committed(&order, receipt, channel_id, message_id, applied, wording),
            (PublicationAt::Pinging { published }, Event::Posted(posted)) => match posted {
                Err(error) => break_off(Vec::new(), error),
                Ok(_) => mirror(&order, published, Vec::new(), wording),
            },
            (PublicationAt::Mirroring { published, url }, Event::Posted(posted)) => match posted {
                Err(error) => break_off(Vec::new(), error),
                Ok(_) => finish(&order, published, url, Vec::new()),
            },
            (at, _) => (at, Turn::wait()),
        };
        (PublicationFlow { order, at }, turn)
    }
}

proof fn quiet_actions_are_quiet(operations: Seq<PlanOperation>, from: int, to: int)
    ensures
        forall|i: int|
            0 <= i < quiet_actions(operations, from, to).len() ==> {
                let action = #[trigger] quiet_actions(operations, from, to)[i];
                action is Delete || action is Unreact
            },
    decreases to - from,
{
    if from < to {
        quiet_actions_are_quiet(operations, from, to - 1);
    }
}

/// Carrying a plan out leaves every lobby as it is.
pub proof fn publication_leaves_lobbies_alone(
    pre: PublicationFlow,
    event: Event,
    post: PublicationFlow,
    turn: Turn<Ran>,
    wording: Wording,
)
    requires
        publication_step(pre, event, post, turn, wording),
    ensures
        crate::locking::leaves_lobbies_alone(turn),
{
    if let PublicationAt::Tidying { next } = pre.at {
        let operations = pre.order.plan.operations@;
        quiet_actions_are_quiet(operations, next as int, tidied_to(operations, next as int));
    }
}

/// Every message that a plan sends may notify exactly the players who are awaited and can be
/// mentioned, in whatever channel it is sent.
pub proof fn calls_notify_only_awaited_players(
    pre: PublicationFlow,
    event: Event,
    post: PublicationFlow,
    turn: Turn<Ran>,
    wording: Wording,
    channel: u64,
    message: DiscordMessage,
)
    requires
        publication_step(pre, event, post, turn, wording),
        turn.next == Next::<Ran>::Ask(Action::Send { channel_id: channel, message }),
    ensures
        message.allowed_mentions matches crate::message::DiscordAllowedMentions::Users(users)
            && users@ == crate::readycheck::called(
            pre.order.plan.mention_ids@,
            pre.order.mentionable@,
        ).to_set(),
{
}

/// A check becomes the running one only once its message stands, under the ids of that message
/// and with the players of the plan.
pub proof fn committed_check_was_posted(
    pre: PublicationFlow,
    event: Event,
    post: PublicationFlow,
    turn: Turn<Ran>,
    wording: Wording,
)
    requires
        publication_step(pre, event, post, turn, wording),
        turn.next matches Next::Ask(Action::CommitPublication { .. }),
    ensures
        pre.at is Posting,
        event matches Event::Posted(Ok(receipt)) && (turn.next matches Next::Ask(
            Action::CommitPublication { permit, message_id, channel_id, players },
        ) && pre.at == (PublicationAt::Posting { permit }) && message_id == receipt.message_id
            && channel_id == receipt.channel_id && players@ == pre.order.players@),
{
}

/// The right to publish is never lost to a failed delivery: where the check cannot be posted, it
/// is given back.
pub proof fn failed_post_gives_the_permit_back(
    pre: PublicationFlow,
    permit: PublicationPermit,
    error: String,
    post: PublicationFlow,
    turn: Turn<Ran>,
    wording: Wording,
)
    requires
        pre.at == (PublicationAt::Posting { permit }),
        publication_step(pre, Event::Posted(Err(error)), post, turn, wording),
    ensures
        turn.before@.contains(Action::AbortPublication { permit }),
        turn.next is End,
{
    assert(turn.before@[0] == (Action::AbortPublication { permit }));
}

/// A plan is where its mode leads: a refresh repaints the running check, and only a new check is
/// posted.
pub open spec fn fits_mode(order: PlanOrder, at: PublicationAt) -> bool {
    let refresh = order.plan.mode == PublicationMode::Refresh;
    match at {
        PublicationAt::Tidying { .. } => true,
        PublicationAt::Refreshing => refresh,
        PublicationAt::Painting { .. } => refresh,
        PublicationAt::Locating { .. } => !refresh,
        PublicationAt::Posting { .. } => !refresh,
        PublicationAt::Committing { .. } => !refresh,
        PublicationAt::Pinging { published } => refresh == (published.receipt_url is None),
        PublicationAt::Mirroring { published, .. } => refresh == (published.receipt_url is None),
        PublicationAt::Over => true,
    }
}

/// What is reported of a check agrees with the plan: it was refreshed exactly where the plan is
/// to refresh, and players were dropped only for a new check.
pub open spec fn reports_plan(result: ReadycheckRunResult, order: PlanOrder) -> bool {
    let refresh = order.plan.mode == PublicationMode::Refresh;
    &&& result.is_refresh == refresh
    &&& result.pruned_count == if refresh {
        0
    } else {
        order.plan.pruned_players@.len()
    }
}

/// A plan begins where its mode leads.
pub proof fn publications_begin_in_their_mode(
    order: PlanOrder,
    flow: PublicationFlow,
    turn: Turn<Ran>,
)
    requires
        flow.order == order,
        tidies(order, 0, flow.at, turn),
    ensures
        fits_mode(order, flow.at),
        !(turn.next matches Next::End(Ok(_))),
{
}

/// Every step stays where the plan's mode leads, and what is reported at the end agrees with it.
pub proof fn publications_keep_to_their_mode(
    pre: PublicationFlow,
    event: Event,
    post: PublicationFlow,
    turn: Turn<Ran>,
    wording: Wording,
)
    requires
        publication_step(pre, event, post, turn, wording),
        fits_mode(pre.order, pre.at),
    ensures
        fits_mode(post.order, post.at),
        turn.next matches Next::End(Ok(result)) ==> reports_plan(result, pre.order),
{
}

/// A run of a plan being carried out: it starts, and every turn follows from what came of the
/// one before.
pub open spec fn publication_run(
    order: PlanOrder,
    first: Turn<Ran>,
    states: Seq<PublicationFlow>,
    events: Seq<Event>,
    turns: Seq<Turn<Ran>>,
    wording: Wording,
) -> bool {
    &&& states.len() == events.len() + 1
    &&& turns.len() == events.len()
    &&& states[0].order == order
    &&& tidies(order, 0, states[0].at, first)
    &&& forall|n: int|
        0 <= n < events.len() ==> publication_step(
            states[n],
            #[trigger] events[n],
            states[n + 1],
            turns[n],
            wording,
        )
}

proof fn runs_keep_to_their_mode(
    order: PlanOrder,
    first: Turn<Ran>,
    states: Seq<PublicationFlow>,
    events: Seq<Event>,
    turns: Seq<Turn<Ran>>,
    wording: Wording,
    n: int,
)
    requires
        publication_run(order, first, states, events, turns, wording),
        0 <= n < states.len(),
    ensures
        states[n].order == order,
        fits_mode(order, states[n].at),
    decreases n,
{
    if n == 0 {
        publications_begin_in_their_mode(order, states[0], first);
    } else {
        runs_keep_to_their_mode(order, first, states, events, turns, wording, n - 1);
        publications_keep_to_their_mode(
            states[n - 1],
            events[n - 1],
            states[n],
            turns[n - 1],
            wording,
        );
    }
}

/// A run of a plan reports a refresh exactly where the plan is to refresh, and counts as dropped
/// the players whom the plan of a new check drops.
pub proof fn runs_report_their_plan(
    order: PlanOrder,
    first: Turn<Ran>,
    states: Seq<PublicationFlow>,
    events: Seq<Event>,
    turns: Seq<Turn<Ran>>,
    wording: Wording,
    n: int,
    result: ReadycheckRunResult,
)
    requires
        publication_run(order, first, states, events, turns, wording),
        0 <= n < turns.len(),
        turns[n].next == Next::<Ran>::End(Ok(result)),
    ensures
        result.is_refresh == (order.plan.mode == PublicationMode::Refresh),
        result.pruned_count == if order.plan.mode == PublicationMode::Refresh {
            0
        } else {
            order.plan.pruned_players@.len()
        },
{
    runs_keep_to_their_mode(order, first, states, events, turns, wording, n);
    publications_keep_to_their_mode(states[n], events[n], states[n + 1], turns[n], wording);
}

impl PublicationFlow {
    /// What is waited for: the answer to this question.
    pub open spec fn awaits(self, action: Action) -> bool {
        match self.at {
            PublicationAt::Tidying { .. } => action is SyncDisplay,
            PublicationAt::Refreshing => action is ReadCheck,
            PublicationAt::Painting { .. } => action is PaintCheck,
            PublicationAt::Locating { .. } => action is ReadLobby,
            PublicationAt::Posting { .. } => action is PostCheck,
            PublicationAt::Committing { .. } => action is CommitPublication,
            PublicationAt::Pinging { .. } => action is Send,
            PublicationAt::Mirroring { .. } => action is Send,
            PublicationAt::Over => false,
        }
    }
}

/// A plan being carried out is never left waiting by the answer to what it asked for: it goes on to
/// its end or to its next question, and waits for the answer to that.
pub proof fn publications_go_on_when_answered(
    pre: PublicationFlow,
    asked: Action,
    event: Event,
    post: PublicationFlow,
    turn: Turn<Ran>,
    wording: Wording,
)
    requires
        publication_step(pre, event, post, turn, wording),
        pre.awaits(asked),
        asked.answered_by(event),
    ensures
        turn.goes_on(|action: Action| post.awaits(action)),
{
}

/// The operation can be done without an answer: it deletes an old check or takes a reaction off,
/// with ids that Discord can have issued, or is nothing to be done at all.
pub open spec fn is_quiet(operation: PlanOperation) -> bool {
    match operation {
        PlanOperation::DeleteReadycheck { channel_id, message_id } => channel_id >= 0 && message_id
            >= 0,
        PlanOperation::RemoveDepartedReaction { channel_id, message_id, player_id, .. } =>
            channel_id >= 0 && message_id >= 0 && player_id >= 0,
        PlanOperation::SyncLobbyDisplays { .. } => false,
        PlanOperation::Other => true,
    }
}

/// The actions do what the operation says.
pub open spec fn is_done(operation: PlanOperation, actions: Seq<Action>) -> bool {
    match operation {
        PlanOperation::DeleteReadycheck { channel_id, message_id } => actions.contains(
            Action::Delete { channel_id: channel_id as u64, message_id: message_id as u64 },
        ),
        PlanOperation::RemoveDepartedReaction { channel_id, message_id, player_id, emoji } =>
            actions.contains(
                Action::Unreact {
                    channel_id: channel_id as u64,
                    message_id: message_id as u64,
                    emoji: DiscordEmoji { name: emoji, id: None },
                    user_id: player_id as u64,
                },
            ),
        _ => true,
    }
}

proof fn quiet_operations_are_done(operations: Seq<PlanOperation>, from: int, to: int, i: int)
    requires
        0 <= from <= i < to <= operations.len(),
    ensures
        is_done(operations[i], quiet_actions(operations, from, to)),
    decreases to - from,
{
    let earlier = quiet_actions(operations, from, to - 1);
    let all = quiet_actions(operations, from, to);
    if i == to - 1 {
        if let Some(action) = quiet_action(operations[to - 1]) {
            assert(all[all.len() - 1] == action);
            assert(all.contains(action));
        }
    } else {
        quiet_operations_are_done(operations, from, to - 1, i);
        assert forall|action: Action| earlier.contains(action) implies all.contains(action) by {
            let k = choose|k: int| 0 <= k < earlier.len() && earlier[k] == action;
            assert(all[k] == action);
        }
    }
}

proof fn tidying_reaches(operations: Seq<PlanOperation>, from: int, i: int)
    requires
        0 <= from <= i <= operations.len(),
        forall|j: int| from <= j < i ==> is_quiet(#[trigger] operations[j]),
    ensures
        tidied_to(operations, from) >= i,
        i < operations.len() && !is_quiet(operations[i]) ==> tidied_to(operations, from) == i,
        tidied_to(operations, from) <= operations.len(),
    decreases operations.len() - from,
{
    if from < i {
        assert(is_quiet(operations[from]));
        tidying_reaches(operations, from + 1, i);
    } else if from < operations.len() && !interrupts(operations[from]) {
        tidying_reaches(operations, from + 1, from + 1);
    }
}

/// Tidying does every operation of the plan, in order: those that need no answer on the way, and a
/// lobby that has to be repainted by asking for that and going on behind it. Only when no operation
/// is left is the check itself taken up, and then according to the plan's mode.
pub proof fn plans_are_tidied_in_full(
    order: PlanOrder,
    from: int,
    post: PublicationAt,
    turn: Turn<Ran>,
    i: int,
)
    requires
        tidies(order, from, post, turn),
        0 <= from <= i <= order.plan.operations@.len(),
        forall|j: int| from <= j < i ==> is_quiet(#[trigger] order.plan.operations@[j]),
    ensures
        forall|j: int|
            from <= j < i ==> is_done(#[trigger] order.plan.operations@[j], turn.before@),
        i < order.plan.operations@.len() ==> (
        order.plan.operations@[i] matches PlanOperation::SyncLobbyDisplays { scope } ==> {
            &&& turn.next == Next::<Ran>::Ask(Action::SyncDisplay { scope })
            &&& post == (PublicationAt::Tidying { next: (i + 1) as usize })
        }),
        i == order.plan.operations@.len() ==> match order.plan.mode {
            PublicationMode::Refresh => turn.next == Next::<Ran>::Ask(
                Action::ReadCheck { scope: order.plan.scope },
            ),
            PublicationMode::New => order.plan.permit is Some ==> turn.next == Next::<Ran>::Ask(
                Action::ReadLobby { scope: order.plan.scope },
            ),
        },
{
    let operations = order.plan.operations@;
    tidying_reaches(operations, from, i);
    let to = tidied_to(operations, from);
    assert forall|j: int| from <= j < i implies is_done(
        #[trigger] operations[j],
        turn.before@,
    ) by {
        quiet_operations_are_done(operations, from, to, j);
    }
}

/// A check was posted before turn `n` and stands here.
pub open spec fn posted_as(events: Seq<Event>, n: int, receipt: DiscordMessageReceipt) -> bool {
    crate::protocol::happened(
        events,
        n,
        Event::Posted(Ok::<DiscordMessageReceipt, String>(receipt)),
    )
}

/// The running check was read before turn `n`, and this was it.
pub open spec fn read_check(events: Seq<Event>, n: int, generation: ReadycheckGeneration) -> bool {
    crate::protocol::happened(events, n, Event::Check(Some(generation)))
}

/// The check stands at these ids: a refreshed one where the running check was read, a new one
/// where it was posted, with the address it got there.
pub open spec fn stands(
    events: Seq<Event>,
    n: int,
    mode: PublicationMode,
    channel_id: i64,
    message_id: i64,
    url: Option<String>,
) -> bool {
    match mode {
        PublicationMode::Refresh => url is None && exists|generation: ReadycheckGeneration|
            #[trigger]
            read_check(events, n, generation) && generation.channel_id == channel_id
                && generation.message_id == message_id,
        PublicationMode::New => exists|receipt: DiscordMessageReceipt| #[trigger]
            posted_as(events, n, receipt) && receipt.channel_id == channel_id && receipt.message_id
                == message_id && url == Some(receipt.jump_url),
    }
}

spec fn keeps_facts(order: PlanOrder, at: PublicationAt, events: Seq<Event>, n: int) -> bool {
    let mode = order.plan.mode;
    match at {
        PublicationAt::Painting { channel_id, message_id } => stands(
            events,
            n,
            PublicationMode::Refresh,
            channel_id,
            message_id,
            None,
        ),
        PublicationAt::Locating { permit } => order.plan.permit == Some(permit),
        PublicationAt::Posting { permit } => order.plan.permit == Some(permit),
        PublicationAt::Committing { receipt, channel_id, message_id } => posted_as(
            events,
            n,
            receipt,
        ) && receipt.channel_id == channel_id && receipt.message_id == message_id,
        PublicationAt::Pinging { published } => stands(
            events,
            n,
            mode,
            published.channel_id,
            published.message_id,
            published.receipt_url,
        ),
        PublicationAt::Mirroring { published, url } => stands(
            events,
            n,
            mode,
            published.channel_id,
            published.message_id,
            published.receipt_url,
        ) && (published.receipt_url matches Some(receipt) ==> url@ == receipt@) && (
        published.receipt_url is None ==> url@ == crate::readycheck::jump_url(
            order.plan.scope.guild_id,
            published.channel_id,
            published.message_id,
        )),
        _ => true,
    }
}

proof fn standing_checks_stay(
    events: Seq<Event>,
    n: int,
    mode: PublicationMode,
    channel_id: i64,
    message_id: i64,
    url: Option<String>,
)
    requires
        0 < n <= events.len(),
        stands(events, n - 1, mode, channel_id, message_id, url),
    ensures
        stands(events, n, mode, channel_id, message_id, url),
{
    crate::protocol::what_happened_stays(events, n);
    match mode {
        PublicationMode::Refresh => {
            let generation = choose|generation: ReadycheckGeneration| #[trigger]
                read_check(events, n - 1, generation) && generation.channel_id == channel_id
                    && generation.message_id == message_id;
            assert(read_check(events, n, generation));
        },
        PublicationMode::New => {
            let receipt = choose|receipt: DiscordMessageReceipt| #[trigger]
                posted_as(events, n - 1, receipt) && receipt.channel_id == channel_id
                    && receipt.message_id == message_id && url == Some(receipt.jump_url);
            assert(posted_as(events, n, receipt));
        },
    }
}

proof fn runs_keep_their_facts(
    order: PlanOrder,
    first: Turn<Ran>,
    states: Seq<PublicationFlow>,
    events: Seq<Event>,
    turns: Seq<Turn<Ran>>,
    wording: Wording,
    n: int,
)
    requires
        publication_run(order, first, states, events, turns, wording),
        0 <= n < states.len(),
    ensures
        states[n].order == order,
        fits_mode(order, states[n].at),
        keeps_facts(order, states[n].at, events, n),
    decreases n,
{
    runs_keep_to_their_mode(order, first, states, events, turns, wording, n);
    if n > 0 {
        runs_keep_their_facts(order, first, states, events, turns, wording, n - 1);
        let (pre, event, post) = (states[n - 1], events[n - 1], states[n]);
        assert(publication_step(pre, event, post, turns[n - 1], wording));
        crate::protocol::what_happened_stays(events, n);
        match pre.at {
            PublicationAt::Refreshing => {
                if let Event::Check(Some(generation)) = event {
                    assert(read_check(events, n, generation));
                }
            },
            PublicationAt::Painting { channel_id, message_id } => {
                standing_checks_stay(
                    events,
                    n,
                    PublicationMode::Refresh,
                    channel_id,
                    message_id,
                    None,
                );
            },
            PublicationAt::Posting { .. } => {
                if let Event::Posted(Ok(receipt)) = event {
                    assert(posted_as(events, n, receipt));
                }
            },
            PublicationAt::Committing { receipt, .. } => {
                assert(posted_as(events, n, receipt));
            },
            PublicationAt::Pinging { published } => {
                standing_checks_stay(
                    events,
                    n,
                    order.plan.mode,
                    published.channel_id,
                    published.message_id,
                    published.receipt_url,
                );
            },
            PublicationAt::Mirroring { published, .. } => {
                standing_checks_stay(
                    events,
                    n,
                    order.plan.mode,
                    published.channel_id,
                    published.message_id,
                    published.receipt_url,
                );
            },
            _ => {},
        }
    }
}

/// A new check is posted to the thread of the lobby that was read, and shows the players of the
/// order; ready from the start are those who joined recently and, where the permit says so, its
/// invoker, and nobody else.
pub proof fn new_checks_show_who_is_ready(
    order: PlanOrder,
    first: Turn<Ran>,
    states: Seq<PublicationFlow>,
    events: Seq<Event>,
    turns: Seq<Turn<Ran>>,
    wording: Wording,
    n: int,
    channel_id: u64,
    board: ReadycheckBoard,
)
    requires
        publication_run(order, first, states, events, turns, wording),
        0 <= n < turns.len(),
        turns[n].next == Next::<Ran>::Ask(Action::PostCheck { channel_id, board }),
    ensures
        events[n] matches Event::Lobby(Some(lobby)) && lobby.message_ids.thread_id == Some(
            channel_id as i64,
        ),
        board.kind == order.plan.scope.kind,
        board.players@ == order.players@,
        order.plan.permit matches Some(permit) && forall|id: i64| #[trigger]
            board.reacted@.dom().contains(id) <==> order.players@.dom().contains(id) && (
            order.players@[id].group is Recent || (permit.confirm_invoker && id
                == permit.invoker_id)),
{
    runs_keep_their_facts(order, first, states, events, turns, wording, n);
    assert(publication_step(states[n], events[n], states[n + 1], turns[n], wording));
}

/// A check that is refreshed is repainted as it was read: on its own message, with its own players
/// and with everybody who confirmed it.
pub proof fn refreshed_checks_keep_their_confirmations(
    order: PlanOrder,
    first: Turn<Ran>,
    states: Seq<PublicationFlow>,
    events: Seq<Event>,
    turns: Seq<Turn<Ran>>,
    wording: Wording,
    n: int,
    channel_id: u64,
    message_id: u64,
    board: ReadycheckBoard,
)
    requires
        publication_run(order, first, states, events, turns, wording),
        0 <= n < turns.len(),
        turns[n].does(Action::PaintCheck { channel_id, message_id, board }),
    ensures
        events[n] matches Event::Check(Some(generation)) && {
            &&& channel_id == generation.channel_id
            &&& message_id == generation.message_id
            &&& board.kind == order.plan.scope.kind
            &&& board.players@ == generation.player_data@
            &&& board.reacted@ == generation.reacted@
        },
{
    runs_keep_their_facts(order, first, states, events, turns, wording, n);
    assert(publication_step(states[n], events[n], states[n + 1], turns[n], wording));
    if let PublicationAt::Tidying { next } = states[n].at {
        let operations = order.plan.operations@;
        quiet_actions_are_quiet(operations, next as int, tidied_to(operations, next as int));
    }
}

/// The players are called where the check stands, and once more where it was asked for if that is
/// wanted and elsewhere; a call names the lobby, and one made elsewhere gives the address of the
/// check: that of the new message, or of the running one.
pub proof fn calls_are_made_at_the_check(
    order: PlanOrder,
    first: Turn<Ran>,
    states: Seq<PublicationFlow>,
    events: Seq<Event>,
    turns: Seq<Turn<Ran>>,
    wording: Wording,
    n: int,
    channel_id: u64,
    message: DiscordMessage,
)
    requires
        publication_run(order, first, states, events, turns, wording),
        0 <= n < turns.len(),
        turns[n].next == Next::<Ran>::Ask(Action::Send { channel_id, message }),
    ensures
        crate::text::contains_text(
            message.response.content@,
            wording.label_of(order.plan.scope.kind),
        ),
        match states[n + 1].at {
            PublicationAt::Pinging { published } => published.channel_id == channel_id && stands(
                events,
                n + 1,
                order.plan.mode,
                published.channel_id,
                published.message_id,
                published.receipt_url,
            ),
            PublicationAt::Mirroring { published, url } => {
                &&& order.mirror_invocation
                &&& order.invocation_channel_id == channel_id
                &&& published.channel_id != channel_id
                &&& crate::text::contains_text(message.response.content@, url@)
                &&& published.receipt_url matches Some(receipt) ==> url@ == receipt@
                &&& published.receipt_url is None ==> url@ == crate::readycheck::jump_url(
                    order.plan.scope.guild_id,
                    published.channel_id,
                    published.message_id,
                )
            },
            _ => false,
        },
{
    runs_keep_their_facts(order, first, states, events, turns, wording, n);
    runs_keep_their_facts(order, first, states, events, turns, wording, n + 1);
    assert(publication_step(states[n], events[n], states[n + 1], turns[n], wording));
    let users = crate::readycheck::called(order.plan.mention_ids@, order.mentionable@);
    let url = match states[n + 1].at {
        PublicationAt::Mirroring { url, .. } => Some(url@),
        _ => None,
    };
    crate::readycheck::calls_name_the_lobby(order.plan.scope.kind, users, url, wording);
}

/// A new check becomes the running one exactly once it was posted and no other overtook it, with
/// its own ids and players; it then gets its reaction, and one that was overtaken is taken down.
pub proof fn posted_checks_are_committed(
    pre: PublicationFlow,
    event: Event,
    post: PublicationFlow,
    turn: Turn<Ran>,
    wording: Wording,
)
    requires
        publication_step(pre, event, post, turn, wording),
    ensures
        pre.at is Posting ==> (event matches Event::Posted(Ok(receipt)) ==> (receipt.message_id
            <= i64::MAX && receipt.channel_id <= i64::MAX ==> (turn.next matches Next::Ask(
            Action::CommitPublication { .. },
        )))),
        pre.at matches PublicationAt::Committing { receipt, .. } ==> match event {
            Event::Flag(true) => turn.before@.len() > 0 && (turn.before@[0] matches Action::React {
                channel_id,
                message_id,
                emoji,
            } && channel_id == receipt.channel_id && message_id == receipt.message_id && emoji.name@
                == "✅"@ && emoji.id is None) && !(turn.next matches Next::Wait),
            Event::Flag(false) => turn.does(
                Action::Delete { channel_id: receipt.channel_id, message_id: receipt.message_id },
            ) && (turn.next matches Next::End(Err(_))),
            _ => turn.next is Wait,
        },
{
    if let (PublicationAt::Committing { .. }, Event::Flag(false)) = (pre.at, event) {
        assert(turn.before@.contains(turn.before@[0]));
    }
}

/// Somebody who can be called is called: after a check was refreshed or became the running one,
/// the players are called at it wherever there is anybody to call; and after that where it was
/// asked for, if that is wanted.
pub proof fn whoever_is_awaited_is_called(
    pre: PublicationFlow,
    event: Event,
    post: PublicationFlow,
    turn: Turn<Ran>,
    wording: Wording,
)
    requires
        publication_step(pre, event, post, turn, wording),
        crate::readycheck::called(
            pre.order.plan.mention_ids@,
            pre.order.mentionable@,
        ).len() > 0,
    ensures
        pre.at matches PublicationAt::Painting { channel_id, message_id } ==> (
        event matches Event::Done(Ok(_)) ==> (channel_id >= 0 ==> post.at is Pinging)),
        pre.at matches PublicationAt::Committing { channel_id, message_id, .. } ==> (event
            == Event::Flag(true) ==> (channel_id >= 0 ==> post.at is Pinging)),
        pre.at matches PublicationAt::Pinging { published } ==> (event matches Event::Posted(Ok(_))
            ==> (published.receipt_url is Some && pre.order.mirror_invocation
            && pre.order.invocation_channel_id != published.channel_id
            && pre.order.invocation_channel_id >= 0 ==> post.at is Mirroring)),
{
}

/// What is reported of a check is what was done: where it stands, the address it has there, and
/// whom it called; and its completion is announced where that is due.
pub proof fn reports_tell_where_the_check_stands(
    order: PlanOrder,
    first: Turn<Ran>,
    states: Seq<PublicationFlow>,
    events: Seq<Event>,
    turns: Seq<Turn<Ran>>,
    wording: Wording,
    n: int,
    result: ReadycheckRunResult,
)
    requires
        publication_run(order, first, states, events, turns, wording),
        0 <= n < turns.len(),
        turns[n].next == Next::<Ran>::End(Ok(result)),
    ensures
        exists|message_id: i64, url: Option<String>|
            {
                &&& #[trigger] stands(
                    events,
                    n + 1,
                    order.plan.mode,
                    result.readycheck_channel_id,
                    message_id,
                    url,
                )
                &&& turns[n].does(
                    Action::NotifyCompletion { scope: order.plan.scope, message_id },
                )
                &&& url matches Some(url) ==> result.jump_url@ == url@
                &&& url is None ==> result.jump_url@ == crate::readycheck::jump_url(
                    order.plan.scope.guild_id,
                    result.readycheck_channel_id,
                    message_id,
                )
            },
        forall|id: i64| #[trigger]
            result.mention_ids@.contains(id) <==> order.plan.mention_ids@.contains(id)
                && order.mentionable@.contains(id),
{
    runs_keep_their_facts(order, first, states, events, turns, wording, n);
    let (pre, event, turn) = (states[n], events[n], turns[n]);
    assert(publication_step(pre, event, states[n + 1], turn, wording));
    crate::protocol::what_happened_stays(events, n + 1);
    let published = match pre.at {
        PublicationAt::Painting { channel_id, message_id } => Published {
            channel_id,
            message_id,
            receipt_url: None,
        },
        PublicationAt::Committing { receipt, channel_id, message_id } => Published {
            channel_id,
            message_id,
            receipt_url: Some(receipt.jump_url),
        },
        PublicationAt::Pinging { published } => published,
        PublicationAt::Mirroring { published, .. } => published,
        _ => arbitrary(),
    };
    if let PublicationAt::Committing { receipt, .. } = pre.at {
        assert(posted_as(events, n, receipt));
        assert(stands(
            events,
            n,
            order.plan.mode,
            published.channel_id,
            published.message_id,
            published.receipt_url,
        ));
    }
    standing_checks_stay(
        events,
        n + 1,
        order.plan.mode,
        published.channel_id,
        published.message_id,
        published.receipt_url,
    );
    let last = turn.before@.len() - 1;
    assert(turn.before@[last] == (Action::NotifyCompletion {
        scope: order.plan.scope,
        message_id: published.message_id,
    }));
}

/// From the request to the message: an invoker who asked for a check that counts them as ready, and
/// who is among the players it was made for, is marked as ready on the board that is posted,
/// however long ago they joined. That the permit keeps what the planner was asked for is the
/// planner's part.
pub proof fn confirmed_invokers_are_ready_on_the_board(
    request: crate::flows::check::CheckRequest,
    check_first: Turn<Ran>,
    check_states: Seq<crate::flows::check::CheckFlow>,
    check_events: Seq<Event>,
    check_turns: Seq<Turn<Ran>>,
    k: int,
    asked: crate::plan::ReadycheckCommandRequest,
    players: std::collections::BTreeMap<i64, crate::readycheck::ReadycheckPlayerData>,
    order: PlanOrder,
    permit: PublicationPermit,
    first: Turn<Ran>,
    states: Seq<PublicationFlow>,
    events: Seq<Event>,
    turns: Seq<Turn<Ran>>,
    wording: Wording,
    n: int,
    channel_id: u64,
    board: ReadycheckBoard,
)
    requires
        crate::flows::check::check_run(
            request,
            check_first,
            check_states,
            check_events,
            check_turns,
        ),
        0 <= k < check_turns.len(),
        check_turns[k].does(Action::PrepareCheck { request: asked, players }),
        order.plan.permit == Some(permit),
        permit.invoker_id == asked.invoker_id,
        permit.confirm_invoker == asked.confirm_invoker,
        publication_run(order, first, states, events, turns, wording),
        0 <= n < turns.len(),
        turns[n].next == Next::<Ran>::Ask(Action::PostCheck { channel_id, board }),
        request.confirm_invoker,
        order.players@.dom().contains(request.invoker_id),
    ensures
        board.reacted@.dom().contains(request.invoker_id),
{
    crate::flows::check::plans_are_asked_for_as_requested(
        request,
        check_first,
        check_states,
        check_events,
        check_turns,
        k,
        asked,
        players,
    );
    new_checks_show_who_is_ready(
        order,
        first,
        states,
        events,
        turns,
        wording,
        n,
        channel_id,
        board,
    );
}

/// A publication that ends because something went wrong reports that in its own words; and one that
/// could not be posted gives its permit back.
pub proof fn publications_report_failures_in_their_own_words(
    pre: PublicationFlow,
    event: Event,
    post: PublicationFlow,
    turn: Turn<Ran>,
    wording: Wording,
    text: Seq<char>,
)
    requires
        publication_step(pre, event, post, turn, wording),
        event.failure() == Some(text),
    ensures
        turn.next is Wait || (turn.next matches Next::End(Err(error)) && (
        error matches crate::readycheck::ReadycheckRunError::Transport(said) && said@ == text)),
        pre.at matches PublicationAt::Posting { permit } ==> (event is Posted ==> turn.does(
            Action::AbortPublication { permit },
        )),
        turn.before@.len() > 0 ==> pre.at is Posting,
{
    if pre.at is Posting && event is Posted {
        assert(turn.before@.contains(turn.before@[0]));
    }
}

/// The check that becomes the running one is the one that was posted: under the permit of the plan,
/// on the message it was posted as, and with the players of the order.
pub proof fn commits_are_of_what_was_posted(
    order: PlanOrder,
    first: Turn<Ran>,
    states: Seq<PublicationFlow>,
    events: Seq<Event>,
    turns: Seq<Turn<Ran>>,
    wording: Wording,
    n: int,
)
    requires
        publication_run(order, first, states, events, turns, wording),
        0 <= n < turns.len(),
    ensures
        turns[n].next matches Next::Ask(
            Action::CommitPublication { permit, message_id, channel_id, players },
        ) ==> {
            &&& order.plan.permit == Some(permit)
            &&& players@ == order.players@
            &&& events[n] matches Event::Posted(Ok(receipt)) && message_id == receipt.message_id
                && channel_id == receipt.channel_id
        },
{
    runs_keep_their_facts(order, first, states, events, turns, wording, n);
    assert(publication_step(states[n], events[n], states[n + 1], turns[n], wording));
}

} // verus!
