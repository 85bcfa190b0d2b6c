//! The messages of ready checks: posting them, repainting them and announcing their success.
use vstd::prelude::*;
use crate::kinds::LobbyKind;
use crate::kinds::Wording;
use crate::message::DiscordMessage;
use crate::message::DiscordMessageContentMode;
use crate::protocol::Action;
use crate::protocol::Event;
use crate::protocol::Next;
use crate::protocol::Turn;
use crate::readycheck::ReadycheckBoard;
use crate::readycheck::board_message;
use crate::sets::key_count;

verus! {

/// What is done with the message of a ready check.
#[derive(Debug, PartialEq, Eq)]
pub enum BoardTask {
    /// It is posted to a channel.
    Post { channel_id: u64 },
    /// It is put on a message that stands.
    Paint { channel_id: u64, message_id: u64 },
}

/// Where the task stands.
#[derive(Clone, Copy, Debug, PartialEq, Eq, Structural)]
pub enum BoardAt {
    /// The description is being put into words.
    Describing,
    /// The message is on its way.
    Sending,
    /// Nothing is left to be done.
    Over,
}

/// The message of a ready check on its way.
#[derive(Debug, PartialEq, Eq)]
pub struct BoardFlow {
    pub task: BoardTask,
    pub board: ReadycheckBoard,
    pub at: BoardAt,
}

/// The beginning: it is put into words what the check waits for.
pub open spec fn board_starts(
    task: BoardTask,
    board: ReadycheckBoard,
    threshold: usize,
    post: BoardFlow,
    turn: Turn<Event>,
) -> bool {
    &&& post == (BoardFlow { task, board, at: BoardAt::Describing })
    &&& turn.only_asks(
        Action::DescribeCheck { players: board.players@.dom().len() as usize, threshold },
    )
}

/// The description is known: the message is posted, or put on the one that stands.
pub open spec fn board_described(
    flow: BoardFlow,
    description: Seq<char>,
    next: Next<Event>,
    wording: Wording,
) -> bool {
    match flow.task {
        BoardTask::Post { channel_id } => next matches Next::Ask(
            Action::Send { channel_id: to, message },
        ) && to == channel_id && crate::readycheck::board_message_is(
            message,
            flow.board,
            description,
            DiscordMessageContentMode::Replace,
            wording,
        ),
        BoardTask::Paint { channel_id, message_id } => next matches Next::Ask(
            Action::Edit { channel_id: to, message_id: on, message },
        ) && to == channel_id && on == message_id && crate::readycheck::board_message_is(
            message,
            flow.board,
            description,
            DiscordMessageContentMode::Preserve,
            wording,
        ),
    }
}

/// One step of the task; what came of the message ends it.
pub open spec fn board_step(
    pre: BoardFlow,
    event: Event,
    post: BoardFlow,
    turn: Turn<Event>,
    wording: Wording,
) -> bool {
    &&& post.task == pre.task
    &&& post.board == pre.board
    &&& match (pre.at, event) {
        (BoardAt::Describing, Event::Text(description)) => {
            &&& post.at is Sending
            &&& turn.before@.len() == 0
            &&& board_described(pre, description@, turn.next, wording)
        },
        (BoardAt::Sending, Event::Posted(posted)) => if pre.task is Post {
            post.at is Over && turn.only_ends(Event::Posted(posted))
        } else {
            post.at == pre.at && turn.waits()
        },
        (BoardAt::Sending, Event::Done(result)) => if pre.task is Paint {
            post.at is Over && turn.only_ends(Event::Done(result))
        } else {
            post.at == pre.at && turn.waits()
        },
        _ => post.at == pre.at && turn.waits(),
    }
}

impl BoardFlow {
    /// Begins the task.
    pub fn start(task: BoardTask, board: ReadycheckBoard, threshold: usize) -> (r: (
        BoardFlow,
        Turn<Event>,
    ))
        ensures
            board_starts(task, board, threshold, r.0, r.1),
            r.1.goes_on(|action: Action| r.0.awaits(action)),
    {
        let players = key_count(&board.players);
        (
            BoardFlow { task, board, at: BoardAt::Describing },
            Turn::ask(Action::DescribeCheck { players, threshold }),
        )
    }

    /// Goes on with what came of the last question.
    pub fn resume(self, event: Event, wording: &Wording) -> (r: (BoardFlow, Turn<Event>))
        ensures
            board_step(self, event, r.0, r.1, *wording),
    {
        let mut flow = self;
        match (flow.at, event) {
            (BoardAt::Describing, Event::Text(description)) => {
                let action = match &flow.task {
                    BoardTask::Post { channel_id } => Action::Send {
                        channel_id: *channel_id,
                        message: board_message(
                            &flow.board,
                            description,
                            DiscordMessageContentMode::Replace,
                            wording,
                        ),
                    },
                    BoardTask::Paint { channel_id, message_id } => Action::Edit {
                        channel_id: *channel_id,
                        message_id: *message_id,
                        message: board_message(
                            &flow.board,
                            description,
                            DiscordMessageContentMode::Preserve,
                            wording,
                        ),
                    },
                };
                flow.at = BoardAt::Sending;
                (flow, Turn::ask(action))
            },
            (BoardAt::Sending, Event::Posted(posted)) => {
                if let BoardTask::Paint { .. } = flow.task {
                    return (flow, Turn::wait());
                }
                flow.at = BoardAt::Over;
                (flow, Turn::end(Event::Posted(posted)))
            },
            (BoardAt::Sending, Event::Done(result)) => {
                if let BoardTask::Post { .. } = flow.task {
                    return (flow, Turn::wait());
                }
                flow.at = BoardAt::Over;
                (flow, Turn::end(Event::Done(result)))
            },
            _ => (flow, Turn::wait()),
        }
    }
}

/// An announcement on its way.
#[derive(Debug, PartialEq, Eq)]
pub struct AnnounceFlow {
    pub channel_id: u64,
    pub at: BoardAt,
}

/// The beginning: the announcement is put into words.
pub open spec fn announce_starts(
    channel_id: u64,
    kind: LobbyKind,
    threshold: usize,
    post: AnnounceFlow,
    turn: Turn<Event>,
) -> bool {
    &&& post == (AnnounceFlow { channel_id, at: BoardAt::Describing })
    &&& turn.only_asks(Action::WordAnnouncement { kind, threshold })
}

/// One step of an announcement: its words are posted, notifying nobody, and it ends with whether
/// they were.
pub open spec fn announce_step(
    pre: AnnounceFlow,
    event: Event,
    post: AnnounceFlow,
    turn: Turn<Event>,
) -> bool {
    &&& post.channel_id == pre.channel_id
    &&& match (pre.at, event) {
        (BoardAt::Describing, Event::Text(words)) => {
            &&& post.at is Sending
            &&& turn.before@.len() == 0
            &&& turn.next matches Next::Ask(action) && crate::protocol::posts_silently(
                action,
                pre.channel_id,
                words@,
            )
        },
        (BoardAt::Sending, Event::Posted(posted)) => {
            &&& post.at is Over
            &&& match posted {
                Ok(_) => turn.only_ends(Event::Done(Ok(()))),
                Err(error) => turn.only_ends(Event::Done(Err(error))),
            }
        },
        _ => post.at == pre.at && turn.waits(),
    }
}

impl AnnounceFlow {
    /// Begins an announcement.
    pub fn start(channel_id: u64, kind: LobbyKind, threshold: usize) -> (r: (
        AnnounceFlow,
        Turn<Event>,
    ))
        ensures
            announce_starts(channel_id, kind, threshold, r.0, r.1),
            r.1.goes_on(|action: Action| r.0.awaits(action)),
    {
        (
            AnnounceFlow { channel_id, at: BoardAt::Describing },
            Turn::ask(Action::WordAnnouncement { kind, threshold }),
        )
    }

    /// Goes on with what came of the last question.
    pub fn resume(self, event: Event) -> (r: (AnnounceFlow, Turn<Event>))
        ensures
            announce_step(self, event, r.0, r.1),
    {
        let AnnounceFlow { channel_id, at } = self;
        match (at, event) {
            (BoardAt::Describing, Event::Text(words)) => (
                AnnounceFlow { channel_id, at: BoardAt::Sending },
                Turn::ask(Action::Send { channel_id, message: DiscordMessage::silent(words) }),
            ),
            (BoardAt::Sending, Event::Posted(posted)) => {
                let result = match posted {
                    Ok(_) => Ok(()),
                    Err(error) => Err(error),
                };
                (AnnounceFlow { channel_id, at: BoardAt::Over }, Turn::end(Event::Done(result)))
            },
            (at, _) => (AnnounceFlow { channel_id, at }, Turn::wait()),
        }
    }
}

impl BoardFlow {
    /// What is waited for: the answer to this question.
    pub open spec fn awaits(self, action: Action) -> bool {
        match self.at {
            BoardAt::Describing => action is DescribeCheck,
            BoardAt::Sending => match self.task {
                BoardTask::Post { .. } => action is Send,
                BoardTask::Paint { .. } => action is Edit,
            },
            BoardAt::Over => false,
        }
    }
}

/// The message of a ready check is never left waiting by the answer to what it asked for: it goes
/// on to its end or to its next question, and waits for the answer to that.
pub proof fn boards_go_on_when_answered(
    pre: BoardFlow,
    asked: Action,
    event: Event,
    post: BoardFlow,
    turn: Turn<Event>,
    wording: Wording,
)
    requires
        board_step(pre, event, post, turn, wording),
        pre.awaits(asked),
        asked.answered_by(event),
    ensures
        turn.goes_on(|action: Action| post.awaits(action)),
{
}

impl AnnounceFlow {
    /// What is waited for: the answer to this question.
    pub open spec fn awaits(self, action: Action) -> bool {
        match self.at {
            BoardAt::Describing => action is WordAnnouncement,
            BoardAt::Sending => action is Send,
            BoardAt::Over => false,
        }
    }
}

/// An announcement is never left waiting by the answer to what it asked for: it goes on to its end
/// or to its next question, and waits for the answer to that.
pub proof fn announcements_go_on_when_answered(
    pre: AnnounceFlow,
    asked: Action,
    event: Event,
    post: AnnounceFlow,
    turn: Turn<Event>,
)
    requires
        announce_step(pre, event, post, turn),
        pre.awaits(asked),
        asked.answered_by(event),
    ensures
        turn.goes_on(|action: Action| post.awaits(action)),
{
}

/// The card shows this board: the label of its lobby in the title, the description, and in its
/// fields the sections of the board, in order.
pub open spec fn carries_board(
    message: DiscordMessage,
    board: ReadycheckBoard,
    description: Seq<char>,
    wording: Wording,
) -> bool {
    let sections = crate::readycheck::board_sections(board);
    &&& message.allowed_mentions is Nobody
    &&& message.response.embed matches Some(card) && {
        &&& card.title matches Some(title) && crate::text::contains_text(
            title@,
            wording.label_of(board.kind),
        )
        &&& card.description matches Some(text) && text@ == description
        &&& card.fields@.len() == sections.len()
        &&& forall|i: int|
            0 <= i < sections.len() ==> (#[trigger] card.fields@[i]).name@ == sections[i].0
                && card.fields@[i].value@ == sections[i].1
    }
}

/// The board that is asked for is the one that is shown: it is described by the number of its
/// players, posted to the channel it is meant for or put on the message it is meant for, and what
/// came of that is handed back.
pub proof fn boards_are_shown_as_asked(
    task: BoardTask,
    board: ReadycheckBoard,
    threshold: usize,
    start: BoardFlow,
    first: Turn<Event>,
    pre: BoardFlow,
    event: Event,
    post: BoardFlow,
    turn: Turn<Event>,
    wording: Wording,
)
    requires
        board_starts(task, board, threshold, start, first),
        pre.task == task,
        pre.board == board,
        board_step(pre, event, post, turn, wording),
    ensures
        start.task == task && start.board == board && post.task == task && post.board == board,
        first.next matches Next::Ask(Action::DescribeCheck { players, threshold: wanted }) && players
            == board.players@.dom().len() as usize && wanted == threshold,
        pre.at is Describing ==> (event matches Event::Text(description) ==> match task {
            BoardTask::Post { channel_id } => turn.next matches Next::Ask(
                Action::Send { channel_id: to, message },
            ) && to == channel_id && carries_board(message, board, description@, wording)
                && message.content_mode is Replace,
            BoardTask::Paint { channel_id, message_id } => turn.next matches Next::Ask(
                Action::Edit { channel_id: to, message_id: on, message },
            ) && to == channel_id && on == message_id && carries_board(
                message,
                board,
                description@,
                wording,
            ) && message.content_mode is Preserve,
        }),
        pre.at is Sending && task is Post && event is Posted ==> turn.only_ends(event),
        pre.at is Sending && task is Paint && event is Done ==> turn.only_ends(event),
{
    crate::text::middles_stand(
        Seq::empty(),
        wording.label_of(board.kind),
        " Ready Check"@,
    );
}

/// An announcement goes, in the words it was put into, to the channel it is meant for; and whether it
/// got there is handed back.
pub proof fn announcements_are_made_where_asked(
    channel_id: u64,
    kind: LobbyKind,
    threshold: usize,
    start: AnnounceFlow,
    first: Turn<Event>,
    pre: AnnounceFlow,
    event: Event,
    post: AnnounceFlow,
    turn: Turn<Event>,
)
    requires
        announce_starts(channel_id, kind, threshold, start, first),
        pre.channel_id == channel_id,
        announce_step(pre, event, post, turn),
    ensures
        start.channel_id == channel_id && post.channel_id == channel_id,
        first.next == Next::<Event>::Ask(Action::WordAnnouncement { kind, threshold }),
        pre.at is Describing ==> (event matches Event::Text(words) ==> (turn.next matches Next::Ask(
            Action::Send { channel_id: to, message },
        ) && to == channel_id && message.response.content@ == words@
            && message.allowed_mentions is Nobody)),
        pre.at is Sending ==> (event matches Event::Posted(posted) ==> match posted {
            Ok(_) => turn.only_ends(Event::Done(Ok(()))),
            Err(error) => turn.only_ends(Event::Done(Err(error))),
        }),
{
}

} // verus!
