//! Finding the name that a user shows in a server.
use vstd::prelude::*;
use crate::protocol::Action;
use crate::protocol::Event;
use crate::protocol::Turn;

verus! {

/// Where the search for a name stands.
#[derive(Debug, PartialEq, Eq)]
pub enum NamingAt {
    /// The user is being looked up among the members of the server.
    Member,
    /// The user is being looked up by themselves.
    User,
    /// Nothing is left to be done.
    Over,
}

/// A search for a name in progress.
#[derive(Debug, PartialEq, Eq)]
pub struct NamingFlow {
    pub user_id: u64,
    pub at: NamingAt,
}

/// The beginning: a name that came with the reaction is taken, and otherwise the member of the
/// server is looked up.
pub open spec fn naming_starts(
    guild_id: Option<u64>,
    user_id: u64,
    known: Option<String>,
    flow: NamingFlow,
    turn: Turn<Option<String>>,
) -> bool {
    &&& flow.user_id == user_id
    &&& if known is Some {
        flow.at is Over && turn.only_ends(known)
    } else {
        match guild_id {
            None => flow.at is Over && turn.only_ends(None),
            Some(guild_id) => flow.at is Member && turn.only_asks(
                Action::FindMember { guild_id, user_id },
            ),
        }
    }
}

/// One step of the search for a name: a member's name in the server comes before the name that
/// the user has everywhere.
pub open spec fn naming_step(
    pre: NamingFlow,
    event: Event,
    post: NamingFlow,
    turn: Turn<Option<String>>,
) -> bool {
    &&& post.user_id == pre.user_id
    &&& match (pre.at, event) {
        (NamingAt::Member, Event::Member(found)) => match found {
            Ok(Some(member)) => post.at is Over && turn.only_ends(Some(member.display_name)),
            _ => post.at is User && turn.only_asks(Action::FindUser { user_id: pre.user_id }),
        },
        (NamingAt::User, Event::User(found)) => match found {
            Ok(name) => post.at is Over && turn.only_ends(name),
            Err(_) => post.at is Over && turn.only_ends(None),
        },
        _ => post.at == pre.at && turn.waits(),
    }
}

impl NamingFlow {
    /// Begins the search for a name.
    pub fn start(guild_id: Option<u64>, user_id: u64, known: Option<String>) -> (r: (
        NamingFlow,
        Turn<Option<String>>,
    ))
        ensures
            naming_starts(guild_id, user_id, known, r.0, r.1),
            r.1.goes_on(|action: Action| r.0.awaits(action)),
    {
        let (at, turn) = match (known, guild_id) {
            (Some(name), _) => (NamingAt::Over, Turn::end(Some(name))),
            (None, None) => (NamingAt::Over, Turn::end(None)),
            (None, Some(guild_id)) => (
                NamingAt::Member,
                Turn::ask(Action::FindMember { guild_id, user_id }),
            ),
        };
        (NamingFlow { user_id, at }, turn)
    }

    /// Goes on with what came of the last question.
    pub fn resume(self, event: Event) -> (r: (NamingFlow, Turn<Option<String>>))
        ensures
            naming_step(self, event, r.0, r.1),
    {
        let NamingFlow { user_id, at } = self;
        let (at, turn) = match (at, event) {
            (NamingAt::Member, Event::Member(found)) => match found {
                Ok(Some(member)) => (NamingAt::Over, Turn::end(Some(member.display_name))),
                _ => (NamingAt::User, Turn::ask(Action::FindUser { user_id })),
            },
            (NamingAt::User, Event::User(found)) => match found {
                Ok(name) => (NamingAt::Over, Turn::end(name)),
                Err(_) => (NamingAt::Over, Turn::end(None)),
            },
            (at, _) => (at, Turn::wait()),
        };
        (NamingFlow { user_id, at }, turn)
    }
}

impl NamingFlow {
    /// What is waited for: the answer to this question.
    pub open spec fn awaits(self, action: Action) -> bool {
        match self.at {
            NamingAt::Member => action is FindMember,
            NamingAt::User => action is FindUser,
            NamingAt::Over => false,
        }
    }
}

/// Finding a name is never left waiting by the answer to what it asked for: it goes on to its end
/// or to its next question, and waits for the answer to that.
pub proof fn namings_go_on_when_answered(
    pre: NamingFlow,
    asked: Action,
    event: Event,
    post: NamingFlow,
    turn: Turn<Option<String>>,
)
    requires
        naming_step(pre, event, post, turn),
        pre.awaits(asked),
        asked.answered_by(event),
    ensures
        turn.goes_on(|action: Action| post.awaits(action)),
{
}

/// The name that a user shows is the one that came with the reaction, or else the one they go by on
/// the server, or else the one they go by at all; a name is never made up.
pub proof fn users_go_by_their_own_names(
    guild_id: Option<u64>,
    user_id: u64,
    known: Option<String>,
    start: NamingFlow,
    first: Turn<Option<String>>,
    pre: NamingFlow,
    event: Event,
    post: NamingFlow,
    turn: Turn<Option<String>>,
)
    requires
        naming_starts(guild_id, user_id, known, start, first),
        pre.user_id == user_id,
        naming_step(pre, event, post, turn),
    ensures
        known is Some ==> first.only_ends(known),
        known is None ==> match guild_id {
            Some(guild_id) => first.only_asks(Action::FindMember { guild_id, user_id }),
            None => first.only_ends(None),
        },
        start.user_id == user_id && post.user_id == user_id,
        pre.at is Member ==> (event matches Event::Member(found) ==> match found {
            Ok(Some(member)) => turn.only_ends(Some(member.display_name)),
            _ => turn.only_asks(Action::FindUser { user_id }),
        }),
        pre.at is User ==> (event matches Event::User(found) ==> match found {
            Ok(name) => turn.only_ends(name),
            Err(_) => turn.only_ends(None),
        }),
{
}

} // verus!
