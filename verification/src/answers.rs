//! How the turns of a command end: with an answer, with a failure, and always with the scope
//! given free.
use vstd::prelude::*;
use crate::commands::HandlerError;
use crate::kinds::LobbyScope;
use crate::protocol::Action;
use crate::protocol::Next;
use crate::protocol::Turn;
use crate::protocol::whisper_back;

verus! {

/// How a command ends.
pub type Handled = Result<(), HandlerError>;

/// The actions that give a scope free, if one is held.
pub open spec fn frees(before: Seq<Action>, held: Option<LobbyScope>) -> bool {
    match held {
        Some(scope) => before.len() == 1 && before[0] == (Action::Unlock { scope }),
        None => before.len() == 0,
    }
}

/// Gives a scope free, if one is held.
pub fn free(held: Option<LobbyScope>) -> (r: Vec<Action>)
    ensures
        frees(r@, held),
{
    match held {
        Some(scope) => vec![Action::Unlock { scope }],
        None => Vec::new(),
    }
}

/// The command ends with this error, and the scope it held is free.
pub open spec fn errs(turn: Turn<Handled>, held: Option<LobbyScope>, error: HandlerError) -> bool {
    &&& frees(turn.before@, held)
    &&& turn.next == Next::<Handled>::End(Err(error))
}

/// The command ends with this report, and the scope it held is free.
pub open spec fn gives_up(turn: Turn<Handled>, held: Option<LobbyScope>, text: Seq<char>) -> bool {
    &&& frees(turn.before@, held)
    &&& turn.next matches Next::End(Err(error)) && crate::commands::reports(error, text)
}

/// The command ends with the fate of its answer, and the scope it held is free.
pub open spec fn concludes(
    turn: Turn<Handled>,
    held: Option<LobbyScope>,
    result: Result<(), String>,
) -> bool {
    match result {
        Ok(_) => frees(turn.before@, held) && turn.next == Next::<Handled>::End(Ok(())),
        Err(text) => gives_up(turn, held, text@),
    }
}

/// The turn does nothing but answer the invoker in private.
pub open spec fn answers<R>(turn: Turn<R>, text: Seq<char>) -> bool {
    &&& turn.before@.len() == 0
    &&& turn.next matches Next::Ask(action) && crate::protocol::whispers(action, text)
}

/// Ends a command with an error.
pub fn err(held: Option<LobbyScope>, error: HandlerError) -> (r: Turn<Handled>)
    ensures
        errs(r, held, error),
{
    Turn::end_after(free(held), Err(error))
}

/// Ends a command with a report.
pub fn give_up(held: Option<LobbyScope>, text: String) -> (r: Turn<Handled>)
    ensures
        gives_up(r, held, text@),
{
    Turn::end_after(free(held), Err(HandlerError::Message(text)))
}

/// Ends a command with the fate of its answer.
pub fn conclude(held: Option<LobbyScope>, result: Result<(), String>) -> (r: Turn<Handled>)
    ensures
        concludes(r, held, result),
{
    match result {
        Ok(_) => Turn::end_after(free(held), Ok(())),
        Err(text) => give_up(held, text),
    }
}

/// Answers the invoker in private.
pub fn answer<R>(text: String) -> (r: Turn<R>)
    ensures
        answers(r, text@),
{
    Turn::ask(whisper_back(text))
}

/// The answer to a command that only works in a server.
pub const SERVER_ONLY: &'static str = "This command can only be used in a server.";

/// The answer to a player who is not registered.
pub const NOT_REGISTERED: &'static str = "❌ You're not registered! Use `/player register` first.";

/// A command that ends in failure says so in the given words and gives free what it held; one that
/// concludes does as its last answer went. An answer goes to the invoker alone, with the given text.
pub proof fn endings_say_what_happened(
    failed: Turn<Handled>,
    concluded: Turn<Handled>,
    answered: Turn<Handled>,
    held: LobbyScope,
    text: Seq<char>,
    result: Result<(), String>,
)
    requires
        gives_up(failed, Some(held), text),
        concludes(concluded, Some(held), result),
        answers(answered, text),
    ensures
        failed.does(Action::Unlock { scope: held }),
        failed.next matches Next::End(Err(HandlerError::Message(said))) && said@ == text,
        concluded.does(Action::Unlock { scope: held }),
        result is Ok ==> concluded.next == Next::<Handled>::End(Ok(())),
        result matches Err(why) ==> (concluded.next matches Next::End(
            Err(HandlerError::Message(said)),
        ) && said@ == why@),
        answered.before@.len() == 0 && (answered.next matches Next::Ask(Action::Reply { response })
            && response.ephemeral && response.content@ == text
            && response.allowed_mentions is Nobody),
{
    assert(failed.before@.contains(failed.before@[0]));
    assert(concluded.before@.contains(concluded.before@[0]));
}

} // verus!
