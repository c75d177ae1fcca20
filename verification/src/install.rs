use vstd::prelude::*;
use vstd::string::StringExecFns;

verus! {

/// What the closing message says before the list of clients.
pub const MESSAGE_HEAD: &'static str =
    "Roblox Studio MCP is ready to go.\nPlease restart Studio and MCP clients to apply the changes.\n\nMCP Clients set up:\n";

/// What it says after the list.
pub const MESSAGE_TAIL: &'static str =
    "\n\nNote: connecting a third-party LLM to Roblox Studio via an MCP server will share your data with that external service provider. Please review their privacy practices carefully before proceeding.\nTo uninstall, delete the MCPStudioPlugin.rbxm from your Plugins directory.";

/// The message that closes an installation: `successes` names the clients
/// that were set up, one to a line.
pub fn get_message(successes: String) -> (message: String)
    ensures
        message@ == MESSAGE_HEAD@ + successes@ + MESSAGE_TAIL@,
{
    let mut message = String::from_str(MESSAGE_HEAD);
    message.append(successes.as_str());
    message.append(MESSAGE_TAIL);
    message
}

/// What became of the installation for one client: the client's name, or the
/// text of the failure.
pub type ClientResult = Result<String, String>;

/// The names of the clients that were set up, in the order of `results`.
pub open spec fn successes_of(results: Seq<ClientResult>) -> Seq<String>
    decreases results.len(),
{
    if results.len() == 0 {
        Seq::empty()
    } else {
        match results.last() {
            Ok(name) => successes_of(results.drop_last()).push(name),
            Err(_) => successes_of(results.drop_last()),
        }
    }
}

/// The failures among `results`, in their order.
pub open spec fn errors_of(results: Seq<ClientResult>) -> Seq<String>
    decreases results.len(),
{
    if results.len() == 0 {
        Seq::empty()
    } else {
        match results.last() {
            Ok(_) => errors_of(results.drop_last()),
            Err(text) => errors_of(results.drop_last()).push(text),
        }
    }
}

/// The names, one to a line: a line break stands between two of them, none
/// before the first or after the last.
pub open spec fn joined_lines(names: Seq<String>) -> Seq<char>
    decreases names.len(),
{
    if names.len() == 0 {
        Seq::empty()
    } else if names.len() == 1 {
        names[0]@
    } else {
        joined_lines(names.drop_last()) + "\n"@ + names.last()@
    }
}

/// Writes the names one to a line.
pub fn join_lines(names: &Vec<String>) -> (text: String)
    ensures
        text@ == joined_lines(names@),
{
    let mut text = String::new();
    let mut i: usize = 0;
    while i < names.len()
        invariant
            i <= names.len(),
            text@ == joined_lines(names@.take(i as int)),
        decreases names.len() - i,
    {
        if i > 0 {
            text.append("\n");
        }
        text.append(names[i].as_str());
        proof {
            let next = names@.take(i + 1);
            assert(next.drop_last() =~= names@.take(i as int));
            assert(next.last() == names@[i as int]);
            if i == 0 {
                assert(joined_lines(names@.take(0)) =~= Seq::<char>::empty());
                assert(text@ =~= names@[0]@);
            }
        }
        i += 1;
    }
    assert(names@.take(names.len() as int) =~= names@);
    text
}

/// The outcome of an installation from what became of it client by client.
/// Where at least one client was set up, the closing message that lists
/// those clients; where none was, the failures.
pub fn install_outcome(results: &Vec<ClientResult>) -> (outcome: Result<String, Vec<String>>)
    ensures
        outcome.is_ok() <==> successes_of(results@).len() > 0,
        match outcome {
            Ok(message) => message@ == MESSAGE_HEAD@ + joined_lines(successes_of(results@))
                + MESSAGE_TAIL@,
            Err(errors) => errors@ == errors_of(results@),
        },
{
    let mut successes: Vec<String> = Vec::new();
    let mut errors: Vec<String> = Vec::new();
    let mut i: usize = 0;
    while i < results.len()
        invariant
            i <= results.len(),
            successes@ == successes_of(results@.take(i as int)),
            errors@ == errors_of(results@.take(i as int)),
        decreases results.len() - i,
    {
        proof {
            let next = results@.take(i + 1);
            assert(next.drop_last() =~= results@.take(i as int));
            assert(next.last() == results@[i as int]);
        }
        match &results[i] {
            Ok(name) => successes.push(name.clone()),
            Err(text) => errors.push(text.clone()),
        }
        i += 1;
    }
    assert(results@.take(results.len() as int) =~= results@);
    if successes.len() == 0 {
        Err(errors)
    } else {
        Ok(get_message(join_lines(&successes)))
    }
}

} // verus!
