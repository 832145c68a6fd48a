//! Commands of the message-bus service.

use vstd::prelude::*;

verus! {

#[derive(Clone, Copy, Debug, PartialEq, Eq, Structural)]
pub enum SubscriptionError {
    DatabaseError,
    SubscriptionExists,
    SubscriptionDoesNotExist,
    AuthFailed,
    AlreadyAuthorized,
    AuthTimeout,
}

#[derive(Clone, Copy, Debug, PartialEq, Eq, Structural)]
pub enum DataProvider {
    AlpacaCrypto,
    AlpacaStock,
}

/// The name of a provider in stored keys.
pub open spec fn provider_name(p: DataProvider) -> Seq<char> {
    match p {
        DataProvider::AlpacaCrypto => "AlpacaCrypto"@,
        DataProvider::AlpacaStock => "AlpacaStock"@,
    }
}

impl DataProvider {
    pub fn name(&self) -> (r: &'static str)
        ensures
            r@ == provider_name(*self),
    {
        match self {
            DataProvider::AlpacaCrypto => "AlpacaCrypto",
            DataProvider::AlpacaStock => "AlpacaStock",
        }
    }
}

/// A symbol of a provider.
#[derive(Debug, PartialEq, Eq)]
pub struct Subscription {
    pub provider: DataProvider,
    pub symbol: String,
}

impl Clone for Subscription {
    fn clone(&self) -> (r: Subscription)
        ensures
            r == *self,
    {
        Subscription { provider: self.provider, symbol: self.symbol.clone() }
    }
}

/// A command of the service.
#[derive(Debug, PartialEq, Eq)]
pub enum Command {
    ShutDown,
    Sub(Subscription),
    Unsub(Subscription),
    List,
}

/// What a command asks of the subscription manager.
#[derive(Debug, PartialEq, Eq)]
pub enum CommandTask {
    Subscribe(Subscription),
    Unsubscribe(Subscription),
    List,
}

/// The task of a command; `None` where the service is to stop.
pub fn process_command(command: Command) -> (r: Option<CommandTask>)
    ensures
        r == match command {
            Command::ShutDown => None,
            Command::Sub(sub) => Some(CommandTask::Subscribe(sub)),
            Command::Unsub(sub) => Some(CommandTask::Unsubscribe(sub)),
            Command::List => Some(CommandTask::List),
        },
{
    match command {
        Command::ShutDown => None,
        Command::Sub(sub) => Some(CommandTask::Subscribe(sub)),
        Command::Unsub(sub) => Some(CommandTask::Unsubscribe(sub)),
        Command::List => Some(CommandTask::List),
    }
}

/// Each provider has a name of its own.
pub proof fn law_provider_names_are_distinct(a: DataProvider, b: DataProvider)
    ensures
        provider_name(a) == provider_name(b) ==> a == b,
        a is AlpacaCrypto ==> provider_name(a) == "AlpacaCrypto"@,
        a is AlpacaStock ==> provider_name(a) == "AlpacaStock"@,
{
    reveal_strlit("AlpacaCrypto");
    reveal_strlit("AlpacaStock");
    assert("AlpacaCrypto"@.len() == 12 && "AlpacaStock"@.len() == 11);
}

} // verus!
