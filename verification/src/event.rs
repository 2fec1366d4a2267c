use vstd::prelude::*;

verus! {

/// Commands sent to the running components over the command bus.
#[derive(Debug)]
pub enum Command {
    /// Terminate every running trader, with the reason.
    Terminate(String),
    /// A command for the market feed.
    MarketFeed(MarketFeedCommand),
}

/// Commands understood by a market feed.
#[derive(Debug, Clone, Copy, PartialEq, Eq, Structural)]
pub enum MarketFeedCommand {
    /// Read the whole market history from the start.
    LoadHistory,
}

/// What the market feed does on a command from the bus.
#[derive(Debug, Clone, Copy, PartialEq, Eq, Structural)]
pub enum FeedAction {
    /// Replay the stored market history from the start.
    LoadHistory,
}

/// The market feed's answer to a command from the bus: `LoadHistory` loads
/// the stored history; any other command is not meant for the feed (`None`).
pub fn feed_action(command: &Command) -> (r: Option<FeedAction>)
    ensures
        (match command {
            Command::MarketFeed(MarketFeedCommand::LoadHistory) => r == Some(FeedAction::LoadHistory),
            Command::Terminate(_) => r is None,
        }),
{
    match command {
        Command::MarketFeed(MarketFeedCommand::LoadHistory) => Some(FeedAction::LoadHistory),
        Command::Terminate(_) => None,
    }
}

/// What a market generator yields: the next event, a sign that the source is
/// unhealthy, or the end of the data.
#[derive(Debug)]
pub enum Feed<Event> {
    Next(Event),
    Unhealthy,
    Finished,
}

/// What a non-blocking receive from a channel gives.
#[derive(Debug)]
pub enum Polled<Event> {
    /// An event was waiting.
    Received(Event),
    /// Nothing is waiting yet.
    Empty,
    /// The sending side has gone away.
    Disconnected,
}

/// What a market generator makes of one non-blocking receive: a waiting
/// event is the next feed item, a closed channel ends the feed, and an empty
/// channel means polling again (`None`).
pub fn next_feed<Event>(polled: Polled<Event>) -> (r: Option<Feed<Event>>)
    ensures
        (match polled {
            Polled::Received(e) => r matches Some(Feed::Next(x)) && x == e,
            Polled::Empty => r is None,
            Polled::Disconnected => r matches Some(Feed::Finished),
        }),
{
    match polled {
        Polled::Received(event) => Some(Feed::Next(event)),
        Polled::Empty => None,
        Polled::Disconnected => Some(Feed::Finished),
    }
}

} // verus!
