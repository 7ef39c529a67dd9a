//! Extraction of the three timestamps of interest from one game's raw data:
//! the scheduled start, the first in-game event (kickoff) and the last
//! in-game event (end).
//!
//! The event sequence is taken in the order the source returned it; an empty
//! sequence leaves kickoff and end absent together. A start that does not
//! parse is fatal for the lookup, never silently defaulted.

use crate::timestamp::{is_valid_timestamp, timestamp_of, Timestamp};
use vstd::prelude::*;

verus! {

/// A raw game descriptor as the primary lookup returns it.
#[derive(Clone, PartialEq, Eq, Debug)]
pub struct GameRecord {
    /// The scheduled start, a `YYYY-MM-DDThh:mm:ssZ` string.
    pub start_date: String,
}

/// One play/occurrence from the event lookup.
#[derive(Clone, PartialEq, Eq, Debug)]
pub struct EventRecord {
    /// The event's wall clock, a `YYYY-MM-DDThh:mm:ssZ` string.
    pub timestamp: String,
}

/// The timestamps of interest for one game. Kickoff and end derive from the
/// same event sequence, so they are present or absent together.
#[derive(Clone, Copy, PartialEq, Eq, Debug)]
pub struct GameTimes {
    pub start: Timestamp,
    pub kickoff: Option<Timestamp>,
    pub end: Option<Timestamp>,
}

impl GameTimes {
    pub open spec fn wf(self) -> bool {
        &&& self.start.wf()
        &&& self.kickoff is Some <==> self.end is Some
        &&& self.kickoff matches Some(t) ==> t.wf()
        &&& self.end matches Some(t) ==> t.wf()
    }
}

/// Why an extraction failed.
#[derive(Clone, Copy, PartialEq, Eq, Structural, Debug)]
pub enum ExtractError {
    /// The game's scheduled start did not parse as a timestamp.
    BadStart,
    /// The first or last event's timestamp did not parse.
    BadEvent,
}

/// Every timestamp the extraction reads parses.
pub open spec fn extraction_ok(game: GameRecord, events: Seq<EventRecord>) -> bool {
    &&& is_valid_timestamp(game.start_date@)
    &&& events.len() > 0 ==> is_valid_timestamp(events[0].timestamp@) && is_valid_timestamp(
        events.last().timestamp@,
    )
}

/// The times a successful extraction yields: the parsed start, and the first
/// and last events' times when any events exist.
pub open spec fn extraction_of(game: GameRecord, events: Seq<EventRecord>) -> GameTimes {
    GameTimes {
        start: timestamp_of(game.start_date@),
        kickoff: if events.len() == 0 {
            None
        } else {
            Some(timestamp_of(events[0].timestamp@))
        },
        end: if events.len() == 0 {
            None
        } else {
            Some(timestamp_of(events.last().timestamp@))
        },
    }
}

/// What `extract` returns on every input.
pub open spec fn extract_spec(game: GameRecord, events: Seq<EventRecord>) -> Result<
    GameTimes,
    ExtractError,
> {
    if !is_valid_timestamp(game.start_date@) {
        Err(ExtractError::BadStart)
    } else if !extraction_ok(game, events) {
        Err(ExtractError::BadEvent)
    } else {
        Ok(extraction_of(game, events))
    }
}

/// Determine start, kickoff and end for one game. Fails exactly when the
/// start, or the first or last event timestamp, does not parse; an empty
/// event sequence is not an error and leaves kickoff and end absent.
pub fn extract(game: &GameRecord, events: &Vec<EventRecord>) -> (r: Result<GameTimes, ExtractError>)
    ensures
        r == extract_spec(*game, events@),
        r matches Ok(t) ==> t.wf(),
{
    let start = match crate::timestamp::parse_timestamp(game.start_date.as_str()) {
        Some(t) => t,
        None => { return Err(ExtractError::BadStart); },
    };
    if events.len() == 0 {
        return Ok(GameTimes { start, kickoff: None, end: None });
    }
    let kickoff = match crate::timestamp::parse_timestamp(events[0].timestamp.as_str()) {
        Some(t) => t,
        None => { return Err(ExtractError::BadEvent); },
    };
    let end = match crate::timestamp::parse_timestamp(
        events[events.len() - 1].timestamp.as_str(),
    ) {
        Some(t) => t,
        None => { return Err(ExtractError::BadEvent); },
    };
    Ok(GameTimes { start, kickoff: Some(kickoff), end: Some(end) })
}

/// A single-element event sequence yields kickoff equal to end; this is the
/// expected outcome, not an error.
pub proof fn lemma_single_event_kickoff_is_end(game: GameRecord, events: Seq<EventRecord>)
    requires
        events.len() == 1,
    ensures
        extraction_of(game, events).kickoff == extraction_of(game, events).end,
{
}

/// Kickoff and end are present exactly when the event sequence is non-empty,
/// whatever the game descriptor.
pub proof fn lemma_kickoff_end_together(game: GameRecord, events: Seq<EventRecord>)
    ensures
        extraction_of(game, events).kickoff is Some <==> events.len() > 0,
        extraction_of(game, events).end is Some <==> events.len() > 0,
{
}

} // verus!
