//! The lookup pipeline's decision core.
//!
//! One lookup runs as a small state machine, from idle through a primary
//! request in flight, then either straight to extraction (outlet variant,
//! whose response is already joined with event data) or through a dependent
//! event request in flight (team variant), and ends published or failed.
//! The embedding program does the transport and decoding and hands every
//! response here as plain values; each function below is the decision taken
//! at one of those transitions, and its result says exactly what to publish
//! or which failure to report. Failures are ordinary values: a failed
//! lookup leaves prior results untouched, and an empty match is a normal
//! outcome, never a failure.

use crate::extract::{extract, extraction_ok, EventRecord, GameRecord};
use crate::records::{assemble, assembled_view, RecordView, ResultRecord, Team};
use crate::timefmt::{converted_seq, format_pair, native_seq};
use crate::zones::{resolve, resolve_spec, TimeZone};
use vstd::prelude::*;
use vstd::string::StringExecFns;

verus! {

/// The error taxonomy of one lookup: the request could not complete, the
/// response did not decode, or a timestamp field did not parse. An empty
/// match set is not in this list on purpose: it is a legitimate outcome.
#[derive(Clone, Copy, PartialEq, Eq, Structural, Debug)]
pub enum FailureKind {
    Transport,
    Decode,
    Parse,
}

/// The label appended to native-clock strings.
pub open spec fn utc_label() -> Seq<char> {
    seq!['U', 'T', 'C']
}

// ---------------------------------------------------------------------------
// Date equality for the outlet variant.
//
// The caller's date picker renders its date with a trailing zone marker,
// while the backend publishes a bare date, so the two sides are compared
// after normalization: trailing spaces are dropped, then one trailing `UTC`
// marker, then trailing spaces again.
// ---------------------------------------------------------------------------

pub open spec fn strip_trailing_spaces(s: Seq<char>) -> Seq<char>
    decreases s.len(),
{
    if s.len() > 0 && s.last() == ' ' {
        strip_trailing_spaces(s.drop_last())
    } else {
        s
    }
}

pub open spec fn strip_utc_suffix(s: Seq<char>) -> Seq<char> {
    if s.len() >= 3 && s.subrange(s.len() - 3, s.len() as int) == seq!['U', 'T', 'C'] {
        s.subrange(0, s.len() - 3)
    } else {
        s
    }
}

pub open spec fn normalized_date(s: Seq<char>) -> Seq<char> {
    strip_trailing_spaces(strip_utc_suffix(strip_trailing_spaces(s)))
}

/// Two date strings name the same day: equal once normalized.
pub open spec fn dates_match(a: Seq<char>, b: Seq<char>) -> bool {
    normalized_date(a) == normalized_date(b)
}

/// Drop trailing spaces from the prefix `s[..end0]`, returning the shorter
/// prefix bound.
fn strip_spaces_upto(s: &str, end0: usize) -> (end: usize)
    requires
        end0 <= s@.len(),
    ensures
        end <= end0,
        s@.subrange(0, end as int) == strip_trailing_spaces(s@.subrange(0, end0 as int)),
{
    let mut end = end0;
    loop
        invariant
            end <= end0 <= s@.len(),
            strip_trailing_spaces(s@.subrange(0, end as int)) == strip_trailing_spaces(
                s@.subrange(0, end0 as int),
            ),
        ensures
            end <= end0,
            s@.subrange(0, end as int) == strip_trailing_spaces(s@.subrange(0, end0 as int)),
        decreases end,
    {
        if end == 0 {
            proof {
                assert(s@.subrange(0, 0) =~= Seq::<char>::empty());
            }
            break;
        }
        let c = s.get_char(end - 1);
        if c != ' ' {
            break;
        }
        proof {
            assert(s@.subrange(0, end as int).drop_last() =~= s@.subrange(0, end as int - 1));
        }
        end = end - 1;
    }
    end
}

/// Normalize a date string for comparison: drop trailing spaces, one
/// trailing `UTC` marker, and trailing spaces again.
pub fn normalize_date(s: &str) -> (t: String)
    ensures
        t@ == normalized_date(s@),
{
    let n = s.unicode_len();
    proof {
        assert(s@.subrange(0, s@.len() as int) =~= s@);
    }
    let end1 = strip_spaces_upto(s, n);
    let ghost t1 = s@.subrange(0, end1 as int);
    let mut end2 = end1;
    if end1 >= 3 {
        let cu = s.get_char(end1 - 3);
        let ct = s.get_char(end1 - 2);
        let cc = s.get_char(end1 - 1);
        if cu == 'U' && ct == 'T' && cc == 'C' {
            end2 = end1 - 3;
            proof {
                assert(t1.subrange(t1.len() - 3, t1.len() as int) =~= seq!['U', 'T', 'C']);
                assert(s@.subrange(0, end2 as int) =~= t1.subrange(0, t1.len() - 3));
            }
        } else {
            proof {
                let suf = t1.subrange(t1.len() - 3, t1.len() as int);
                assert(suf[0] == s@[end1 - 3]);
                assert(suf[1] == s@[end1 - 2]);
                assert(suf[2] == s@[end1 - 1]);
                assert(seq!['U', 'T', 'C'][0] == 'U');
                assert(seq!['U', 'T', 'C'][1] == 'T');
                assert(seq!['U', 'T', 'C'][2] == 'C');
                assert(strip_utc_suffix(t1) == t1);
            }
        }
    }
    let ghost t2 = strip_utc_suffix(t1);
    proof {
        assert(s@.subrange(0, end2 as int) =~= t2);
    }
    let end3 = strip_spaces_upto(s, end2);
    let piece = s.substring_char(0, end3);
    String::from_str(piece)
}

/// Decide whether two date strings name the same day.
pub fn dates_equal(a: &str, b: &str) -> (m: bool)
    ensures
        m == dates_match(a@, b@),
{
    let na = normalize_date(a);
    let nb = normalize_date(b);
    na == nb
}

// ---------------------------------------------------------------------------
// Outlet variant: the primary response is already a joined record set; keep
// the rows of the requested day and append the clock labels.
// ---------------------------------------------------------------------------

/// One row after label post-processing: the native strings gain a ` UTC`
/// marker and the converted strings gain the zone suffix.
pub open spec fn labeled_record(r: RecordView, suffix: Seq<char>) -> RecordView {
    RecordView {
        team: r.team,
        start: r.start + seq![' '] + utc_label(),
        kickoff: r.kickoff + seq![' '] + utc_label(),
        end: r.end + seq![' '] + utc_label(),
        start_trans: r.start_trans + seq![' '] + suffix,
        kickoff_trans: r.kickoff_trans + seq![' '] + suffix,
        end_trans: r.end_trans + seq![' '] + suffix,
        date: r.date,
    }
}

/// What an outlet lookup publishes: the rows whose date matches the request,
/// in response order, each with its labels appended.
pub open spec fn outlet_publish(rs: Seq<RecordView>, date: Seq<char>, suffix: Seq<char>) -> Seq<
    RecordView,
>
    decreases rs.len(),
{
    if rs.len() == 0 {
        Seq::<RecordView>::empty()
    } else {
        outlet_publish(rs.drop_last(), date, suffix) + if dates_match(rs.last().date, date) {
            seq![labeled_record(rs.last(), suffix)]
        } else {
            Seq::<RecordView>::empty()
        }
    }
}

/// Append the clock labels to one row. This is also the whole
/// post-processing a backend that returns a single pre-joined row needs
/// before that row is appended to the sink.
pub fn label_row(r: &ResultRecord, suffix: &str) -> (out: ResultRecord)
    ensures
        out@ == labeled_record(r@, suffix@),
{
    proof {
        reveal_strlit(" UTC");
        reveal_strlit(" ");
    }
    let mut start = r.start.clone();
    start.append(" UTC");
    let mut kickoff = r.kickoff.clone();
    kickoff.append(" UTC");
    let mut end = r.end.clone();
    end.append(" UTC");
    let mut start_trans = r.start_trans.clone();
    start_trans.append(" ");
    start_trans.append(suffix);
    let mut kickoff_trans = r.kickoff_trans.clone();
    kickoff_trans.append(" ");
    kickoff_trans.append(suffix);
    let mut end_trans = r.end_trans.clone();
    end_trans.append(" ");
    end_trans.append(suffix);
    let out = ResultRecord {
        team: r.team.clone(),
        start,
        kickoff,
        end,
        start_trans,
        kickoff_trans,
        end_trans,
        date: r.date.clone(),
    };
    assert(out@ =~= labeled_record(r@, suffix@));
    out
}

/// Keep the rows of the requested day, in order, and append the labels.
pub fn filter_and_label(records: &Vec<ResultRecord>, requested_date: &str, zone: TimeZone) -> (out:
    Vec<ResultRecord>)
    ensures
        out@.map_values(|r: ResultRecord| r@) == outlet_publish(
            records@.map_values(|r: ResultRecord| r@),
            requested_date@,
            zone.suffix_spec(),
        ),
{
    let suffix = zone.to_suffix();
    let mut out: Vec<ResultRecord> = Vec::new();
    let ghost mapped = records@.map_values(|r: ResultRecord| r@);
    let mut i: usize = 0;
    proof {
        assert(mapped.subrange(0, 0) =~= Seq::<RecordView>::empty());
        assert(out@.map_values(|r: ResultRecord| r@) =~= Seq::<RecordView>::empty());
    }
    while i < records.len()
        invariant
            i <= records.len(),
            mapped == records@.map_values(|r: ResultRecord| r@),
            suffix@ == zone.suffix_spec(),
            out@.map_values(|r: ResultRecord| r@) == outlet_publish(
                mapped.subrange(0, i as int),
                requested_date@,
                zone.suffix_spec(),
            ),
        decreases records.len() - i,
    {
        let ghost prefix = mapped.subrange(0, i as int);
        let ghost prefix1 = mapped.subrange(0, i as int + 1);
        proof {
            assert(prefix1.drop_last() =~= prefix);
            assert(prefix1.last() == records@[i as int]@);
        }
        let r = &records[i];
        if dates_equal(r.date.as_str(), requested_date) {
            let labeled = label_row(r, suffix);
            out.push(labeled);
        }
        proof {
            assert(out@.map_values(|r: ResultRecord| r@) =~= outlet_publish(
                prefix1,
                requested_date@,
                zone.suffix_spec(),
            ));
        }
        i = i + 1;
    }
    proof {
        assert(mapped.subrange(0, records@.len() as int) =~= mapped);
    }
    out
}

/// What an outlet lookup does with its (already decoded) primary response.
pub enum OutletDecision {
    /// Replace the sink's whole contents with these rows.
    Replace(Vec<ResultRecord>),
    /// Report the failure; the sink is left untouched.
    Fail(FailureKind),
}

/// The outlet variant's single transition: on a decoded response, publish
/// the date-matching rows wholesale; on a failed fetch or decode, report it.
pub fn on_primary_outlet(
    resp: Result<Vec<ResultRecord>, FailureKind>,
    requested_date: &str,
    zone: TimeZone,
) -> (d: OutletDecision)
    ensures
        resp matches Err(k) ==> d == OutletDecision::Fail(k),
        resp matches Ok(rs) ==> (d matches OutletDecision::Replace(out) && out@.map_values(
            |r: ResultRecord| r@,
        ) == outlet_publish(
            rs@.map_values(|r: ResultRecord| r@),
            requested_date@,
            zone.suffix_spec(),
        )),
{
    match resp {
        Err(k) => OutletDecision::Fail(k),
        Ok(rs) => OutletDecision::Replace(filter_and_label(&rs, requested_date, zone)),
    }
}

// ---------------------------------------------------------------------------
// Team variant: a two-stage lookup. The primary response picks the game, a
// dependent event lookup supplies the play clock, and one assembled row is
// appended to the sink.
// ---------------------------------------------------------------------------

/// What a team lookup does with its primary response.
pub enum PrimaryDecision {
    /// A game matched: issue the dependent event lookup for it.
    FetchEvents(GameRecord),
    /// The lookup matched nothing; publish nothing and report no failure.
    NoGames,
    /// Report the failure; the sink is left untouched.
    Fail(FailureKind),
}

/// The team variant's first transition: on a decoded response take the first
/// matched game, on an empty match finish quietly, on a failed fetch or
/// decode report it.
pub fn on_primary_team(resp: Result<Vec<GameRecord>, FailureKind>) -> (d: PrimaryDecision)
    ensures
        resp matches Err(k) ==> d == PrimaryDecision::Fail(k),
        resp matches Ok(games) ==> {
            &&& games@.len() == 0 ==> d == PrimaryDecision::NoGames
            &&& games@.len() > 0 ==> d == PrimaryDecision::FetchEvents(games@[0])
        },
{
    match resp {
        Err(k) => PrimaryDecision::Fail(k),
        Ok(mut games) => {
            if games.len() == 0 {
                PrimaryDecision::NoGames
            } else {
                let first = games.remove(0);
                PrimaryDecision::FetchEvents(first)
            }
        },
    }
}

/// The row a successful team lookup publishes: the game's three timestamps,
/// rendered on the UTC clock with a `UTC` label and on the destination
/// clock with the zone suffix.
pub open spec fn team_record_view(
    label: Seq<char>,
    game: GameRecord,
    events: Seq<EventRecord>,
    zone: TimeZone,
    daylight_saving: bool,
) -> RecordView {
    let times = crate::extract::extraction_of(game, events);
    let offset = resolve_spec(zone, daylight_saving);
    assembled_view(
        label,
        Seq::<char>::empty(),
        (
            native_seq(Some(times.start), utc_label()),
            native_seq(times.kickoff, utc_label()),
            native_seq(times.end, utc_label()),
        ),
        (
            converted_seq(Some(times.start), offset, zone.suffix_spec()),
            converted_seq(times.kickoff, offset, zone.suffix_spec()),
            converted_seq(times.end, offset, zone.suffix_spec()),
        ),
    )
}

/// What a team lookup does with its event response.
pub enum SecondaryDecision {
    /// Append this row to the sink.
    Publish(ResultRecord),
    /// Report the failure; the sink is left untouched.
    Fail(FailureKind),
}

/// The team variant's second transition: on a decoded event response,
/// extract, convert and assemble the one row to append; a timestamp that
/// does not parse fails the lookup, and a failed fetch or decode is passed
/// through.
pub fn on_secondary_team(
    team: &Team,
    game: &GameRecord,
    resp: Result<Vec<EventRecord>, FailureKind>,
    zone: TimeZone,
    daylight_saving: bool,
) -> (d: SecondaryDecision)
    ensures
        resp matches Err(k) ==> d == SecondaryDecision::Fail(k),
        resp matches Ok(events) ==> {
            &&& !extraction_ok(*game, events@) ==> d == SecondaryDecision::Fail(FailureKind::Parse)
            &&& extraction_ok(*game, events@) ==> (d matches SecondaryDecision::Publish(r) && r@
                == team_record_view(team.school@, *game, events@, zone, daylight_saving))
        },
{
    match resp {
        Err(k) => SecondaryDecision::Fail(k),
        Ok(events) => {
            match extract(game, &events) {
                Err(_) => SecondaryDecision::Fail(FailureKind::Parse),
                Ok(times) => {
                    let offset = resolve(zone, daylight_saving);
                    let suffix = zone.to_suffix();
                    proof {
                        reveal_strlit("UTC");
                        assert("UTC"@ =~= utc_label());
                    }
                    let (native_start, trans_start) = format_pair(
                        Some(times.start),
                        offset,
                        "UTC",
                        suffix,
                    );
                    let (native_kickoff, trans_kickoff) = format_pair(
                        times.kickoff,
                        offset,
                        "UTC",
                        suffix,
                    );
                    let (native_end, trans_end) = format_pair(times.end, offset, "UTC", suffix);
                    let record = assemble(
                        team.school.clone(),
                        String::new(),
                        (native_start, native_kickoff, native_end),
                        (trans_start, trans_kickoff, trans_end),
                    );
                    assert(record@ =~= team_record_view(
                        team.school@,
                        *game,
                        events@,
                        zone,
                        daylight_saving,
                    ));
                    SecondaryDecision::Publish(record)
                },
            }
        },
    }
}

/// The status line shown for a failed lookup, one per failure category.
pub open spec fn failure_message_spec(k: FailureKind) -> Seq<char> {
    match k {
        FailureKind::Transport => "lookup failed: transport"@,
        FailureKind::Decode => "lookup failed: decode"@,
        FailureKind::Parse => "lookup failed: parse"@,
    }
}

/// The status line for a failed lookup. Distinguishable per category, so a
/// failure is never mistaken for an empty match.
pub fn failure_message(k: FailureKind) -> (s: &'static str)
    ensures
        s@ == failure_message_spec(k),
{
    match k {
        FailureKind::Transport => "lookup failed: transport",
        FailureKind::Decode => "lookup failed: decode",
        FailureKind::Parse => "lookup failed: parse",
    }
}

/// The status line shown when a lookup matched nothing.
pub open spec fn no_games_message_spec() -> Seq<char> {
    "no games found for the given filter"@
}

/// The status line for an empty match: a normal outcome, reported without
/// being conflated with a failure.
pub fn no_games_message() -> (s: &'static str)
    ensures
        s@ == no_games_message_spec(),
{
    "no games found for the given filter"
}

/// Re-running a lookup against an unchanged backend publishes the same
/// record set: what an outlet lookup replaces the sink with is a function of
/// the response and the filter alone.
pub proof fn lemma_rerun_publishes_equal(
    first: Seq<RecordView>,
    second: Seq<RecordView>,
    response: Seq<RecordView>,
    requested_date: Seq<char>,
    suffix: Seq<char>,
)
    requires
        first == outlet_publish(response, requested_date, suffix),
        second == outlet_publish(response, requested_date, suffix),
    ensures
        first == second,
{
}

/// The same for the team variant: the one row a successful two-stage lookup
/// appends is a function of the filter, the matched game and its events.
pub proof fn lemma_rerun_appends_equal(
    first: RecordView,
    second: RecordView,
    label: Seq<char>,
    game: GameRecord,
    events: Seq<EventRecord>,
    zone: TimeZone,
    daylight_saving: bool,
)
    requires
        first == team_record_view(label, game, events, zone, daylight_saving),
        second == team_record_view(label, game, events, zone, daylight_saving),
    ensures
        first == second,
{
}

} // verus!
