//! The output unit of a lookup, the entities a lookup is about, and the pure
//! merge that builds one output row from formatted time strings.

use vstd::prelude::*;

verus! {

/// The ghost image of a `ResultRecord`: each display string as a character
/// sequence.
#[verifier::ext_equal]
pub struct RecordView {
    pub team: Seq<char>,
    pub start: Seq<char>,
    pub kickoff: Seq<char>,
    pub end: Seq<char>,
    pub start_trans: Seq<char>,
    pub kickoff_trans: Seq<char>,
    pub end_trans: Seq<char>,
    pub date: Seq<char>,
}

/// One output row: an entity label, six formatted time strings (native and
/// converted renderings of start, kickoff and end, each empty when the
/// source timestamp was unavailable), and a date used to tell apart several
/// games matched by one query. Rows are created by a completed lookup and
/// never mutated afterwards.
#[derive(Clone, PartialEq, Eq, Debug)]
pub struct ResultRecord {
    pub team: String,
    pub start: String,
    pub kickoff: String,
    pub end: String,
    pub start_trans: String,
    pub kickoff_trans: String,
    pub end_trans: String,
    pub date: String,
}

impl View for ResultRecord {
    type V = RecordView;

    open spec fn view(&self) -> RecordView {
        RecordView {
            team: self.team@,
            start: self.start@,
            kickoff: self.kickoff@,
            end: self.end@,
            start_trans: self.start_trans@,
            kickoff_trans: self.kickoff_trans@,
            end_trans: self.end_trans@,
            date: self.date@,
        }
    }
}

/// A team entity: a numeric identifier and a display name. The identifier is
/// authoritative; the display name may lag behind it.
#[derive(Clone, Debug)]
pub struct Team {
    pub id: u64,
    pub school: String,
}

/// Two teams are the same exactly when their identifiers are, even if their
/// display names differ or are stale.
impl PartialEq for Team {
    fn eq(&self, other: &Team) -> (r: bool) {
        self.id == other.id
    }
}

impl vstd::std_specs::cmp::PartialEqSpecImpl for Team {
    open spec fn obeys_eq_spec() -> bool {
        true
    }

    open spec fn eq_spec(&self, other: &Team) -> bool {
        self.id == other.id
    }
}

/// The view `assemble` promises: the merge keeps every field as handed in.
pub open spec fn assembled_view(
    team: Seq<char>,
    date: Seq<char>,
    native: (Seq<char>, Seq<char>, Seq<char>),
    converted: (Seq<char>, Seq<char>, Seq<char>),
) -> RecordView {
    RecordView {
        team: team,
        start: native.0,
        kickoff: native.1,
        end: native.2,
        start_trans: converted.0,
        kickoff_trans: converted.1,
        end_trans: converted.2,
        date: date,
    }
}

/// Merge an entity label, an optional disambiguating date (empty when not
/// applicable) and the native and converted string triplets into one output
/// row. Pure; upstream absence arrives here as empty strings and is kept.
pub fn assemble(
    team: String,
    date: String,
    native: (String, String, String),
    converted: (String, String, String),
) -> (r: ResultRecord)
    ensures
        r@ == assembled_view(
            team@,
            date@,
            (native.0@, native.1@, native.2@),
            (converted.0@, converted.1@, converted.2@),
        ),
{
    ResultRecord {
        team,
        start: native.0,
        kickoff: native.1,
        end: native.2,
        start_trans: converted.0,
        kickoff_trans: converted.1,
        end_trans: converted.2,
        date,
    }
}

} // verus!
