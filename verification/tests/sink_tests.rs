use cfb_time_puller::records::ResultRecord;
use cfb_time_puller::sink::ResultSink;

fn row(team: &str) -> ResultRecord {
    ResultRecord {
        team: team.to_string(),
        start: String::new(),
        kickoff: String::new(),
        end: String::new(),
        start_trans: String::new(),
        kickoff_trans: String::new(),
        end_trans: String::new(),
        date: String::new(),
    }
}

#[test]
fn append_keeps_order() {
    let mut sink = ResultSink::new();
    assert_eq!(sink.len(), 0);
    sink.append(row("first"));
    sink.append(row("second"));
    sink.append(row("third"));
    assert_eq!(sink.len(), 3);
    assert_eq!(sink.get(0).team, "first");
    assert_eq!(sink.get(1).team, "second");
    assert_eq!(sink.get(2).team, "third");
}

#[test]
fn replace_all_discards_prior_rows() {
    let mut sink = ResultSink::new();
    sink.append(row("stale"));
    sink.replace_all(vec![row("fresh"), row("newer")]);
    assert_eq!(sink.len(), 2);
    assert_eq!(sink.get(0).team, "fresh");
    assert_eq!(sink.get(1).team, "newer");
}

#[test]
fn replace_all_with_empty_set_empties_the_sink() {
    let mut sink = ResultSink::new();
    sink.append(row("stale"));
    sink.replace_all(Vec::new());
    assert_eq!(sink.len(), 0);
}
