use elastictea::fill::{fill_settings, Event, Pager, Phase, Step, RESULT_WINDOW};
use elastictea::{ConfigurationError, EsClient, FillEsArg, FillEsTea};
use serde_json::Value;
use std::sync::Arc;

fn match_all() -> Value {
    let mut query = serde_json::Map::new();
    query.insert(String::from("match_all"), Value::Object(serde_json::Map::new()));
    Value::Object(query)
}

struct Run {
    fetches: Vec<(usize, usize)>,
    batches: Vec<Vec<u32>>,
    pager: Pager,
}

/// Drives a run to its end against a backend whose matches are `docs`.
fn drive(batch_size: usize, docs: &[u32]) -> Run {
    let mut pager = Pager::new(batch_size);
    let mut fetches = Vec::new();
    let mut batches = Vec::new();
    let mut page: Vec<u32> = Vec::new();
    let mut step = pager.advance(Event::Start);
    loop {
        match step {
            Step::Fetch { from, size } => {
                fetches.push((from, size));
                page = docs.iter().skip(from).take(size).cloned().collect();
                step = pager.advance(Event::Page { hits: page.len() });
            }
            Step::Submit { count } => {
                assert_eq!(count, page.len());
                batches.push(page.clone());
                step = pager.advance(Event::Submitted);
            }
            Step::Finish | Step::Abort => break,
            Step::Ready => panic!("the run did not start"),
        }
    }
    Run { fetches, batches, pager }
}

#[test]
fn fill_create_es_args() {
    let es_client = Arc::new(EsClient::new("test:test").unwrap());
    let es_args = FillEsArg::new("test_index", "_doc", 50, match_all(), Arc::clone(&es_client));
    assert_eq!(es_args.doc_index(), "test_index");
    assert_eq!(es_args.doc_type(), "_doc");
}

#[test]
fn fill_args_keep_batch_size_and_query() {
    let es_client = Arc::new(EsClient::new("test:test").unwrap());
    let es_args = FillEsArg::new("test_index", "_doc", 50, match_all(), es_client);
    assert_eq!(es_args.num_docs(), 50);
    assert_eq!(es_args.query(), &match_all());
    let pager = es_args.pager();
    assert_eq!(pager.phase(), Phase::Idle);
    assert_eq!(pager.cursor(), 0);
    let _stage = FillEsTea {};
}

#[test]
fn five_documents_in_pages_of_two() {
    let run = drive(2, &[1, 2, 3, 4, 5]);
    let sizes: Vec<usize> = run.batches.iter().map(|b| b.len()).collect();
    assert_eq!(sizes, vec![2, 2, 1]);
    assert_eq!(run.batches, vec![vec![1, 2], vec![3, 4], vec![5]]);
    assert_eq!(run.fetches, vec![(0, 2), (2, 2), (4, 2), (6, 2)]);
    assert_eq!(run.pager.phase(), Phase::Done);
    assert_eq!(run.pager.cursor(), 6);
}

#[test]
fn ten_documents_in_pages_of_three() {
    let docs: Vec<u32> = (0..10).collect();
    let run = drive(3, &docs);
    assert_eq!(run.batches.len(), 4);
    assert_eq!(run.pager.cursor(), 12);
    assert_eq!(run.pager.phase(), Phase::Done);
    let all: Vec<u32> = run.batches.concat();
    assert_eq!(all, docs);
}

#[test]
fn exact_multiple_ends_on_empty_page() {
    let run = drive(2, &[7, 8, 9, 10]);
    assert_eq!(run.batches.len(), 2);
    assert_eq!(run.pager.cursor(), 4);
    assert_eq!(run.fetches.last(), Some(&(4, 2)));
}

#[test]
fn empty_source_submits_nothing() {
    let run = drive(50, &[]);
    assert!(run.batches.is_empty());
    assert_eq!(run.fetches, vec![(0, 50)]);
    assert_eq!(run.pager.phase(), Phase::Done);
    assert_eq!(run.pager.cursor(), 0);
}

#[test]
fn repeated_runs_hand_on_the_same_batches() {
    let docs: Vec<u32> = (0..23).collect();
    let first = drive(4, &docs);
    let second = drive(4, &docs);
    assert_eq!(first.batches, second.batches);
    assert_eq!(first.fetches, second.fetches);
    assert_eq!(first.pager.cursor(), second.pager.cursor());
}

#[test]
fn window_past_the_ceiling_is_never_fetched() {
    let docs: Vec<u32> = (0..20000).collect();
    let run = drive(6000, &docs);
    assert_eq!(run.fetches, vec![(0, 6000)]);
    assert_eq!(run.batches.len(), 1);
    assert_eq!(run.pager.phase(), Phase::Done);
    assert_eq!(run.pager.cursor(), 6000);
    for (from, size) in &run.fetches {
        assert!(from + size <= RESULT_WINDOW);
    }
}

#[test]
fn window_up_to_the_ceiling_is_fetched() {
    let docs: Vec<u32> = (0..20000).collect();
    let run = drive(5000, &docs);
    assert_eq!(run.fetches, vec![(0, 5000), (5000, 5000)]);
    assert_eq!(run.batches.len(), 2);
    assert_eq!(run.pager.cursor(), 10000);
}

#[test]
fn batch_larger_than_window_fetches_nothing() {
    let mut pager = Pager::new(10001);
    assert_eq!(pager.step(), Step::Ready);
    assert_eq!(pager.advance(Event::Start), Step::Finish);
    assert_eq!(pager.phase(), Phase::Done);
}

#[test]
fn fetch_failure_aborts_the_run() {
    let mut pager = Pager::new(10);
    assert_eq!(pager.advance(Event::Start), Step::Fetch { from: 0, size: 10 });
    assert_eq!(pager.advance(Event::Page { hits: 10 }), Step::Submit { count: 10 });
    assert_eq!(pager.advance(Event::Submitted), Step::Fetch { from: 10, size: 10 });
    assert_eq!(pager.advance(Event::FetchFailed), Step::Abort);
    assert_eq!(pager.phase(), Phase::Failed);
    assert_eq!(pager.advance(Event::Page { hits: 3 }), Step::Abort);
    assert_eq!(pager.cursor(), 10);
}

#[test]
fn events_out_of_turn_change_nothing() {
    let mut pager = Pager::new(5);
    assert_eq!(pager.advance(Event::Submitted), Step::Ready);
    assert_eq!(pager.advance(Event::Page { hits: 2 }), Step::Ready);
    assert_eq!(pager.advance(Event::Start), Step::Fetch { from: 0, size: 5 });
    assert_eq!(pager.advance(Event::Start), Step::Fetch { from: 0, size: 5 });
    assert_eq!(pager.advance(Event::Submitted), Step::Fetch { from: 0, size: 5 });
}

#[test]
fn extraction_without_settings_is_a_configuration_error() {
    assert_eq!(fill_settings(None).err(), Some(ConfigurationError::MissingArgument));
    let es_client = Arc::new(EsClient::new("test:test").unwrap());
    let es_args = FillEsArg::new("test_index", "_doc", 50, match_all(), es_client);
    assert_eq!(fill_settings(Some(&es_args)).unwrap().doc_index(), "test_index");
}

#[test]
fn client_builds_for_a_host() {
    let client = EsClient::new("http://localhost:9200");
    assert!(client.is_ok());
}
