use autosubs::batch::{
    batch_plan, batch_ranges, join_batch, split_batch_reply, BatchOutcome, BatchPlan,
    MAX_BATCH_SEGMENTS,
};

fn strings(xs: &[&str]) -> Vec<String> {
    xs.iter().map(|x| x.to_string()).collect()
}

#[test]
fn batches_cover_the_segments_in_order() {
    assert_eq!(batch_ranges(0), vec![]);
    assert_eq!(batch_ranges(1), vec![(0, 1)]);
    assert_eq!(batch_ranges(8), vec![(0, 8)]);
    assert_eq!(batch_ranges(9), vec![(0, 8), (8, 9)]);
    assert_eq!(batch_ranges(20), vec![(0, 8), (8, 16), (16, 20)]);
}

#[test]
fn batching_needs_fewer_requests_than_segments() {
    for total in 2..100usize {
        let batches = batch_ranges(total);
        assert!(batches.len() < total);
        assert!(batches.iter().all(|(s, e)| s < e && e - s <= MAX_BATCH_SEGMENTS));
    }
}

#[test]
fn segments_are_joined_by_marker_lines() {
    let inputs = strings(&["one", "two", "three"]);
    assert_eq!(join_batch(&inputs, 0, 3), "one\n[[[SEGMENT]]]\ntwo\n[[[SEGMENT]]]\nthree");
    assert_eq!(join_batch(&inputs, 1, 2), "two");
}

#[test]
fn reply_is_split_at_markers() {
    let reply = "eins\n[[[SEGMENT]]]\n zwei \n[[[SEGMENT]]]drei";
    assert_eq!(split_batch_reply(reply, 3), Some(strings(&["eins", "zwei", "drei"])));
    assert_eq!(split_batch_reply(reply, 2), None);
    assert_eq!(split_batch_reply("nur eins", 1), Some(strings(&["nur eins"])));
    assert_eq!(split_batch_reply("[[[SEGMENT]]]", 2), Some(strings(&["", ""])));
}

#[test]
fn a_joined_batch_splits_back() {
    let inputs = strings(&["Hello there", "How are you?", "[[SEGMENT]] almost", "Bye"]);
    let joined = join_batch(&inputs, 0, inputs.len());
    assert_eq!(split_batch_reply(&joined, inputs.len()), Some(inputs));
}

#[test]
fn quoted_pieces_are_cleaned_like_single_replies() {
    let reply = "\"Eins\"\n[[[SEGMENT]]]\n'Zwei'\n[[[SEGMENT]]]\n\"'Drei'\"";
    assert_eq!(split_batch_reply(reply, 3), Some(strings(&["Eins", "Zwei", "Drei"])));
}

fn finished(plan: BatchPlan) -> Vec<Result<String, String>> {
    match plan {
        BatchPlan::Finished(v) => v,
        BatchPlan::OneByOne => panic!("expected finished results"),
    }
}

#[test]
fn a_failed_batch_fails_every_segment() {
    let results = finished(batch_plan(3, BatchOutcome::Failed("down".to_string())));
    assert_eq!(results, vec![Err("down".to_string()); 3]);
}

#[test]
fn a_single_segment_takes_the_reply_as_it_is() {
    let reply = "Hallo [[[SEGMENT]]] Welt".to_string();
    let results = finished(batch_plan(1, BatchOutcome::Reply(reply.clone())));
    assert_eq!(results, vec![Ok(reply)]);
}

#[test]
fn a_batch_takes_its_pieces() {
    let results = finished(batch_plan(
        2,
        BatchOutcome::Reply("eins\n[[[SEGMENT]]]\nzwei".to_string()),
    ));
    assert_eq!(results, vec![Ok("eins".to_string()), Ok("zwei".to_string())]);
}

#[test]
fn a_reply_that_lost_its_markers_is_sent_one_by_one() {
    let plan = batch_plan(2, BatchOutcome::Reply("eins zwei".to_string()));
    assert!(matches!(plan, BatchPlan::OneByOne));
}
