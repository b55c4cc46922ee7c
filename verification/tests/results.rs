use chrono::{Duration, Utc};
use polling_application_backend::decimal::push_decimal;
use polling_application_backend::poll_model::{OptionItem, Poll, ResultsOptionItem};
use polling_application_backend::poll_results_utility::{
    calculate_poll_results, format_duration, poll_results_at, seconds_since, share_parts,
};

// The percentage of an option: a hundred times its share.
fn percentage(item: &ResultsOptionItem) -> f64 {
    (item.share.0 as f64 / item.share.1 as f64) * 100.0
}

fn sample_poll(votes: &[u32], created_at: i64) -> Poll {
    let texts = ["Rust", "Python", "Go", "Zig"];
    Poll {
        username: String::from("Azeem"),
        is_active: true,
        updated_at: created_at,
        voters: vec![],
        poll_id: "poll123".to_string(),
        title: "Favorite Programming Language".to_string(),
        created_at,
        options: votes
            .iter()
            .enumerate()
            .map(|(i, v)| OptionItem {
                option_id: (i + 1).to_string(),
                text: texts[i % texts.len()].to_string(),
                votes: *v,
            })
            .collect(),
    }
}

#[test]
fn test_format_duration() {
    let duration = Duration::seconds(90061); // 1 day, 1 hour, 1 minute, 1 second
    let result = format_duration(duration.num_seconds());
    assert_eq!(result, "1d 1h 1m 1s");

    let duration_zero = Duration::seconds(0);
    let result_zero = format_duration(duration_zero.num_seconds());
    assert_eq!(result_zero, "0d 0h 0m 0s");

    let duration_negative = Duration::seconds(-3661); // Negative duration
    let result_negative = format_duration(duration_negative.num_seconds());
    assert_ne!(result_negative, "-1d -22h -59m -59s"); // Edge case
}

#[test]
fn test_calculate_poll_results() {
    // Setup a sample poll
    let poll = Poll {
        username: String::from("Azeem"),
        is_active: true,
        updated_at: (Utc::now() - Duration::hours(2)).timestamp(),
        voters: vec![],
        poll_id: "poll123".to_string(),
        title: "Favorite Programming Language".to_string(),
        created_at: (Utc::now() - Duration::hours(2)).timestamp(),
        options: vec![
            OptionItem {
                option_id: "1".to_string(),
                text: "Rust".to_string(),
                votes: 70,
            },
            OptionItem {
                option_id: "2".to_string(),
                text: "Python".to_string(),
                votes: 30,
            },
        ],
    };

    let result = calculate_poll_results(&poll);

    // Check total votes
    assert_eq!(result.total_votes, 100);

    // Check individual options
    let options = &result.options;
    assert_eq!(options.len(), 2);

    assert_eq!(options[0].option_id, "1");
    assert_eq!(options[0].text, "Rust");
    assert_eq!(options[0].votes, 70);
    assert_eq!(percentage(&options[0]), 70.0);

    assert_eq!(options[1].option_id, "2");
    assert_eq!(options[1].text, "Python");
    assert_eq!(options[1].votes, 30);
    assert_eq!(percentage(&options[1]), 30.0);

    // Check time elapsed format
    let time_elapsed = result.time_elapsed.as_str();
    assert!(time_elapsed.contains("2h")); // Ensure it contains ~2 hours
}

#[test]
fn test_calculate_poll_results_no_votes() {
    // Setup a poll with no votes
    let poll = Poll {
        username: String::from("Azeem"),
        is_active: true,
        updated_at: (Utc::now() - Duration::hours(2)).timestamp(),
        voters: vec![],
        poll_id: "poll123".to_string(),
        title: "Favorite Programming Language".to_string(),
        created_at: (Utc::now() - Duration::hours(2)).timestamp(),
        options: vec![
            OptionItem {
                option_id: "1".to_string(),
                text: "Rust".to_string(),
                votes: 70,
            },
            OptionItem {
                option_id: "2".to_string(),
                text: "Python".to_string(),
                votes: 30,
            },
        ],
    };

    let result = calculate_poll_results(&poll);

    assert_eq!(result.total_votes, 100);

    let options = &result.options;
    assert_eq!(percentage(&options[0]), 70.0);
    assert_eq!(percentage(&options[1]), 30.0);
}

#[test]
fn results_of_a_poll_without_votes_are_all_zero() {
    let poll = sample_poll(&[0, 0], 1_000);
    let result = poll_results_at(&poll, 1_000);
    assert_eq!(result.total_votes, 0);
    assert_eq!(result.options.len(), 2);
    assert_eq!(result.options[0].share, (0, 1));
    assert_eq!(result.options[1].share, (0, 1));
    assert_eq!(percentage(&result.options[0]), 0.0);
    assert_eq!(percentage(&result.options[1]), 0.0);
    assert_eq!(result.options[0].votes, 0);
    assert_eq!(result.time_elapsed, "0d 0h 0m 0s");
}

#[test]
fn results_carry_the_poll_and_its_options_over() {
    let poll = sample_poll(&[1, 2, 0], 50);
    let result = poll_results_at(&poll, 50 + 90061);
    assert_eq!(result.poll_id, "poll123");
    assert_eq!(result.title, "Favorite Programming Language");
    assert_eq!(result.total_votes, 3);
    assert_eq!(result.options[0].option_id, "1");
    assert_eq!(result.options[0].text, "Rust");
    assert_eq!(result.options[0].share, (1, 3));
    assert_eq!(result.options[1].share, (2, 3));
    assert_eq!(result.options[2].share, (0, 3));
    assert_eq!(percentage(&result.options[0]), (1.0 / 3.0) * 100.0);
    assert_eq!(percentage(&result.options[2]), 0.0);
    assert_eq!(result.time_elapsed, "1d 1h 1m 1s");
}

#[test]
fn results_of_a_poll_without_options() {
    let poll = sample_poll(&[], 0);
    let result = poll_results_at(&poll, 10);
    assert_eq!(result.total_votes, 0);
    assert!(result.options.is_empty());
    assert_eq!(result.time_elapsed, "0d 0h 0m 10s");
}

#[test]
fn total_of_the_largest_counts_does_not_overflow() {
    let poll = sample_poll(&[u32::MAX, u32::MAX, u32::MAX], 0);
    let result = poll_results_at(&poll, 0);
    assert_eq!(result.total_votes, 3 * (u32::MAX as u128));
    assert_eq!(result.options[0].share, (u32::MAX, 3 * (u32::MAX as u128)));
}

#[test]
fn shares_keep_their_fraction() {
    let poll = sample_poll(&[1, 7], 0);
    let result = poll_results_at(&poll, 0);
    assert_eq!(result.total_votes, 8);
    assert_eq!(result.options[0].share, (1, 8));
    assert_eq!(result.options[1].share, (7, 8));
    assert_eq!(percentage(&result.options[0]), 12.5);
    assert_eq!(percentage(&result.options[1]), 87.5);
}

#[test]
fn a_share_is_votes_over_total() {
    assert_eq!(share_parts(1, 3), (1, 3));
    assert_eq!(share_parts(3, 3), (3, 3));
    assert_eq!(share_parts(0, 7), (0, 7));
    assert_eq!(share_parts(0, 0), (0, 1));
    assert_eq!(share_parts(u32::MAX, u32::MAX as u128), (u32::MAX, u32::MAX as u128));
    assert_eq!(share_parts(199, 200), (199, 200));
}

#[test]
fn durations_are_split_without_rounding_up() {
    assert_eq!(format_duration(59), "0d 0h 0m 59s");
    assert_eq!(format_duration(60), "0d 0h 1m 0s");
    assert_eq!(format_duration(3599), "0d 0h 59m 59s");
    assert_eq!(format_duration(3600), "0d 1h 0m 0s");
    assert_eq!(format_duration(86399), "0d 23h 59m 59s");
    assert_eq!(format_duration(86400), "1d 0h 0m 0s");
    assert_eq!(format_duration(7200), "0d 2h 0m 0s");
    assert_eq!(format_duration(i64::MAX), "106751991167300d 15h 30m 7s");
}

#[test]
fn negative_durations_count_as_none() {
    assert_eq!(format_duration(-1), "0d 0h 0m 0s");
    assert_eq!(format_duration(-3661), "0d 0h 0m 0s");
    assert_eq!(format_duration(i64::MIN), "0d 0h 0m 0s");
}

#[test]
fn elapsed_seconds_are_clamped() {
    assert_eq!(seconds_since(100, 40), 60);
    assert_eq!(seconds_since(40, 100), 0);
    assert_eq!(seconds_since(7, 7), 0);
    assert_eq!(seconds_since(-5, -10), 5);
    assert_eq!(seconds_since(i64::MAX, -1), i64::MAX);
    assert_eq!(seconds_since(i64::MAX, i64::MIN), i64::MAX);
    assert_eq!(seconds_since(i64::MIN, i64::MAX), 0);
    assert_eq!(seconds_since(i64::MAX, 0), i64::MAX);
}

#[test]
fn decimal_numerals() {
    let mut out = String::from("n=");
    push_decimal(&mut out, 0);
    assert_eq!(out, "n=0");
    let mut out = String::new();
    push_decimal(&mut out, 10);
    assert_eq!(out, "10");
    let mut out = String::new();
    push_decimal(&mut out, 9);
    push_decimal(&mut out, 1234567890);
    assert_eq!(out, "91234567890");
    let mut out = String::new();
    push_decimal(&mut out, u64::MAX);
    assert_eq!(out, "18446744073709551615");
}
