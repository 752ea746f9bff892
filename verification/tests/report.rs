use task_sync::report::{can_excerpt, excerpt, report, results_line, SearchHit, EXCERPT_BYTES};

fn hit(result_type: &str, similarity: &str, content: &str) -> SearchHit {
    SearchHit {
        result_type: result_type.to_string(),
        similarity: similarity.to_string(),
        content: content.to_string(),
    }
}

#[test]
fn excerpt_shows_a_short_content_whole() {
    assert_eq!(EXCERPT_BYTES, 200);
    assert_eq!(excerpt(""), Some(String::new()));
    assert_eq!(excerpt("short"), Some("short".to_string()));
    let exact = "x".repeat(200);
    assert_eq!(excerpt(&exact), Some(exact.clone()));
}

#[test]
fn excerpt_cuts_a_long_content() {
    let long = "a".repeat(200) + "bcd";
    assert_eq!(excerpt(&long), Some("a".repeat(200) + "..."));
    let longer = "x".repeat(201);
    assert_eq!(excerpt(&longer), Some("x".repeat(200) + "..."));
}

#[test]
fn excerpt_counts_bytes_and_not_characters() {
    let accents = "é".repeat(101);
    assert_eq!(accents.len(), 202);
    assert_eq!(excerpt(&accents), Some("é".repeat(100) + "..."));
    let few = "é".repeat(100);
    assert_eq!(excerpt(&few), Some(few.clone()));
}

#[test]
fn excerpt_refuses_to_cut_inside_a_character() {
    let odd = "a".to_string() + &"é".repeat(100);
    assert_eq!(odd.len(), 201);
    assert!(!can_excerpt(&odd));
    assert_eq!(excerpt(&odd), None);
    assert!(can_excerpt("short"));
    assert!(can_excerpt(&"é".repeat(101)));
}

#[test]
fn report_without_results() {
    assert_eq!(report(0, "", &Vec::new()), Some("Found 0 results".to_string()));
    assert_eq!(
        report(0, "vim", &Vec::new()),
        Some("Found 0 results for query \"vim\"".to_string())
    );
}

#[test]
fn report_lists_the_results_by_number() {
    let hits = vec![
        hit("conversation", "0.92", "User wants vim mode"),
        hit("task", "0.87", "Task: Implement yank mode"),
    ];
    assert_eq!(
        report(2, "vim yank mode", &hits),
        Some(
            "Found 2 results for query \"vim yank mode\":\n\n\
             1. [conversation] (similarity: 0.92)\nUser wants vim mode\n\n\
             2. [task] (similarity: 0.87)\nTask: Implement yank mode\n\n"
                .to_string()
        )
    );
}

#[test]
fn report_without_a_query() {
    let hits = vec![hit("task", "1.00", "Do it")];
    assert_eq!(
        report(17, "", &hits),
        Some("Found 17 results:\n\n1. [task] (similarity: 1.00)\nDo it\n\n".to_string())
    );
}

#[test]
fn report_cuts_long_contents() {
    let hits = vec![hit("task", "0.50", &"z".repeat(300))];
    let expected =
        format!("Found 1 results:\n\n1. [task] (similarity: 0.50)\n{}...\n\n", "z".repeat(200));
    assert_eq!(report(1, "", &hits), Some(expected));
}

#[test]
fn report_numbers_past_nine() {
    let hits: Vec<SearchHit> = (0..12).map(|_| hit("t", "0.10", "c")).collect();
    let text = report(12, "q", &hits).unwrap();
    assert!(text.starts_with("Found 12 results for query \"q\":\n\n1. [t] (similarity: 0.10)\nc\n\n"));
    assert!(text.contains("\n\n10. [t] (similarity: 0.10)\nc\n\n11. [t]"));
    assert!(text.ends_with("12. [t] (similarity: 0.10)\nc\n\n"));
}

#[test]
fn report_fails_when_a_content_cannot_be_cut() {
    let odd = "a".to_string() + &"é".repeat(100);
    let hits = vec![hit("task", "0.50", "fine"), hit("task", "0.40", &odd)];
    assert_eq!(report(2, "", &hits), None);
}

#[test]
fn results_line_by_count() {
    assert_eq!(results_line(0), "No results found");
    assert_eq!(results_line(1), "1 result");
    assert_eq!(results_line(2), "2 results");
    assert_eq!(results_line(250), "250 results");
}
