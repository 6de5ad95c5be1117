use vesper_harness::approval::{decide_approval, parse_approval, ApprovalDecision};

#[test]
fn approval_requires_explicit_yes_or_no() {
    for input in ["y", "Y", " yes ", "승인"] {
        assert_eq!(parse_approval(input), ApprovalDecision::Approve);
    }
    for input in ["n", "N", " no ", "거절", "취소"] {
        assert_eq!(parse_approval(input), ApprovalDecision::Deny);
    }
    assert_eq!(
        parse_approval("cargo clippy를 계획에 추가해"),
        ApprovalDecision::Feedback("cargo clippy를 계획에 추가해".to_string())
    );
}

#[test]
fn approval_words_ignore_case_and_surrounding_space() {
    assert_eq!(parse_approval("\t YES\n"), ApprovalDecision::Approve);
    assert_eq!(parse_approval("No"), ApprovalDecision::Deny);
    assert_eq!(parse_approval("\u{3000}y\u{3000}"), ApprovalDecision::Approve);
}

#[test]
fn approval_feedback_is_trimmed_and_not_lowered() {
    assert_eq!(
        parse_approval("  Add a Lint Step  "),
        ApprovalDecision::Feedback("Add a Lint Step".to_string())
    );
    assert_eq!(parse_approval("yes please"), ApprovalDecision::Feedback("yes please".to_string()));
    assert_eq!(parse_approval("   "), ApprovalDecision::Feedback(String::new()));
}

#[test]
fn the_decision_reads_the_lowered_word_and_keeps_the_trimmed_text() {
    assert_eq!(decide_approval("YES", "yes"), ApprovalDecision::Approve);
    assert_eq!(decide_approval("취소", "취소"), ApprovalDecision::Deny);
    assert_eq!(decide_approval("No", "no"), ApprovalDecision::Deny);
    assert_eq!(
        decide_approval("Add Tests", "add tests"),
        ApprovalDecision::Feedback("Add Tests".to_string())
    );
}

#[test]
fn white_space_around_a_reply_changes_nothing() {
    for s in ["y", "No", "add a lint step", ""] {
        let padded = format!("\u{2003}\t {s} \n\u{3000}");
        assert_eq!(parse_approval(&padded), parse_approval(s));
    }
}
