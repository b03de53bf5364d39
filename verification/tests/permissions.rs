use ultra_core::permissions::{contains_sensitive_keyword, requires_human_approval};

#[test]
fn delete_requires_approval() {
    assert!(requires_human_approval("Delete file /tmp/data.txt"));
}

#[test]
fn read_only_action_is_safe() {
    assert!(!requires_human_approval("read calendar events"));
}

#[test]
fn uppercase_keywords_are_caught_after_lowercasing() {
    assert!(requires_human_approval("REVOKE token"));
    assert!(!contains_sensitive_keyword("REVOKE token"));
    assert!(contains_sensitive_keyword("revoke token"));
}

#[test]
fn every_keyword_is_sensitive() {
    for action in [
        "delete", "revoke", "write", "send_money", "network:public", "filesystem:/etc",
    ] {
        assert!(requires_human_approval(action), "{action}");
    }
    assert!(!requires_human_approval("network:private"));
    assert!(!requires_human_approval(""));
}

#[test]
fn approval_ignores_letter_case() {
    for (a, b) in [("DELETE user", "delete user"), ("Read Calendar", "read calendar"), ("Send_Money now", "send_money NOW")] {
        assert_eq!(requires_human_approval(a), requires_human_approval(b));
    }
    assert!(requires_human_approval("REVOKE key"));
}

#[test]
fn added_text_keeps_approval() {
    assert!(requires_human_approval("write"));
    assert!(requires_human_approval("please WRITE the file now"));
    assert!(requires_human_approval("xx network:public yy"));
}
