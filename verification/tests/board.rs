use report_relay::upsert::compose_comment;
use report_relay::upsert::find_matching_action;
use report_relay::upsert::plan_rows;
use report_relay::upsert::upsert_call;
use report_relay::upsert::BoardAction;
use report_relay::upsert::HttpMethod;
use report_relay::urls::actions_list_url;
use report_relay::urls::comment_create_url;
use report_relay::urls::comment_update_url;
use report_relay::urls::message_post_url;
use report_relay::urls::sheet_values_url;

fn strings(parts: &[&str]) -> Vec<String> {
    parts.iter().map(|p| String::from(*p)).collect()
}

fn action(id: &str, text: Option<&str>) -> BoardAction {
    BoardAction { id: String::from(id), text: text.map(String::from) }
}

const CARD1_COMMENT: &str = "User Stories in Review: 4 (3)\nUser Stories Complete: 5 (2)";

#[test]
fn comment_field_to_position_mapping() {
    assert_eq!(compose_comment("4", "3", "5", "2"), CARD1_COMMENT);
}

#[test]
fn comment_of_empty_metrics() {
    assert_eq!(
        compose_comment("", "", "", ""),
        "User Stories in Review:  ()\nUser Stories Complete:  ()"
    );
}

#[test]
fn find_prefers_first_exact_match() {
    let text = String::from("hello");
    let actions = vec![
        action("a1", Some("other")),
        action("a2", Some("hello")),
        action("a3", Some("hello")),
    ];
    assert_eq!(find_matching_action(&actions, &text), Some(1));
}

#[test]
fn find_requires_exact_text() {
    let text = String::from("hello");
    let actions = vec![action("a1", Some("hello ")), action("a2", Some("Hello")), action("a3", None)];
    assert_eq!(find_matching_action(&actions, &text), None);
}

#[test]
fn upsert_updates_matching_action_never_creates() {
    let text = String::from("hi");
    let actions = vec![action("a1", Some("no")), action("a2", Some("hi"))];
    let call = upsert_call("CARD1", "K", "T", &text, &actions);
    assert!(call.method == HttpMethod::Put);
    assert_eq!(
        call.url,
        "https://api.trello.com/1/cards/CARD1/actions/a2?key=K&token=T&text=hi"
    );
}

#[test]
fn upsert_creates_exactly_one_comment_when_no_match() {
    let text = String::from("hi");
    let actions = vec![action("a1", Some("no")), action("a2", None)];
    let call = upsert_call("CARD1", "K", "T", &text, &actions);
    assert!(call.method == HttpMethod::Post);
    assert_eq!(
        call.url,
        "https://api.trello.com/1/cards/CARD1/actions/comments?key=K&token=T&text=hi"
    );
}

#[test]
fn upsert_encodes_comment_text_into_query() {
    let text = String::from(CARD1_COMMENT);
    let no_actions: Vec<BoardAction> = vec![];
    let call = upsert_call("CARD1", "K", "T", &text, &no_actions);
    assert!(call.method == HttpMethod::Post);
    let encoded = "User%20Stories%20in%20Review%3A%204%20%283%29%0AUser%20Stories%20Complete%3A%205%20%282%29";
    assert_eq!(
        call.url,
        format!("https://api.trello.com/1/cards/CARD1/actions/comments?key=K&token=T&text={}", encoded)
    );
}

#[test]
fn rows_with_empty_identifier_are_skipped() {
    let ids = strings(&["", "CARD2"]);
    let metrics = strings(&["1", "2"]);
    let tasks = plan_rows(&ids, &metrics, &metrics, &metrics, &metrics);
    assert_eq!(tasks.len(), 1);
    assert_eq!(tasks[0].row, 1);
    assert_eq!(tasks[0].card_id, "CARD2");
}

#[test]
fn rows_with_all_metrics_empty_are_skipped() {
    let ids = strings(&["CARD1"]);
    let empty = strings(&[""]);
    let tasks = plan_rows(&ids, &empty, &empty, &empty, &empty);
    assert_eq!(tasks.len(), 0);
}

#[test]
fn rows_with_one_metric_present_are_kept() {
    let ids = strings(&["CARD1"]);
    let empty = strings(&[""]);
    let x = strings(&["7"]);
    let tasks = plan_rows(&ids, &empty, &empty, &empty, &x);
    assert_eq!(tasks.len(), 1);
    assert_eq!(tasks[0].text, "User Stories in Review:  ()\nUser Stories Complete:  (7)");
}

#[test]
fn rows_read_metrics_from_short_columns_as_empty() {
    let ids = strings(&["CARD1", "CARD2"]);
    let r = strings(&["3", "30"]);
    let s = strings(&["4"]);
    let w = strings(&["5", "50"]);
    let x = strings(&["2", "20"]);
    let tasks = plan_rows(&ids, &r, &s, &w, &x);
    assert_eq!(tasks.len(), 2);
    assert_eq!(tasks[0].card_id, "CARD1");
    assert_eq!(tasks[0].text, CARD1_COMMENT);
    assert_eq!(tasks[1].card_id, "CARD2");
    assert_eq!(tasks[1].text, "User Stories in Review:  (30)\nUser Stories Complete: 50 (20)");
}

#[test]
fn sheet_values_url_exact() {
    assert_eq!(
        sheet_values_url("SHEET", "Epics!A2:A", "KEY"),
        "https://sheets.googleapis.com/v4/spreadsheets/SHEET/values/Epics!A2:A?key=KEY"
    );
}

#[test]
fn actions_list_url_exact() {
    assert_eq!(
        actions_list_url("CARD1", "K", "T"),
        "https://api.trello.com/1/cards/CARD1/actions?filter=commentCard&key=K&token=T"
    );
}

#[test]
fn create_url_percent_encodes_reserved_bytes() {
    assert_eq!(
        comment_create_url("C", "K", "T", "a b(c)~-._"),
        "https://api.trello.com/1/cards/C/actions/comments?key=K&token=T&text=a%20b%28c%29~-._"
    );
}

#[test]
fn update_url_percent_encodes_line_break() {
    assert_eq!(
        comment_update_url("C", "A", "K", "T", "x\ny"),
        "https://api.trello.com/1/cards/C/actions/A?key=K&token=T&text=x%0Ay"
    );
}

#[test]
fn message_post_url_exact() {
    assert_eq!(message_post_url(), "https://slack.com/api/chat.postMessage");
}
