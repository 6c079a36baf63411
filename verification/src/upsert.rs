//! The card-comment upserter's per-row logic.
//!
//! For each spreadsheet row a two-line summary comment is composed. A row is
//! skipped — no network call planned at all — when its identifier is empty or
//! all four metric fields are empty. For a row that is kept, the card's
//! existing comment actions are searched for one whose text exactly equals
//! the freshly composed comment: the first such action is updated in place
//! (an idempotent rewrite), and only when none matches is a new comment
//! created.

use vstd::prelude::*;
use crate::cells::spec_value_at;
use crate::cells::value_at;
use crate::urls::spec_comment_create_url;
use crate::urls::spec_comment_update_url;
use crate::urls::spec_url_encode;
use crate::urls::comment_create_url;
use crate::urls::comment_update_url;

verus! {

/// One comment action already present on a card, as the board service lists
/// it: an opaque id and, for comment actions, the comment's text.
pub struct BoardAction {
    pub id: String,
    pub text: Option<String>,
}

/// The mathematical value of a listed action.
pub ghost struct ActionView {
    pub id: Seq<char>,
    pub text: Option<Seq<char>>,
}

impl View for BoardAction {
    type V = ActionView;

    open spec fn view(&self) -> ActionView {
        ActionView {
            id: self.id@,
            text: match self.text {
                Some(t) => Some(t@),
                None => None,
            },
        }
    }
}

impl DeepView for BoardAction {
    type V = ActionView;

    open spec fn deep_view(&self) -> ActionView {
        self@
    }
}

/// An action matches a composed comment exactly when it carries text and that
/// text equals the comment, character for character.
pub open spec fn spec_action_matches(a: ActionView, text: Seq<char>) -> bool {
    match a.text {
        Some(t) => t == text,
        None => false,
    }
}

/// The summary comment for one row's four metric fields.
pub open spec fn spec_comment(
    s_value: Seq<char>,
    r_value: Seq<char>,
    w_value: Seq<char>,
    x_value: Seq<char>,
) -> Seq<char> {
    "User Stories in Review: "@ + s_value + " ("@ + r_value + ")\nUser Stories Complete: "@
        + w_value + " ("@ + x_value + ")"@
}

/// Composes the two-line summary comment for one row.
pub fn compose_comment(s_value: &str, r_value: &str, w_value: &str, x_value: &str) -> (r: String)
    ensures
        r@ == spec_comment(s_value@, r_value@, w_value@, x_value@),
{
    let mut r = String::from_str("User Stories in Review: ");
    r.append(s_value);
    r.append(" (");
    r.append(r_value);
    r.append(")\nUser Stories Complete: ");
    r.append(w_value);
    r.append(" (");
    r.append(x_value);
    r.append(")");
    proof {
        assert(r@ =~= spec_comment(s_value@, r_value@, w_value@, x_value@));
    }
    r
}

/// Finds the first listed action whose text exactly equals the composed
/// comment; `None` when no action matches.
pub fn find_matching_action(actions: &Vec<BoardAction>, text: &String) -> (r: Option<usize>)
    ensures
        match r {
            Some(i) => {
                &&& i < actions@.len()
                &&& spec_action_matches(actions.deep_view()[i as int], text@)
                &&& forall|j: int|
                    0 <= j < i ==> !spec_action_matches(actions.deep_view()[j], text@)
            },
            None => forall|j: int|
                0 <= j < actions@.len() ==> !spec_action_matches(actions.deep_view()[j], text@),
        },
{
    let n = actions.len();
    let mut i: usize = 0;
    while i < n
        invariant
            n == actions@.len(),
            i <= n,
            forall|j: int| 0 <= j < i ==> !spec_action_matches(actions.deep_view()[j], text@),
        decreases n - i,
    {
        match &actions[i].text {
            Some(t) => {
                if *t == *text {
                    return Some(i);
                }
            },
            None => {},
        }
        i = i + 1;
    }
    None
}

/// How a row's comment reaches the board: a rewrite of an existing action or
/// the creation of a new one.
#[derive(Clone, Copy, Debug, PartialEq, Eq, Structural)]
pub enum HttpMethod {
    Put,
    Post,
}

/// One planned board request: the HTTP method and the full request URL.
pub struct PlannedCall {
    pub method: HttpMethod,
    pub url: String,
}

/// The mathematical value of a planned board request.
pub ghost struct PlannedCallView {
    pub method: HttpMethod,
    pub url: Seq<char>,
}

impl View for PlannedCall {
    type V = PlannedCallView;

    open spec fn view(&self) -> PlannedCallView {
        PlannedCallView { method: self.method, url: self.url@ }
    }
}

/// The one board request owed for a kept row: a rewrite (PUT) of the first
/// action whose text equals the composed comment, or, when no listed action
/// matches, the creation (POST) of a new comment.
pub open spec fn spec_upsert_call(
    card_id: Seq<char>,
    key: Seq<char>,
    token: Seq<char>,
    text: Seq<char>,
    text_encoded: Seq<char>,
    actions: Seq<ActionView>,
) -> PlannedCallView {
    if exists|j: int| 0 <= j < actions.len() && spec_action_matches(actions[j], text) {
        let first = choose|j: int|
            0 <= j < actions.len() && spec_action_matches(actions[j], text) && forall|k: int|
                0 <= k < j ==> !spec_action_matches(actions[k], text);
        PlannedCallView {
            method: HttpMethod::Put,
            url: spec_comment_update_url(card_id, actions[first].id, key, token, text_encoded),
        }
    } else {
        PlannedCallView {
            method: HttpMethod::Post,
            url: spec_comment_create_url(card_id, key, token, text_encoded),
        }
    }
}

/// Decides the single board request for a kept row: update the first exactly
/// matching comment action, else create a new comment. Exactly one request is
/// planned either way.
pub fn upsert_call(
    card_id: &str,
    key: &str,
    token: &str,
    text: &String,
    actions: &Vec<BoardAction>,
) -> (r: PlannedCall)
    ensures
        r@ == spec_upsert_call(
            card_id@,
            key@,
            token@,
            text@,
            spec_url_encode(vstd::utf8::encode_utf8(text@)),
            actions.deep_view(),
        ),
{
    match find_matching_action(actions, text) {
        Some(i) => {
            let url = comment_update_url(card_id, actions[i].id.as_str(), key, token, text.as_str());
            proof {
                let avs = actions.deep_view();
                let first = choose|j: int|
                    0 <= j < avs.len() && spec_action_matches(avs[j], text@) && forall|k: int|
                        0 <= k < j ==> !spec_action_matches(avs[k], text@);
                assert(0 <= i < avs.len() && spec_action_matches(avs[i as int], text@)
                    && forall|k: int| 0 <= k < i ==> !spec_action_matches(avs[k], text@));
                assert(first == i as int);
            }
            PlannedCall { method: HttpMethod::Put, url }
        },
        None => {
            let url = comment_create_url(card_id, key, token, text.as_str());
            PlannedCall { method: HttpMethod::Post, url }
        },
    }
}

/// A row is skipped when its identifier is empty, or when all four of its
/// metric fields are empty; a skipped row causes no network call at all.
pub open spec fn spec_row_skipped(
    id: Seq<char>,
    r_value: Seq<char>,
    s_value: Seq<char>,
    w_value: Seq<char>,
    x_value: Seq<char>,
) -> bool {
    id.len() == 0 || (r_value.len() == 0 && s_value.len() == 0 && w_value.len() == 0
        && x_value.len() == 0)
}

/// One row's pending upsert: the row's index, its card identifier, and the
/// comment composed from its metrics.
pub struct RowTask {
    pub row: usize,
    pub card_id: String,
    pub text: String,
}

/// The mathematical value of a pending upsert.
pub ghost struct RowTaskView {
    pub row: int,
    pub card_id: Seq<char>,
    pub text: Seq<char>,
}

impl View for RowTask {
    type V = RowTaskView;

    open spec fn view(&self) -> RowTaskView {
        RowTaskView { row: self.row as int, card_id: self.card_id@, text: self.text@ }
    }
}

impl DeepView for RowTask {
    type V = RowTaskView;

    open spec fn deep_view(&self) -> RowTaskView {
        self@
    }
}

/// The metric value a column contributes to a row: its cell there, or the
/// empty string where the column ends before the row.
pub open spec fn spec_metric(col: Seq<Seq<char>>, i: int) -> Seq<char> {
    spec_value_at(col, i)
}

/// The pending upserts among the first `n` rows, in row order: one task per
/// row that is not skipped, none for a skipped row.
pub open spec fn spec_row_tasks_upto(
    ids: Seq<Seq<char>>,
    r_col: Seq<Seq<char>>,
    s_col: Seq<Seq<char>>,
    w_col: Seq<Seq<char>>,
    x_col: Seq<Seq<char>>,
    n: int,
) -> Seq<RowTaskView>
    decreases n,
{
    if n <= 0 {
        Seq::empty()
    } else {
        let i = n - 1;
        let prev = spec_row_tasks_upto(ids, r_col, s_col, w_col, x_col, i);
        if spec_row_skipped(
            ids[i],
            spec_metric(r_col, i),
            spec_metric(s_col, i),
            spec_metric(w_col, i),
            spec_metric(x_col, i),
        ) {
            prev
        } else {
            prev.push(
                RowTaskView {
                    row: i,
                    card_id: ids[i],
                    text: spec_comment(
                        spec_metric(s_col, i),
                        spec_metric(r_col, i),
                        spec_metric(w_col, i),
                        spec_metric(x_col, i),
                    ),
                },
            )
        }
    }
}

/// The pending upserts of a whole run, one identifier column and four metric
/// columns wide.
pub open spec fn spec_row_tasks(
    ids: Seq<Seq<char>>,
    r_col: Seq<Seq<char>>,
    s_col: Seq<Seq<char>>,
    w_col: Seq<Seq<char>>,
    x_col: Seq<Seq<char>>,
) -> Seq<RowTaskView> {
    spec_row_tasks_upto(ids, r_col, s_col, w_col, x_col, ids.len() as int)
}

/// Plans the run's upserts: walks the identifier column in row order, skips a
/// row whose identifier is empty or whose four metrics are all empty, and for
/// every other row composes its summary comment.
pub fn plan_rows(
    ids: &Vec<String>,
    r_col: &Vec<String>,
    s_col: &Vec<String>,
    w_col: &Vec<String>,
    x_col: &Vec<String>,
) -> (tasks: Vec<RowTask>)
    ensures
        tasks.deep_view() == spec_row_tasks(
            ids.deep_view(),
            r_col.deep_view(),
            s_col.deep_view(),
            w_col.deep_view(),
            x_col.deep_view(),
        ),
{
    let mut tasks: Vec<RowTask> = Vec::new();
    let n = ids.len();
    let mut i: usize = 0;
    while i < n
        invariant
            n == ids@.len(),
            i <= n,
            tasks.deep_view() =~= spec_row_tasks_upto(
                ids.deep_view(),
                r_col.deep_view(),
                s_col.deep_view(),
                w_col.deep_view(),
                x_col.deep_view(),
                i as int,
            ),
        decreases n - i,
    {
        let ghost prefix = tasks.deep_view();
        let r_v = value_at(r_col, i);
        let s_v = value_at(s_col, i);
        let w_v = value_at(w_col, i);
        let x_v = value_at(x_col, i);
        let keep = !ids[i].as_str().is_empty() && !(r_v.as_str().is_empty()
            && s_v.as_str().is_empty() && w_v.as_str().is_empty() && x_v.as_str().is_empty());
        if keep {
            let text = compose_comment(s_v.as_str(), r_v.as_str(), w_v.as_str(), x_v.as_str());
            tasks.push(RowTask { row: i, card_id: ids[i].clone(), text });
            proof {
                assert(tasks.deep_view() =~= prefix.push(
                    RowTaskView {
                        row: i as int,
                        card_id: ids.deep_view()[i as int],
                        text: spec_comment(
                            spec_metric(s_col.deep_view(), i as int),
                            spec_metric(r_col.deep_view(), i as int),
                            spec_metric(w_col.deep_view(), i as int),
                            spec_metric(x_col.deep_view(), i as int),
                        ),
                    },
                ));
            }
        }
        i = i + 1;
    }
    tasks
}

/// Each planned task points at a row of the sheet that was not skipped, and
/// carries that row's identifier and the comment composed from that row's
/// metrics.
pub proof fn lemma_row_tasks_sound(
    ids: Seq<Seq<char>>,
    r_col: Seq<Seq<char>>,
    s_col: Seq<Seq<char>>,
    w_col: Seq<Seq<char>>,
    x_col: Seq<Seq<char>>,
    n: int,
)
    requires
        0 <= n <= ids.len(),
    ensures
        forall|t: int|
            0 <= t < spec_row_tasks_upto(ids, r_col, s_col, w_col, x_col, n).len() ==> {
                let task = #[trigger] spec_row_tasks_upto(ids, r_col, s_col, w_col, x_col, n)[t];
                &&& 0 <= task.row < n
                &&& !spec_row_skipped(
                    ids[task.row],
                    spec_metric(r_col, task.row),
                    spec_metric(s_col, task.row),
                    spec_metric(w_col, task.row),
                    spec_metric(x_col, task.row),
                )
                &&& task.card_id == ids[task.row]
                &&& task.text == spec_comment(
                    spec_metric(s_col, task.row),
                    spec_metric(r_col, task.row),
                    spec_metric(w_col, task.row),
                    spec_metric(x_col, task.row),
                )
            },
    decreases n,
{
    if n > 0 {
        lemma_row_tasks_sound(ids, r_col, s_col, w_col, x_col, n - 1);
        let prev = spec_row_tasks_upto(ids, r_col, s_col, w_col, x_col, n - 1);
        let tasks = spec_row_tasks_upto(ids, r_col, s_col, w_col, x_col, n);
        assert forall|t: int| 0 <= t < tasks.len() implies {
            let task = #[trigger] tasks[t];
            &&& 0 <= task.row < n
            &&& !spec_row_skipped(
                ids[task.row],
                spec_metric(r_col, task.row),
                spec_metric(s_col, task.row),
                spec_metric(w_col, task.row),
                spec_metric(x_col, task.row),
            )
            &&& task.card_id == ids[task.row]
            &&& task.text == spec_comment(
                spec_metric(s_col, task.row),
                spec_metric(r_col, task.row),
                spec_metric(w_col, task.row),
                spec_metric(x_col, task.row),
            )
        } by {
            if t < prev.len() {
                assert(tasks[t] == prev[t]);
            }
        }
    }
}

/// Law: a skipped row — one with an empty identifier, or with all four
/// metrics empty — has no planned task, so zero network calls are issued for
/// it.
pub proof fn lemma_skipped_row_has_no_task(
    ids: Seq<Seq<char>>,
    r_col: Seq<Seq<char>>,
    s_col: Seq<Seq<char>>,
    w_col: Seq<Seq<char>>,
    x_col: Seq<Seq<char>>,
    k: int,
)
    requires
        0 <= k < ids.len(),
        spec_row_skipped(
            ids[k],
            spec_metric(r_col, k),
            spec_metric(s_col, k),
            spec_metric(w_col, k),
            spec_metric(x_col, k),
        ),
    ensures
        forall|t: int|
            0 <= t < spec_row_tasks(ids, r_col, s_col, w_col, x_col).len()
                ==> #[trigger] spec_row_tasks(ids, r_col, s_col, w_col, x_col)[t].row != k,
{
    lemma_row_tasks_sound(ids, r_col, s_col, w_col, x_col, ids.len() as int);
}

/// Law: a row that is not skipped has exactly one planned task; repeated runs
/// therefore plan the same single upsert for it.
pub proof fn lemma_kept_row_has_task(
    ids: Seq<Seq<char>>,
    r_col: Seq<Seq<char>>,
    s_col: Seq<Seq<char>>,
    w_col: Seq<Seq<char>>,
    x_col: Seq<Seq<char>>,
    k: int,
    n: int,
)
    requires
        0 <= k < n <= ids.len(),
        !spec_row_skipped(
            ids[k],
            spec_metric(r_col, k),
            spec_metric(s_col, k),
            spec_metric(w_col, k),
            spec_metric(x_col, k),
        ),
    ensures
        exists|t: int|
            0 <= t < spec_row_tasks_upto(ids, r_col, s_col, w_col, x_col, n).len()
                && #[trigger] spec_row_tasks_upto(ids, r_col, s_col, w_col, x_col, n)[t].row == k,
    decreases n,
{
    let tasks = spec_row_tasks_upto(ids, r_col, s_col, w_col, x_col, n);
    if k == n - 1 {
        assert(tasks[tasks.len() - 1].row == k);
    } else {
        lemma_kept_row_has_task(ids, r_col, s_col, w_col, x_col, k, n - 1);
        let prev = spec_row_tasks_upto(ids, r_col, s_col, w_col, x_col, n - 1);
        let t0 = choose|t: int| 0 <= t < prev.len() && #[trigger] prev[t].row == k;
        assert(tasks[t0].row == k);
    }
}

} // verus!
