//! Request URLs for the spreadsheet and board services.
//!
//! Every request this system issues is a URL built by concatenation; only the
//! comment text is percent-encoded. The encoding itself is done by an outside
//! crate, relied upon to percent-encode exactly the reserved bytes.

use vstd::prelude::*;
use vstd::string::StringSliceAdditionalSpecFns;

verus! {

/// A byte the URL encoder leaves as is: an ASCII alphanumeric or one of
/// '-', '_', '.', '~'.
pub open spec fn spec_url_unreserved(b: u8) -> bool {
    ||| 0x30 <= b <= 0x39
    ||| 0x41 <= b <= 0x5a
    ||| 0x61 <= b <= 0x7a
    ||| b == 0x2d
    ||| b == 0x2e
    ||| b == 0x5f
    ||| b == 0x7e
}

/// The uppercase hexadecimal digit for a value below sixteen.
pub open spec fn spec_hex_digit(d: u8) -> char {
    if d < 10 {
        ((0x30 + d) as u8) as char
    } else {
        ((0x37 + d) as u8) as char
    }
}

/// Percent-encoding of a byte string: unreserved bytes stand as themselves,
/// every other byte becomes '%' and two uppercase hexadecimal digits.
pub open spec fn spec_url_encode(bs: Seq<u8>) -> Seq<char>
    decreases bs.len(),
{
    if bs.len() == 0 {
        Seq::empty()
    } else {
        let head = if spec_url_unreserved(bs[0]) {
            seq![bs[0] as char]
        } else {
            seq!['%', spec_hex_digit(bs[0] / 16), spec_hex_digit(bs[0] % 16)]
        };
        head + spec_url_encode(bs.subrange(1, bs.len() as int))
    }
}

/// Relies on urlencoding::encode: percent-encodes every byte of the UTF-8
/// encoding of its argument except ASCII alphanumerics and '-', '_', '.',
/// '~', with uppercase hexadecimal digits.
#[verifier::external_body]
fn url_encode(s: &str) -> (r: String)
    ensures
        r@ == spec_url_encode(s.spec_bytes()),
{
    urlencoding::encode(s).into_owned()
}

/// The URL of a single-cell or range read against the spreadsheet service.
pub open spec fn spec_sheet_values_url(sheet_id: Seq<char>, range: Seq<char>, api_key: Seq<
    char,
>) -> Seq<char> {
    "https://sheets.googleapis.com/v4/spreadsheets/"@ + sheet_id + "/values/"@ + range + "?key="@
        + api_key
}

/// Builds the URL of a spreadsheet value read.
pub fn sheet_values_url(sheet_id: &str, range: &str, api_key: &str) -> (r: String)
    ensures
        r@ == spec_sheet_values_url(sheet_id@, range@, api_key@),
{
    let mut r = String::from_str("https://sheets.googleapis.com/v4/spreadsheets/");
    r.append(sheet_id);
    r.append("/values/");
    r.append(range);
    r.append("?key=");
    r.append(api_key);
    proof {
        assert(r@ =~= spec_sheet_values_url(sheet_id@, range@, api_key@));
    }
    r
}

/// The URL listing a card's comment actions on the board service.
pub open spec fn spec_actions_list_url(card_id: Seq<char>, key: Seq<char>, token: Seq<
    char,
>) -> Seq<char> {
    "https://api.trello.com/1/cards/"@ + card_id + "/actions?filter=commentCard&key="@ + key
        + "&token="@ + token
}

/// Builds the URL that lists a card's comment actions.
pub fn actions_list_url(card_id: &str, key: &str, token: &str) -> (r: String)
    ensures
        r@ == spec_actions_list_url(card_id@, key@, token@),
{
    let mut r = String::from_str("https://api.trello.com/1/cards/");
    r.append(card_id);
    r.append("/actions?filter=commentCard&key=");
    r.append(key);
    r.append("&token=");
    r.append(token);
    proof {
        assert(r@ =~= spec_actions_list_url(card_id@, key@, token@));
    }
    r
}

/// The URL creating a new comment on a card, the comment text percent-encoded
/// into the query string.
pub open spec fn spec_comment_create_url(
    card_id: Seq<char>,
    key: Seq<char>,
    token: Seq<char>,
    text_encoded: Seq<char>,
) -> Seq<char> {
    "https://api.trello.com/1/cards/"@ + card_id + "/actions/comments?key="@ + key + "&token="@
        + token + "&text="@ + text_encoded
}

/// Builds the URL that creates a new comment with the given text on a card.
pub fn comment_create_url(card_id: &str, key: &str, token: &str, text: &str) -> (r: String)
    ensures
        r@ == spec_comment_create_url(card_id@, key@, token@, spec_url_encode(text.spec_bytes())),
{
    let encoded = url_encode(text);
    let mut r = String::from_str("https://api.trello.com/1/cards/");
    r.append(card_id);
    r.append("/actions/comments?key=");
    r.append(key);
    r.append("&token=");
    r.append(token);
    r.append("&text=");
    r.append(encoded.as_str());
    proof {
        assert(r@ =~= spec_comment_create_url(
            card_id@,
            key@,
            token@,
            spec_url_encode(text.spec_bytes()),
        ));
    }
    r
}

/// The URL updating an existing comment action, the comment text
/// percent-encoded into the query string.
pub open spec fn spec_comment_update_url(
    card_id: Seq<char>,
    action_id: Seq<char>,
    key: Seq<char>,
    token: Seq<char>,
    text_encoded: Seq<char>,
) -> Seq<char> {
    "https://api.trello.com/1/cards/"@ + card_id + "/actions/"@ + action_id + "?key="@ + key
        + "&token="@ + token + "&text="@ + text_encoded
}

/// Builds the URL that rewrites an existing comment action's text.
pub fn comment_update_url(card_id: &str, action_id: &str, key: &str, token: &str, text: &str) -> (r:
    String)
    ensures
        r@ == spec_comment_update_url(
            card_id@,
            action_id@,
            key@,
            token@,
            spec_url_encode(text.spec_bytes()),
        ),
{
    let encoded = url_encode(text);
    let mut r = String::from_str("https://api.trello.com/1/cards/");
    r.append(card_id);
    r.append("/actions/");
    r.append(action_id);
    r.append("?key=");
    r.append(key);
    r.append("&token=");
    r.append(token);
    r.append("&text=");
    r.append(encoded.as_str());
    proof {
        assert(r@ =~= spec_comment_update_url(
            card_id@,
            action_id@,
            key@,
            token@,
            spec_url_encode(text.spec_bytes()),
        ));
    }
    r
}

/// The messaging service's post endpoint.
pub open spec fn spec_message_post_url() -> Seq<char> {
    "https://slack.com/api/chat.postMessage"@
}

/// The messaging service's post endpoint.
pub fn message_post_url() -> (r: String)
    ensures
        r@ == spec_message_post_url(),
{
    String::from_str("https://slack.com/api/chat.postMessage")
}

} // verus!
