//! The text of a notification as it travels: JSON, the variant's name as
//! the tag, and the payload under it.
use vstd::prelude::*;
use vstd::string::StringExecFns;

use crate::protocol::{lines, GameMessage, GameScore, MessageView};

verus! {

/// The JSON string literal that `serde_json` writes for a text: the text
/// between double quotes, with escapes where JSON asks for them.
pub uninterp spec fn json_string_text(text: Seq<char>) -> Seq<char>;

/// Writes a text as a JSON string literal: `serde_json::to_string` on a
/// `str`. The literal depends on the text alone. Serialising a `str` writes
/// into a byte vector and has no way to fail, so the call always returns `Ok`.
#[verifier::external_body]
pub(crate) fn json_string(text: &str) -> (json: String)
    ensures
        json@ == json_string_text(text@),
{
    serde_json::to_string(text).unwrap_or_default()
}

/// A JSON object with one key: the tag, and the payload under it.
pub open spec fn tagged_text(tag: Seq<char>, payload: Seq<char>) -> Seq<char> {
    "{\""@ + tag + "\":"@ + payload + "}"@
}

/// Some texts with commas between them.
pub open spec fn comma_separated(items: Seq<Seq<char>>) -> Seq<char>
    decreases items.len(),
{
    if items.len() == 0 {
        Seq::empty()
    } else if items.len() == 1 {
        items.last()
    } else {
        comma_separated(items.drop_last()) + ","@ + items.last()
    }
}

/// A JSON array of items that are JSON already.
pub open spec fn array_text(items: Seq<Seq<char>>) -> Seq<char> {
    "["@ + comma_separated(items) + "]"@
}

/// The JSON string literals of some lines.
pub open spec fn json_strings(list: Seq<Seq<char>>) -> Seq<Seq<char>> {
    Seq::new(list.len(), |i: int| json_string_text(list[i]))
}

/// The JSON object of a transcript: its lines as an array of strings under
/// the key `client_feed`.
pub open spec fn score_text(feed: Seq<Seq<char>>) -> Seq<char> {
    tagged_text("client_feed"@, array_text(json_strings(feed)))
}

/// The text of a notification on the wire. A notification without payload
/// is its name as a JSON string; one with a payload is a JSON object with
/// the name as its only key.
pub open spec fn wire_text(message: MessageView) -> Seq<char> {
    match message {
        MessageView::Spectate => "\"Spectate\""@,
        MessageView::StartGame(text) => tagged_text("StartGame"@, json_string_text(text)),
        MessageView::Disconnect => "\"Disconnect\""@,
        MessageView::Reconnect => "\"Reconnect\""@,
        MessageView::NoGameFound => "\"NoGameFound\""@,
        MessageView::P1Join => "\"P1Join\""@,
        MessageView::P2Join => "\"P2Join\""@,
        MessageView::Status(text) => tagged_text("Status"@, json_string_text(text)),
        MessageView::GameScore(feed) => tagged_text("GameScore"@, score_text(feed)),
        MessageView::StartRoll(text) => tagged_text("StartRoll"@, json_string_text(text)),
        MessageView::Pong => "\"Pong\""@,
        MessageView::GameOver(text) => tagged_text("GameOver"@, json_string_text(text)),
    }
}

/// Puts a payload that is JSON already under a tag.
pub fn tagged(tag: &str, payload: &str) -> (json: String)
    ensures
        json@ == tagged_text(tag@, payload@),
{
    let mut json = String::from_str("{\"");
    json.append(tag);
    json.append("\":");
    json.append(payload);
    json.append("}");
    json
}

/// Makes a JSON array of items that are JSON already.
pub fn array(items: &Vec<String>) -> (json: String)
    ensures
        json@ == array_text(lines(items@)),
{
    let mut list = String::new();
    let mut i: usize = 0;
    let ghost all = lines(items@);
    assert(all.take(0) =~= Seq::<Seq<char>>::empty());
    while i < items.len()
        invariant
            i <= items.len(),
            all == lines(items@),
            list@ == comma_separated(all.take(i as int)),
        decreases items.len() - i,
    {
        if i > 0 {
            list.append(",");
        }
        list.append(items[i].as_str());
        i = i + 1;
        proof {
            assert(all.take(i as int).drop_last() =~= all.take(i - 1));
            assert(all.take(i as int).last() == items@[i - 1]@);
            if i == 1 {
                assert(list@ =~= all.take(1).last());
            }
        }
    }
    assert(all.take(i as int) =~= all);
    let mut json = String::from_str("[");
    json.append(list.as_str());
    json.append("]");
    json
}

impl GameScore {
    /// The transcript as a JSON object.
    pub fn encode(&self) -> (json: String)
        ensures
            json@ == score_text(self@),
    {
        let mut quoted: Vec<String> = Vec::new();
        let mut i: usize = 0;
        while i < self.client_feed.len()
            invariant
                i <= self.client_feed.len(),
                quoted@.len() == i,
                forall|j: int| 0 <= j < i ==> quoted@[j]@ == json_string_text(self.client_feed@[j]@),
            decreases self.client_feed.len() - i,
        {
            quoted.push(json_string(self.client_feed[i].as_str()));
            i = i + 1;
        }
        assert(lines(quoted@) =~= json_strings(self@));
        tagged("client_feed", array(&quoted).as_str())
    }
}

impl GameMessage {
    /// The text of the notification on the wire.
    pub fn encode(&self) -> (json: String)
        ensures
            json@ == wire_text(self@),
    {
        match self {
            GameMessage::Spectate => String::from_str("\"Spectate\""),
            GameMessage::StartGame(text) => tagged("StartGame", json_string(text.as_str()).as_str()),
            GameMessage::Disconnect => String::from_str("\"Disconnect\""),
            GameMessage::Reconnect => String::from_str("\"Reconnect\""),
            GameMessage::NoGameFound => String::from_str("\"NoGameFound\""),
            GameMessage::P1Join => String::from_str("\"P1Join\""),
            GameMessage::P2Join => String::from_str("\"P2Join\""),
            GameMessage::Status(text) => tagged("Status", json_string(text.as_str()).as_str()),
            GameMessage::GameScore(score) => tagged("GameScore", score.encode().as_str()),
            GameMessage::StartRoll(text) => tagged("StartRoll", json_string(text.as_str()).as_str()),
            GameMessage::Pong => String::from_str("\"Pong\""),
            GameMessage::GameOver(text) => tagged("GameOver", json_string(text.as_str()).as_str()),
        }
    }
}

} // verus!
