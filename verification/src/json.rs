//! The serialized form of an end event, for configuration that is stored or
//! sent: lower camel case names, the path of a sound present only where there
//! is one, and the screen lock as a bare string.
//!
//! | end event                | serialized form                           |
//! |--------------------------|-------------------------------------------|
//! | sound, path `sound.wav`  | `{"sound":{"filepathSound":"sound.wav"}}` |
//! | sound, no path           | `{"sound":{}}`                            |
//! | screen lock              | `"lockScreen"`                            |
//!
//! A sound with an empty path is written as a sound with no path: the path
//! field is present only for a path that is not empty.
//!
//! The frame around a path is written and checked here. The path itself is
//! written and read as a JSON string by `serde_json`.

use crate::event::{EndEvent, EndEventView};
use vstd::prelude::*;
use vstd::string::{StrSliceExecFns, StringExecFns};

verus! {

/// `serde_json::Error`, the error of the JSON writer and reader. Nothing is
/// claimed of what it holds; it is only told apart from success.
#[verifier::external_type_specification]
#[verifier::external_body]
pub struct ExJsonError(serde_json::Error);

/// What `serde_json::to_string` makes of a string: the JSON string that
/// stands for the text.
pub uninterp spec fn json_string(text: Seq<char>) -> Seq<char>;

/// What `serde_json::from_str` reads out of a text when asked for a `String`:
/// the text that the JSON string stands for, or `None` where it reports an
/// error.
pub uninterp spec fn json_text(quoted: Seq<char>) -> Option<Seq<char>>;

/// The text holds no character that a JSON string writes otherwise than as
/// itself: no double quote, no backslash, no control character below U+0020.
pub open spec fn unescaped(text: Seq<char>) -> bool {
    forall|i: int|
        0 <= i < text.len() ==> {
            let c = #[trigger] text[i];
            c != '"' && c != '\\' && c as u32 >= 0x20
        }
}

/// The text between two double quotes.
pub open spec fn in_quotes(text: Seq<char>) -> Seq<char> {
    seq!['"'] + text + seq!['"']
}

/// The text is some text without escapes between two double quotes.
pub open spec fn quoted_plainly(quoted: Seq<char>) -> bool {
    &&& quoted.len() >= 2
    &&& quoted[0] == '"'
    &&& quoted[quoted.len() - 1] == '"'
    &&& unescaped(quoted.subrange(1, quoted.len() - 1))
}

/// `serde_json::to_string` on a string. It cannot fail there: its only error
/// is that of the writer, and it writes into memory. Its result is a function
/// of the text alone. Of that result this much is stated: the writer escapes
/// the double quote, the backslash and the characters below U+0020 and copies
/// every other character, so a text without those comes out as itself between
/// two double quotes.
#[verifier::external_body]
fn write_string(text: &str) -> (written: Result<String, serde_json::Error>)
    ensures
        written is Ok,
        written matches Ok(quoted) ==> quoted@ == json_string(text@),
        written matches Ok(quoted) ==> (unescaped(text@) ==> quoted@ == in_quotes(text@)),
{
    serde_json::to_string(text)
}

/// `serde_json::from_str` asked for a `String`. Its result, success or error,
/// is a function of the text alone. Of that result this much is stated: a
/// text that is nothing but a double quote, characters that need no escape,
/// and a double quote is read as the characters between the quotes.
#[verifier::external_body]
fn read_string(quoted: &str) -> (read: Result<String, serde_json::Error>)
    ensures
        match read {
            Ok(text) => json_text(quoted@) == Some(text@),
            Err(_) => json_text(quoted@) is None,
        },
        quoted_plainly(quoted@) ==> read is Ok,
        read matches Ok(text) ==> (quoted_plainly(quoted@) ==> text@ == quoted@.subrange(
            1,
            quoted@.len() - 1,
        )),
{
    serde_json::from_str::<String>(quoted)
}

/// Why an end event could not be read.
#[derive(Clone, Copy, Debug, PartialEq, Eq, Structural)]
pub enum JsonError {
    /// The text is not the serialized form of an end event.
    Malformed,
}

/// The serialized screen lock.
pub open spec fn lock_screen_json() -> Seq<char> {
    "\"lockScreen\""@
}

/// The serialized sound without a path.
pub open spec fn plain_sound_json() -> Seq<char> {
    "{\"sound\":{}}"@
}

/// What stands before the path in a serialized sound.
pub open spec fn sound_head() -> Seq<char> {
    "{\"sound\":{\"filepathSound\":"@
}

/// What stands after the path in a serialized sound.
pub open spec fn sound_tail() -> Seq<char> {
    "}}"@
}

/// The serialized form of an end event. The path field is present only for a
/// path that is not empty: a sound with an empty path is written as a sound
/// with no path.
pub open spec fn encoded(event: EndEventView) -> Seq<char> {
    match event {
        EndEventView::LockScreen => lock_screen_json(),
        EndEventView::Sound { filepath_sound: None } => plain_sound_json(),
        EndEventView::Sound { filepath_sound: Some(path) } => if path.len() == 0 {
            plain_sound_json()
        } else {
            sound_head() + json_string(path) + sound_tail()
        },
    }
}

/// The event as its serialized form tells it: an empty path is no path.
pub open spec fn as_written(event: EndEventView) -> EndEventView {
    match event {
        EndEventView::Sound { filepath_sound: Some(path) } => if path.len() == 0 {
            EndEventView::Sound { filepath_sound: None }
        } else {
            event
        },
        _ => event,
    }
}

/// The text has the frame of a serialized sound with a path.
pub open spec fn framed(text: Seq<char>) -> bool {
    &&& text.len() >= sound_head().len() + sound_tail().len()
    &&& text.subrange(0, sound_head().len() as int) == sound_head()
    &&& text.subrange(text.len() - sound_tail().len(), text.len() as int) == sound_tail()
}

/// What stands inside the frame of a framed text.
pub open spec fn unframed(text: Seq<char>) -> Seq<char> {
    text.subrange(sound_head().len() as int, text.len() - sound_tail().len())
}

/// The end event of which the text is the serialized form, if it is one. A
/// framed text is one only if what stands inside the frame reads as a JSON
/// string, the path so read is not empty, and the frame holds, letter for
/// letter, what that path is written as.
pub open spec fn decoded(text: Seq<char>) -> Option<EndEventView> {
    if text == lock_screen_json() {
        Some(EndEventView::LockScreen)
    } else if text == plain_sound_json() {
        Some(EndEventView::Sound { filepath_sound: None })
    } else if framed(text) {
        match json_text(unframed(text)) {
            Some(path) => if path.len() > 0 && json_string(path) == unframed(text) {
                Some(EndEventView::Sound { filepath_sound: Some(path) })
            } else {
                None
            },
            None => None,
        }
    } else {
        None
    }
}

/// The path of a serialized sound whose path needed no escape: the text is
/// the frame around a path that is not empty, holds no character to escape
/// and stands between two double quotes.
pub open spec fn plain_sound_path(text: Seq<char>) -> Option<Seq<char>> {
    if framed(text) && quoted_plainly(unframed(text)) && unframed(text).len() > 2 {
        Some(unframed(text).subrange(1, unframed(text).len() - 1))
    } else {
        None
    }
}

/// Whether two texts are the same.
pub fn same_text(a: &str, b: &str) -> (same: bool)
    ensures
        same == (a@ == b@),
{
    let left = a.to_owned();
    let right = b.to_owned();
    left == right
}

/// The text as `serde_json` writes it as a JSON string.
fn written(text: &str) -> (quoted: String)
    ensures
        quoted@ == json_string(text@),
        unescaped(text@) ==> quoted@ == in_quotes(text@),
{
    match write_string(text) {
        Ok(quoted) => quoted,
        Err(_) => unreached(),
    }
}

/// Puts the frame of a serialized sound around a path that is already
/// written as a JSON string.
pub fn frame_sound(quoted: &str) -> (json: String)
    ensures
        json@ == sound_head() + quoted@ + sound_tail(),
{
    let json = String::from_str("{\"sound\":{\"filepathSound\":");
    let json = json.concat(quoted);
    json.concat("}}")
}

/// Serializes an end event. A path without a double quote, a backslash or a
/// control character stands in the text as it is, between double quotes.
pub fn to_json(event: &EndEvent) -> (json: String)
    ensures
        json@ == encoded(event@),
        event@ matches EndEventView::Sound { filepath_sound: Some(path) } ==> (path.len() > 0
            && unescaped(path) ==> json@ == sound_head() + in_quotes(path) + sound_tail()),
{
    match event {
        EndEvent::LockScreen => String::from_str("\"lockScreen\""),
        EndEvent::Sound { filepath_sound: None } => String::from_str("{\"sound\":{}}"),
        EndEvent::Sound { filepath_sound: Some(path) } => {
            if path.as_str().is_empty() {
                String::from_str("{\"sound\":{}}")
            } else {
                let quoted = written(path.as_str());
                frame_sound(quoted.as_str())
            }
        },
    }
}

/// Takes the frame of a serialized sound off a text: what stands inside it,
/// or `None` where the text has no such frame.
pub fn unframe_sound(text: &str) -> (inner: Option<&str>)
    ensures
        match inner {
            Some(quoted) => framed(text@) && quoted@ == unframed(text@),
            None => !framed(text@),
        },
{
    proof {
        reveal_strlit("{\"sound\":{\"filepathSound\":");
        reveal_strlit("}}");
    }
    let n: usize = text.unicode_len();
    if n < 28 {
        return None;
    }
    if !same_text(text.substring_char(0, 26), "{\"sound\":{\"filepathSound\":") {
        return None;
    }
    if !same_text(text.substring_char(n - 2, n), "}}") {
        return None;
    }
    Some(text.substring_char(26, n - 2))
}

/// Decides on a path that was read out of a framed text: `quoted` is what
/// stood inside the frame, `path` what it was read as, and `rewritten` what
/// that path is written as. The path stands only if it is not empty and is
/// written exactly as it stood.
pub fn accept_path(quoted: &str, path: String, rewritten: &str) -> (event: Result<EndEvent, JsonError>)
    ensures
        match event {
            Ok(accepted) => path@.len() > 0 && rewritten@ == quoted@ && accepted == (EndEvent::Sound {
                filepath_sound: Some(path),
            }),
            Err(error) => (path@.len() == 0 || rewritten@ != quoted@) && error == JsonError::Malformed,
        },
{
    if !path.as_str().is_empty() && same_text(rewritten, quoted) {
        Ok(EndEvent::Sound { filepath_sound: Some(path) })
    } else {
        Err(JsonError::Malformed)
    }
}

/// Reads a serialized end event. It accepts the serialized forms and nothing
/// else. The frame around a path that is not empty and needs no escape, in
/// double quotes, is always read, as a sound with that path.
pub fn from_json(text: &str) -> (event: Result<EndEvent, JsonError>)
    ensures
        match event {
            Ok(read) => decoded(text@) == Some(read@),
            Err(error) => error == JsonError::Malformed && decoded(text@) is None,
        },
        plain_sound_path(text@) is Some ==> event is Ok && event->Ok_0@ == (EndEventView::Sound {
            filepath_sound: plain_sound_path(text@),
        }),
{
    proof {
        reveal_strlit("\"lockScreen\"");
        reveal_strlit("{\"sound\":{}}");
        reveal_strlit("{\"sound\":{\"filepathSound\":");
        reveal_strlit("}}");
    }
    if same_text(text, "\"lockScreen\"") {
        return Ok(EndEvent::LockScreen);
    }
    if same_text(text, "{\"sound\":{}}") {
        return Ok(EndEvent::Sound { filepath_sound: None });
    }
    match unframe_sound(text) {
        None => Err(JsonError::Malformed),
        Some(quoted) => match read_string(quoted) {
            Err(_) => Err(JsonError::Malformed),
            Ok(path) => {
                let rewritten = written(path.as_str());
                proof {
                    if plain_sound_path(text@) is Some {
                        assert(in_quotes(path@) =~= quoted@);
                    }
                }
                accept_path(quoted, path, rewritten.as_str())
            },
        },
    }
}

/// Reading undoes writing, as far as this library decides: a text that reads
/// as an end event is the serialized form of that very event.
pub proof fn lemma_decoded_was_encoded(text: Seq<char>)
    ensures
        decoded(text) is Some ==> encoded(decoded(text)->0) == text,
{
    if text != lock_screen_json() && text != plain_sound_json() && framed(text) {
        reveal_strlit("}}");
        let n = text.len() as int;
        let h = sound_head().len() as int;
        assert(text =~= text.subrange(0, h) + text.subrange(h, n - 2) + text.subrange(n - 2, n));
    }
}

/// `serde_json` reads the path of the event, if it has one that is written,
/// back as it wrote it.
pub open spec fn reads_back(event: EndEventView) -> bool {
    match event {
        EndEventView::Sound { filepath_sound: Some(path) } => path.len() > 0 ==> json_text(
            json_string(path),
        ) == Some(path),
        _ => true,
    }
}

/// Writing is undone by reading, wherever `serde_json` reads a path back as
/// it wrote it: the serialized form of an end event then reads as that event,
/// with an empty path read as no path. An event without a path needs no such
/// condition.
pub proof fn lemma_encoded_is_decoded(event: EndEventView)
    ensures
        reads_back(event) ==> decoded(encoded(event)) == Some(as_written(event)),
{
    reveal_strlit("\"lockScreen\"");
    reveal_strlit("{\"sound\":{}}");
    reveal_strlit("{\"sound\":{\"filepathSound\":");
    reveal_strlit("}}");
    assert(plain_sound_json()[0] != lock_screen_json()[0]);
    match event {
        EndEventView::Sound { filepath_sound: Some(path) } => {
            if path.len() > 0 {
                let quoted = json_string(path);
                let text = sound_head() + quoted + sound_tail();
                assert(text[0] == '{');
                assert(text.subrange(0, 26) =~= sound_head());
                assert(text.subrange(text.len() - 2, text.len() as int) =~= sound_tail());
                assert(unframed(text) =~= quoted);
            }
        },
        _ => {},
    }
}

/// The frame around a path in double quotes is where `plain_sound_path` finds
/// that path again, if the path is not empty and needs no escape. With the
/// contracts of `to_json` and `from_json` this makes writing and reading such
/// a path a round trip.
pub proof fn lemma_plain_path_is_found(path: Seq<char>)
    requires
        path.len() > 0,
        unescaped(path),
    ensures
        plain_sound_path(sound_head() + in_quotes(path) + sound_tail()) == Some(path),
{
    reveal_strlit("{\"sound\":{\"filepathSound\":");
    reveal_strlit("}}");
    let text = sound_head() + in_quotes(path) + sound_tail();
    assert(text.subrange(0, 26) =~= sound_head());
    assert(text.subrange(text.len() - 2, text.len() as int) =~= sound_tail());
    assert(unframed(text) =~= in_quotes(path));
    assert(in_quotes(path).subrange(1, in_quotes(path).len() - 1) =~= path);
}

} // verus!
