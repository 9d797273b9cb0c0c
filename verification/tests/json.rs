use end_events::json::{accept_path, frame_sound, same_text, unframe_sound};
use end_events::{from_json, to_json, EndEvent, JsonError};

#[test]
fn test_serialize_end_event_to_json() {
    // Test external sound
    let sound_event_external = EndEvent::Sound {
        filepath_sound: Some(String::from("sound.wav")),
    };

    // Test internal sound (no filepath)
    let sound_event_internal = EndEvent::Sound {
        filepath_sound: None,
    };

    let screensaver_event = EndEvent::LockScreen;

    let sound_event_external_json = to_json(&sound_event_external);
    let sound_event_internal_json = to_json(&sound_event_internal);
    let screensaver_event_json = to_json(&screensaver_event);

    assert_eq!(
        sound_event_external_json,
        r#"{"sound":{"filepathSound":"sound.wav"}}"#
    );
    assert_eq!(sound_event_internal_json, r#"{"sound":{}}"#);
    assert_eq!(screensaver_event_json, r#""lockScreen""#);
}

#[test]
fn deserialize_reconstructs_the_three_examples() {
    assert_eq!(
        from_json(r#"{"sound":{"filepathSound":"sound.wav"}}"#),
        Ok(EndEvent::Sound {
            filepath_sound: Some(String::from("sound.wav"))
        })
    );
    assert_eq!(
        from_json(r#"{"sound":{}}"#),
        Ok(EndEvent::Sound {
            filepath_sound: None
        })
    );
    assert_eq!(from_json(r#""lockScreen""#), Ok(EndEvent::LockScreen));
}

#[test]
fn round_trip_of_paths_that_need_escapes() {
    for path in [
        "sound.wav",
        " ",
        "\u{7f}",
        "C:\\sounds\\bell \"one\".wav",
        "line\nbreak\ttab",
        "/home/zoë/音.ogg",
        "}}",
        "{\"sound\":{}}",
    ] {
        let event = EndEvent::Sound {
            filepath_sound: Some(String::from(path)),
        };
        let json = to_json(&event);
        assert_eq!(from_json(&json), Ok(event));
    }
}

#[test]
fn empty_path_is_written_as_no_path() {
    let event = EndEvent::Sound {
        filepath_sound: Some(String::new()),
    };
    assert_eq!(to_json(&event), r#"{"sound":{}}"#);
    // So an empty path reads back as no path.
    assert_eq!(
        from_json(&to_json(&event)),
        Ok(EndEvent::Sound {
            filepath_sound: None
        })
    );
}

#[test]
fn path_without_escapes_stands_as_it_is_between_quotes() {
    for path in ["a", "sound.wav", "/home/zoë/音.ogg", "C:/sounds/bell one.wav", "~\u{7f}{}"] {
        let event = EndEvent::Sound {
            filepath_sound: Some(String::from(path)),
        };
        let expected = format!("{{\"sound\":{{\"filepathSound\":\"{}\"}}}}", path);
        assert_eq!(to_json(&event), expected);
        assert_eq!(from_json(&expected), Ok(event));
    }
}

#[test]
fn control_characters_are_escaped_by_the_json_writer() {
    let event = EndEvent::Sound {
        filepath_sound: Some(String::from("a\nb\u{1}c\u{1f}")),
    };
    assert_eq!(
        to_json(&event),
        r#"{"sound":{"filepathSound":"a\nb\u0001c\u001f"}}"#
    );
}

#[test]
fn path_is_escaped_by_the_json_writer() {
    let event = EndEvent::Sound {
        filepath_sound: Some(String::from("a\"b\\c")),
    };
    assert_eq!(to_json(&event), r#"{"sound":{"filepathSound":"a\"b\\c"}}"#);
}

#[test]
fn malformed_texts_are_rejected() {
    for text in [
        "",
        "lockScreen",
        r#""LockScreen""#,
        r#""lockScreen" "#,
        r#"{"sound":{}"#,
        r#"{"sound":{"filepathSound":}}"#,
        r#"{"sound":{"filepathSound":sound.wav}}"#,
        r#"{"sound":{"filepathSound":"sound.wav"}"#,
        r#"{"sound":{"filepathSound":"sound.wav"}}}"#,
        r#"{"sound":{"filepathSound":12}}"#,
        r#"{"sound":{"filepathSound":null}}"#,
        r#"{"sound":{"filepathSound":""}}"#,
        r#"{"Sound":{"filepathSound":"sound.wav"}}"#,
        r#"{"sound":{"filepath_sound":"sound.wav"}}"#,
    ] {
        assert_eq!(from_json(text), Err(JsonError::Malformed), "{}", text);
    }
}

#[test]
fn only_the_written_form_of_a_path_is_read() {
    // The same path, written otherwise than the writer writes it.
    assert_eq!(
        from_json(r#"{"sound":{"filepathSound":"\u0073ound.wav"}}"#),
        Err(JsonError::Malformed)
    );
    assert_eq!(
        from_json(r#"{"sound":{"filepathSound": "sound.wav"}}"#),
        Err(JsonError::Malformed)
    );
}

#[test]
fn frame_is_put_on_and_taken_off() {
    assert_eq!(frame_sound("\"x\""), r#"{"sound":{"filepathSound":"x"}}"#);
    assert_eq!(frame_sound(""), r#"{"sound":{"filepathSound":}}"#);
    assert_eq!(
        unframe_sound(r#"{"sound":{"filepathSound":"x"}}"#),
        Some("\"x\"")
    );
    assert_eq!(unframe_sound(r#"{"sound":{"filepathSound":}}"#), Some(""));
    assert_eq!(unframe_sound(r#"{"sound":{"filepathSound":}"#), None);
    assert_eq!(unframe_sound(r#"{"sound":{"filepathSound:"x"}}"#), None);
    assert_eq!(unframe_sound(r#"{"sound":{}}"#), None);
    assert_eq!(
        unframe_sound("{\"sound\":{\"filepathSound\":\"é音\"}}"),
        Some("\"é音\"")
    );
}

#[test]
fn path_stands_only_if_rewritten_as_it_stood() {
    assert_eq!(
        accept_path("\"x\"", String::from("x"), "\"x\""),
        Ok(EndEvent::Sound {
            filepath_sound: Some(String::from("x"))
        })
    );
    assert_eq!(
        accept_path(" \"x\"", String::from("x"), "\"x\""),
        Err(JsonError::Malformed)
    );
    // An empty path is never written with the path field, so it is not read from one.
    assert_eq!(
        accept_path("\"\"", String::new(), "\"\""),
        Err(JsonError::Malformed)
    );
}

#[test]
fn texts_are_compared_letter_for_letter() {
    assert!(same_text("", ""));
    assert!(same_text("abc", "abc"));
    assert!(!same_text("abc", "abd"));
    assert!(!same_text("abc", "ab"));
}
