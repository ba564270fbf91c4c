//! Text inputs: typing, selecting, the clipboard, input methods and text areas.

use argus_ui::input_behavior::{
    delete_backward, handle_clipboard, handle_local_input_key, insert_text, key_fits,
    without_line_breaks, LocalInputAction,
};
use argus_ui::input_field::{
    effective_input_focus, input_appearance, input_granularity_for_click_count, input_text_runs,
    mask_secret_value, textarea_appearance, textarea_cursor_line_and_column, textarea_local_range,
    textarea_should_sync_caret, textarea_text_lines, Input, NativeInputHandler, TextRunLength,
    Textarea, TextareaCaretSyncSignature, TextareaLine, TextareaScrollState, TextareaStyle,
};
use argus_ui::keystroke::{Keystroke, Modifiers};
use argus_ui::text::{decimal, padded, parse_number, signed_padded, trim};
use argus_ui::text_input::{
    apply_pointer_event, delete_input_backward, insert_input_text, InputPointerAction,
    InputPointerEvent, TextInputState,
};
use argus_ui::text_selection::{
    character_range_for_utf16_range, utf16_range_for_character_range, NativeTextEdit,
    TextSelectionGranularity,
};

fn press(key: &str, typed: Option<&str>, secondary: bool, shift: bool) -> Keystroke {
    Keystroke {
        key: key.to_string(),
        key_char: typed.map(str::to_string),
        modifiers: Modifiers {
            control: secondary,
            platform: false,
            shift,
            function: false,
            secondary,
        },
    }
}

fn typed(input: &mut TextInputState, key: &str) -> LocalInputAction {
    handle_local_input_key(input, &press(key, Some(key), false, false), false, &None).action
}

#[test]
fn textarea_local_range_clamps_stale_line_bounds() {
    let stale_line = TextareaLine { text: String::new(), start: 8, end: 4 };

    assert_eq!(textarea_local_range(&stale_line, &Some(0..12), "abc"), None);
}

#[test]
fn textarea_caret_sync_signature_prevents_repeated_auto_scroll() {
    let mut scroll_state = TextareaScrollState::new();
    let signature = TextareaCaretSyncSignature { text_length: 20, cursor_index: 8 };

    assert!(textarea_should_sync_caret(&scroll_state, signature));
    scroll_state.record(signature);
    assert!(!textarea_should_sync_caret(&scroll_state, signature));
    assert!(textarea_should_sync_caret(
        &scroll_state,
        TextareaCaretSyncSignature { text_length: 21, cursor_index: 9 }
    ));
}

#[test]
fn a_text_puts_the_cursor_at_its_end() {
    let input = TextInputState::from_value("检查".to_string());
    assert_eq!(input.cursor, 2);
}

#[test]
fn typing_replaces_the_selection() {
    let mut input = TextInputState::from_value("日志助手".to_string());
    input.cursor = 3;
    input.selection_anchor = Some(1);
    assert_eq!(typed(&mut input, "x"), LocalInputAction::Changed);
    assert_eq!(input.value, "日x手");
    assert_eq!(input.cursor, 2);
    assert!(input.selection_range().is_none());
}

#[test]
fn enter_breaks_lines_only_where_there_are_several() {
    let mut input = TextInputState::from_value("a".to_string());
    let enter = press("enter", None, false, false);
    assert_eq!(
        handle_local_input_key(&mut input, &enter, false, &None).action,
        LocalInputAction::Submit
    );
    assert_eq!(
        handle_local_input_key(&mut input, &enter, true, &None).action,
        LocalInputAction::Changed
    );
    assert_eq!(input.value, "a\n");
    let submit = press("enter", None, true, false);
    assert_eq!(
        handle_local_input_key(&mut input, &submit, true, &None).action,
        LocalInputAction::Submit
    );
    let escape = press("escape", None, false, false);
    assert_eq!(
        handle_local_input_key(&mut input, &escape, true, &None).action,
        LocalInputAction::Close
    );
}

#[test]
fn backspaces_undo_an_insertion() {
    let mut input = TextInputState::from_value("日志助手".to_string());
    input.cursor = 2;
    insert_text(&mut input, "a文b");
    assert_eq!(input.value, "日志a文b助手");
    assert_eq!(input.cursor, 5);
    for _ in 0..3 {
        delete_backward(&mut input);
    }
    assert_eq!(input.value, "日志助手");
    assert_eq!(input.cursor, 2);
    let mut start = TextInputState { cursor: 0, ..TextInputState::from_value("日".to_string()) };
    delete_backward(&mut start);
    assert_eq!(start, TextInputState { cursor: 0, ..TextInputState::from_value("日".to_string()) });
    insert_input_text(&mut input, "xy");
    delete_input_backward(&mut input);
    delete_input_backward(&mut input);
    assert_eq!(input.value, "日志助手");
    assert_eq!(input.cursor, 2);
}

#[test]
fn pasting_what_was_cut_restores_text_and_cursor() {
    for (multiline, pasted) in [(true, "ab\ncd"), (false, "ab cd")] {
        let mut input = TextInputState::from_value("ab\ncd".to_string());
        input.selection_anchor = Some(4);
        input.cursor = 1;
        let cut = handle_clipboard(&mut input, &press("x", None, true, false), multiline, &None);
        let cut = cut.unwrap();
        assert_eq!(cut.action, LocalInputAction::Changed);
        assert_eq!(cut.copied.as_deref(), Some("b\nc"));
        assert_eq!(input.value, "ad");
        assert_eq!(input.cursor, 1);
        let paste = press("v", None, true, false);
        let back = handle_clipboard(&mut input, &paste, multiline, &cut.copied).unwrap();
        assert_eq!(back.action, LocalInputAction::Changed);
        assert_eq!(input.value, pasted);
        assert_eq!(input.cursor, 4);
    }
    let mut input = TextInputState::from_value("ab".to_string());
    assert!(handle_clipboard(&mut input, &press("x", None, false, false), true, &None).is_none());
    assert_eq!(input, TextInputState::from_value("ab".to_string()));
}

#[test]
fn room_is_asked_for_only_by_what_goes_in() {
    let clipboard = Some("ab".to_string());
    let input = TextInputState::from_value("日志".to_string());
    assert!(key_fits(&input, &press("v", None, true, false), true, &clipboard));
    let far = TextInputState {
        cursor: usize::MAX,
        selection_anchor: Some(usize::MAX - 1),
        ..TextInputState::from_value("日志".to_string())
    };
    assert!(!key_fits(&far, &press("v", None, true, false), true, &clipboard));
    assert!(key_fits(&far, &press("c", None, true, false), true, &clipboard));
    assert!(key_fits(&far, &press("left", None, false, false), true, &clipboard));
    assert!(key_fits(&far, &press("enter", None, false, false), true, &clipboard));
    assert!(key_fits(&far, &press("x", Some("x"), false, false), true, &None));
    assert!(!key_fits(&far, &press("x", Some("xy"), false, false), true, &None));
}

#[test]
fn the_clipboard_goes_both_ways() {
    let mut input = TextInputState::from_value("日志".to_string());
    handle_local_input_key(&mut input, &press("a", None, true, false), false, &None);
    assert_eq!(input.selection_range(), Some(0..2));
    let copied =
        handle_local_input_key(&mut input, &press("c", None, true, false), false, &None).copied;
    assert_eq!(copied.as_deref(), Some("日志"));
    let cut =
        handle_local_input_key(&mut input, &press("x", None, true, false), false, &None).copied;
    assert_eq!(cut.as_deref(), Some("日志"));
    assert_eq!(input.value, "");
    let clipboard = Some("a\r\nb".to_string());
    handle_local_input_key(&mut input, &press("v", None, true, false), false, &clipboard);
    assert!(!input.value.contains('\n'));
    assert_eq!(input.value, without_line_breaks("a\r\nb"));
    let mut area = TextInputState::new();
    handle_local_input_key(&mut area, &press("v", None, true, false), true, &clipboard);
    assert!(area.value.contains('\n'));
}

#[test]
fn deleting_takes_one_character_or_the_selection() {
    let mut input = TextInputState::from_value("日志助手".to_string());
    typed(&mut input, "backspace");
    assert_eq!(input.value, "日志助");
    typed(&mut input, "home");
    typed(&mut input, "delete");
    assert_eq!(input.value, "志助");
    handle_local_input_key(&mut input, &press("end", None, false, true), false, &None);
    typed(&mut input, "backspace");
    assert_eq!(input.value, "");
}

#[test]
fn the_mouse_selects_characters_words_and_all() {
    let mut input = TextInputState::from_value("ab cd ef".to_string());
    let event = |action, index, granularity| InputPointerEvent {
        action,
        character_index: index,
        granularity,
    };
    let character = TextSelectionGranularity::Character;
    apply_pointer_event(&mut input, &event(InputPointerAction::Begin, 1, character), None);
    apply_pointer_event(&mut input, &event(InputPointerAction::Extend, 4, character), None);
    assert_eq!(input.selection_range(), Some(1..4));
    apply_pointer_event(&mut input, &event(InputPointerAction::Finish, 4, character), None);
    assert!(input.selection_drag.is_none());
    let word = TextSelectionGranularity::Word;
    apply_pointer_event(&mut input, &event(InputPointerAction::Begin, 4, word), Some(3..5));
    assert_eq!(input.selection_range(), Some(3..5));
    apply_pointer_event(&mut input, &event(InputPointerAction::Extend, 0, word), Some(0..2));
    assert_eq!(input.selection_range(), Some(0..5));
    assert_eq!(input_granularity_for_click_count(1), character);
    assert_eq!(input_granularity_for_click_count(2), word);
}

#[test]
fn an_input_method_composes_and_commits() {
    let mut handler = NativeInputHandler {
        value: "日志".to_string(),
        cursor_index: 2,
        selection_range: None,
        marked_range: None,
    };
    let composing = handler.replace_and_mark_text_in_range(&None, "zhu", &None);
    assert_eq!(handler.value, "日志zhu");
    assert_eq!(handler.marked_range, Some(2..5));
    let mut input = TextInputState::from_value("日志".to_string());
    input.apply_native_edit(&composing);
    assert_eq!(input.value, "日志zhu");
    assert_eq!(input.marked_range, Some(2..5));
    let committing = handler.replace_text_in_range(&None, "助");
    input.apply_native_edit(&committing);
    assert_eq!(input.value, "日志助");
    assert_eq!(handler.value, "日志助");
    assert!(input.marked_range.is_none());
}

#[test]
fn a_stale_edit_is_cut_to_the_text() {
    let mut input = TextInputState::from_value("ab".to_string());
    input.apply_native_edit(&NativeTextEdit {
        replacement_range: 1..99,
        text: "x".to_string(),
        selected_range: 50..60,
        marked_range: None,
    });
    assert_eq!(input.value, "ax");
    assert_eq!(input.cursor, 2);
}

#[test]
fn utf16_ranges_count_surrogates() {
    let text = "a😀b";
    assert_eq!(utf16_range_for_character_range(text, &(1..2)), 1..3);
    assert_eq!(character_range_for_utf16_range(text, &(1..3)), 1..2);
    assert_eq!(character_range_for_utf16_range(text, &(3..4)), 2..3);
}

#[test]
fn secrets_are_hidden_character_by_character() {
    assert_eq!(mask_secret_value("密码1"), "•••");
    let input = Input {
        id: "key",
        placeholder: "API Key",
        value: "abc".to_string(),
        is_disabled: false,
        is_focused: true,
        cursor_index: 3,
        selection_range: Some(1..1),
        marked_range: None,
        is_secret: true,
        trailing_accessory: None,
    };
    let appearance = input_appearance(&input);
    assert_eq!(appearance.display_text, "•••");
    assert!(!appearance.is_placeholder);
    assert!(appearance.selection_range.is_none());
    assert!(!appearance.shows_trailing_accessory);
    assert!(effective_input_focus(false, Some(true)) || !effective_input_focus(false, None));
}

#[test]
fn composed_text_is_drawn_in_runs() {
    let runs = input_text_runs("日志zhu", &Some(2..5));
    assert_eq!(
        runs,
        vec![
            TextRunLength { len: 6, is_marked: false },
            TextRunLength { len: 3, is_marked: true },
        ]
    );
}

#[test]
fn lines_know_their_place_in_the_text() {
    let lines = textarea_text_lines("日志\n\nab");
    assert_eq!(lines.len(), 3);
    assert_eq!((lines[2].start, lines[2].end), (4, 6));
    assert_eq!(lines[2].text, "ab");
    assert_eq!(textarea_cursor_line_and_column(&lines, 5), (2, 1));
    assert_eq!(textarea_text_lines("").len(), 1);
}

#[test]
fn an_empty_text_area_shows_what_to_type() {
    let textarea = Textarea {
        id: "area",
        placeholder: "说明",
        value: String::new(),
        is_disabled: false,
        is_focused: true,
        cursor_index: 0,
        selection_range: None,
        marked_range: None,
        visible_lines: 1,
        style: TextareaStyle::Default,
        trailing_accessory: None,
        trailing_accessory_always_visible: false,
    };
    let appearance = textarea_appearance(&textarea);
    assert_eq!(appearance.display_text, "说明");
    assert!(!appearance.has_user_content);
    assert_eq!(appearance.visible_lines, 3);
}

#[test]
fn numbers_are_written_and_read() {
    assert_eq!(decimal(0), "0");
    assert_eq!(decimal(u64::MAX), u64::MAX.to_string());
    assert_eq!(parse_number("+12"), Some(12));
    assert_eq!(parse_number(""), None);
    assert_eq!(parse_number("12a"), None);
    assert_eq!(parse_number("18446744073709551616"), None);
    assert_eq!(padded(7, 2), "07");
    assert_eq!(signed_padded(-7, 4), "-007");
}

#[test]
fn white_space_of_any_kind_is_trimmed() {
    for character in ['\t', '\r', ' ', '\u{85}', '\u{a0}', '\u{1680}', '\u{2003}', '\u{3000}'] {
        assert_eq!(trim(&format!("{character}日志{character}")), "日志");
    }
    for character in ['\u{200b}', '\u{180e}', '\u{feff}', '0'] {
        assert_eq!(trim(&format!("{character}日志")), format!("{character}日志"));
    }
}

#[test]
fn line_and_column_lead_back_to_the_cursor() {
    let value = "日志\n\na助手\n";
    let lines = textarea_text_lines(value);
    for cursor in 0..=value.chars().count() {
        let (line, column) = textarea_cursor_line_and_column(&lines, cursor);
        assert_eq!(lines[line].start + column, cursor);
        assert!(column <= lines[line].text.chars().count());
    }
    assert_eq!(textarea_cursor_line_and_column(&lines, 99), (3, 0));
}
