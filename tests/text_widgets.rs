use kiss_ui::attrs::{MULTILINE, TITLE, VALUE, VISIBLE_COLUMNS, VISIBLE_LINES};
use kiss_ui::native_str::{check_native, InteriorNul};
use kiss_ui::text::{Label, TextBox};

#[test]
fn label_reads_back_its_initial_text() {
    for s in ["", "Hello", "a\nb", "héllo wörld", "日本語", "emoji 🎉"] {
        let label = Label::new(s);
        assert_eq!(label.get_text().as_str(), s);
    }
}

#[test]
fn empty_label_reads_back_empty_text() {
    let label = Label::new_empty();
    assert_eq!(label.get_text().as_str(), "");
}

#[test]
fn label_set_text_then_get_text() {
    let label = Label::new("Hello").set_text("World");
    assert_eq!(label.get_text().as_str(), "World");
}

#[test]
fn label_last_write_wins() {
    let twice = Label::new("start").set_text("first").set_text("second");
    let once = Label::new("start").set_text("second");
    assert_eq!(twice.get_text().as_str(), once.get_text().as_str());
    assert_eq!(twice.get_text().as_str(), "second");
}

#[test]
fn label_try_new_accepts_plain_text() {
    let label = Label::try_new("Hello").unwrap();
    assert_eq!(label.get_text().as_str(), "Hello");
}

#[test]
fn label_try_new_rejects_terminator() {
    assert_eq!(Label::try_new("a\0b").err(), Some(InteriorNul { position: 1 }));
    assert_eq!(Label::try_new("\0").err(), Some(InteriorNul { position: 0 }));
    assert_eq!(Label::try_new("x\0y\0").err(), Some(InteriorNul { position: 1 }));
}

#[test]
fn terminator_position_counts_bytes() {
    // 'é' takes two bytes, so the zero byte after it is at offset 2.
    assert_eq!(check_native("é\0"), Err(InteriorNul { position: 2 }));
    assert_eq!(check_native("日本\0"), Err(InteriorNul { position: 6 }));
}

#[test]
fn check_native_accepts_text_without_terminator() {
    assert_eq!(check_native(""), Ok(()));
    assert_eq!(check_native("a\nb"), Ok(()));
    assert_eq!(check_native("日本語"), Ok(()));
}

#[test]
fn text_box_starts_empty() {
    let text_box = TextBox::new();
    assert_eq!(text_box.get_text().as_str(), "");
    assert!(!text_box.is_multiline());
    assert_eq!(text_box.visible_columns(), None);
    assert_eq!(text_box.visible_lines(), None);
}

#[test]
fn text_box_multiline_round_trip() {
    for b in [false, true] {
        assert_eq!(TextBox::new().set_multiline(b).is_multiline(), b);
    }
    assert!(!TextBox::new().set_multiline(true).set_multiline(false).is_multiline());
}

#[test]
fn text_box_visible_columns_round_trip() {
    for c in [0u32, 1, 40, 80, u32::MAX] {
        assert_eq!(TextBox::new().set_visible_columns(c).visible_columns(), Some(c));
    }
}

#[test]
fn text_box_visible_lines_round_trip() {
    for n in [0u32, 1, 4, 1000, u32::MAX] {
        assert_eq!(TextBox::new().set_visible_lines(n).visible_lines(), Some(n));
    }
}

#[test]
fn text_box_last_write_wins() {
    let twice = TextBox::new().set_visible_lines(3).set_text("first").set_text("second");
    let once = TextBox::new().set_visible_lines(3).set_text("second");
    assert_eq!(twice.get_text().as_str(), once.get_text().as_str());
    assert_eq!(twice.get_text().as_str(), "second");
    assert_eq!(twice.visible_lines(), once.visible_lines());
}

#[test]
fn text_box_builder_chain() {
    let text_box = TextBox::new()
        .set_multiline(true)
        .set_visible_columns(40)
        .set_visible_lines(4)
        .set_text("a\nb");
    assert_eq!(text_box.get_text().as_str(), "a\nb");
    assert!(text_box.is_multiline());
    assert_eq!(text_box.visible_columns(), Some(40));
    assert_eq!(text_box.visible_lines(), Some(4));
}

#[test]
fn text_box_setters_keep_other_attributes() {
    let text_box = TextBox::new().set_text("kept").set_visible_columns(12);
    let text_box = text_box.set_multiline(true).set_visible_lines(2);
    assert_eq!(text_box.get_text().as_str(), "kept");
    assert_eq!(text_box.visible_columns(), Some(12));
}

#[test]
fn class_names() {
    assert_eq!(Label::class_name(), "label");
    assert_eq!(TextBox::class_name(), "text");
}

#[test]
fn attribute_names() {
    assert_eq!(TITLE, "TITLE");
    assert_eq!(VALUE, "VALUE");
    assert_eq!(MULTILINE, "MULTILINE");
    assert_eq!(VISIBLE_COLUMNS, "VISIBLECOLUMNS");
    assert_eq!(VISIBLE_LINES, "VISIBLELINES");
}
