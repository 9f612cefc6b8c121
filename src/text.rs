//! Widgets that render and process text: a static label and an editable text box.
//!
//! Each widget is the attribute state that the toolkit keeps for it. Setters
//! consume the widget and hand it back, so calls chain; a text read borrows
//! the widget, so no setter can run while a [`WidgetStr`] from it is alive.

use vstd::prelude::*;
use crate::capability::{ImageContainer, OnValueChange};
use crate::native_str::{check_native, has_terminator, first_terminator_at, InteriorNul};

verus! {

/// A borrowed view of the text that a widget holds now.
pub struct WidgetStr<'a> {
    text: &'a str,
}

impl<'a> View for WidgetStr<'a> {
    type V = Seq<char>;

    closed spec fn view(&self) -> Seq<char> {
        self.text@
    }
}

impl<'a> WidgetStr<'a> {
    /// The text as a string slice, valid as long as the widget stays borrowed.
    pub fn as_str(&self) -> (r: &'a str)
        ensures
            r@ == self@,
    {
        self.text
    }
}

/// What a label holds: its `TITLE` attribute.
pub struct LabelView {
    pub title: Seq<char>,
}

impl LabelView {
    /// A label as the toolkit creates it without a title: the empty text.
    pub open spec fn fresh() -> LabelView {
        LabelView { title: Seq::empty() }
    }

    /// The same label once its title is `t`.
    pub open spec fn with_title(self, t: Seq<char>) -> LabelView {
        LabelView { title: t, ..self }
    }
}

/// A static widget that renders text within its parent.
pub struct Label {
    title: String,
}

impl View for Label {
    type V = LabelView;

    closed spec fn view(&self) -> LabelView {
        LabelView { title: self.title@ }
    }
}

impl Label {
    /// The title can always be handed to the toolkit.
    #[verifier::type_invariant]
    spec fn inv(&self) -> bool {
        !has_terminator(self.title@)
    }

    /// The toolkit's class tag of this widget.
    pub fn class_name() -> (r: &'static str)
        ensures
            r@ == "label"@,
    {
        "label"
    }

    /// Create a label with some text.
    pub fn new(text: &str) -> (r: Label)
        requires
            !has_terminator(text@),
        ensures
            r@ == LabelView::fresh().with_title(text@),
    {
        Label { title: text.to_owned() }
    }

    /// Create a label with some text, or report where the text holds a zero
    /// byte, which the toolkit cannot store.
    pub fn try_new(text: &str) -> (r: Result<Label, InteriorNul>)
        ensures
            r is Ok <==> !has_terminator(text@),
            r matches Ok(l) ==> l@ == LabelView::fresh().with_title(text@),
            r matches Err(e) ==> first_terminator_at(text@, e.position as int),
    {
        match check_native(text) {
            Ok(()) => Ok(Label::new(text)),
            Err(e) => Err(e),
        }
    }

    /// Create a blank label. The text can be set later.
    pub fn new_empty() -> (r: Label)
        ensures
            r@ == LabelView::fresh(),
    {
        let title = String::new();
        assert(!has_terminator(title@));
        Label { title }
    }

    /// Update the text of this label.
    pub fn set_text(self, text: &str) -> (r: Self)
        requires
            !has_terminator(text@),
        ensures
            r@ == self@.with_title(text@),
    {
        Label { title: text.to_owned() }
    }

    /// Get the text of this label.
    pub fn get_text(&self) -> (r: WidgetStr<'_>)
        ensures
            r@ == self@.title,
            !has_terminator(r@),
    {
        proof {
            use_type_invariant(self);
        }
        WidgetStr { text: self.title.as_str() }
    }
}

impl ImageContainer for Label {}

/// What a text box holds: its `VALUE`, `MULTILINE`, `VISIBLECOLUMNS` and
/// `VISIBLELINES` attributes. A sizing hint that was never set is `None`: the
/// toolkit then sizes the widget by its own default.
pub struct TextBoxView {
    pub value: Seq<char>,
    pub multiline: bool,
    pub visible_columns: Option<u32>,
    pub visible_lines: Option<u32>,
}

impl TextBoxView {
    /// A text box as the toolkit creates it: empty, single-line, with no
    /// sizing hints.
    pub open spec fn fresh() -> TextBoxView {
        TextBoxView {
            value: Seq::empty(),
            multiline: false,
            visible_columns: None,
            visible_lines: None,
        }
    }

    /// The same text box once its text is `t`.
    pub open spec fn with_value(self, t: Seq<char>) -> TextBoxView {
        TextBoxView { value: t, ..self }
    }

    /// The same text box once its multiline flag is `b`.
    pub open spec fn with_multiline(self, b: bool) -> TextBoxView {
        TextBoxView { multiline: b, ..self }
    }

    /// The same text box once it is `c` columns wide.
    pub open spec fn with_visible_columns(self, c: u32) -> TextBoxView {
        TextBoxView { visible_columns: Some(c), ..self }
    }

    /// The same text box once it is `n` lines high.
    pub open spec fn with_visible_lines(self, n: u32) -> TextBoxView {
        TextBoxView { visible_lines: Some(n), ..self }
    }
}

/// A widget that renders user-editable text.
pub struct TextBox {
    value: String,
    multiline: bool,
    visible_columns: Option<u32>,
    visible_lines: Option<u32>,
}

impl View for TextBox {
    type V = TextBoxView;

    closed spec fn view(&self) -> TextBoxView {
        TextBoxView {
            value: self.value@,
            multiline: self.multiline,
            visible_columns: self.visible_columns,
            visible_lines: self.visible_lines,
        }
    }
}

impl TextBox {
    /// The text can always be handed to the toolkit.
    #[verifier::type_invariant]
    spec fn inv(&self) -> bool {
        !has_terminator(self.value@)
    }

    /// The toolkit's class tag of this widget.
    pub fn class_name() -> (r: &'static str)
        ensures
            r@ == "text"@,
    {
        "text"
    }

    /// Create a new, empty text box.
    pub fn new() -> (r: TextBox)
        ensures
            r@ == TextBoxView::fresh(),
    {
        let value = String::new();
        assert(!has_terminator(value@));
        TextBox { value, multiline: false, visible_columns: None, visible_lines: None }
    }

    /// Set if the text box should accept and render newline characters.
    ///
    /// If `false`, it will only be slightly taller than a line of text in the
    /// current font. If `true`, the total dimensions will be set by
    /// `set_visible_columns` and `set_visible_lines`, and text outside these
    /// bounds will be reachable with a scrollbar.
    pub fn set_multiline(self, multiline: bool) -> (r: Self)
        ensures
            r@ == self@.with_multiline(multiline),
    {
        proof {
            use_type_invariant(&self);
        }
        TextBox { multiline, ..self }
    }

    /// Set the rendered width of the text box in columns (character width
    /// plus padding).
    ///
    /// In a multiline text box, text beyond this width wraps; otherwise it
    /// scrolls horizontally.
    pub fn set_visible_columns(self, cols: u32) -> (r: Self)
        ensures
            r@ == self@.with_visible_columns(cols),
    {
        proof {
            use_type_invariant(&self);
        }
        TextBox { visible_columns: Some(cols), ..self }
    }

    /// Set the rendered height of the text box in lines (character height
    /// plus padding).
    ///
    /// In a multiline text box, lines beyond this count are reached with a
    /// scrollbar.
    pub fn set_visible_lines(self, lines: u32) -> (r: Self)
        ensures
            r@ == self@.with_visible_lines(lines),
    {
        proof {
            use_type_invariant(&self);
        }
        TextBox { visible_lines: Some(lines), ..self }
    }

    /// Set the text of this text box.
    pub fn set_text(self, value: &str) -> (r: Self)
        requires
            !has_terminator(value@),
        ensures
            r@ == self@.with_value(value@),
    {
        TextBox { value: value.to_owned(), ..self }
    }

    /// Get the text value of this text box.
    pub fn get_text(&self) -> (r: WidgetStr<'_>)
        ensures
            r@ == self@.value,
            !has_terminator(r@),
    {
        proof {
            use_type_invariant(self);
        }
        WidgetStr { text: self.value.as_str() }
    }

    /// Whether this text box accepts and renders newline characters.
    pub fn is_multiline(&self) -> (r: bool)
        ensures
            r == self@.multiline,
    {
        self.multiline
    }

    /// The width in columns that was set, if any.
    pub fn visible_columns(&self) -> (r: Option<u32>)
        ensures
            r == self@.visible_columns,
    {
        self.visible_columns
    }

    /// The height in lines that was set, if any.
    pub fn visible_lines(&self) -> (r: Option<u32>)
        ensures
            r == self@.visible_lines,
    {
        self.visible_lines
    }
}

impl OnValueChange for TextBox {}

/// A label made with text `s` reads back exactly `s`: the title that
/// `Label::new` sets is the text that `Label::get_text` returns.
pub proof fn lemma_label_text_round_trip(s: Seq<char>)
    requires
        !has_terminator(s),
    ensures
        LabelView::fresh().with_title(s).title == s,
{
}

/// Setting the multiline flag of a new text box to `b` and reading it back
/// gives `b`.
pub proof fn lemma_multiline_round_trip(b: bool)
    ensures
        TextBoxView::fresh().with_multiline(b).multiline == b,
{
}

/// Setting the width in columns of a new text box to `c` and reading it back
/// gives `c`.
pub proof fn lemma_visible_columns_round_trip(c: u32)
    ensures
        TextBoxView::fresh().with_visible_columns(c).visible_columns == Some(c),
{
}

/// Setting the height in lines of a new text box to `n` and reading it back
/// gives `n`.
pub proof fn lemma_visible_lines_round_trip(n: u32)
    ensures
        TextBoxView::fresh().with_visible_lines(n).visible_lines == Some(n),
{
}

/// Of two text writes to a label the last one wins: setting `a` and then `b`
/// leaves the label as setting `b` alone does.
pub proof fn lemma_label_last_write_wins(w: LabelView, a: Seq<char>, b: Seq<char>)
    ensures
        w.with_title(a).with_title(b) == w.with_title(b),
{
}

/// Of two text writes to a text box the last one wins: setting `a` and then
/// `b` leaves the text box as setting `b` alone does, other attributes
/// included.
pub proof fn lemma_text_box_last_write_wins(w: TextBoxView, a: Seq<char>, b: Seq<char>)
    ensures
        w.with_value(a).with_value(b) == w.with_value(b),
{
}

} // verus!
