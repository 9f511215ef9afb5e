//! Pure projection of the session state to a drawable three-pane layout.
//!
//! Given the current state and the screen region of the input box, these
//! functions produce plain descriptions of the help line, the input box
//! and the output box, plus a cursor position. Nothing here mutates the
//! state; the control loop turns the descriptions into terminal widgets.

use vstd::prelude::*;

use unicode_width::UnicodeWidthStr;

verus! {

use crate::app::App;
use crate::app::AppModel;
use crate::app::InputMode;
use crate::app::chars_to_string;

/// A rectangular screen region, as the layout hands it to the renderer.
#[derive(Clone, Copy, Debug, PartialEq, Eq, Structural)]
pub struct Rect {
    pub x: u16,
    pub y: u16,
    pub width: u16,
    pub height: u16,
}

/// One styled fragment of the help line.
pub struct HelpSpan {
    pub text: String,
    pub bold: bool,
}

/// The help line: styled fragments, and whether the whole line carries
/// the attention-drawing blink style.
pub struct HelpLine {
    pub spans: Vec<HelpSpan>,
    pub blink: bool,
}

/// The input box: the buffer text, its highlight flag, the box title,
/// and the cursor position just past the end of the text.
pub struct InputPane {
    pub text: String,
    pub highlighted: bool,
    pub title: String,
    pub cursor_x: u16,
    pub cursor_y: u16,
}

/// The output box: the last lookup output and the box title.
pub struct OutputPane {
    pub text: String,
    pub title: String,
}

/// The displayed column width of a text, as the Unicode width tables
/// give it: a function of the characters alone.
pub uninterp spec fn display_width(chars: Seq<char>) -> nat;

/// Relies on `unicode_width::UnicodeWidthStr::width`: the displayed
/// column width of the text, computed from static Unicode tables, so a
/// function of the characters alone.
#[verifier::external_body]
fn text_width(chars: &Vec<char>) -> (w: usize)
    ensures
        w == display_width(chars@),
{
    let text: String = chars.iter().collect();
    text.as_str().width()
}

/// The fragments of the help line for a mode: each fragment's text and
/// whether it is bold.
pub open spec fn help_spans_spec(mode: InputMode) -> Seq<(Seq<char>, bool)> {
    match mode {
        InputMode::Normal => seq![
            ("Press "@, false),
            ("q"@, true),
            (" to exit, "@, false),
            ("i"@, true),
            (" to start editing."@, false),
        ],
        InputMode::Editing => seq![
            ("Press "@, false),
            ("Esc"@, true),
            (" to stop editing, "@, false),
            ("Enter"@, true),
            (" to record the message"@, false),
        ],
    }
}

/// The text and bold flag of each fragment, in order.
pub open spec fn span_views(spans: Seq<HelpSpan>) -> Seq<(Seq<char>, bool)> {
    spans.map(|i: int, s: HelpSpan| (s.text@, s.bold))
}

/// What a rendered help line owes the state.
pub open spec fn help_line_matches(m: AppModel, line: HelpLine) -> bool {
    &&& span_views(line.spans@) == help_spans_spec(m.mode)
    &&& line.blink == (m.mode is Normal)
}

/// The cursor column: the box's left edge, plus the displayed width of
/// the buffer, plus one for the border, clamped to the `u16` range.
pub open spec fn cursor_column_spec(area: Rect, w: nat) -> u16 {
    if area.x + w + 1 <= u16::MAX {
        (area.x + w + 1) as u16
    } else {
        u16::MAX
    }
}

/// The cursor row: one line below the box's top border, clamped to the
/// `u16` range.
pub open spec fn cursor_row_spec(area: Rect) -> u16 {
    if area.y + 1 <= u16::MAX {
        (area.y + 1) as u16
    } else {
        u16::MAX
    }
}

/// What a rendered input box owes the state and its screen region.
pub open spec fn input_pane_matches(m: AppModel, area: Rect, pane: InputPane) -> bool {
    &&& pane.text@ == m.input
    &&& pane.highlighted == (m.mode is Editing)
    &&& pane.title@ == "Input"@
    &&& pane.cursor_x == cursor_column_spec(area, display_width(m.input))
    &&& pane.cursor_y == cursor_row_spec(area)
}

/// What a rendered output box owes the state.
pub open spec fn output_pane_matches(m: AppModel, pane: OutputPane) -> bool {
    &&& pane.text@ == m.output
    &&& pane.title@ == "kubexp"@
}

impl App {
    /// The help line for the current mode: the available shortcuts, with
    /// the attention-drawing style outside edit mode.
    pub fn draw_help_message(&self) -> (line: HelpLine)
        ensures
            help_line_matches(self@, line),
    {
        let mut spans: Vec<HelpSpan> = Vec::new();
        let blink: bool;
        match self.mode() {
            InputMode::Normal => {
                spans.push(HelpSpan { text: "Press ".to_owned(), bold: false });
                spans.push(HelpSpan { text: "q".to_owned(), bold: true });
                spans.push(HelpSpan { text: " to exit, ".to_owned(), bold: false });
                spans.push(HelpSpan { text: "i".to_owned(), bold: true });
                spans.push(HelpSpan { text: " to start editing.".to_owned(), bold: false });
                blink = true;
            },
            InputMode::Editing => {
                spans.push(HelpSpan { text: "Press ".to_owned(), bold: false });
                spans.push(HelpSpan { text: "Esc".to_owned(), bold: true });
                spans.push(HelpSpan { text: " to stop editing, ".to_owned(), bold: false });
                spans.push(HelpSpan { text: "Enter".to_owned(), bold: true });
                spans.push(HelpSpan { text: " to record the message".to_owned(), bold: false });
                blink = false;
            },
        }
        proof {
            assert(span_views(spans@) =~= help_spans_spec(self@.mode));
        }
        HelpLine { spans, blink }
    }

    /// The input box for the current state: the buffer verbatim, the
    /// highlight flag for edit mode, and the cursor placed just past the
    /// last character, one line below the box's top border. The cursor
    /// column counts displayed character width, not bytes.
    pub fn draw_input(&self, area: Rect) -> (pane: InputPane)
        ensures
            input_pane_matches(self@, area, pane),
    {
        let text = self.input_text();
        let w = text_width(self.input_chars());
        let cursor_x: u16 = if w < u16::MAX as usize {
            let sum: usize = area.x as usize + w + 1;
            if sum <= u16::MAX as usize {
                sum as u16
            } else {
                u16::MAX
            }
        } else {
            u16::MAX
        };
        let cursor_y: u16 = if area.y < u16::MAX {
            area.y + 1
        } else {
            u16::MAX
        };
        let highlighted = match self.mode() {
            InputMode::Normal => false,
            InputMode::Editing => true,
        };
        InputPane { text, highlighted, title: "Input".to_owned(), cursor_x, cursor_y }
    }

    /// The output box: the last lookup output verbatim, under the fixed
    /// title, with no styling.
    pub fn draw_result(&self) -> (pane: OutputPane)
        ensures
            output_pane_matches(self@, pane),
    {
        OutputPane { text: self.output_text().clone(), title: "kubexp".to_owned() }
    }
}

/// The observable content of a rendered help line.
pub open spec fn help_line_view(line: HelpLine) -> (Seq<(Seq<char>, bool)>, bool) {
    (span_views(line.spans@), line.blink)
}

/// The observable content of a rendered input box.
pub open spec fn input_pane_view(pane: InputPane) -> (Seq<char>, bool, Seq<char>, u16, u16) {
    (pane.text@, pane.highlighted, pane.title@, pane.cursor_x, pane.cursor_y)
}

/// The observable content of a rendered output box.
pub open spec fn output_pane_view(pane: OutputPane) -> (Seq<char>, Seq<char>) {
    (pane.text@, pane.title@)
}

/// Law: rendering is a pure projection of the session state. Two renders
/// from the same state and the same layout are identical in everything
/// they display.
pub proof fn lemma_render_idempotent(
    m: AppModel,
    area: Rect,
    h1: HelpLine,
    h2: HelpLine,
    i1: InputPane,
    i2: InputPane,
    o1: OutputPane,
    o2: OutputPane,
)
    requires
        help_line_matches(m, h1),
        help_line_matches(m, h2),
        input_pane_matches(m, area, i1),
        input_pane_matches(m, area, i2),
        output_pane_matches(m, o1),
        output_pane_matches(m, o2),
    ensures
        help_line_view(h1) == help_line_view(h2),
        input_pane_view(i1) == input_pane_view(i2),
        output_pane_view(o1) == output_pane_view(o2),
{
}

} // verus!
