//! What the explorer shows: a bordered block, titled with the directory
//! being explored, around one line that names the mode and its key bindings.

use crate::state::{Explorer, ExplorerView, Mode};
use ratatui::widgets::{Block, Paragraph};
use ratatui::Frame;
use vstd::prelude::*;
use vstd::string::*;

verus! {

/// The longest text, in characters, that is handed to ratatui. Ratatui
/// keeps the display width of a text in 16 bits and adds to it; a character
/// is at most three columns wide, so a text of this length stays below
/// 65,535 columns.
pub const MAX_TEXT_LEN: usize = 21_844;

/// `ratatui::Frame`, known to the verifier by name only.
#[verifier::external_type_specification]
#[verifier::external_body]
pub struct ExFrame<'a>(ratatui::Frame<'a>);

/// The symbols that a frame's buffer holds over the buffer's area:
/// `frame_rows(frame)[y][x]` is the symbol of the cell in column `x` of row
/// `y`, counted from the buffer's top left corner. A cell that the area has
/// and the buffer's content lacks counts as a blank. Styles and the cursor
/// are not part of it.
pub uninterp spec fn frame_rows(frame: Frame) -> Seq<Seq<Seq<char>>>;

/// The part of a frame's area that lies within its buffer, as column and row
/// of its top left corner, counted from the buffer's top left corner, then
/// width and height. It is the whole buffer in every frame that a terminal
/// hands out.
pub uninterp spec fn frame_window(frame: Frame) -> (int, int, int, int);

/// The symbols that a buffer holds after ratatui has painted, over `window`,
/// a `Paragraph` with the text `body` inside a `Block::bordered` with the
/// title `title`, when it held `rows` before. Which symbols these are is
/// ratatui's layout and is not spelled out here.
pub uninterp spec fn painted(rows: Seq<Seq<Seq<char>>>, window: (int, int, int, int), title: Seq<char>, body: Seq<char>) -> Seq<Seq<Seq<char>>>;

/// The title of the block: the directory being explored.
pub open spec fn title_of(cwd: Seq<char>) -> Seq<char> {
    "Current Directory: "@ + cwd + " "@
}

/// The body text: the active mode and the keys bound in it.
pub open spec fn mode_line(mode: Mode) -> Seq<char> {
    match mode {
        Mode::Browse => "MODE: Browse (Press 'i' to Insert, 'q' to Quit)"@,
        Mode::Insert => "MODE: Insert (Press 'Esc' to Browse)"@,
    }
}

/// Whether the explorer can be drawn: its title must not be longer than
/// [`MAX_TEXT_LEN`], and the title is twenty characters longer than the
/// directory's path.
pub open spec fn drawable(s: ExplorerView) -> bool {
    s.cwd.len() + 20 <= MAX_TEXT_LEN
}

/// The lengths of the two texts: the title adds twenty characters to the
/// path, and no mode line has more than 47.
pub proof fn lemma_text_lengths(cwd: Seq<char>, mode: Mode)
    ensures
        title_of(cwd).len() == cwd.len() + 20,
        mode_line(mode).len() <= 47,
{
    reveal_strlit("Current Directory: ");
    reveal_strlit(" ");
    reveal_strlit("MODE: Browse (Press 'i' to Insert, 'q' to Quit)");
    reveal_strlit("MODE: Insert (Press 'Esc' to Browse)");
}

/// The title of the block for the directory `cwd`.
pub fn title(cwd: &str) -> (text: String)
    ensures
        text@ == title_of(cwd@),
{
    let mut text = String::from_str("Current Directory: ");
    text.append(cwd);
    text.append(" ");
    text
}

/// The body text for `mode`.
pub fn mode_text(mode: Mode) -> (text: &'static str)
    ensures
        text@ == mode_line(mode),
{
    match mode {
        Mode::Browse => "MODE: Browse (Press 'i' to Insert, 'q' to Quit)",
        Mode::Insert => "MODE: Insert (Press 'Esc' to Browse)",
    }
}

/// Tells whether [`render`] may be called for `explorer`.
pub fn can_render(explorer: &Explorer) -> (ok: bool)
    ensures
        ok == drawable(explorer@),
{
    explorer.cwd.as_str().unicode_len() <= MAX_TEXT_LEN - 20
}

/// Hands the painting to ratatui: `Frame::render_widget` with
/// `Paragraph::new(body)` in `Block::bordered()` titled `title`, over the
/// part of `Frame::area` that `Rect::intersection` finds inside the buffer,
/// after `Buffer::resize` to the buffer's own area has made the content as
/// long as that area asks. In a frame that a terminal hands out the last two
/// change nothing. Not proved: that the window stays as it was, and that the
/// symbols afterwards depend on nothing but the symbols before, the window,
/// the title and the body. That is all `painted` stands for. The bound on
/// the two texts keeps ratatui's 16-bit sums of display widths from
/// overflowing.
#[verifier::external_body]
fn paint_bordered(frame: &mut Frame, title: String, body: &str)
    requires
        title@.len() <= MAX_TEXT_LEN,
        body@.len() <= MAX_TEXT_LEN,
    ensures
        frame_window(*final(frame)) == frame_window(*old(frame)),
        frame_rows(*final(frame)) == painted(
            frame_rows(*old(frame)),
            frame_window(*old(frame)),
            title@,
            body@,
        ),
{
    let block = Block::bordered().title(title);
    let paragraph = Paragraph::new(body).block(block);
    let held = frame.buffer_mut().area;
    frame.buffer_mut().resize(held);
    let area = frame.area().intersection(held);
    frame.render_widget(paragraph, area);
}

/// Draws the explorer into `frame`. Of the state, only the directory and the
/// mode have a part in what is drawn, and the state is only read. The path
/// of the directory must be short enough for the title: see [`can_render`].
pub fn render(frame: &mut Frame, explorer: &Explorer)
    requires
        drawable(explorer@),
    ensures
        frame_window(*final(frame)) == frame_window(*old(frame)),
        frame_rows(*final(frame)) == painted(
            frame_rows(*old(frame)),
            frame_window(*old(frame)),
            title_of(explorer@.cwd),
            mode_line(explorer@.mode),
        ),
{
    let body = mode_text(explorer.mode);
    let heading = title(explorer.cwd.as_str());
    proof {
        lemma_text_lengths(explorer@.cwd, explorer@.mode);
    }
    paint_bordered(frame, heading, body);
}

/// Drawing is a function of the state: two explorers in the same directory
/// and mode leave the same symbols in frames that held the same symbols in
/// the same window before. The exit flag has no part in it.
pub proof fn lemma_render_is_pure(
    a: ExplorerView,
    b: ExplorerView,
    rows: Seq<Seq<Seq<char>>>,
    window: (int, int, int, int),
)
    requires
        a.cwd == b.cwd,
        a.mode == b.mode,
    ensures
        painted(rows, window, title_of(a.cwd), mode_line(a.mode)) == painted(
            rows,
            window,
            title_of(b.cwd),
            mode_line(b.mode),
        ),
{
}

} // verus!
