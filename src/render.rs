use vstd::prelude::*;
use crate::model::{Command, Document, Paragraph};

verus! {

/// One row of a rendered document body.
#[derive(Clone, Copy, Debug, PartialEq, Eq, Structural)]
pub enum Block {
    /// A blank row that takes focus, so that scrolling reaches text.
    FocusSpacer,
    /// A blank row.
    Spacer,
    /// The text of the paragraph at this index.
    Text(usize),
    /// The widget of the prompt at this index.
    Prompt(usize),
}

/// The widget that a prompt's command is shown as.
#[derive(Clone, Copy, Debug, PartialEq, Eq, Structural)]
pub enum Widget {
    /// A button that executes the command.
    Button,
    /// A button that jumps to the command's target.
    Link,
    /// A checkbox whose changes execute the toggle.
    Checkbox,
    /// A readout and a slider of this many positions.
    Slider(usize),
}

/// Whether the row before paragraph `i` ended non-empty text.
pub open spec fn after_text(body: Seq<Paragraph>, i: int) -> bool {
    i == 0 || match body[i - 1] {
        Paragraph::Text(_, t) => t@.len() > 0,
        Paragraph::Prompt(_, _) => false,
    }
}

/// The rows of paragraph `i`: text is set off from text by a focusable
/// blank row and from a prompt by a plain one; a prompt after text gets a
/// blank row.
pub open spec fn para_blocks(body: Seq<Paragraph>, i: int) -> Seq<Block> {
    match body[i] {
        Paragraph::Text(_, _) => seq![
            if after_text(body, i) {
                Block::FocusSpacer
            } else {
                Block::Spacer
            },
            Block::Text(i as usize),
        ],
        Paragraph::Prompt(_, _) => if after_text(body, i) {
            seq![Block::Spacer, Block::Prompt(i as usize)]
        } else {
            seq![Block::Prompt(i as usize)]
        },
    }
}

/// The rows of the first `n` paragraphs.
pub open spec fn layout_upto(body: Seq<Paragraph>, n: int) -> Seq<Block>
    decreases n,
{
    if n <= 0 {
        seq![]
    } else {
        layout_upto(body, n - 1) + para_blocks(body, n - 1)
    }
}

/// The rows of a document body, in order.
pub fn render_doc(doc: &Document) -> (r: Vec<Block>)
    ensures
        r@ == layout_upto(doc.body@, doc.body@.len() as int),
{
    let ghost body = doc.body@;
    let mut r: Vec<Block> = Vec::new();
    let mut prev_was_text = true;
    let mut i: usize = 0;
    while i < doc.body.len()
        invariant
            body == doc.body@,
            i <= body.len(),
            prev_was_text == after_text(body, i as int),
            r@ == layout_upto(body, i as int),
        decreases body.len() - i,
    {
        match &doc.body[i] {
            Paragraph::Text(_, text) => {
                if prev_was_text {
                    r.push(Block::FocusSpacer);
                } else {
                    r.push(Block::Spacer);
                }
                r.push(Block::Text(i));
                prev_was_text = !text.as_str().is_empty();
            },
            Paragraph::Prompt(_, _) => {
                if prev_was_text {
                    r.push(Block::Spacer);
                }
                r.push(Block::Prompt(i));
                prev_was_text = false;
            },
        }
        proof {
            assert(r@ =~= layout_upto(body, i as int) + para_blocks(body, i as int));
        }
        i = i + 1;
    }
    r
}

/// How many positions a slider has beside a prompt of `prompt_len`
/// characters in a document `doc_width` wide: what is left after the frame,
/// the prompt and the readout, but at least five.
pub open spec fn slider_range_spec(doc_width: usize, prompt_len: usize) -> int {
    let left = doc_width - 2 - prompt_len - 13;
    if left > 5 {
        left
    } else {
        5
    }
}

pub fn slider_range(doc_width: usize, prompt_len: usize) -> (r: usize)
    ensures
        r == slider_range_spec(doc_width, prompt_len),
        r >= 5,
{
    if prompt_len < doc_width && doc_width - prompt_len > 20 {
        doc_width - prompt_len - 15
    } else {
        5
    }
}

/// The widget of a prompt whose command is `cmd`.
pub open spec fn widget_of(cmd: Command, doc_width: usize, prompt_len: usize) -> Widget {
    match cmd {
        Command::Toggle(_) => Widget::Checkbox,
        Command::Knob(_, None) => Widget::Slider(slider_range_spec(doc_width, prompt_len) as usize),
        Command::Jump(_) => Widget::Link,
        _ => Widget::Button,
    }
}

pub fn render_cmd(cmd: &Command, doc_width: usize, prompt_len: usize) -> (r: Widget)
    ensures
        r == widget_of(*cmd, doc_width, prompt_len),
{
    match cmd {
        Command::Toggle(_) => Widget::Checkbox,
        Command::Knob(_, None) => Widget::Slider(slider_range(doc_width, prompt_len)),
        Command::Jump(_) => Widget::Link,
        _ => Widget::Button,
    }
}

} // verus!
