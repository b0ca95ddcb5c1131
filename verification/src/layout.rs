//! Text flow of scripts, and the layout that the user interface derives
//! from it.

use vstd::prelude::*;

verus! {

/// A direction of text flow.
#[derive(Debug, Clone, Copy, PartialEq, Eq, Structural)]
pub enum Direction {
    TopToBottom,
    BottomToTop,
    LeftToRight,
    RightToLeft,
}

/// The direction of the words of a line, then of the lines, of a script.
#[derive(Debug, Clone, Copy, PartialEq, Eq, Structural)]
pub enum ScriptDirection {
    TopToBottomLeftToRight,
    TopToBottomRightToLeft,
    BottomToTopLeftToRight,
    BottomToTopRightToLeft,
    LeftToRightTopToBottom,
    LeftToRightBottomToTop,
    RightToLeftTopToBottom,
    RightToLeftBottomToTop,
}

/// The alignment of widgets along an axis.
#[derive(Debug, Clone, Copy, PartialEq, Eq, Structural)]
pub enum Alignment {
    Start,
    Center,
    End,
}

/// Text flow data of a script.
///
/// * `flow_line`: the direction the stack of lines goes in.
/// * `flow_word`: the direction of the words within a line.
/// * `reverse_lines`: the page elements of a list are to be reversed before
///   placement.
/// * `reverse_words`: the line elements of a list are to be reversed before
///   placement.
/// * `align_lines_start`, `align_lines_end`: the alignment of the stack of
///   lines to its start and end.
/// * `align_words_start`, `align_words_end`: the alignment of the words of
///   the lines to their start and end.
#[derive(Debug, Clone, Copy, PartialEq, Eq, Structural)]
pub struct LayoutData {
    pub flow_line: Direction,
    pub flow_word: Direction,
    pub reverse_lines: bool,
    pub reverse_words: bool,
    pub align_lines_start: Alignment,
    pub align_lines_end: Alignment,
    pub align_words_start: Alignment,
    pub align_words_end: Alignment,
}

/// The layout of a flow of lines and words, with the reversal and the
/// alignment that follow from the directions.
pub open spec fn layout_of(
    flow_line: Direction,
    flow_word: Direction,
    reverse_lines: bool,
    reverse_words: bool,
) -> LayoutData {
    LayoutData {
        flow_line,
        flow_word,
        reverse_lines,
        reverse_words,
        align_lines_start: if reverse_lines { Alignment::End } else { Alignment::Start },
        align_lines_end: if reverse_lines { Alignment::Start } else { Alignment::End },
        align_words_start: if reverse_words { Alignment::End } else { Alignment::Start },
        align_words_end: if reverse_words { Alignment::Start } else { Alignment::End },
    }
}

/// The layout of each script direction.
pub open spec fn layout_for(script_direction: ScriptDirection) -> LayoutData {
    match script_direction {
        ScriptDirection::TopToBottomLeftToRight => layout_of(Direction::TopToBottom, Direction::LeftToRight, false, false),
        ScriptDirection::TopToBottomRightToLeft => layout_of(Direction::TopToBottom, Direction::RightToLeft, false, true),
        ScriptDirection::RightToLeftTopToBottom => layout_of(Direction::RightToLeft, Direction::TopToBottom, true, false),
        ScriptDirection::RightToLeftBottomToTop => layout_of(Direction::LeftToRight, Direction::TopToBottom, false, false),
        ScriptDirection::LeftToRightTopToBottom => layout_of(Direction::BottomToTop, Direction::LeftToRight, true, false),
        ScriptDirection::LeftToRightBottomToTop => layout_of(Direction::BottomToTop, Direction::RightToLeft, true, true),
        ScriptDirection::BottomToTopLeftToRight => layout_of(Direction::RightToLeft, Direction::BottomToTop, true, true),
        ScriptDirection::BottomToTopRightToLeft => layout_of(Direction::LeftToRight, Direction::BottomToTop, false, true),
    }
}

/// Whether a direction runs against the layout's natural flow (top to
/// bottom, left to right).
pub open spec fn is_reversed_direction(direction: Direction) -> bool {
    direction == Direction::RightToLeft || direction == Direction::BottomToTop
}

/// Whether a direction is horizontal.
pub open spec fn is_horizontal(direction: Direction) -> bool {
    direction == Direction::LeftToRight || direction == Direction::RightToLeft
}

impl LayoutData {
    /// The layout data for a script direction.
    pub fn new(script_direction: &ScriptDirection) -> (layout: LayoutData)
        ensures
            layout == layout_for(*script_direction),
    {
        match script_direction {
            // Most common is top to bottom line flow.
            ScriptDirection::TopToBottomLeftToRight => LayoutData {
                flow_line: Direction::TopToBottom,
                flow_word: Direction::LeftToRight,
                reverse_lines: false,
                reverse_words: false,
                align_lines_start: Alignment::Start,
                align_lines_end: Alignment::End,
                align_words_start: Alignment::Start,
                align_words_end: Alignment::End,
            },
            ScriptDirection::TopToBottomRightToLeft => LayoutData {
                flow_line: Direction::TopToBottom,
                flow_word: Direction::RightToLeft,
                reverse_lines: false,
                reverse_words: true,
                align_lines_start: Alignment::Start,
                align_lines_end: Alignment::End,
                align_words_start: Alignment::End,
                align_words_end: Alignment::Start,
            },
            // Vertical texts, for various east Asian scripts.
            ScriptDirection::RightToLeftTopToBottom => LayoutData {
                flow_line: Direction::RightToLeft,
                flow_word: Direction::TopToBottom,
                reverse_lines: true,
                reverse_words: false,
                align_lines_start: Alignment::End,
                align_lines_end: Alignment::Start,
                align_words_start: Alignment::Start,
                align_words_end: Alignment::End,
            },
            ScriptDirection::RightToLeftBottomToTop => LayoutData {
                flow_line: Direction::LeftToRight,
                flow_word: Direction::TopToBottom,
                reverse_lines: false,
                reverse_words: false,
                align_lines_start: Alignment::Start,
                align_lines_end: Alignment::End,
                align_words_start: Alignment::Start,
                align_words_end: Alignment::End,
            },
            // The bottom to top line flow is very rare, such as the
            // Mongolian script.
            ScriptDirection::LeftToRightTopToBottom => LayoutData {
                flow_line: Direction::BottomToTop,
                flow_word: Direction::LeftToRight,
                reverse_lines: true,
                reverse_words: false,
                align_lines_start: Alignment::End,
                align_lines_end: Alignment::Start,
                align_words_start: Alignment::Start,
                align_words_end: Alignment::End,
            },
            ScriptDirection::LeftToRightBottomToTop => LayoutData {
                flow_line: Direction::BottomToTop,
                flow_word: Direction::RightToLeft,
                reverse_lines: true,
                reverse_words: true,
                align_lines_start: Alignment::End,
                align_lines_end: Alignment::Start,
                align_words_start: Alignment::End,
                align_words_end: Alignment::Start,
            },
            ScriptDirection::BottomToTopLeftToRight => LayoutData {
                flow_line: Direction::RightToLeft,
                flow_word: Direction::BottomToTop,
                reverse_lines: true,
                reverse_words: true,
                align_lines_start: Alignment::End,
                align_lines_end: Alignment::Start,
                align_words_start: Alignment::End,
                align_words_end: Alignment::Start,
            },
            ScriptDirection::BottomToTopRightToLeft => LayoutData {
                flow_line: Direction::LeftToRight,
                flow_word: Direction::BottomToTop,
                reverse_lines: false,
                reverse_words: true,
                align_lines_start: Alignment::Start,
                align_lines_end: Alignment::End,
                align_words_start: Alignment::End,
                align_words_end: Alignment::Start,
            },
        }
    }
}

/// For every script direction, the layout reverses exactly the flows that
/// run right to left or bottom to top, aligns a reversed flow to its end,
/// and runs words across lines (one flow horizontal, the other vertical).
pub proof fn layout_is_consistent(script_direction: ScriptDirection)
    ensures
        ({
            let layout = layout_for(script_direction);
            &&& layout.reverse_lines == is_reversed_direction(layout.flow_line)
            &&& layout.reverse_words == is_reversed_direction(layout.flow_word)
            &&& layout.align_lines_start == (if layout.reverse_lines { Alignment::End } else { Alignment::Start })
            &&& layout.align_lines_end == (if layout.reverse_lines { Alignment::Start } else { Alignment::End })
            &&& layout.align_words_start == (if layout.reverse_words { Alignment::End } else { Alignment::Start })
            &&& layout.align_words_end == (if layout.reverse_words { Alignment::Start } else { Alignment::End })
            &&& is_horizontal(layout.flow_line) != is_horizontal(layout.flow_word)
        }),
{
}

} // verus!
