//! What the log viewer shows: the small state that the keys change, how the
//! format index goes round, and the region that is painted for a state.

use crate::keys::Command;
use crate::text::{decimal, texts, to_decimal};
use vstd::arithmetic::div_mod::{
    lemma_add_mod_noop_right, lemma_mod_add_multiples_vanish, lemma_small_mod,
};
use vstd::prelude::*;
use vstd::string::*;

verus! {

/// How many display formats there are to choose from.
pub const FORMAT_COUNT: usize = 2;

/// How many lines of content the region shows between its header and its
/// footer.
pub const HEIGHT: u16 = 3;

/// The index after `index` among `count` choices, going round.
pub open spec fn next_index(index: nat, count: nat) -> nat
    recommends
        count > 0,
{
    (index + 1) % count
}

/// The index before `index` among `count` choices, going round.
pub open spec fn previous_index(index: nat, count: nat) -> nat
    recommends
        count > 0,
{
    ((index + count - 1) % (count as int)) as nat
}

/// The index reached from `index` by going to the next one `steps` times.
pub open spec fn index_after(index: nat, count: nat, steps: nat) -> nat
    recommends
        count > 0,
    decreases steps,
{
    if steps == 0 {
        index
    } else {
        next_index(index_after(index, count, (steps - 1) as nat), count)
    }
}

/// What a `ViewState` holds.
pub struct ViewStateView {
    /// Which format is shown.
    pub format_index: nat,
    /// How many times the region was repainted.
    pub line_counter: nat,
    /// Whether the viewer is still running.
    pub running: bool,
}

/// The state as the viewer starts: the first format, nothing painted,
/// running.
pub open spec fn initial_view() -> ViewStateView {
    ViewStateView { format_index: 0, line_counter: 0, running: true }
}

/// The state after `command`: the format index goes round among the
/// formats, an interrupt stops the viewer, and nothing else changes.
pub open spec fn commanded(view: ViewStateView, command: Command) -> ViewStateView {
    match command {
        Command::Stop => ViewStateView { running: false, ..view },
        Command::NextFormat => ViewStateView {
            format_index: next_index(view.format_index, FORMAT_COUNT as nat),
            ..view
        },
        Command::PreviousFormat => ViewStateView {
            format_index: previous_index(view.format_index, FORMAT_COUNT as nat),
            ..view
        },
        Command::Refresh => view,
    }
}

/// The state after one more repaint: the line counter goes up by one. It
/// stays where it is once it has reached the largest value it can hold.
pub open spec fn counted(view: ViewStateView) -> ViewStateView {
    ViewStateView {
        line_counter: if view.line_counter < u64::MAX {
            view.line_counter + 1
        } else {
            view.line_counter
        },
        ..view
    }
}

/// The transient state of the viewer. Its format index is always below
/// `FORMAT_COUNT`.
#[derive(Debug, Clone, Copy, PartialEq, Eq)]
pub struct ViewState {
    format_index: usize,
    line_counter: u64,
    running: bool,
}

impl View for ViewState {
    type V = ViewStateView;

    closed spec fn view(&self) -> ViewStateView {
        ViewStateView {
            format_index: self.format_index as nat,
            line_counter: self.line_counter as nat,
            running: self.running,
        }
    }
}

impl ViewState {
    #[verifier::type_invariant]
    spec fn in_range(self) -> bool {
        self.format_index < FORMAT_COUNT
    }

    /// The state as the viewer starts.
    pub fn new() -> (r: Self)
        ensures
            r@ == initial_view(),
    {
        ViewState { format_index: 0, line_counter: 0, running: true }
    }

    /// Which format is shown.
    pub fn format_index(&self) -> (r: usize)
        ensures
            r == self@.format_index,
            r < FORMAT_COUNT,
    {
        proof {
            use_type_invariant(self);
        }
        self.format_index
    }

    /// How many times the region was repainted.
    pub fn line_counter(&self) -> (r: u64)
        ensures
            r == self@.line_counter,
    {
        self.line_counter
    }

    /// Whether the viewer is still running.
    pub fn running(&self) -> (r: bool)
        ensures
            r == self@.running,
    {
        self.running
    }

    /// The state after `command`.
    pub fn apply(self, command: Command) -> (r: Self)
        ensures
            r@ == commanded(self@, command),
    {
        proof {
            use_type_invariant(self);
        }
        match command {
            Command::Stop => ViewState { running: false, ..self },
            Command::NextFormat => ViewState {
                format_index: (self.format_index + 1) % FORMAT_COUNT,
                ..self
            },
            Command::PreviousFormat => ViewState {
                format_index: (self.format_index + FORMAT_COUNT - 1) % FORMAT_COUNT,
                ..self
            },
            Command::Refresh => self,
        }
    }

    /// The state after one more repaint.
    pub fn count(self) -> (r: Self)
        ensures
            r@ == counted(self@),
    {
        proof {
            use_type_invariant(self);
        }
        let line_counter: u64 = if self.line_counter < u64::MAX {
            self.line_counter + 1
        } else {
            self.line_counter
        };
        ViewState { line_counter, ..self }
    }
}

/// Going to the next index `steps` times adds `steps` modulo the number of
/// choices.
pub proof fn lemma_index_after(index: nat, count: nat, steps: nat)
    requires
        index < count,
    ensures
        index_after(index, count, steps) == (index + steps) % count,
        index_after(index, count, steps) < count,
    decreases steps,
{
    if steps == 0 {
        lemma_small_mod(index, count);
    } else {
        lemma_index_after(index, count, (steps - 1) as nat);
        let before = index + steps - 1;
        lemma_add_mod_noop_right(1, before, count as int);
        assert((before % (count as int) + 1) % (count as int) == (before + 1) % (count as int));
    }
}

/// Going round: from any index among `count` choices, `count` steps to the
/// next index lead back to where they began.
pub proof fn lemma_full_turn(index: nat, count: nat)
    requires
        index < count,
    ensures
        index_after(index, count, count) == index,
{
    lemma_index_after(index, count, count);
    lemma_mod_add_multiples_vanish(index as int, count as int);
    lemma_small_mod(index, count);
}

/// Going round the other way: the index before the first is the last.
pub proof fn lemma_previous_of_first(count: nat)
    requires
        count > 0,
    ensures
        previous_index(0, count) == count - 1,
{
    lemma_small_mod((count - 1) as nat, count);
}

/// Both neighbours of an index among `count` choices are among them, and
/// going to the next index and to the one before undo each other.
pub proof fn lemma_neighbours(index: nat, count: nat)
    requires
        index < count,
    ensures
        next_index(index, count) < count,
        previous_index(index, count) < count,
        previous_index(next_index(index, count), count) == index,
        next_index(previous_index(index, count), count) == index,
{
    let c = count as int;
    if index + 1 < count {
        lemma_small_mod(index + 1, count);
        lemma_mod_add_multiples_vanish(index as int, c);
        lemma_small_mod(index, count);
        assert((index + 1 + count - 1) % c == index) by {
            assert(index + 1 + count - 1 == c + index);
        }
    } else {
        assert(index + 1 == count);
        lemma_mod_add_multiples_vanish(0, c);
        lemma_small_mod(0, count);
        assert((index + 1) % count == 0) by {
            assert((index + 1) as int == c + 0);
        }
        lemma_small_mod((count - 1) as nat, count);
    }
    if index > 0 {
        lemma_mod_add_multiples_vanish(index - 1, c);
        lemma_small_mod((index - 1) as nat, count);
        assert((index + count - 1) % c == index - 1) by {
            assert(index + count - 1 == c + (index - 1));
        }
        lemma_small_mod(index, count);
    } else {
        lemma_small_mod((count - 1) as nat, count);
        lemma_mod_add_multiples_vanish(0, c);
        lemma_small_mod(0, count);
        assert((count - 1 + 1) % c == 0) by {
            assert(count - 1 + 1 == c + 0);
        }
    }
}

/// The state after the same `command` came `times` times.
pub open spec fn commanded_times(view: ViewStateView, command: Command, times: nat) -> ViewStateView
    decreases times,
{
    if times == 0 {
        view
    } else {
        commanded(commanded_times(view, command, (times - 1) as nat), command)
    }
}

/// The format index goes round among the formats: as many steps to the
/// right as there are formats lead back to the format they began at, with
/// nothing else changed; one step to the left of the first format is the
/// last format; and a step to the right and one to the left undo each
/// other.
pub proof fn lemma_format_cycle(view: ViewStateView)
    requires
        view.format_index < FORMAT_COUNT,
    ensures
        commanded_times(view, Command::NextFormat, FORMAT_COUNT as nat) == view,
        commanded(initial_view(), Command::PreviousFormat).format_index == FORMAT_COUNT - 1,
        commanded(commanded(view, Command::NextFormat), Command::PreviousFormat) == view,
        commanded(commanded(view, Command::PreviousFormat), Command::NextFormat) == view,
{
    let count = FORMAT_COUNT as nat;
    lemma_neighbours(view.format_index, count);
    lemma_previous_of_first(count);
    lemma_full_turn(view.format_index, count);
    lemma_commanded_next(view, count);
}

/// No command leads the format index outside the formats.
pub proof fn lemma_format_in_range(view: ViewStateView, command: Command)
    requires
        view.format_index < FORMAT_COUNT,
    ensures
        commanded(view, command).format_index < FORMAT_COUNT,
{
    lemma_neighbours(view.format_index, FORMAT_COUNT as nat);
}

/// Steps to the right move the format index as `index_after` says and
/// change nothing else.
proof fn lemma_commanded_next(view: ViewStateView, times: nat)
    ensures
        commanded_times(view, Command::NextFormat, times) == (ViewStateView {
            format_index: index_after(view.format_index, FORMAT_COUNT as nat, times),
            ..view
        }),
    decreases times,
{
    if times > 0 {
        lemma_commanded_next(view, (times - 1) as nat);
    }
}

/// What a `Frame` holds.
pub struct FrameView {
    pub rewind: nat,
    pub header: Seq<char>,
    pub body: Seq<Seq<char>>,
    pub footer: Seq<char>,
}

/// The name of the format with this index.
pub open spec fn format_name(index: nat) -> Seq<char> {
    if index == 0 {
        "oneline"@
    } else {
        "short"@
    }
}

/// Line `row` of the content, counted from zero: its number, counted from
/// one, and the line counter moved on by `row`.
pub open spec fn content_line(view: ViewStateView, row: nat) -> Seq<char> {
    "Line "@ + decimal(row + 1) + ": "@ + decimal(view.line_counter + row)
}

/// The hint on the keys, shown below the content.
pub open spec fn footer_text() -> Seq<char> {
    "[↑↓ to move, ←→ to switch format, type to filter]"@
}

/// What is painted for `view`: the cursor goes up over the whole region,
/// which is the header, `HEIGHT` lines of content and the footer, and each
/// of these lines is written anew.
pub open spec fn frame_of(view: ViewStateView) -> FrameView {
    FrameView {
        rewind: (HEIGHT + 2) as nat,
        header: format_name(view.format_index),
        body: Seq::new(HEIGHT as nat, |row: int| content_line(view, row as nat)),
        footer: footer_text(),
    }
}

/// The region as it is painted: how many lines the cursor goes up first,
/// and the lines then written in place, each over what stood there.
#[derive(Debug, PartialEq, Eq)]
pub struct Frame {
    /// How many lines the cursor moves up before anything is written.
    pub rewind: u16,
    /// The name of the format shown.
    pub header: String,
    /// The lines of content.
    pub body: Vec<String>,
    /// The hint on the keys.
    pub footer: String,
}

impl View for Frame {
    type V = FrameView;

    open spec fn view(&self) -> FrameView {
        FrameView {
            rewind: self.rewind as nat,
            header: self.header@,
            body: texts(self.body@),
            footer: self.footer@,
        }
    }
}

/// What is painted for `view`.
pub fn frame(view: &ViewState) -> (r: Frame)
    ensures
        r@ == frame_of(view@),
{
    let header = if view.format_index() == 0 {
        String::from_str("oneline")
    } else {
        String::from_str("short")
    };
    let counter: u128 = view.line_counter() as u128;
    let mut body: Vec<String> = Vec::new();
    let mut row: u16 = 0;
    while row < HEIGHT
        invariant
            row <= HEIGHT,
            counter == view@.line_counter,
            texts(body@) == frame_of(view@).body.take(row as int),
        decreases HEIGHT - row,
    {
        let mut line = String::from_str("Line ");
        let number = to_decimal(row as u128 + 1);
        line.append(number.as_str());
        line.append(": ");
        let offset = to_decimal(counter + row as u128);
        line.append(offset.as_str());
        proof {
            assert(line@ == content_line(view@, row as nat));
            assert(texts(body@.push(line)) =~= texts(body@).push(line@));
            assert(frame_of(view@).body.take(row + 1) =~= frame_of(view@).body.take(
                row as int,
            ).push(line@));
        }
        body.push(line);
        row += 1;
    }
    assert(frame_of(view@).body.take(HEIGHT as int) =~= frame_of(view@).body);
    Frame {
        rewind: HEIGHT + 2,
        header,
        body,
        footer: String::from_str("[↑↓ to move, ←→ to switch format, type to filter]"),
    }
}

} // verus!
