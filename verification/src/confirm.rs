//! Asking for a yes or a no: the framed preview of what is about to happen,
//! and what the user's answer amounts to.

use crate::error::Error;
use crate::select::PromptReply;
use crate::text::{lines, lines_of, repeat, repeated, texts};
use vstd::prelude::*;
use vstd::string::*;
use vstd::utf8::*;

verus! {

/// The length of a line in bytes, encoded as UTF-8.
pub open spec fn byte_len(line: Seq<char>) -> nat {
    encode_utf8(line).len()
}

/// The largest length in bytes among `lines`; 0 where there is none.
pub open spec fn widest(lines: Seq<Seq<char>>) -> nat
    decreases lines.len(),
{
    if lines.len() == 0 {
        0
    } else {
        let before = widest(lines.drop_last());
        if byte_len(lines.last()) > before {
            byte_len(lines.last())
        } else {
            before
        }
    }
}

/// `line` with spaces after it up to `width` characters.
pub open spec fn padded(line: Seq<char>, width: nat) -> Seq<char> {
    if line.len() < width {
        line + repeated(" "@, (width - line.len()) as nat)
    } else {
        line
    }
}

/// The top border of a frame around lines of `width` characters.
pub open spec fn top_border(width: nat) -> Seq<char> {
    "┌"@ + repeated("─"@, width + 2) + "┐"@
}

/// The bottom border of a frame around lines of `width` characters.
pub open spec fn bottom_border(width: nat) -> Seq<char> {
    "└"@ + repeated("─"@, width + 2) + "┘"@
}

/// One line inside a frame: a border, a space of margin, the line padded to
/// `width` characters, a space of margin, a border.
pub open spec fn framed_line(line: Seq<char>, width: nat) -> Seq<char> {
    "│ "@ + padded(line, width) + " │"@
}

/// The rows of the frame around `message`: the top border, each line of the
/// message, the bottom border. The frame is as wide as the longest line is
/// long in bytes.
pub open spec fn framed(message: Seq<char>) -> Seq<Seq<char>> {
    let all = lines_of(message);
    let width = widest(all);
    seq![top_border(width)] + all.map_values(|line: Seq<char>| framed_line(line, width))
        + seq![bottom_border(width)]
}

/// No text has more characters than bytes.
pub proof fn lemma_chars_within_bytes(line: Seq<char>)
    ensures
        line.len() <= byte_len(line),
    decreases line.len(),
{
    if line.len() > 0 {
        lemma_chars_within_bytes(line.drop_first());
    }
}

/// No line is longer than the widest.
pub proof fn lemma_widest_bounds(lines: Seq<Seq<char>>, i: int)
    requires
        0 <= i < lines.len(),
    ensures
        byte_len(lines[i]) <= widest(lines),
    decreases lines.len(),
{
    if i < lines.len() - 1 {
        lemma_widest_bounds(lines.drop_last(), i);
    }
}

/// The length of a repetition is the product of the lengths.
pub proof fn lemma_repeated_len(piece: Seq<char>, n: nat)
    ensures
        repeated(piece, n).len() == n * piece.len(),
    decreases n,
{
    if n > 0 {
        lemma_repeated_len(piece, (n - 1) as nat);
        assert(n * piece.len() == (n - 1) * piece.len() + piece.len()) by (nonlinear_arith);
    } else {
        assert(0 * piece.len() == 0) by (nonlinear_arith);
    }
}

/// Every row of the frame around a message, borders and lines alike, has
/// the same number of characters: the byte length of the message's longest
/// line, two spaces of margin, and the two border characters. There are two
/// rows more than the message has lines.
pub proof fn lemma_framed_widths(message: Seq<char>)
    ensures
        framed(message).len() == lines_of(message).len() + 2,
        forall|i: int|
            0 <= i < framed(message).len() ==> (#[trigger] framed(message)[i]).len() == widest(
                lines_of(message),
            ) + 2 + 2,
{
    let all = lines_of(message);
    let width = widest(all);
    reveal_strlit("┌");
    reveal_strlit("┐");
    reveal_strlit("└");
    reveal_strlit("┘");
    reveal_strlit("─");
    reveal_strlit("│ ");
    reveal_strlit(" │");
    reveal_strlit(" ");
    lemma_repeated_len("─"@, width + 2);
    assert forall|i: int| 0 <= i < framed(message).len() implies (#[trigger] framed(
        message,
    )[i]).len() == width + 4 by {
        if 1 <= i <= all.len() {
            let line = all[i - 1];
            assert(framed(message)[i] == framed_line(line, width));
            lemma_chars_within_bytes(line);
            lemma_widest_bounds(all, i - 1);
            if line.len() < width {
                lemma_repeated_len(" "@, (width - line.len()) as nat);
            }
        }
    }
}

/// The rows of the frame around `message`, from top to bottom.
pub fn render_box(message: &str) -> (r: Vec<String>)
    ensures
        texts(r@) == framed(message@),
{
    let all = lines(message);
    let mut width: usize = 0;
    let mut i: usize = 0;
    while i < all.len()
        invariant
            i <= all.len(),
            texts(all@) == lines_of(message@),
            width == widest(lines_of(message@).take(i as int)),
        decreases all.len() - i,
    {
        let len: usize = all[i].as_str().as_bytes().len();
        proof {
            assert(len == byte_len(all@[i as int]@));
            let seen = lines_of(message@).take(i + 1);
            assert(texts(all@)[i as int] == all@[i as int]@);
            assert(seen.drop_last() =~= lines_of(message@).take(i as int));
            assert(seen.last() == all@[i as int]@);
        }
        if len > width {
            width = len;
        }
        i += 1;
    }
    assert(lines_of(message@).take(all.len() as int) =~= lines_of(message@));
    let bar = repeat("─", width);
    proof {
        assert(repeated("─"@, (width + 2) as nat) == repeated("─"@, (width + 1) as nat) + "─"@);
        assert(repeated("─"@, (width + 1) as nat) == repeated("─"@, width as nat) + "─"@);
    }
    let mut top = String::from_str("┌");
    top.append(bar.as_str());
    top.append("─");
    top.append("─");
    top.append("┐");
    assert(top@ =~= top_border(width as nat));
    let mut bottom = String::from_str("└");
    bottom.append(bar.as_str());
    bottom.append("─");
    bottom.append("─");
    bottom.append("┘");
    assert(bottom@ =~= bottom_border(width as nat));
    let ghost inner = lines_of(message@).map_values(
        |line: Seq<char>| framed_line(line, width as nat),
    );
    let mut rows: Vec<String> = Vec::new();
    rows.push(top);
    let mut k: usize = 0;
    while k < all.len()
        invariant
            k <= all.len(),
            texts(all@) == lines_of(message@),
            inner == lines_of(message@).map_values(
                |line: Seq<char>| framed_line(line, width as nat),
            ),
            texts(rows@) == seq![top_border(width as nat)] + inner.take(k as int),
        decreases all.len() - k,
    {
        let line = all[k].as_str();
        let count: usize = line.unicode_len();
        let mut row = String::from_str("│ ");
        row.append(line);
        if count < width {
            let filler = repeat(" ", width - count);
            row.append(filler.as_str());
        }
        row.append(" │");
        proof {
            assert(texts(all@)[k as int] == line@);
            assert(row@ =~= framed_line(line@, width as nat));
            assert(inner[k as int] == row@);
            assert(texts(rows@.push(row)) =~= texts(rows@).push(row@));
            assert(inner.take(k + 1) =~= inner.take(k as int).push(row@));
            assert(texts(rows@).push(row@) =~= seq![top_border(width as nat)] + inner.take(k + 1));
        }
        rows.push(row);
        k += 1;
    }
    proof {
        assert(inner.take(all.len() as int) =~= inner);
        assert(texts(rows@.push(bottom)) =~= texts(rows@).push(bottom@));
    }
    rows.push(bottom);
    rows
}

/// What the answer to a yes-or-no question amounts to. An answer that says
/// neither (the user only pressed enter) stands for `default_answer`. A user
/// who backed out and a terminal that failed are told apart.
pub fn confirm_answer(reply: PromptReply<Option<bool>>, default_answer: bool) -> (r: Result<
    bool,
    Error,
>)
    ensures
        match reply {
            PromptReply::Answered(Some(answer)) => r == Ok::<bool, Error>(answer),
            PromptReply::Answered(None) => r == Ok::<bool, Error>(default_answer),
            PromptReply::Cancelled => r == Err::<bool, Error>(Error::Cancelled),
            PromptReply::Failed(detail) => r matches Err(Error::IoFailure(text)) && text@
                == "Failed to get confirmation: "@ + detail@,
        },
{
    match reply {
        PromptReply::Answered(Some(answer)) => Ok(answer),
        PromptReply::Answered(None) => Ok(default_answer),
        PromptReply::Cancelled => Err(Error::Cancelled),
        PromptReply::Failed(detail) => {
            let mut text = String::from_str("Failed to get confirmation: ");
            text.append(detail.as_str());
            Err(Error::IoFailure(text))
        },
    }
}

} // verus!
