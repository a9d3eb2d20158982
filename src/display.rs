//! The redraw controller: it remembers how many rows the last frame had and
//! plans how the next frame is drawn over it.

use crate::text::push_char;
use vstd::prelude::*;
use vstd::string::StrSliceExecFns;

verus! {

/// The lines of a text, split at each newline; a text that ends with a
/// newline has an empty last line, and the empty text is one empty line.
pub open spec fn split_lines(s: Seq<char>) -> Seq<Seq<char>>
    decreases s.len(),
{
    if s.len() == 0 {
        seq![seq![]]
    } else {
        let prev = split_lines(s.drop_last());
        if s.last() == '\n' {
            prev.push(seq![])
        } else {
            prev.update(prev.len() - 1, prev.last().push(s.last()))
        }
    }
}

/// Rows left over below a new frame of `new_rows` rows drawn over one of
/// `prev_rows` rows.
pub open spec fn surplus_rows(prev_rows: nat, new_rows: nat) -> nat {
    if prev_rows > new_rows {
        (prev_rows - new_rows) as nat
    } else {
        0
    }
}

proof fn lemma_split_lines_nonempty(s: Seq<char>)
    ensures
        split_lines(s).len() >= 1,
    decreases s.len(),
{
    if s.len() > 0 {
        lemma_split_lines_nonempty(s.drop_last());
    }
}

/// Renders pixel grids as text and keeps the row count of the frame drawn
/// last, so that the next frame can be drawn over it.
pub struct TerminalDisplay {
    num_rows: usize,
}

/// How to draw one frame over the previous one: move the cursor up
/// `move_up` lines (none when zero), write each of `rows` followed by a move
/// to the start of the next line, then blank `blank_rows` stale lines below.
pub struct RedrawPlan {
    pub move_up: usize,
    pub rows: Vec<String>,
    pub blank_rows: usize,
}

impl TerminalDisplay {
    /// Number of rows of the frame drawn last.
    pub closed spec fn previous_rows(&self) -> nat {
        self.num_rows as nat
    }

    /// A controller that has drawn nothing yet.
    pub fn new() -> (r: TerminalDisplay)
        ensures
            r.previous_rows() == 0,
    {
        TerminalDisplay { num_rows: 0 }
    }

    /// Number of rows of the frame drawn last.
    pub fn num_rows(&self) -> (r: usize)
        ensures
            r == self.previous_rows(),
    {
        self.num_rows
    }

    /// Plans drawing `text` over the previous frame and records its row
    /// count: the cursor goes up over every row drawn last time, the text is
    /// written line by line, and rows that the shorter new frame leaves over
    /// are blanked.
    pub fn plan_update(&mut self, text: &str) -> (plan: RedrawPlan)
        ensures
            plan.move_up == old(self).previous_rows(),
            plan.rows@.len() == split_lines(text@).len(),
            forall|j: int| 0 <= j < plan.rows@.len() ==> #[trigger] plan.rows@[j]@ == split_lines(text@)[j],
            plan.blank_rows == surplus_rows(old(self).previous_rows(), plan.rows@.len()),
            final(self).previous_rows() == plan.rows@.len(),
    {
        let n = text.unicode_len();
        let mut rows: Vec<String> = Vec::new();
        let mut line = String::new();
        let mut i: usize = 0;
        proof {
            assert(text@.subrange(0, 0) =~= Seq::<char>::empty());
        }
        while i < n
            invariant
                n == text@.len(),
                i <= n,
                rows@.len() + 1 == split_lines(text@.subrange(0, i as int)).len(),
                forall|j: int| 0 <= j < rows@.len() ==> #[trigger] rows@[j]@ == split_lines(text@.subrange(0, i as int))[j],
                line@ == split_lines(text@.subrange(0, i as int)).last(),
            decreases n - i,
        {
            let ghost prefix = text@.subrange(0, i as int);
            let ghost next = text@.subrange(0, i + 1);
            proof {
                assert(next.drop_last() =~= prefix);
                lemma_split_lines_nonempty(prefix);
            }
            let ch = text.get_char(i);
            if ch == '\n' {
                rows.push(line);
                line = String::new();
            } else {
                push_char(&mut line, ch);
            }
            i += 1;
        }
        proof {
            assert(text@.subrange(0, n as int) =~= text@);
            lemma_split_lines_nonempty(text@);
        }
        rows.push(line);
        let prev = self.num_rows;
        let count = rows.len();
        self.num_rows = count;
        RedrawPlan {
            move_up: prev,
            rows,
            blank_rows: if prev > count {
                prev - count
            } else {
                0
            },
        }
    }
}

impl Default for TerminalDisplay {
    fn default() -> (r: TerminalDisplay)
        ensures
            r.previous_rows() == 0,
    {
        TerminalDisplay::new()
    }
}

} // verus!
