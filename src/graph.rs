use vstd::prelude::*;
use std::collections::VecDeque;
use crate::history::{Sample, HISTORY_WINDOW_MS};
use crate::tier::{glyph, ConnectionStatus};

verus! {

/// Number of columns of a rendered graph.
pub const GRAPH_WIDTH: usize = 60;

/// The column that a sample taken at `at` falls in, when the graph ends at
/// `now` and spans `window` milliseconds over `width` columns; `None` when it
/// falls before the start or at or past the right edge.
pub open spec fn column_of(at: u64, now: u64, width: nat, window: nat) -> Option<int> {
    let start: int = now - window;
    if (at as int) < start {
        None
    } else {
        let col: int = (at - start) / ((window / width) as int);
        if col < width {
            Some(col)
        } else {
            None
        }
    }
}

/// The graph's columns: each holds the tier of the last sample of `s` that
/// falls in it, or `None` where no sample does.
pub open spec fn columns(s: Seq<Sample>, now: u64, width: nat, window: nat) -> Seq<
    Option<ConnectionStatus>,
>
    decreases s.len(),
{
    if s.len() == 0 {
        Seq::new(width, |c: int| None)
    } else {
        let rest = columns(s.drop_last(), now, width, window);
        match column_of(s.last().0, now, width, window) {
            Some(c) => rest.update(c, Some(s.last().1)),
            None => rest,
        }
    }
}

/// A column's character: the tier's glyph, or a space where it is empty.
pub open spec fn cell(c: Option<ConnectionStatus>) -> char {
    match c {
        Some(s) => glyph(s),
        None => ' ',
    }
}

/// The text of a graph: one character per column.
pub open spec fn graph_text(cols: Seq<Option<ConnectionStatus>>) -> Seq<char> {
    Seq::new(cols.len(), |c: int| cell(cols[c]))
}

/// The text that `draw_graph` gives for the history `s` at time `now`.
pub open spec fn rendered(s: Seq<Sample>, now: u64) -> Seq<char> {
    graph_text(columns(s, now, GRAPH_WIDTH as nat, HISTORY_WINDOW_MS as nat))
}

/// A graph has exactly `width` columns.
pub proof fn lemma_columns_len(s: Seq<Sample>, now: u64, width: nat, window: nat)
    requires
        0 < width <= window,
    ensures
        columns(s, now, width, window).len() == width,
    decreases s.len(),
{
    if s.len() > 0 {
        lemma_columns_len(s.drop_last(), now, width, window);
        if column_of(s.last().0, now, width, window) is Some {
            lemma_column_in_range(s.last().0, now, width, window);
        }
    }
}

/// With no samples, every column is empty and the text is `width` spaces.
pub proof fn lemma_empty_history_blank(now: u64, width: nat, window: nat)
    ensures
        columns(Seq::empty(), now, width, window) == Seq::new(width, |c: int| None::<ConnectionStatus>),
        graph_text(columns(Seq::empty(), now, width, window)) == Seq::new(width, |c: int| ' '),
{
    assert(graph_text(columns(Seq::empty(), now, width, window)) =~= Seq::new(width, |c: int| ' '));
}

/// A sample that falls in the graph falls in one of its `width` columns.
pub proof fn lemma_column_in_range(at: u64, now: u64, width: nat, window: nat)
    requires
        0 < width <= window,
        column_of(at, now, width, window) is Some,
    ensures
        0 <= column_of(at, now, width, window)->0 < width,
{
    let per: int = (window / width) as int;
    let e: int = at - (now - window);
    assert(per > 0) by (nonlinear_arith)
        requires
            per == window / width,
            0 < width <= window,
    ;
    assert(e / per >= 0) by (nonlinear_arith)
        requires
            e >= 0,
            per > 0,
    ;
}

/// A column shows the tier of the last sample that falls in it: where several
/// samples share a column, the later one wins.
pub proof fn lemma_last_sample_wins(s: Seq<Sample>, now: u64, width: nat, window: nat, j: int)
    requires
        0 < width <= window,
        0 <= j < s.len(),
        column_of(s[j].0, now, width, window) is Some,
        forall|k: int|
            j < k < s.len() ==> column_of(#[trigger] s[k].0, now, width, window) != column_of(
                s[j].0,
                now,
                width,
                window,
            ),
    ensures
        columns(s, now, width, window)[column_of(s[j].0, now, width, window)->0] == Some(s[j].1),
    decreases s.len(),
{
    let c = column_of(s[j].0, now, width, window)->0;
    lemma_columns_len(s.drop_last(), now, width, window);
    lemma_column_in_range(s[j].0, now, width, window);
    if j < s.len() - 1 {
        assert forall|k: int| j < k < s.drop_last().len() implies column_of(
            #[trigger] s.drop_last()[k].0,
            now,
            width,
            window,
        ) != column_of(s.drop_last()[j].0, now, width, window) by {
            assert(s.drop_last()[k] == s[k]);
        }
        assert(s.drop_last()[j] == s[j]);
        lemma_last_sample_wins(s.drop_last(), now, width, window, j);
        assert(column_of(s.last().0, now, width, window) != Some(c));
        if column_of(s.last().0, now, width, window) is Some {
            lemma_column_in_range(s.last().0, now, width, window);
        }
    }
}

/// Two renderings of one history at one time are the same text.
pub proof fn lemma_render_idempotent(s: Seq<Sample>, now: u64, first: Seq<char>, second: Seq<char>)
    requires
        first == rendered(s, now),
        second == rendered(s, now),
    ensures
        first == second,
        first.len() == GRAPH_WIDTH,
{
    lemma_columns_len(s, now, GRAPH_WIDTH as nat, HISTORY_WINDOW_MS as nat);
}

/// Buckets the samples of `history` into `width` columns spanning the
/// `window_ms` milliseconds that end at `now`; a later sample overwrites an
/// earlier one in the same column.
pub fn graph_columns(history: &VecDeque<Sample>, now: u64, width: usize, window_ms: u64) -> (r: Vec<
    Option<ConnectionStatus>,
>)
    requires
        0 < width <= window_ms,
    ensures
        r@ == columns(history@, now, width as nat, window_ms as nat),
        r@.len() == width,
{
    let per_col: u64 = window_ms / (width as u64);
    assert(per_col > 0 && per_col * width <= window_ms) by (nonlinear_arith)
        requires
            per_col == window_ms / (width as u64),
            0 < width <= window_ms,
    ;
    let mut cols: Vec<Option<ConnectionStatus>> = Vec::new();
    let mut c: usize = 0;
    while c < width
        invariant
            c <= width,
            cols@ == Seq::new(c as nat, |k: int| None::<ConnectionStatus>),
        decreases width - c,
    {
        cols.push(None);
        c = c + 1;
        assert(cols@ =~= Seq::new(c as nat, |k: int| None::<ConnectionStatus>));
    }
    let mut i: usize = 0;
    while i < history.len()
        invariant
            i <= history@.len(),
            0 < width <= window_ms,
            per_col == window_ms / (width as u64),
            per_col > 0,
            per_col * width <= window_ms,
            cols@ == columns(history@.take(i as int), now, width as nat, window_ms as nat),
        decreases history@.len() - i,
    {
        let (at, status) = history[i];
        proof {
            lemma_columns_len(history@.take(i as int), now, width as nat, window_ms as nat);
            assert(history@.take(i + 1).drop_last() =~= history@.take(i as int));
        }
        if at <= now {
            let back: u64 = now - at;
            if back <= window_ms {
                let col: u64 = (window_ms - back) / per_col;
                if col < width as u64 {
                    cols.set(col as usize, Some(status));
                }
            }
        } else {
            let ghost e: int = at - (now - window_ms);
            assert(e / (per_col as int) >= width) by (nonlinear_arith)
                requires
                    e > window_ms,
                    per_col > 0,
                    per_col * width <= window_ms,
            ;
        }
        i = i + 1;
    }
    assert(history@.take(i as int) =~= history@);
    proof {
        lemma_columns_len(history@, now, width as nat, window_ms as nat);
    }
    cols
}

/// The history graph: one glyph per column over the retention window that
/// ends at `now`, a space for a column that no sample falls in.
pub fn draw_graph(history: &VecDeque<Sample>, now: u64) -> (r: String)
    ensures
        r@ == rendered(history@, now),
        r@.len() == GRAPH_WIDTH,
{
    let cols = graph_columns(history, now, GRAPH_WIDTH, HISTORY_WINDOW_MS);
    let mut text = String::new();
    let mut c: usize = 0;
    while c < cols.len()
        invariant
            c <= cols@.len(),
            text@ == graph_text(cols@).take(c as int),
        decreases cols@.len() - c,
    {
        match cols[c] {
            Some(status) => text.append(status.symbol()),
            None => {
                proof {
                    reveal_strlit(" ");
                }
                text.append(" ");
            },
        }
        assert(text@ =~= graph_text(cols@).take(c + 1));
        c = c + 1;
    }
    assert(text@ =~= graph_text(cols@));
    text
}

} // verus!
