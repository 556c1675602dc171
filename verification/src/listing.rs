//! Rendering of the numbered list of recent threads.

use crate::text::{decimal, decimal_text};
use vstd::prelude::*;
use vstd::string::*;

verus! {

/// The titles of a sequence of `(title, author)` pairs, in order.
pub open spec fn titles_of(threads: Seq<(String, String)>) -> Seq<Seq<char>> {
    threads.map_values(|t: (String, String)| t.0@)
}

/// The number of entries shown of `count` threads under `limit`.
pub open spec fn shown_count(count: nat, limit: nat) -> nat {
    if count <= limit {
        count
    } else {
        limit
    }
}

/// The line for the thread at position `index`, counted from zero: its number, counted from
/// one, in square brackets, a blank, the title, and the line ending.
pub open spec fn entry_line(index: nat, title: Seq<char>, eol: Seq<char>) -> Seq<char> {
    "["@ + decimal(index + 1) + "] "@ + title + eol
}

/// The lines for the first `n` of `titles`, one after the other.
pub open spec fn listing_upto(titles: Seq<Seq<char>>, n: nat, eol: Seq<char>) -> Seq<char>
    decreases n,
{
    if n == 0 {
        Seq::empty()
    } else {
        listing_upto(titles, (n - 1) as nat, eol) + entry_line(
            (n - 1) as nat,
            titles[n - 1],
            eol,
        )
    }
}

/// The listing of `titles` under `limit`: the lines of the first `limit` titles, in the order
/// given, numbered from one.
pub open spec fn listing(titles: Seq<Seq<char>>, limit: nat, eol: Seq<char>) -> Seq<char> {
    listing_upto(titles, shown_count(titles.len(), limit), eol)
}

/// Renders the line of the thread at position `index`.
pub fn render_entry(index: usize, title: &str, eol: &str) -> (r: String)
    requires
        index < usize::MAX,
    ensures
        r@ == entry_line(index as nat, title@, eol@),
{
    let mut r = String::from_str("[");
    let number = decimal_text(index + 1);
    r.append(number.as_str());
    r.append("] ");
    r.append(title);
    r.append(eol);
    r
}

/// Renders the lines of the first `limit` threads, one `String` per thread.
pub fn render_lines(threads: &Vec<(String, String)>, limit: usize, eol: &str) -> (lines: Vec<
    String,
>)
    ensures
        lines@.len() == shown_count(threads@.len(), limit as nat),
        forall|i: int|
            0 <= i < lines@.len() ==> (#[trigger] lines@[i])@ == entry_line(
                i as nat,
                threads@[i].0@,
                eol@,
            ),
{
    let mut lines: Vec<String> = Vec::new();
    let mut i: usize = 0;
    while i < threads.len() && i < limit
        invariant
            i <= threads@.len(),
            i <= limit,
            lines@.len() == i,
            forall|k: int|
                0 <= k < i ==> (#[trigger] lines@[k])@ == entry_line(
                    k as nat,
                    threads@[k].0@,
                    eol@,
                ),
        decreases threads@.len() - i,
    {
        let line = render_entry(i, threads[i].0.as_str(), eol);
        lines.push(line);
        i += 1;
    }
    lines
}

/// Renders the listing of the first `limit` threads as one text.
pub fn render_listing(threads: &Vec<(String, String)>, limit: usize, eol: &str) -> (r: String)
    ensures
        r@ == listing(titles_of(threads@), limit as nat, eol@),
{
    let lines = render_lines(threads, limit, eol);
    let mut out = String::new();
    let mut i: usize = 0;
    while i < lines.len()
        invariant
            i <= lines@.len(),
            lines@.len() == shown_count(threads@.len(), limit as nat),
            forall|k: int|
                0 <= k < lines@.len() ==> (#[trigger] lines@[k])@ == entry_line(
                    k as nat,
                    threads@[k].0@,
                    eol@,
                ),
            out@ == listing_upto(titles_of(threads@), i as nat, eol@),
        decreases lines@.len() - i,
    {
        assert(titles_of(threads@)[i as int] == threads@[i as int].0@);
        out.append(lines[i].as_str());
        i += 1;
    }
    out
}

} // verus!
