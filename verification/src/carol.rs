//! The cumulative-verse holiday song: a fixed twelve-entry gift
//! catalogue, and the exact sequence of lines the verse printer emits.
//!
//! Two quirks of the printer are deliberate: it runs days 1 through 11
//! only (the twelfth verse is never produced), and the gift lines are
//! rendered in quoted form while the day announcement is not.

use crate::decimal::{decimal_string, spec_decimal};
use vstd::prelude::*;
use vstd::string::StringExecFns;

verus! {

/// The gift description introduced on day `i + 1`, for `i` in 0..12.
pub open spec fn spec_carol_item(i: int) -> Seq<char> {
    if i == 0 {
        "A partridge in a pear tree"@
    } else if i == 1 {
        "Two turtle doves"@
    } else if i == 2 {
        "Three french hens"@
    } else if i == 3 {
        "Four calling birds"@
    } else if i == 4 {
        "Five golden rings"@
    } else if i == 5 {
        "Six geese a-laying"@
    } else if i == 6 {
        "Seven swans a-swimming"@
    } else if i == 7 {
        "Eight maids a-milking"@
    } else if i == 8 {
        "Nine ladies dancing"@
    } else if i == 9 {
        "Ten lords a-leaping"@
    } else if i == 10 {
        "Eleven pipers piping"@
    } else {
        "Twelve drummers drumming"@
    }
}

/// The day-announcement line, with the same literal "th" suffix for
/// every day number, grammar notwithstanding.
pub open spec fn spec_announcement(day: nat) -> Seq<char> {
    "On the "@ + spec_decimal(day) + "th day of Christmas, my true love gave to me"@
}

/// A gift description in its quoted (debug-style) rendering.
pub open spec fn spec_quoted(s: Seq<char>) -> Seq<char> {
    "\""@ + s + "\""@
}

/// The gift lines of verse `day`: catalogue entries `day` down to 0,
/// each quoted, in strictly descending index order.
pub open spec fn spec_verse_lines(day: int) -> Seq<Seq<char>> {
    Seq::new((day + 1) as nat, |j: int| spec_quoted(spec_carol_item(day - j)))
}

/// Every line the verse printer emits for days 1 up to, but not
/// including, `day`: for each day an announcement, then that day's
/// gift lines.
pub open spec fn spec_carol_upto(day: int) -> Seq<Seq<char>>
    decreases day,
{
    if day <= 1 {
        Seq::empty()
    } else {
        spec_carol_upto(day - 1) + seq![spec_announcement((day - 1) as nat)]
            + spec_verse_lines(day - 1)
    }
}

/// The complete output of the verse printer: days 1 through 11.
pub open spec fn spec_carol_lines() -> Seq<Seq<char>> {
    spec_carol_upto(12)
}

/// The printer announces exactly 11 days, and for day `k` it emits
/// `k + 1` gift lines, so the whole song is 88 lines.
pub proof fn lemma_carol_line_count()
    ensures
        spec_carol_lines().len() == 88,
{
    assert(spec_carol_upto(1).len() == 0);
    assert(spec_carol_upto(2).len() == 3);
    assert(spec_carol_upto(3).len() == 7);
    assert(spec_carol_upto(4).len() == 12);
    assert(spec_carol_upto(5).len() == 18);
    assert(spec_carol_upto(6).len() == 25);
    assert(spec_carol_upto(7).len() == 33);
    assert(spec_carol_upto(8).len() == 42);
    assert(spec_carol_upto(9).len() == 52);
    assert(spec_carol_upto(10).len() == 63);
    assert(spec_carol_upto(11).len() == 75);
    assert(spec_carol_upto(12).len() == 88);
}

/// The fixed catalogue, in its canonical order.
pub fn carol_items() -> (items: Vec<&'static str>)
    ensures
        items@.len() == 12,
        forall|i: int| 0 <= i < 12 ==> items@[i]@ == spec_carol_item(i),
{
    let mut items: Vec<&'static str> = Vec::new();
    items.push("A partridge in a pear tree");
    items.push("Two turtle doves");
    items.push("Three french hens");
    items.push("Four calling birds");
    items.push("Five golden rings");
    items.push("Six geese a-laying");
    items.push("Seven swans a-swimming");
    items.push("Eight maids a-milking");
    items.push("Nine ladies dancing");
    items.push("Ten lords a-leaping");
    items.push("Eleven pipers piping");
    items.push("Twelve drummers drumming");
    items
}

/// Build the announcement line for `day`.
fn announcement_line(day: u32) -> (line: String)
    ensures
        line@ == spec_announcement(day as nat),
{
    let mut line = String::from_str("On the ");
    let digits = decimal_string(day);
    line.append(digits.as_str());
    line.append("th day of Christmas, my true love gave to me");
    proof {
        assert(line@ =~= spec_announcement(day as nat));
    }
    line
}

/// Build the quoted rendering of one gift description.
fn quoted_line(item: &str) -> (line: String)
    ensures
        line@ == spec_quoted(item@),
{
    let mut line = String::from_str("\"");
    line.append(item);
    line.append("\"");
    proof {
        assert(line@ =~= spec_quoted(item@));
    }
    line
}

/// Produce, in order, every line of the cumulative-verse song as the
/// printer emits it.
pub fn carol_lines() -> (lines: Vec<String>)
    ensures
        lines@.len() == spec_carol_lines().len(),
        forall|i: int| 0 <= i < lines@.len() ==> lines@[i]@ == spec_carol_lines()[i],
{
    let items = carol_items();
    let mut lines: Vec<String> = Vec::new();
    let mut day: usize = 1;
    while day < 12
        invariant
            1 <= day <= 12,
            items@.len() == 12,
            forall|i: int| 0 <= i < 12 ==> items@[i]@ == spec_carol_item(i),
            lines@.len() == spec_carol_upto(day as int).len(),
            forall|i: int|
                0 <= i < lines@.len() ==> lines@[i]@ == spec_carol_upto(day as int)[i],
        decreases 12 - day,
    {
        lines.push(announcement_line(day as u32));
        let ghost base = spec_carol_upto(day as int) + seq![spec_announcement(day as nat)];
        assert(lines@.len() == base.len());
        assert(forall|i: int| 0 <= i < lines@.len() ==> lines@[i]@ == base[i]);
        let mut j: usize = 0;
        while j < day + 1
            invariant
                1 <= day < 12,
                j <= day + 1,
                items@.len() == 12,
                forall|i: int| 0 <= i < 12 ==> items@[i]@ == spec_carol_item(i),
                base == spec_carol_upto(day as int) + seq![spec_announcement(day as nat)],
                lines@.len() == base.len() + j,
                forall|i: int| 0 <= i < base.len() ==> lines@[i]@ == base[i],
                forall|i: int|
                    base.len() <= i < lines@.len() ==> (#[trigger] lines@[i])@ == spec_quoted(
                        spec_carol_item(day - (i - base.len())),
                    ),
            decreases day + 1 - j,
        {
            lines.push(quoted_line(items[day - j]));
            j = j + 1;
        }
        day = day + 1;
        proof {
            let d = day as int;
            assert(spec_carol_upto(d) == spec_carol_upto(d - 1) + seq![
                spec_announcement((d - 1) as nat),
            ] + spec_verse_lines(d - 1));
            assert(spec_verse_lines(d - 1).len() == (d - 1) + 1);
            assert(forall|i: int|
                0 <= i < lines@.len() ==> lines@[i]@ == spec_carol_upto(d)[i]);
        }
    }
    lines
}

} // verus!
