//! A capability trait for text items that can summarize themselves,
//! two implementors, and functions constrained by the trait.
//!
//! Each implementor states what its summary says as a spec function,
//! so callers of `summarize` know the exact text they get back.

use vstd::prelude::*;
use vstd::string::StringExecFns;

verus! {

/// Text items that can describe themselves in one line.
pub trait Summary {
    /// The exact characters the summary contains.
    spec fn spec_summarize(&self) -> Seq<char>;

    /// Produce the summary.
    fn summarize(&self) -> (summary: String)
        ensures
            summary@ == self.spec_summarize(),
    ;
}

/// A news item: summarized as "headline, by author (location)".
pub struct NewsArticle {
    pub headline: String,
    pub location: String,
    pub author: String,
    pub content: String,
}

impl Summary for NewsArticle {
    open spec fn spec_summarize(&self) -> Seq<char> {
        self.headline@ + ", by "@ + self.author@ + " ("@ + self.location@ + ")"@
    }

    fn summarize(&self) -> (summary: String) {
        let mut summary = self.headline.clone();
        summary.append(", by ");
        summary.append(self.author.as_str());
        summary.append(" (");
        summary.append(self.location.as_str());
        summary.append(")");
        proof {
            assert(summary@ =~= self.spec_summarize());
        }
        summary
    }
}

/// A short post: summarized as "username: content".
pub struct Tweet {
    pub username: String,
    pub content: String,
    pub reply: bool,
    pub retweet: bool,
}

impl Summary for Tweet {
    open spec fn spec_summarize(&self) -> Seq<char> {
        self.username@ + ": "@ + self.content@
    }

    fn summarize(&self) -> (summary: String) {
        let mut summary = self.username.clone();
        summary.append(": ");
        summary.append(self.content.as_str());
        proof {
            assert(summary@ =~= self.spec_summarize());
        }
        summary
    }
}

/// Return some summarizable item: a fixed tweet, named only by the
/// capability it offers.
pub fn returns_summarizable() -> (item: impl Summary)
    ensures
        item.spec_summarize() == "horse_ebooks"@ + ": "@
            + "of course, as you probably already know, people"@,
{
    Tweet {
        username: String::from_str("horse_ebooks"),
        content: String::from_str("of course, as you probably already know, people"),
        reply: false,
        retweet: false,
    }
}

/// Take any two summarizable items; they may have different types.
pub fn notify<T: Summary, U: Summary>(item1: &T, item2: &U) {
}

} // verus!
