//! Shared behaviour: anything that can present a short summary of itself.

use vstd::prelude::*;

verus! {

/// Behaviour a type must offer so that its values can be summarized.
pub trait Summary {
    /// What the summary of this value reads, character by character.
    spec fn summary(&self) -> Seq<char>;

    /// Builds the summary line.
    fn summarize(&self) -> (r: String)
        ensures
            r@ == self.summary(),
    ;
}

/// A news article with a headline, a byline, and a body.
pub struct NewsArticle {
    pub headline: String,
    pub location: String,
    pub author: String,
    pub content: String,
}

impl Summary for NewsArticle {
    open spec fn summary(&self) -> Seq<char> {
        self.headline@ + ", by "@ + self.author@ + ", ("@ + self.location@ + ")"@
    }

    fn summarize(&self) -> (r: String) {
        let mut text = self.headline.clone();
        text.append(", by ");
        text.append(self.author.as_str());
        text.append(", (");
        text.append(self.location.as_str());
        text.append(")");
        text
    }
}

/// A short message and the flags a feed keeps about it.
pub struct Tweet {
    pub username: String,
    pub content: String,
    pub reply: bool,
    pub retweet: bool,
}

impl Summary for Tweet {
    open spec fn summary(&self) -> Seq<char> {
        self.username@ + ": "@ + self.content@
    }

    fn summarize(&self) -> (r: String) {
        let mut text = self.username.clone();
        text.append(": ");
        text.append(self.content.as_str());
        text
    }
}

} // verus!
