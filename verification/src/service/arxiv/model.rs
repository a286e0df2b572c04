//! An arXiv paper.

use vstd::prelude::*;
use crate::text::{is_substring, join_strings, joined, lemma_joined_contains, lemma_substring_extend, strings_view};

verus! {

/// An arXiv paper.
#[derive(Debug, Clone)]
pub struct ArxivPaper {
    pub id: String,
    pub title: String,
    pub summary: String,
    pub authors: Vec<String>,
    pub published: String,
    pub updated: String,
    pub categories: Vec<String>,
    pub link: String,
}

/// The authors of a paper, separated by commas.
pub open spec fn authors_text(p: ArxivPaper) -> Seq<char> {
    joined(strings_view(p.authors@), ", "@)
}

/// How a paper is shown: title, summary and authors.
pub open spec fn paper_text(p: ArxivPaper) -> Seq<char> {
    p.title@ + " - "@ + p.summary@ + " by "@ + authors_text(p)
}

/// The shown form of a paper names every author: each author's name occurs
/// in it, whatever the number of authors.
pub proof fn law_display_names_every_author(p: ArxivPaper, k: int)
    requires
        0 <= k < p.authors@.len(),
    ensures
        is_substring(p.authors@[k]@, paper_text(p)),
{
    let names = strings_view(p.authors@);
    assert(names[k] == p.authors@[k]@);
    lemma_joined_contains(names, ", "@, k);
    let head = p.title@ + " - "@ + p.summary@ + " by "@;
    assert(paper_text(p) == head + authors_text(p));
    lemma_substring_extend(p.authors@[k]@, head, authors_text(p));
}

impl ArxivPaper {
    /// The paper as its `Display` shows it: `title - summary by author, author`.
    pub fn display_text(&self) -> (text: String)
        ensures
            text@ == paper_text(*self),
    {
        let mut text = self.title.clone();
        text.append(" - ");
        text.append(self.summary.as_str());
        text.append(" by ");
        let authors = join_strings(&self.authors, ", ");
        text.append(authors.as_str());
        text
    }
}

} // verus!
