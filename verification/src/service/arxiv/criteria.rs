//! Keyword criteria for arXiv papers.

use vstd::prelude::*;
use crate::service::arxiv::model::ArxivPaper;
use crate::subscription::{SubscriptionCriteria, Subscription, answers_match};
use crate::subscription::manager::{law_deterministic_matching, selects_matching};
use crate::text::{is_substring, lowercase, occurs_at, str_contains, to_lowercase};

verus! {

/// Subscription criteria for arXiv papers: an identifier and keywords.
#[derive(Debug, Clone, Hash, PartialEq, Eq)]
pub struct ArxivCriteria {
    id: String,
    keywords: Vec<String>,
}

/// Whether `keyword` selects `paper`: it occurs, ignoring case, in the title or
/// the summary; or some category of the paper contains itself ignoring case,
/// which every category does, since the category test compares each category
/// with itself.
pub open spec fn keyword_selects(keyword: Seq<char>, paper: ArxivPaper) -> bool {
    ||| is_substring(lowercase(keyword), lowercase(paper.title@))
    ||| is_substring(lowercase(keyword), lowercase(paper.summary@))
    ||| exists|j: int|
        0 <= j < paper.categories@.len() && is_substring(
            lowercase(paper.categories@[j]@),
            lowercase(paper.categories@[j]@),
        )
}

/// Whether some keyword of `keywords` selects `paper`.
pub open spec fn arxiv_matches(keywords: Seq<String>, paper: ArxivPaper) -> bool {
    exists|i: int| 0 <= i < keywords.len() && keyword_selects(keywords[i]@, paper)
}

/// Every string contains itself.
pub proof fn lemma_contains_itself(s: Seq<char>)
    ensures
        is_substring(s, s),
{
    assert(s.subrange(0, s.len() as int) =~= s);
    assert(occurs_at(s, s, 0));
}

impl ArxivCriteria {
    /// The identifier.
    pub closed spec fn spec_id(&self) -> Seq<char> {
        self.id@
    }

    /// The keywords.
    pub closed spec fn spec_keywords(&self) -> Seq<String> {
        self.keywords@
    }

    /// Criteria with identifier `id` and `keywords`.
    pub fn new(id: String, keywords: Vec<String>) -> (c: Self)
        ensures
            c.spec_id() == id@,
            c.spec_keywords() == keywords@,
    {
        ArxivCriteria { id, keywords }
    }

    /// The keywords.
    pub fn keywords(&self) -> (k: &Vec<String>)
        ensures
            k@ == self.spec_keywords(),
    {
        &self.keywords
    }

    /// Whether some category of `paper` contains itself, ignoring case.
    fn category_hit(paper: &ArxivPaper) -> (hit: bool)
        ensures
            hit == exists|j: int|
                0 <= j < paper.categories@.len() && is_substring(
                    lowercase(paper.categories@[j]@),
                    lowercase(paper.categories@[j]@),
                ),
    {
        let mut j: usize = 0;
        while j < paper.categories.len()
            invariant
                j <= paper.categories@.len(),
                forall|t: int|
                    0 <= t < j ==> !is_substring(
                        lowercase(paper.categories@[t]@),
                        lowercase(paper.categories@[t]@),
                    ),
            decreases paper.categories@.len() - j,
        {
            let c = to_lowercase(paper.categories[j].as_str());
            if str_contains(c.as_str(), c.as_str()) {
                return true;
            }
            j = j + 1;
        }
        false
    }

    /// Whether `keyword` selects `paper`.
    fn keyword_hit(keyword: &String, paper: &ArxivPaper) -> (hit: bool)
        ensures
            hit == keyword_selects(keyword@, *paper),
    {
        let k = to_lowercase(keyword.as_str());
        let title = to_lowercase(paper.title.as_str());
        if str_contains(title.as_str(), k.as_str()) {
            return true;
        }
        let summary = to_lowercase(paper.summary.as_str());
        if str_contains(summary.as_str(), k.as_str()) {
            return true;
        }
        Self::category_hit(paper)
    }
}

impl SubscriptionCriteria for ArxivCriteria {
    type Content = ArxivPaper;

    fn matches(&self, content: &ArxivPaper) -> (accepted: bool)
        ensures
            accepted == arxiv_matches(self.spec_keywords(), *content),
    {
        let mut i: usize = 0;
        while i < self.keywords.len()
            invariant
                i <= self.keywords@.len(),
                forall|t: int| 0 <= t < i ==> !keyword_selects(self.keywords@[t]@, *content),
            decreases self.keywords@.len() - i,
        {
            if Self::keyword_hit(&self.keywords[i], content) {
                return true;
            }
            i = i + 1;
        }
        false
    }

    fn id(&self) -> (id: &String)
        ensures
            id@ == self.spec_id(),
    {
        &self.id
    }
}

/// Any keyword of the criteria, at any position, that occurs in the paper's
/// title or summary, ignoring case, makes the criteria accept the paper.
pub proof fn law_any_keyword_in_title_or_summary_matches(c: ArxivCriteria, paper: ArxivPaper, i: int)
    requires
        0 <= i < c.spec_keywords().len(),
        is_substring(lowercase(c.spec_keywords()[i]@), lowercase(paper.title@)) || is_substring(
            lowercase(c.spec_keywords()[i]@),
            lowercase(paper.summary@),
        ),
    ensures
        forall|b: bool| #[trigger] answers_match(c, paper, b) ==> b,
        arxiv_matches(c.spec_keywords(), paper),
{
    assert(keyword_selects(c.spec_keywords()[i]@, paper));
}

/// A paper without categories whose title and summary contain none of the
/// keywords, ignoring case, is not accepted.
pub proof fn law_no_keyword_no_match(c: ArxivCriteria, paper: ArxivPaper)
    requires
        paper.categories@.len() == 0,
        forall|i: int|
            0 <= i < c.spec_keywords().len() ==> !is_substring(lowercase(#[trigger] c.spec_keywords()[i]@), lowercase(paper.title@))
                && !is_substring(lowercase(c.spec_keywords()[i]@), lowercase(paper.summary@)),
    ensures
        forall|b: bool| #[trigger] answers_match(c, paper, b) ==> !b,
        !arxiv_matches(c.spec_keywords(), paper),
{
}

/// A paper with at least one category is selected by every criteria that has
/// at least one keyword.
pub proof fn law_categorised_paper_matches(keywords: Seq<String>, paper: ArxivPaper)
    requires
        keywords.len() > 0,
        paper.categories@.len() > 0,
    ensures
        arxiv_matches(keywords, paper),
{
    lemma_contains_itself(lowercase(paper.categories@[0]@));
    assert(keyword_selects(keywords[0]@, paper));
}

} // verus!

verus! {

/// The subscriptions that arXiv criteria select for a paper are exactly those
/// with a keyword that selects the paper, in the manager's order.
pub proof fn law_arxiv_selection(
    subs: Seq<Subscription<ArxivCriteria>>,
    paper: ArxivPaper,
    matching: Seq<Subscription<ArxivCriteria>>,
)
    requires
        selects_matching(subs, paper, matching),
    ensures
        matching == subs.filter(
            |s: Subscription<ArxivCriteria>| arxiv_matches(s.criteria.spec_keywords(), paper),
        ),
{
    let accept = |c: ArxivCriteria, p: ArxivPaper| arxiv_matches(c.spec_keywords(), p);
    assert forall|c: ArxivCriteria, b: bool| #[trigger] answers_match(c, paper, b) implies b == accept(c, paper) by {}
    law_deterministic_matching(subs, paper, matching, accept);
    let f1 = |s: Subscription<ArxivCriteria>| accept(s.criteria, paper);
    let f2 = |s: Subscription<ArxivCriteria>| arxiv_matches(s.criteria.spec_keywords(), paper);
    assert(f1 =~= f2);
    assert(subs.filter(|s: Subscription<ArxivCriteria>| accept(s.criteria, paper)) =~= subs.filter(
        |s: Subscription<ArxivCriteria>| arxiv_matches(s.criteria.spec_keywords(), paper),
    ));
}

} // verus!
