//! A console notifier for arXiv papers.

use vstd::prelude::*;
use crate::notifiers::Notification;
use crate::service::arxiv::model::{ArxivPaper, authors_text};
use crate::text::{is_substring, join_strings, lemma_joined_contains, lemma_substring_extend, strings_view};

verus! {

/// The announcement the arXiv notifier prints for a notification.
pub open spec fn alert_text(n: Notification<ArxivPaper>) -> Seq<char> {
    "=== New arXiv Paper Alert ===\nTo: "@ + n.user_id@ + "\nTitle: "@ + n.content.title@
        + "\nAuthors: "@ + authors_text(n.content) + "\nPublished: "@ + n.content.published@
        + "\nSummary: "@ + n.content.summary@ + "\nLink: "@ + n.content.link@
        + "\n=============================="@
}

/// The announcement names every author of the paper: each author's name
/// occurs in it, whatever the number of authors.
pub proof fn law_alert_names_every_author(n: Notification<ArxivPaper>, k: int)
    requires
        0 <= k < n.content.authors@.len(),
    ensures
        is_substring(n.content.authors@[k]@, authors_text(n.content)),
        is_substring(n.content.authors@[k]@, alert_text(n)),
{
    let names = strings_view(n.content.authors@);
    let x = n.content.authors@[k]@;
    assert(names[k] == x);
    lemma_joined_contains(names, ", "@, k);
    let head = "=== New arXiv Paper Alert ===\nTo: "@ + n.user_id@ + "\nTitle: "@ + n.content.title@
        + "\nAuthors: "@;
    let a = authors_text(n.content);
    let t1 = head + a;
    let t2 = t1 + "\nPublished: "@;
    let t3 = t2 + n.content.published@;
    let t4 = t3 + "\nSummary: "@;
    let t5 = t4 + n.content.summary@;
    let t6 = t5 + "\nLink: "@;
    let t7 = t6 + n.content.link@;
    let t8 = t7 + "\n=============================="@;
    assert(alert_text(n) == t8);
    lemma_substring_extend(x, head, a);
    lemma_substring_extend(x, t1, "\nPublished: "@);
    lemma_substring_extend(x, t2, n.content.published@);
    lemma_substring_extend(x, t3, "\nSummary: "@);
    lemma_substring_extend(x, t4, n.content.summary@);
    lemma_substring_extend(x, t5, "\nLink: "@);
    lemma_substring_extend(x, t6, n.content.link@);
    lemma_substring_extend(x, t7, "\n=============================="@);
}

/// A notifier for arXiv papers that prints an announcement.
#[derive(Clone)]
pub struct ArxivNotifier;

impl ArxivNotifier {
    /// The notifier's fixed name.
    pub fn name(&self) -> (name: &'static str)
        ensures
            name@ == "arxiv_notifier"@,
    {
        "arxiv_notifier"
    }

    /// The name of this notifier is fixed: renaming leaves it as it is.
    pub fn set_name(&mut self, _name: String)
        ensures
            *final(self) == *old(self),
    {
    }

    /// The announcement for `notification`.
    pub fn alert(&self, notification: &Notification<ArxivPaper>) -> (text: String)
        ensures
            text@ == alert_text(*notification),
    {
        let paper = &notification.content;
        let mut text = String::from_str("=== New arXiv Paper Alert ===\nTo: ");
        text.append(notification.user_id.as_str());
        text.append("\nTitle: ");
        text.append(paper.title.as_str());
        text.append("\nAuthors: ");
        let authors = join_strings(&paper.authors, ", ");
        text.append(authors.as_str());
        text.append("\nPublished: ");
        text.append(paper.published.as_str());
        text.append("\nSummary: ");
        text.append(paper.summary.as_str());
        text.append("\nLink: ");
        text.append(paper.link.as_str());
        text.append("\n==============================");
        text
    }
}

} // verus!
