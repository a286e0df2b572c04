//! A notifier that writes notifications to standard output.

use vstd::prelude::*;
use crate::text::{decimal, u64_to_decimal};

verus! {

/// The line the console notifier writes for a notification.
pub open spec fn console_line(user: Seq<char>, title: Seq<char>, content: Seq<char>, timestamp: u64) -> Seq<char> {
    "Notification to "@ + user + ": "@ + title + " - "@ + content + " (at "@ + decimal(timestamp as nat) + ")"@
}

/// A simple console notifier, for testing.
#[derive(Clone)]
pub struct ConsoleNotifier {
    name: String,
}

impl ConsoleNotifier {
    /// The notifier's name.
    pub closed spec fn spec_name(&self) -> Seq<char> {
        self.name@
    }

    /// A console notifier named `name`.
    pub fn new(name: String) -> (n: Self)
        ensures
            n.spec_name() == name@,
    {
        ConsoleNotifier { name }
    }

    /// The name of this notifier.
    pub fn name(&self) -> (name: &str)
        ensures
            name@ == self.spec_name(),
    {
        self.name.as_str()
    }

    /// Renames this notifier.
    pub fn set_name(&mut self, name: String)
        ensures
            final(self).spec_name() == name@,
    {
        self.name = name;
    }

    /// The line written for a notification to `user_id` with `title`, content
    /// shown as `content`, stamped `timestamp`.
    pub fn format_line(user_id: &str, title: &str, content: &str, timestamp: u64) -> (line: String)
        ensures
            line@ == console_line(user_id@, title@, content@, timestamp),
    {
        let mut line = String::from_str("Notification to ");
        line.append(user_id);
        line.append(": ");
        line.append(title);
        line.append(" - ");
        line.append(content);
        line.append(" (at ");
        let ts = u64_to_decimal(timestamp);
        line.append(ts.as_str());
        line.append(")");
        line
    }
}

} // verus!
