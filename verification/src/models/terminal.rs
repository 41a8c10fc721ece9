//! Terminal messages, display settings and the command history.

use crate::sequences::{filter_empty, filter_push, prefix_step};
use crate::stamp::{fresh_id, Timestamp};
use crate::text::{contains_ignoring_case, is_blank, is_blank_text, occurs_ignoring_case};
use vstd::prelude::*;

verus! {

/// Whether a message left this side or arrived at it.
#[derive(Debug, Clone, Copy, PartialEq, Eq, Structural)]
pub enum MessageDirection {
    Sent,
    Received,
}

/// One unit of communication as the terminal records it.
#[derive(Debug)]
pub struct TerminalMessage {
    pub id: String,
    pub timestamp: Timestamp,
    pub direction: MessageDirection,
    pub content: String,
    pub encoding: String,
}

impl Clone for TerminalMessage {
    fn clone(&self) -> (r: Self)
        ensures
            r == *self,
    {
        TerminalMessage {
            id: self.id.clone(),
            timestamp: self.timestamp,
            direction: self.direction,
            content: self.content.clone(),
            encoding: self.encoding.clone(),
        }
    }
}

impl TerminalMessage {
    /// A message that this side sent, stamped now under a fresh identifier.
    pub fn new_sent(content: String, encoding: String) -> (r: Self)
        ensures
            r.direction == MessageDirection::Sent,
            r.content == content,
            r.encoding == encoding,
            r.id@.len() == 36,
    {
        TerminalMessage {
            id: fresh_id(),
            timestamp: Timestamp::now(),
            direction: MessageDirection::Sent,
            content,
            encoding,
        }
    }

    /// A message that this side received, stamped now under a fresh
    /// identifier.
    pub fn new_received(content: String, encoding: String) -> (r: Self)
        ensures
            r.direction == MessageDirection::Received,
            r.content == content,
            r.encoding == encoding,
            r.id@.len() == 36,
    {
        TerminalMessage {
            id: fresh_id(),
            timestamp: Timestamp::now(),
            direction: MessageDirection::Received,
            content,
            encoding,
        }
    }
}

/// The bytes that end a line.
#[derive(Debug, Clone, Copy, PartialEq, Eq, Structural)]
pub enum LineEnding {
    Cr,
    Lf,
    CrLf,
}

impl LineEnding {
    /// The characters of this line ending.
    pub open spec fn chars(&self) -> Seq<char> {
        match self {
            LineEnding::Cr => seq!['\r'],
            LineEnding::Lf => seq!['\n'],
            LineEnding::CrLf => seq!['\r', '\n'],
        }
    }

    /// The bytes of this line ending.
    pub open spec fn bytes(&self) -> Seq<u8> {
        match self {
            LineEnding::Cr => seq![13u8],
            LineEnding::Lf => seq![10u8],
            LineEnding::CrLf => seq![13u8, 10u8],
        }
    }

    /// The line ending as bytes: carriage return is 13, line feed is 10.
    pub fn to_bytes(&self) -> (r: &'static [u8])
        ensures
            r@ == self.bytes(),
    {
        let text = self.to_string();
        proof {
            assert(vstd::string::is_ascii(text));
            vstd::string::is_ascii_spec_bytes(text);
            assert(vstd::utf8::encode_utf8(text@) =~= self.bytes());
        }
        text.as_bytes()
    }

    /// The line ending as text.
    pub fn to_string(&self) -> (r: &'static str)
        ensures
            r@ == self.chars(),
    {
        proof {
            reveal_strlit("\r");
            reveal_strlit("\n");
            reveal_strlit("\r\n");
        }
        let r = match self {
            LineEnding::Cr => "\r",
            LineEnding::Lf => "\n",
            LineEnding::CrLf => "\r\n",
        };
        assert(r@ =~= self.chars());
        r
    }
}

/// Colours of the terminal view.
#[derive(Debug, Clone)]
pub struct TerminalTheme {
    pub background_color: String,
    pub text_color: String,
    pub input_color: String,
    pub timestamp_color: String,
    pub sent_color: String,
    pub received_color: String,
    pub error_color: String,
}

impl TerminalTheme {
    /// The settings that a fresh installation starts with.
    pub open spec fn is_default(&self) -> bool {
        &&& self.background_color@ == "#1a1b26"@
        &&& self.text_color@ == "#a9b1d6"@
        &&& self.input_color@ == "#24283b"@
        &&& self.timestamp_color@ == "#565f89"@
        &&& self.sent_color@ == "#7aa2f7"@
        &&& self.received_color@ == "#9ece6a"@
        &&& self.error_color@ == "#f7768e"@
    }
}

impl Default for TerminalTheme {
    fn default() -> (r: Self)
        ensures
            r.is_default(),
    {
        TerminalTheme {
            background_color: String::from_str("#1a1b26"),
            text_color: String::from_str("#a9b1d6"),
            input_color: String::from_str("#24283b"),
            timestamp_color: String::from_str("#565f89"),
            sent_color: String::from_str("#7aa2f7"),
            received_color: String::from_str("#9ece6a"),
            error_color: String::from_str("#f7768e"),
        }
    }
}

/// Settings of the terminal view.
#[derive(Debug, Clone)]
pub struct TerminalConfig {
    pub encoding: String,
    pub line_ending: LineEnding,
    pub echo_input: bool,
    pub show_timestamp: bool,
    pub font_family: String,
    pub font_size: u32,
    pub theme: TerminalTheme,
    pub max_history_size: usize,
    pub auto_scroll: bool,
}

impl TerminalConfig {
    /// The settings that a fresh installation starts with.
    pub open spec fn is_default(&self) -> bool {
        &&& self.encoding@ == "UTF-8"@
        &&& self.line_ending == LineEnding::CrLf
        &&& self.echo_input
        &&& self.show_timestamp
        &&& self.font_family@ == "Fira Code"@
        &&& self.font_size == 14
        &&& self.theme.is_default()
        &&& self.max_history_size == 1000
        &&& self.auto_scroll
    }
}

impl Default for TerminalConfig {
    fn default() -> (r: Self)
        ensures
            r.is_default(),
    {
        TerminalConfig {
            encoding: String::from_str("UTF-8"),
            line_ending: LineEnding::CrLf,
            echo_input: true,
            show_timestamp: true,
            font_family: String::from_str("Fira Code"),
            font_size: 14,
            theme: TerminalTheme::default(),
            max_history_size: 1000,
            auto_scroll: true,
        }
    }
}

/// The commands that were entered, oldest first, with a cursor for walking
/// back and forth through them.
#[derive(Debug, Clone)]
pub struct CommandHistory {
    pub commands: Vec<String>,
    pub max_size: usize,
    pub current_index: Option<usize>,
}

impl Default for CommandHistory {
    fn default() -> (r: Self)
        ensures
            r.commands@.len() == 0,
            r.max_size == 100,
            r.current_index.is_none(),
    {
        CommandHistory { commands: Vec::new(), max_size: 100, current_index: None }
    }
}

/// A borrowed entry is the entry `entry`, or both are absent.
pub open spec fn same_entry(r: Option<&String>, entry: Option<String>) -> bool {
    match entry {
        Some(text) => r.is_some() && *r.unwrap() == text,
        None => r.is_none(),
    }
}

/// A history within its limit stays within it when a command is entered,
/// and one beyond its limit does not grow.
pub proof fn history_stays_bounded(history: CommandHistory, command: String)
    ensures
        history.after_add(command).len() <= history.commands@.len() || history.after_add(
            command,
        ).len() <= history.max_size,
        history.commands@.len() <= history.max_size ==> history.after_add(command).len()
            <= history.max_size,
{
}

impl CommandHistory {
    /// Whether `command` would be recorded: it is not blank and differs from
    /// the newest entry.
    pub open spec fn records(&self, command: Seq<char>) -> bool {
        !is_blank_text(command) && !(self.commands@.len() > 0 && self.commands@.last()@
            == command)
    }

    /// The entries after `command` was entered.
    pub open spec fn after_add(&self, command: String) -> Seq<String> {
        if self.records(command@) {
            let pushed = self.commands@.push(command);
            if pushed.len() > self.max_size {
                pushed.remove(0)
            } else {
                pushed
            }
        } else {
            self.commands@
        }
    }

    /// The entries that contain `query`, ignoring letter case, in their
    /// order.
    pub open spec fn matching(&self, query: Seq<char>) -> Seq<String> {
        self.commands@.filter(|c: String| occurs_ignoring_case(query, c@))
    }

    /// Records a command and resets the cursor. A blank command, or one equal
    /// to the newest entry, is not recorded; when the history outgrows its
    /// limit the oldest entry leaves.
    pub fn add_command(&mut self, command: String)
        ensures
            final(self).commands@ == old(self).after_add(command),
            final(self).max_size == old(self).max_size,
            final(self).current_index.is_none(),
    {
        if !is_blank(command.as_str()) {
            let n = self.commands.len();
            let repeated = n > 0 && self.commands[n - 1] == command;
            if !repeated {
                self.commands.push(command);
                if self.commands.len() > self.max_size {
                    self.commands.remove(0);
                }
            }
        }
        self.current_index = None;
    }

    /// The entry under a cursor, if the cursor stands on one.
    pub open spec fn entry_at(&self, cursor: Option<usize>) -> Option<String> {
        match cursor {
            Some(index) => if index < self.commands@.len() {
                Some(self.commands@[index as int])
            } else {
                None
            },
            None => None,
        }
    }

    /// Where the cursor stands after one step back: on the newest entry if
    /// there was no cursor, else one entry further back, and not beyond the
    /// oldest. In an empty history it stays as it was.
    pub open spec fn previous_cursor(&self) -> Option<usize> {
        if self.commands@.len() == 0 {
            self.current_index
        } else {
            match self.current_index {
                None => Some((self.commands@.len() - 1) as usize),
                Some(index) => if index > 0 {
                    Some((index - 1) as usize)
                } else {
                    Some(index)
                },
            }
        }
    }

    /// Where the cursor stands after one step forward: on the next entry if
    /// it stood on one that has a newer one after it, else nowhere.
    pub open spec fn next_cursor(&self) -> Option<usize> {
        match self.current_index {
            Some(index) => if index + 1 < self.commands@.len() {
                Some((index + 1) as usize)
            } else {
                None
            },
            None => None,
        }
    }

    /// Moves the cursor one entry back and returns the entry it then stands
    /// on. An empty history has nothing to return.
    pub fn get_previous(&mut self) -> (r: Option<&String>)
        ensures
            final(self).commands == old(self).commands,
            final(self).max_size == old(self).max_size,
            final(self).current_index == old(self).previous_cursor(),
            old(self).commands@.len() == 0 ==> r.is_none(),
            old(self).commands@.len() > 0 ==> same_entry(
                r,
                old(self).entry_at(old(self).previous_cursor()),
            ),
    {
        let n = self.commands.len();
        if n == 0 {
            return None;
        }
        let target: usize = match self.current_index {
            None => n - 1,
            Some(index) => if index > 0 {
                index - 1
            } else {
                index
            },
        };
        self.current_index = Some(target);
        if target < n {
            Some(&self.commands[target])
        } else {
            None
        }
    }

    /// Moves the cursor one entry forward and returns the entry it then
    /// stands on. Past the newest entry, and without a cursor, there is
    /// nothing to return and the cursor is reset.
    pub fn get_next(&mut self) -> (r: Option<&String>)
        ensures
            final(self).commands == old(self).commands,
            final(self).max_size == old(self).max_size,
            final(self).current_index == old(self).next_cursor(),
            same_entry(r, old(self).entry_at(old(self).next_cursor())),
    {
        match self.current_index {
            None => None,
            Some(index) => {
                let n = self.commands.len();
                if n > 0 && index < n - 1 {
                    self.current_index = Some(index + 1);
                    Some(&self.commands[index + 1])
                } else {
                    self.current_index = None;
                    None
                }
            },
        }
    }

    /// The entries that contain `query`, ignoring letter case, in the order
    /// of the history.
    pub fn search(&self, query: &str) -> (r: Vec<&String>)
        ensures
            r@.map_values(|s: &String| *s) == self.matching(query@),
    {
        let mut found: Vec<&String> = Vec::new();
        let ghost keep = |c: String| occurs_ignoring_case(query@, c@);
        proof {
            filter_empty::<String>(keep);
            assert(self.commands@.subrange(0, 0) =~= Seq::<String>::empty());
            assert(found@.map_values(|s: &String| *s) =~= Seq::<String>::empty());
        }
        let n = self.commands.len();
        let mut i: usize = 0;
        while i < n
            invariant
                i <= n,
                n == self.commands@.len(),
                keep == |c: String| occurs_ignoring_case(query@, c@),
                found@.map_values(|s: &String| *s) == self.commands@.subrange(0, i as int).filter(
                    keep,
                ),
            decreases n - i,
        {
            let entry = &self.commands[i];
            let ghost before = found@.map_values(|s: &String| *s);
            proof {
                prefix_step(self.commands@, i as int);
                filter_push(self.commands@.subrange(0, i as int), *entry, keep);
            }
            if contains_ignoring_case(entry.as_str(), query) {
                found.push(entry);
                assert(found@.map_values(|s: &String| *s) =~= before.push(*entry));
            }
            i = i + 1;
        }
        assert(self.commands@.subrange(0, n as int) =~= self.commands@);
        found
    }
}

} // verus!
