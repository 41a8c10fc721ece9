//! Reading, filtering and exporting the terminal's messages.

use crate::commands::connection::ApiResponse;
use crate::models::terminal::{CommandHistory, MessageDirection, TerminalMessage};
use crate::sequences::{filter_empty, filter_push, prefix_step};
use crate::text::{contains_ignoring_case, occurs_ignoring_case, replace, replace_char};
use vstd::prelude::*;

verus! {

/// Which messages a front end asks for. The direction is `sent` or
/// `received`, and any other word selects both; the limit keeps the newest
/// messages. The two times are carried and not applied.
#[derive(Debug)]
pub struct MessageFilter {
    pub direction: Option<String>,
    pub start_time: Option<String>,
    pub end_time: Option<String>,
    pub search_query: Option<String>,
    pub limit: Option<usize>,
}

/// How messages are exported: as `txt`, `csv` or `json`.
#[derive(Debug)]
pub struct ExportOptions {
    pub format: String,
    pub include_timestamp: bool,
    pub include_direction: bool,
    pub filter: Option<MessageFilter>,
}

/// What an export comes to.
#[derive(Debug)]
pub enum Export {
    /// The finished text.
    Text(String),
    /// These messages, which the caller serialises as JSON.
    Json(Vec<TerminalMessage>),
    /// Writing the text failed, for this reason.
    Failed(String),
    /// The format is none of the three.
    Unsupported,
}

/// Whether a filter on the direction lets a message through.
pub open spec fn direction_allows(direction: Option<String>, m: TerminalMessage) -> bool {
    match direction {
        Some(word) => if word@ == "sent"@ {
            m.direction == MessageDirection::Sent
        } else if word@ == "received"@ {
            m.direction == MessageDirection::Received
        } else {
            true
        },
        None => true,
    }
}

/// Whether a search lets a message through: its content contains the query,
/// ignoring letter case.
pub open spec fn query_allows(query: Option<String>, m: TerminalMessage) -> bool {
    match query {
        Some(q) => occurs_ignoring_case(q@, m.content@),
        None => true,
    }
}

/// Accepts the messages that the filter's direction and search let through.
pub open spec fn selected_by(filter: MessageFilter) -> spec_fn(TerminalMessage) -> bool {
    |m: TerminalMessage| direction_allows(filter.direction, m) && query_allows(
        filter.search_query,
        m,
    )
}

/// The last `limit` elements, or all where there are fewer or no limit.
pub open spec fn newest(s: Seq<TerminalMessage>, limit: Option<usize>) -> Seq<TerminalMessage> {
    match limit {
        Some(n) => if s.len() > n {
            s.subrange(s.len() - n, s.len() as int)
        } else {
            s
        },
        None => s,
    }
}

/// The messages that a filter selects for export: those that direction and
/// search let through, in their order.
pub open spec fn selection(messages: Seq<TerminalMessage>, filter: Option<MessageFilter>) -> Seq<
    TerminalMessage,
> {
    match filter {
        Some(f) => messages.filter(selected_by(f)),
        None => messages,
    }
}

/// The messages that a filter selects for reading: the selection, cut down
/// to the newest ones where the filter sets a limit.
pub open spec fn filtered(messages: Seq<TerminalMessage>, filter: Option<MessageFilter>) -> Seq<
    TerminalMessage,
> {
    match filter {
        Some(f) => newest(messages.filter(selected_by(f)), f.limit),
        None => messages,
    }
}

/// The word that an export writes for a direction.
pub open spec fn direction_label(direction: MessageDirection) -> Seq<char> {
    match direction {
        MessageDirection::Sent => "送信"@,
        MessageDirection::Received => "受信"@,
    }
}

/// One line of a text export.
pub open spec fn text_line(m: TerminalMessage, timestamp: bool, direction: bool) -> Seq<char> {
    (if timestamp {
        "["@ + m.timestamp.display_text() + "] "@
    } else {
        Seq::empty()
    }) + (if direction {
        direction_label(m.direction) + ": "@
    } else {
        Seq::empty()
    }) + m.content@ + "\n"@
}

/// A text export: one line for each message.
pub open spec fn text_export(messages: Seq<TerminalMessage>, timestamp: bool, direction: bool) -> Seq<
    char,
>
    decreases messages.len(),
{
    if messages.len() == 0 {
        Seq::empty()
    } else {
        text_export(messages.drop_last(), timestamp, direction) + text_line(
            messages.last(),
            timestamp,
            direction,
        )
    }
}

/// The first line of a table export.
pub open spec fn csv_header(timestamp: bool, direction: bool) -> Seq<char> {
    (if timestamp {
        "タイムスタンプ,"@
    } else {
        Seq::empty()
    }) + (if direction {
        "方向,"@
    } else {
        Seq::empty()
    }) + "内容,エンコーディング\n"@
}

/// One row of a table export. The content stands in double quotes, and each
/// double quote in it is doubled.
pub open spec fn csv_row(m: TerminalMessage, timestamp: bool, direction: bool) -> Seq<char> {
    (if timestamp {
        m.timestamp.table_text() + ","@
    } else {
        Seq::empty()
    }) + (if direction {
        direction_label(m.direction) + ","@
    } else {
        Seq::empty()
    }) + "\""@ + replace_char(m.content@, '"', "\"\""@) + "\","@ + m.encoding@ + "\n"@
}

/// The rows of a table export: one for each message.
pub open spec fn csv_rows(messages: Seq<TerminalMessage>, timestamp: bool, direction: bool) -> Seq<
    char,
>
    decreases messages.len(),
{
    if messages.len() == 0 {
        Seq::empty()
    } else {
        csv_rows(messages.drop_last(), timestamp, direction) + csv_row(
            messages.last(),
            timestamp,
            direction,
        )
    }
}

/// A table export: the header and the rows.
pub open spec fn csv_export(messages: Seq<TerminalMessage>, timestamp: bool, direction: bool) -> Seq<
    char,
> {
    csv_header(timestamp, direction) + csv_rows(messages, timestamp, direction)
}

fn label(direction: MessageDirection) -> (r: &'static str)
    ensures
        r@ == direction_label(direction),
{
    match direction {
        MessageDirection::Sent => "送信",
        MessageDirection::Received => "受信",
    }
}

/// A copy of the messages.
fn copy_messages(messages: &Vec<TerminalMessage>) -> (r: Vec<TerminalMessage>)
    ensures
        r@ == messages@,
{
    let mut out: Vec<TerminalMessage> = Vec::new();
    let n = messages.len();
    let mut i: usize = 0;
    while i < n
        invariant
            i <= n,
            n == messages@.len(),
            out@ == messages@.subrange(0, i as int),
        decreases n - i,
    {
        out.push(messages[i].clone());
        assert(out@ =~= messages@.subrange(0, i + 1));
        i = i + 1;
    }
    assert(messages@.subrange(0, n as int) =~= messages@);
    out
}

/// The messages that the filter's direction and search let through.
pub fn select_messages(messages: &Vec<TerminalMessage>, filter: &MessageFilter) -> (r: Vec<
    TerminalMessage,
>)
    ensures
        r@ == messages@.filter(selected_by(*filter)),
{
    let (only_sent, only_received) = match &filter.direction {
        Some(word) => {
            let sent = *word == String::from_str("sent");
            let received = !sent && *word == String::from_str("received");
            (sent, received)
        },
        None => (false, false),
    };
    let mut out: Vec<TerminalMessage> = Vec::new();
    let ghost keep = selected_by(*filter);
    proof {
        filter_empty::<TerminalMessage>(keep);
        assert(messages@.subrange(0, 0) =~= Seq::<TerminalMessage>::empty());
    }
    let n = messages.len();
    let mut i: usize = 0;
    while i < n
        invariant
            i <= n,
            n == messages@.len(),
            keep == selected_by(*filter),
            only_sent == (filter.direction.is_some() && filter.direction.unwrap()@ == "sent"@),
            only_received == (filter.direction.is_some() && filter.direction.unwrap()@ != "sent"@
                && filter.direction.unwrap()@ == "received"@),
            out@ == messages@.subrange(0, i as int).filter(keep),
        decreases n - i,
    {
        let m = &messages[i];
        proof {
            prefix_step(messages@, i as int);
            filter_push(messages@.subrange(0, i as int), *m, keep);
        }
        let direction_ok = if only_sent {
            match m.direction {
                MessageDirection::Sent => true,
                MessageDirection::Received => false,
            }
        } else if only_received {
            match m.direction {
                MessageDirection::Sent => false,
                MessageDirection::Received => true,
            }
        } else {
            true
        };
        let query_ok = match &filter.search_query {
            Some(q) => contains_ignoring_case(m.content.as_str(), q.as_str()),
            None => true,
        };
        if direction_ok && query_ok {
            out.push(m.clone());
        }
        i = i + 1;
    }
    assert(messages@.subrange(0, n as int) =~= messages@);
    out
}

/// The messages that a front end asked for: all without a filter; with one,
/// those that its direction and search let through, and of these the newest
/// where it sets a limit.
pub fn get_terminal_messages(filter: &Option<MessageFilter>, messages: &Vec<TerminalMessage>) -> (r:
    ApiResponse<Vec<TerminalMessage>>)
    ensures
        r.is_success(),
        r.data.unwrap()@ == filtered(messages@, *filter),
{
    match filter {
        Some(f) => {
            let mut selected = select_messages(messages, f);
            match f.limit {
                Some(limit) => {
                    if selected.len() > limit {
                        let start = selected.len() - limit;
                        let tail = selected.split_off(start);
                        ApiResponse::success(tail)
                    } else {
                        ApiResponse::success(selected)
                    }
                },
                None => ApiResponse::success(selected),
            }
        },
        None => ApiResponse::success(copy_messages(messages)),
    }
}

/// Records a message and, where the record then holds more than
/// `max_history_size`, drops the oldest ones.
pub fn add_terminal_message(
    message: TerminalMessage,
    messages: &mut Vec<TerminalMessage>,
    max_history_size: usize,
) -> (r: ApiResponse<String>)
    ensures
        final(messages)@ == newest(old(messages)@.push(message), Some(max_history_size)),
        r.is_success_with_text("Message added"@),
{
    messages.push(message);
    if messages.len() > max_history_size {
        let remove_count = messages.len() - max_history_size;
        let tail = messages.split_off(remove_count);
        *messages = tail;
    }
    ApiResponse::success(String::from_str("Message added"))
}

/// Empties the record of messages.
pub fn clear_terminal_messages(messages: &mut Vec<TerminalMessage>) -> (r: ApiResponse<String>)
    ensures
        final(messages)@.len() == 0,
        r.is_success_with_text("Messages cleared"@),
{
    messages.clear();
    ApiResponse::success(String::from_str("Messages cleared"))
}

/// Records a command in the history; see `CommandHistory::add_command`.
pub fn add_command_to_history(command: String, history: &mut CommandHistory) -> (r: ApiResponse<
    String,
>)
    ensures
        final(history).commands@ == old(history).after_add(command),
        final(history).max_size == old(history).max_size,
        final(history).current_index.is_none(),
        r.is_success_with_text("Command added to history"@),
{
    history.add_command(command);
    ApiResponse::success(String::from_str("Command added to history"))
}

/// The commands of the history that contain `query`, ignoring letter case.
pub fn search_command_history(query: &str, history: &CommandHistory) -> (r: ApiResponse<
    Vec<String>,
>)
    ensures
        r.is_success(),
        r.data.unwrap()@ == history.matching(query@),
{
    let found = history.search(query);
    let mut results: Vec<String> = Vec::new();
    let n = found.len();
    let mut i: usize = 0;
    while i < n
        invariant
            i <= n,
            n == found@.len(),
            results@ == found@.map_values(|s: &String| *s).subrange(0, i as int),
        decreases n - i,
    {
        results.push(found[i].clone());
        assert(results@ =~= found@.map_values(|s: &String| *s).subrange(0, i + 1));
        i = i + 1;
    }
    assert(found@.map_values(|s: &String| *s).subrange(0, n as int) =~= found@.map_values(
        |s: &String| *s,
    ));
    ApiResponse::success(results)
}

/// Writes the messages as text, one line each: the time in brackets and the
/// direction with a colon, where the options ask for them, then the
/// content.
pub fn export_as_text(messages: &Vec<TerminalMessage>, options: &ExportOptions) -> (r: Result<
    String,
    String,
>)
    ensures
        r.is_ok(),
        r.unwrap()@ == text_export(messages@, options.include_timestamp, options.include_direction),
{
    let mut result = String::new();
    let n = messages.len();
    let mut i: usize = 0;
    proof {
        assert(messages@.subrange(0, 0) =~= Seq::<TerminalMessage>::empty());
    }
    while i < n
        invariant
            i <= n,
            n == messages@.len(),
            result@ == text_export(
                messages@.subrange(0, i as int),
                options.include_timestamp,
                options.include_direction,
            ),
        decreases n - i,
    {
        let message = &messages[i];
        let mut line = String::new();
        if options.include_timestamp {
            line.append("[");
            let stamp = message.timestamp.display();
            line.append(stamp.as_str());
            line.append("] ");
        }
        if options.include_direction {
            line.append(label(message.direction));
            line.append(": ");
        }
        line.append(message.content.as_str());
        line.append("\n");
        proof {
            assert(line@ =~= text_line(
                *message,
                options.include_timestamp,
                options.include_direction,
            ));
            assert(messages@.subrange(0, i + 1).drop_last() =~= messages@.subrange(0, i as int));
        }
        result.append(line.as_str());
        i = i + 1;
    }
    assert(messages@.subrange(0, n as int) =~= messages@);
    Ok(result)
}

/// Writes the messages as a table with comma-separated fields: a header,
/// then one row each with the time and the direction, where the options ask
/// for them, the quoted content and the encoding.
pub fn export_as_csv(messages: &Vec<TerminalMessage>, options: &ExportOptions) -> (r: Result<
    String,
    String,
>)
    ensures
        r.is_ok(),
        r.unwrap()@ == csv_export(messages@, options.include_timestamp, options.include_direction),
{
    let mut result = String::new();
    if options.include_timestamp {
        result.append("タイムスタンプ,");
    }
    if options.include_direction {
        result.append("方向,");
    }
    result.append("内容,エンコーディング\n");
    let n = messages.len();
    let mut i: usize = 0;
    proof {
        assert(messages@.subrange(0, 0) =~= Seq::<TerminalMessage>::empty());
        assert(result@ =~= csv_header(options.include_timestamp, options.include_direction)
            + csv_rows(
            messages@.subrange(0, 0),
            options.include_timestamp,
            options.include_direction,
        ));
    }
    while i < n
        invariant
            i <= n,
            n == messages@.len(),
            result@ == csv_header(options.include_timestamp, options.include_direction) + csv_rows(
                messages@.subrange(0, i as int),
                options.include_timestamp,
                options.include_direction,
            ),
        decreases n - i,
    {
        let message = &messages[i];
        let ghost before = result@;
        let mut row = String::new();
        if options.include_timestamp {
            let stamp = message.timestamp.table_string();
            row.append(stamp.as_str());
            row.append(",");
        }
        if options.include_direction {
            row.append(label(message.direction));
            row.append(",");
        }
        let escaped = replace(message.content.as_str(), '"', "\"\"");
        row.append("\"");
        row.append(escaped.as_str());
        row.append("\",");
        row.append(message.encoding.as_str());
        row.append("\n");
        proof {
            assert(row@ =~= csv_row(*message, options.include_timestamp, options.include_direction));
            assert(messages@.subrange(0, i + 1).drop_last() =~= messages@.subrange(0, i as int));
        }
        result.append(row.as_str());
        proof {
            assert(result@ =~= csv_header(options.include_timestamp, options.include_direction) + (
            csv_rows(
                messages@.subrange(0, i as int),
                options.include_timestamp,
                options.include_direction,
            ) + row@));
        }
        i = i + 1;
    }
    assert(messages@.subrange(0, n as int) =~= messages@);
    Ok(result)
}

/// Whether an export comes to what the format asks of the selected
/// messages.
pub open spec fn export_matches(
    export: Export,
    selected: Seq<TerminalMessage>,
    options: ExportOptions,
) -> bool {
    if options.format@ == "txt"@ {
        export matches Export::Text(text) && text@ == text_export(
            selected,
            options.include_timestamp,
            options.include_direction,
        )
    } else if options.format@ == "csv"@ {
        export matches Export::Text(text) && text@ == csv_export(
            selected,
            options.include_timestamp,
            options.include_direction,
        )
    } else if options.format@ == "json"@ {
        export matches Export::Json(list) && list@ == selected
    } else {
        export is Unsupported
    }
}

/// Exports the messages that the options' filter selects, in the format that
/// the options name. For `json` the selected messages are handed back to be
/// serialised; an unknown format is refused.
pub fn export_terminal_messages(options: &ExportOptions, messages: &Vec<TerminalMessage>) -> (r:
    Export)
    ensures
        export_matches(r, selection(messages@, options.filter), *options),
{
    let selected = match &options.filter {
        Some(f) => select_messages(messages, f),
        None => copy_messages(messages),
    };
    if options.format == String::from_str("txt") {
        match export_as_text(&selected, options) {
            Ok(text) => Export::Text(text),
            Err(reason) => Export::Failed(reason),
        }
    } else if options.format == String::from_str("csv") {
        match export_as_csv(&selected, options) {
            Ok(text) => Export::Text(text),
            Err(reason) => Export::Failed(reason),
        }
    } else if options.format == String::from_str("json") {
        Export::Json(selected)
    } else {
        Export::Unsupported
    }
}

/// The answer to an export request, once a `json` export has been
/// serialised by the caller: the exported text, the reason why there is
/// none, or the refusal of an unknown format.
pub fn export_response(export: Export, serialised: Result<String, String>) -> (r: ApiResponse<
    String,
>)
    ensures
        export matches Export::Text(text) ==> r.is_success_with(text),
        export is Json && serialised.is_ok() ==> r.is_success_with(serialised.unwrap()),
        export is Json && serialised.is_err() ==> r.is_error_with(
            "JSON serialization error: "@ + serialised.unwrap_err()@,
        ),
        export matches Export::Failed(reason) ==> r.is_error_with(reason@),
        export is Unsupported ==> r.is_error_with("Unsupported export format"@),
{
    match export {
        Export::Text(text) => ApiResponse::success(text),
        Export::Json(_) => match serialised {
            Ok(json) => ApiResponse::success(json),
            Err(detail) => ApiResponse::error(
                String::from_str("JSON serialization error: ").concat(detail.as_str()),
            ),
        },
        Export::Failed(reason) => ApiResponse::error(reason),
        Export::Unsupported => ApiResponse::error(String::from_str("Unsupported export format")),
    }
}

} // verus!
