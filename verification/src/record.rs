//! What is shown of one log line: the columns of the table and the text of the inspector.
use crate::json;
use crate::json::JsonMember;
use crate::number;
use crate::text;
use vstd::prelude::*;
use vstd::slice::slice_subrange;
use vstd::string::*;

verus! {

/// The columns of a log line: timestamp, level and message.
pub type ParsedLine = (String, String, String);

/// The members of a JSON log line that the columns are taken from.
#[derive(Debug)]
pub struct LineMembers {
    pub time: Option<JsonMember>,
    pub timestamp: Option<JsonMember>,
    pub at_timestamp: Option<JsonMember>,
    pub level: Option<JsonMember>,
    pub severity: Option<JsonMember>,
    pub msg: Option<JsonMember>,
    pub message: Option<JsonMember>,
    pub log: Option<JsonMember>,
}

/// `LineMembers` by their views.
pub struct LineMembersView {
    pub time: Option<json::MemberView>,
    pub timestamp: Option<json::MemberView>,
    pub at_timestamp: Option<json::MemberView>,
    pub level: Option<json::MemberView>,
    pub severity: Option<json::MemberView>,
    pub msg: Option<json::MemberView>,
    pub message: Option<json::MemberView>,
    pub log: Option<json::MemberView>,
}

impl View for LineMembers {
    type V = LineMembersView;

    open spec fn view(&self) -> LineMembersView {
        LineMembersView {
            time: json::member_view(self.time),
            timestamp: json::member_view(self.timestamp),
            at_timestamp: json::member_view(self.at_timestamp),
            level: json::member_view(self.level),
            severity: json::member_view(self.severity),
            msg: json::member_view(self.msg),
            message: json::member_view(self.message),
            log: json::member_view(self.log),
        }
    }
}

/// The members of the JSON value that `bytes` write.
pub open spec fn members_of(bytes: Seq<u8>) -> LineMembersView {
    LineMembersView {
        time: json::json_member(bytes, "time"@),
        timestamp: json::json_member(bytes, "timestamp"@),
        at_timestamp: json::json_member(bytes, "@timestamp"@),
        level: json::json_member(bytes, "level"@),
        severity: json::json_member(bytes, "severity"@),
        msg: json::json_member(bytes, "msg"@),
        message: json::json_member(bytes, "message"@),
        log: json::json_member(bytes, "log"@),
    }
}

/// The first of two members that is there.
pub open spec fn either(
    first: Option<json::MemberView>,
    second: Option<json::MemberView>,
) -> Option<json::MemberView> {
    if first is Some {
        first
    } else {
        second
    }
}

/// The text of a member that is a string, else `default`.
pub open spec fn string_or(member: Option<json::MemberView>, default: Seq<char>) -> Seq<char> {
    match member {
        Some(json::MemberView::Text(text)) => text,
        _ => default,
    }
}

/// The timestamp column: the first of three members, if it is a string, else a dash.
pub open spec fn timestamp_of(m: LineMembersView) -> Seq<char> {
    string_or(either(m.time, either(m.timestamp, m.at_timestamp)), "-"@)
}

/// The level as it is written: the first of two members, if it is a string, else `INFO`.
pub open spec fn level_text(m: LineMembersView) -> Seq<char> {
    string_or(either(m.level, m.severity), "INFO"@)
}

/// The level column: the level in capitals.
pub open spec fn level_of(m: LineMembersView) -> Seq<char> {
    text::uppercase(level_text(m))
}

/// The message column: the first of three members, as text or as compact JSON, else nothing.
pub open spec fn message_of(m: LineMembersView) -> Seq<char> {
    match either(m.msg, either(m.message, m.log)) {
        Some(json::MemberView::Text(text)) => text,
        Some(json::MemberView::Other(text)) => text,
        None => Seq::empty(),
    }
}

/// The columns that the members of a line give.
pub open spec fn columns_of(m: LineMembersView) -> (Seq<char>, Seq<char>, Seq<char>) {
    (timestamp_of(m), level_of(m), message_of(m))
}

/// Whether columns tell nothing of their line.
pub open spec fn is_blank(columns: (Seq<char>, Seq<char>, Seq<char>)) -> bool {
    columns.0 == "-"@ && columns.1 == "INFO"@ && columns.2.len() == 0
}

/// What is shown of a line with the text `raw`: the columns of its members, with the trimmed text
/// as the message where they tell nothing; where it has none, the trimmed text under the level
/// `RAW`.
pub open spec fn shown_columns(
    columns: Option<(Seq<char>, Seq<char>, Seq<char>)>,
    raw: Seq<char>,
) -> (Seq<char>, Seq<char>, Seq<char>) {
    match columns {
        None => ("-"@, "RAW"@, text::trimmed(raw)),
        Some(columns) => if is_blank(columns) {
            (columns.0, columns.1, text::trimmed(raw))
        } else {
            columns
        },
    }
}

/// The columns of a line. It has members where it is JSON.
pub open spec fn line_columns(bytes: Seq<u8>) -> (Seq<char>, Seq<char>, Seq<char>) {
    shown_columns(
        if json::json_valid(bytes) {
            Some(columns_of(members_of(bytes)))
        } else {
            None
        },
        text::lossy_text(bytes),
    )
}

fn first_of(first: Option<JsonMember>, second: Option<JsonMember>) -> (member: Option<JsonMember>)
    ensures
        json::member_view(member) == either(json::member_view(first), json::member_view(second)),
{
    match first {
        Some(member) => Some(member),
        None => second,
    }
}

fn text_or(member: Option<JsonMember>, default: &str) -> (text: String)
    ensures
        text@ == string_or(json::member_view(member), default@),
{
    match member {
        Some(JsonMember::Text(text)) => text,
        _ => default.to_string(),
    }
}

/// The columns that the members of a line give.
pub fn member_columns(members: LineMembers) -> (columns: ParsedLine)
    ensures
        columns@ == columns_of(members@),
        vstd::utf8::is_ascii_chars(level_text(members@)) ==> columns.1@ == text::ascii_uppercase(
            level_text(members@),
        ),
        forall|i: int| 0 <= i < columns.1@.len() ==> !text::is_small(#[trigger] columns.1@[i]),
{
    let ts = first_of(members.time, first_of(members.timestamp, members.at_timestamp));
    let ts_str = text_or(ts, "-");
    let lvl = first_of(members.level, members.severity);
    let lvl_str = text::to_uppercase(text_or(lvl, "INFO").as_str());
    let msg_str = match first_of(members.msg, first_of(members.message, members.log)) {
        Some(JsonMember::Text(text)) => text,
        Some(JsonMember::Other(text)) => text,
        None => String::new(),
    };
    (ts_str, lvl_str, msg_str)
}

/// Reads the members of a line, `None` where it is not JSON.
pub fn line_members(bytes: &[u8]) -> (members: Option<LineMembers>)
    ensures
        members is Some <==> json::json_valid(bytes@),
        members matches Some(m) ==> m@ == members_of(bytes@),
        forall|content: Seq<u8>| #[trigger]
            text::is_padded(bytes@, content) ==> (members is Some <==> json::json_valid(content)),
        members matches Some(m) ==> forall|content: Seq<u8>| #[trigger]
            text::is_padded(bytes@, content) ==> m@ == members_of(content),
{
    let keys = vec!["time", "timestamp", "@timestamp", "level", "severity", "msg", "message", "log"];
    let mut found = match json::read_members(bytes, &keys) {
        Some(found) => found,
        None => return None,
    };
    let log = found.pop().unwrap();
    let message = found.pop().unwrap();
    let msg = found.pop().unwrap();
    let severity = found.pop().unwrap();
    let level = found.pop().unwrap();
    let at_timestamp = found.pop().unwrap();
    let timestamp = found.pop().unwrap();
    let time = found.pop().unwrap();
    Some(LineMembers { time, timestamp, at_timestamp, level, severity, msg, message, log })
}

fn tells_nothing(columns: &ParsedLine) -> (blank: bool)
    ensures
        blank == is_blank(columns@),
{
    text::same_text(columns.0.as_str(), "-") && text::same_text(columns.1.as_str(), "INFO")
        && columns.2.as_str().is_empty()
}

/// The view of columns that may be missing.
pub open spec fn columns_view(columns: Option<ParsedLine>) -> Option<
    (Seq<char>, Seq<char>, Seq<char>),
> {
    match columns {
        Some(columns) => Some(columns@),
        None => None,
    }
}

/// What is shown of a line with the text `raw`, whose members give `columns`.
pub fn complete_columns(columns: Option<ParsedLine>, raw: &str) -> (shown: ParsedLine)
    ensures
        shown@ == shown_columns(columns_view(columns), raw@),
{
    match columns {
        Some(columns) => {
            if tells_nothing(&columns) {
                (columns.0, columns.1, text::trim(raw))
            } else {
                columns
            }
        },
        None => ("-".to_string(), "RAW".to_string(), text::trim(raw)),
    }
}

/// The columns of a line. Blanks behind a line, its line end among them, have no part in them. An
/// ASCII level is shown in ASCII capitals, and no level holds an ASCII lower-case letter. Where the
/// line itself is the message, valid UTF-8 is shown as it is.
pub fn parse_line(bytes: &[u8]) -> (columns: ParsedLine)
    ensures
        columns@ == line_columns(bytes@),
        forall|content: Seq<u8>|
            text::is_padded(bytes@, content) ==> columns@ == #[trigger] line_columns(content),
        json::json_valid(bytes@) && vstd::utf8::is_ascii_chars(level_text(members_of(bytes@)))
            ==> columns.1@ == text::ascii_uppercase(level_text(members_of(bytes@))),
        vstd::utf8::valid_utf8(bytes@) && (json::json_valid(bytes@) ==> is_blank(
            columns_of(members_of(bytes@)),
        )) ==> columns.2@ == text::trimmed(vstd::utf8::decode_utf8(bytes@)),
        forall|i: int| 0 <= i < columns.1@.len() ==> !text::is_small(#[trigger] columns.1@[i]),
{
    let columns = match line_members(bytes) {
        Some(members) => Some(member_columns(members)),
        None => None,
    };
    match columns {
        Some(columns) if !tells_nothing(&columns) => columns,
        columns => {
            let raw = text::decode_lossy(bytes);
            let shown = complete_columns(columns, raw.as_str());
            proof {
                reveal_strlit("RAW");
                assert forall|content: Seq<u8>| text::is_padded(bytes@, content) implies shown@
                    == #[trigger] line_columns(content) by {
                    text::trailing_spaces_are_dropped(
                        text::lossy_text(content),
                        text::ascii_from(bytes@, content.len() as int),
                    );
                }
            }
            shown
        },
    }
}

/// The longest line, in bytes, that is inspected as a whole.
pub const MAX_INSPECT_BYTES: usize = 128 * 1024;

/// The notice for a line of `size` bytes, of which only `preview` is shown.
pub open spec fn oversize(size: nat, preview: Seq<char>) -> Seq<char> {
    "Line too large to inspect safely ("@ + number::decimal(size) + " bytes). Showing first "@
        + number::decimal(MAX_INSPECT_BYTES as nat) + " bytes only.\n\n"@ + preview
}

/// The text of the inspector for a line: the indented JSON where it is JSON, else the line itself;
/// of a line that is too long, a notice and its first bytes.
pub open spec fn inspected(bytes: Seq<u8>) -> Seq<char> {
    if bytes.len() > MAX_INSPECT_BYTES {
        oversize(bytes.len(), text::lossy_text(bytes.take(MAX_INSPECT_BYTES as int)))
    } else if json::json_valid(bytes) {
        json::json_pretty(bytes)
    } else {
        text::lossy_text(bytes)
    }
}

/// The notice for a line of `size` bytes, of which only `preview` is shown.
pub fn oversize_notice(size: usize, preview: &str) -> (text: String)
    ensures
        text@ == oversize(size as nat, preview@),
{
    let mut text = "Line too large to inspect safely (".to_string();
    number::push_decimal(&mut text, size as u64);
    text.append(" bytes). Showing first ");
    number::push_decimal(&mut text, MAX_INSPECT_BYTES as u64);
    text.append(" bytes only.\n\n");
    text.append(preview);
    text
}

/// The text of the inspector for a line. Valid UTF-8 that is not JSON is shown byte for byte. JSON
/// without floating-point numbers reads back as the same value, and its text is inspected as itself.
/// The preview of a line that is too long takes at most three bytes for each byte read, and is the
/// first bytes themselves where they are valid UTF-8.
pub fn inspection_text(line_bytes: &[u8]) -> (text: String)
    ensures
        text@ == inspected(line_bytes@),
        line_bytes@.len() <= MAX_INSPECT_BYTES && json::json_valid(line_bytes@) ==> text@
            == json::json_pretty(line_bytes@),
        line_bytes@.len() <= MAX_INSPECT_BYTES && !json::json_valid(line_bytes@)
            && vstd::utf8::valid_utf8(line_bytes@) ==> vstd::utf8::encode_utf8(text@)
            == line_bytes@,
        line_bytes@.len() <= MAX_INSPECT_BYTES && json::json_valid(line_bytes@)
            && json::holds_no_float(line_bytes@) ==> json::reads_back(text@, line_bytes@) && (
        vstd::utf8::encode_utf8(text@).len() <= MAX_INSPECT_BYTES ==> inspected(
            vstd::utf8::encode_utf8(text@),
        ) == text@),
        line_bytes@.len() > MAX_INSPECT_BYTES ==> exists|preview: Seq<char>|
            {
                &&& text@ == #[trigger] oversize(line_bytes@.len(), preview)
                &&& preview == text::lossy_text(line_bytes@.take(MAX_INSPECT_BYTES as int))
                &&& vstd::utf8::encode_utf8(preview).len() <= 3 * MAX_INSPECT_BYTES
                &&& vstd::utf8::valid_utf8(line_bytes@.take(MAX_INSPECT_BYTES as int))
                    ==> vstd::utf8::encode_utf8(preview) == line_bytes@.take(
                    MAX_INSPECT_BYTES as int,
                )
            },
{
    let size: usize = line_bytes.len();
    if size > MAX_INSPECT_BYTES {
        let head = slice_subrange(line_bytes, 0, MAX_INSPECT_BYTES);
        assert(head@ == line_bytes@.take(MAX_INSPECT_BYTES as int));
        let preview = text::decode_lossy(head);
        proof {
            if vstd::utf8::valid_utf8(head@) {
                vstd::utf8::decode_utf8_encode_utf8(head@);
            }
        }
        return oversize_notice(size, preview.as_str());
    }
    match json::pretty_json(line_bytes) {
        Some(pretty) => pretty,
        None => {
            proof {
                if vstd::utf8::valid_utf8(line_bytes@) {
                    vstd::utf8::decode_utf8_encode_utf8(line_bytes@);
                }
            }
            text::decode_lossy(line_bytes)
        },
    }
}

/// A line that is not JSON is shown under the level `RAW`, with its own text as the message.
pub proof fn raw_lines_are_kept(bytes: Seq<u8>)
    requires
        !json::json_valid(bytes),
    ensures
        line_columns(bytes) == ("-"@, "RAW"@, text::trimmed(text::lossy_text(bytes))),
        bytes.len() <= MAX_INSPECT_BYTES ==> inspected(bytes) == text::lossy_text(bytes),
{
}

/// Whitespace behind the text of a line, its line end among it, never shows in its columns.
pub proof fn line_ends_never_show(
    columns: Option<(Seq<char>, Seq<char>, Seq<char>)>,
    raw: Seq<char>,
    c: char,
)
    requires
        text::is_space(c),
    ensures
        shown_columns(columns, raw.push(c)) == shown_columns(columns, raw),
{
    text::trailing_space_is_dropped(raw, c);
}

/// Of a line that is too long, JSON or not, only the length and the first bytes count.
pub proof fn long_lines_show_their_head(a: Seq<u8>, b: Seq<u8>)
    requires
        a.len() == b.len(),
        a.len() > MAX_INSPECT_BYTES,
        forall|i: int| 0 <= i < MAX_INSPECT_BYTES ==> a[i] == b[i],
    ensures
        inspected(a) == inspected(b),
{
    assert(a.take(MAX_INSPECT_BYTES as int) == b.take(MAX_INSPECT_BYTES as int));
}

/// A line tells nothing only if it holds nothing but whitespace.
pub proof fn no_line_is_blank(bytes: Seq<u8>)
    ensures
        is_blank(line_columns(bytes)) ==> text::trimmed(text::lossy_text(bytes)).len() == 0,
{
    reveal_strlit("RAW");
    reveal_strlit("INFO");
}

/// A member under an earlier key hides those under later keys, whatever its value is.
pub proof fn earlier_keys_win(m: LineMembersView)
    ensures
        m.time matches Some(json::MemberView::Text(t)) ==> timestamp_of(m) == t,
        m.time matches Some(json::MemberView::Other(t)) ==> timestamp_of(m) == "-"@,
        m.level matches Some(json::MemberView::Text(t)) ==> level_of(m) == text::uppercase(t),
        m.msg matches Some(json::MemberView::Text(t)) ==> message_of(m) == t,
        m.msg matches Some(json::MemberView::Other(t)) ==> message_of(m) == t,
{
}

/// The timestamp of a JSON line is the string under the first of the keys `time`, `timestamp` and
/// `@timestamp` that it has, and a dash where it has none of them or no string there.
pub proof fn timestamps_come_from_their_keys(bytes: Seq<u8>)
    requires
        json::json_valid(bytes),
    ensures
        ({
            let shown = line_columns(bytes).0;
            let (a, b, c) = (
                json::json_member(bytes, "time"@),
                json::json_member(bytes, "timestamp"@),
                json::json_member(bytes, "@timestamp"@),
            );
            &&& a matches Some(json::MemberView::Text(t)) ==> shown == t
            &&& a matches Some(json::MemberView::Other(_)) ==> shown == "-"@
            &&& a is None ==> {
                &&& b matches Some(json::MemberView::Text(t)) ==> shown == t
                &&& b matches Some(json::MemberView::Other(_)) ==> shown == "-"@
                &&& b is None ==> {
                    &&& c matches Some(json::MemberView::Text(t)) ==> shown == t
                    &&& !(c matches Some(json::MemberView::Text(_))) ==> shown == "-"@
                }
            }
        }),
{
}

/// The level of a JSON line is the string under the first of the keys `level` and `severity` that it
/// has, and `INFO` where it has none of them or no string there, in capitals.
pub proof fn levels_come_from_their_keys(bytes: Seq<u8>)
    requires
        json::json_valid(bytes),
    ensures
        ({
            let shown = line_columns(bytes).1;
            let (a, b) = (json::json_member(bytes, "level"@), json::json_member(bytes, "severity"@));
            &&& a matches Some(json::MemberView::Text(t)) ==> shown == text::uppercase(t)
            &&& a matches Some(json::MemberView::Other(_)) ==> shown == text::uppercase("INFO"@)
            &&& a is None ==> {
                &&& b matches Some(json::MemberView::Text(t)) ==> shown == text::uppercase(t)
                &&& !(b matches Some(json::MemberView::Text(_))) ==> shown == text::uppercase(
                    "INFO"@,
                )
            }
        }),
{
}

/// The message of a JSON line is what stands under the first of the keys `msg`, `message` and `log`
/// that it has, a string as it is and anything else as compact JSON, and nothing where it has none.
/// Where timestamp and level are the defaults too and the message is empty, the trimmed text of the
/// line stands in for it.
pub proof fn messages_come_from_their_keys(bytes: Seq<u8>, m: Seq<char>)
    requires
        json::json_valid(bytes),
        ({
            let (a, b, c) = (
                json::json_member(bytes, "msg"@),
                json::json_member(bytes, "message"@),
                json::json_member(bytes, "log"@),
            );
            ||| a == Some(json::MemberView::Text(m))
            ||| a == Some(json::MemberView::Other(m))
            ||| a is None && b == Some(json::MemberView::Text(m))
            ||| a is None && b == Some(json::MemberView::Other(m))
            ||| a is None && b is None && c == Some(json::MemberView::Text(m))
            ||| a is None && b is None && c == Some(json::MemberView::Other(m))
            ||| a is None && b is None && c is None && m.len() == 0
        }),
    ensures
        ({
            let (ts, level, shown) = line_columns(bytes);
            &&& ts != "-"@ || level != "INFO"@ || m.len() > 0 ==> shown == m
            &&& ts == "-"@ && level == "INFO"@ && m.len() == 0 ==> shown == text::trimmed(
                text::lossy_text(bytes),
            )
        }),
{
    assert(m.len() == 0 ==> m =~= Seq::<char>::empty());
}

/// What is shown of a line that is not JSON: a dash, the level `RAW`, and its trimmed text.
pub proof fn other_lines_are_their_own_message(bytes: Seq<u8>)
    requires
        !json::json_valid(bytes),
    ensures
        line_columns(bytes).0 == "-"@,
        line_columns(bytes).1 == "RAW"@,
        line_columns(bytes).2 == text::trimmed(text::lossy_text(bytes)),
{
}

/// Every line of at most 131072 bytes that is JSON, whatever it holds, is inspected in its indented
/// form.
pub proof fn json_is_inspected_indented(bytes: Seq<u8>)
    requires
        json::json_valid(bytes),
        bytes.len() <= 131072,
    ensures
        inspected(bytes) == json::json_pretty(bytes),
{
}

/// Every other line of at most 131072 bytes is inspected as its own text.
pub proof fn other_lines_are_inspected_as_text(bytes: Seq<u8>)
    requires
        !json::json_valid(bytes),
        bytes.len() <= 131072,
    ensures
        inspected(bytes) == text::lossy_text(bytes),
{
}

/// A line of more than 131072 bytes, JSON or not, is inspected as a notice that names its length, and
/// the text of its first 131072 bytes.
pub proof fn long_lines_are_inspected_in_part(bytes: Seq<u8>)
    requires
        bytes.len() > 131072,
    ensures
        inspected(bytes) == "Line too large to inspect safely ("@ + number::decimal(bytes.len())
            + " bytes). Showing first "@ + number::decimal(131072) + " bytes only.\n\n"@
            + text::lossy_text(bytes.take(131072)),
{
}

/// A notice names the length it is given, and ends with the preview it is given.
pub proof fn notices_name_the_length(size: nat, preview: Seq<char>)
    ensures
        oversize(size, preview) == "Line too large to inspect safely ("@ + number::decimal(size)
            + " bytes). Showing first "@ + number::decimal(131072) + " bytes only.\n\n"@ + preview,
{
}

/// The members of a line are seen each under its own key.
pub proof fn line_members_are_seen_under_their_keys(members: LineMembers)
    ensures
        members@.time == json::member_view(members.time),
        members@.timestamp == json::member_view(members.timestamp),
        members@.at_timestamp == json::member_view(members.at_timestamp),
        members@.level == json::member_view(members.level),
        members@.severity == json::member_view(members.severity),
        members@.msg == json::member_view(members.msg),
        members@.message == json::member_view(members.message),
        members@.log == json::member_view(members.log),
{
}

/// The members of a line, read under their keys, are those of its JSON value.
pub proof fn members_stand_under_their_keys(bytes: Seq<u8>)
    ensures
        members_of(bytes).time == json::json_member(bytes, "time"@),
        members_of(bytes).timestamp == json::json_member(bytes, "timestamp"@),
        members_of(bytes).at_timestamp == json::json_member(bytes, "@timestamp"@),
        members_of(bytes).level == json::json_member(bytes, "level"@),
        members_of(bytes).severity == json::json_member(bytes, "severity"@),
        members_of(bytes).msg == json::json_member(bytes, "msg"@),
        members_of(bytes).message == json::json_member(bytes, "message"@),
        members_of(bytes).log == json::json_member(bytes, "log"@),
{
}

/// Columns that tell something are shown as they are; columns that tell nothing get the trimmed text
/// of the line for a message; and a line without columns is shown as that text under the level `RAW`.
pub proof fn columns_are_completed_from_the_text(
    columns: (Seq<char>, Seq<char>, Seq<char>),
    raw: Seq<char>,
)
    ensures
        columns.0 != "-"@ || columns.1 != "INFO"@ || columns.2.len() > 0 ==> shown_columns(
            Some(columns),
            raw,
        ) == columns,
        columns.0 == "-"@ && columns.1 == "INFO"@ && columns.2.len() == 0 ==> shown_columns(
            Some(columns),
            raw,
        ) == ("-"@, "INFO"@, text::trimmed(raw)),
        shown_columns(None, raw) == ("-"@, "RAW"@, text::trimmed(raw)),
{
}

} // verus!
