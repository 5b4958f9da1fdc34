//! State of the interactive permission approval modal.

use vstd::prelude::*;
use vstd::utf8::encode_utf8;
use crate::json::{field_view, json_lookup, lookup_either, lookup_json_field, str_or, JsonField, JsonLookup};
use crate::text::{
    chars_of, count_lines, decimal, extend_chars, line_count, push_char, str_trim,
    string_from_chars, trim, u64_to_decimal,
};
use crate::ui::diff_viewer::{render_diff_spec, DiffViewer};
use crate::ui::styled::{fg, fg_bold, lines_view, StyledLine, SpanStyle, ThemeColor};

verus! {

/// The outcome of an interactive permission approval request.
#[derive(Debug, Clone, PartialEq, Eq)]
pub enum ApprovalResponse {
    Accept,
    Reject,
    AllowSession,
    CustomFeedback(String),
}

/// Menu option entries for the approval modal.
#[derive(Debug, Clone, Copy, PartialEq, Eq, Structural)]
pub enum ApprovalOption {
    Accept,
    Reject,
    AllowSession,
    TypeFeedback,
}

/// The label of a menu option.
pub open spec fn option_label(o: ApprovalOption) -> Seq<char> {
    match o {
        ApprovalOption::Accept => "✔ Approve (Execute action)"@,
        ApprovalOption::Reject => "✖ Reject (Cancel action)"@,
        ApprovalOption::AllowSession => "⚡ Always Allow for this Session"@,
        ApprovalOption::TypeFeedback => "💬 Type Instructions / Custom Feedback"@,
    }
}

/// The key hint of a menu option.
pub open spec fn option_key(o: ApprovalOption) -> Seq<char> {
    match o {
        ApprovalOption::Accept => "[1]"@,
        ApprovalOption::Reject => "[2]"@,
        ApprovalOption::AllowSession => "[3]"@,
        ApprovalOption::TypeFeedback => "[4]"@,
    }
}

impl ApprovalOption {
    pub fn all() -> (r: &'static [ApprovalOption])
        ensures
            r@ == seq![
                ApprovalOption::Accept,
                ApprovalOption::Reject,
                ApprovalOption::AllowSession,
                ApprovalOption::TypeFeedback,
            ],
    {
        &[
            ApprovalOption::Accept,
            ApprovalOption::Reject,
            ApprovalOption::AllowSession,
            ApprovalOption::TypeFeedback,
        ]
    }

    pub fn label(&self) -> (r: &'static str)
        ensures
            r@ == option_label(*self),
    {
        match self {
            ApprovalOption::Accept => "✔ Approve (Execute action)",
            ApprovalOption::Reject => "✖ Reject (Cancel action)",
            ApprovalOption::AllowSession => "⚡ Always Allow for this Session",
            ApprovalOption::TypeFeedback => "💬 Type Instructions / Custom Feedback",
        }
    }

    pub fn key_hint(&self) -> (r: &'static str)
        ensures
            r@ == option_key(*self),
    {
        match self {
            ApprovalOption::Accept => "[1]",
            ApprovalOption::Reject => "[2]",
            ApprovalOption::AllowSession => "[3]",
            ApprovalOption::TypeFeedback => "[4]",
        }
    }
}

/// Number of menu options.
pub open spec fn option_count() -> nat {
    4
}

/// State tracking an active permission approval modal in the TUI.
#[derive(Debug, Clone)]
pub struct ApprovalModalState {
    pub turn_id: usize,
    pub tool_id: String,
    pub tool_name: String,
    pub target_description: String,
    pub diff_preview: Vec<StyledLine>,
    pub selected_index: usize,
    pub is_typing_feedback: bool,
    pub feedback_input: String,
}

/// Decimal rendering of the size `len` bytes in KiB with one decimal, rounded half to even.
pub open spec fn kib_one_decimal(len: nat) -> Seq<char> {
    let q = (len * 10) / 1024;
    let r = (len * 10) % 1024;
    let tenths: nat = if r > 512 || (r == 512 && q % 2 == 1) {
        q + 1
    } else {
        q
    };
    decimal(tenths / 10).push('.').push(crate::text::digit_char(tenths % 10))
}

/// Target file of a patch or write call (`path`, `file_path` or `target_file`).
pub open spec fn target_path(args: Seq<char>) -> Seq<char> {
    str_or(
        match json_lookup(args, "path"@) {
            JsonLookup::Missing => lookup_either(args, "file_path"@, "target_file"@),
            l => l,
        },
        "unknown"@,
    )
}

/// Search block of a patch call.
pub open spec fn patch_search(args: Seq<char>) -> Seq<char> {
    str_or(lookup_either(args, "search_block"@, "search"@), ""@)
}

/// Replacement block of a patch call.
pub open spec fn patch_replace(args: Seq<char>) -> Seq<char> {
    str_or(lookup_either(args, "replace_block"@, "replace"@), ""@)
}

/// Content of a write call.
pub open spec fn write_content(args: Seq<char>) -> Seq<char> {
    str_or(lookup_either(args, "content"@, "code_content"@), ""@)
}

/// Diff preview shown for a tool call.
pub open spec fn approval_preview(tool_name: Seq<char>, args: Seq<char>) -> Seq<
    Seq<(Seq<char>, SpanStyle)>,
> {
    if tool_name == "patch_file"@ {
        seq![
            seq![("Target: "@, fg_bold(ThemeColor::BrandAccent)), (target_path(args), fg(ThemeColor::TextPrimary))],
            seq![(Seq::<char>::empty(), crate::ui::styled::plain_style())],
        ] + render_diff_spec(patch_search(args), patch_replace(args), 4)
    } else if tool_name == "write_file"@ {
        render_diff_spec(""@, write_content(args), 6)
    } else {
        seq![]
    }
}

/// Target description shown for a tool call, by tool name and JSON arguments.
pub open spec fn approval_description(tool_name: Seq<char>, args: Seq<char>) -> Seq<char> {
    if tool_name == "exec_cmd"@ {
        seq!['$', ' '] + str_or(lookup_either(args, "command"@, "cmd"@), "command"@)
    } else if tool_name == "patch_file"@ {
        let path = str_or(
            match json_lookup(args, "path"@) {
                JsonLookup::Missing => lookup_either(args, "file_path"@, "target_file"@),
                l => l,
            },
            "unknown"@,
        );
        let search = str_or(lookup_either(args, "search_block"@, "search"@), ""@);
        let replace = str_or(lookup_either(args, "replace_block"@, "replace"@), ""@);
        path + " (+"@ + decimal(line_count(replace)) + "/-"@ + decimal(line_count(search))
            + " lines)"@
    } else if tool_name == "write_file"@ {
        let path = str_or(
            match json_lookup(args, "path"@) {
                JsonLookup::Missing => lookup_either(args, "file_path"@, "target_file"@),
                l => l,
            },
            "unknown"@,
        );
        let content = str_or(lookup_either(args, "content"@, "code_content"@), ""@);
        let len: nat = (encode_utf8(content).len() as usize) as nat;
        if len >= 1024 {
            path + " ("@ + kib_one_decimal(len) + " KB)"@
        } else {
            path + " ("@ + decimal(len) + " B)"@
        }
    } else {
        match lookup_either(args, "command"@, "cmd"@) {
            JsonLookup::Str(cmd) => seq!['$', ' '] + cmd,
            _ => match lookup_either(args, "path"@, "file_path"@) {
                JsonLookup::Str(p) => p,
                _ => match json_lookup(args, "url"@) {
                    JsonLookup::Str(u) => u,
                    _ => tool_name,
                },
            },
        }
    }
}

fn lookup_either_exec(text: &str, k1: &str, k2: &str) -> (r: JsonField)
    ensures
        field_view(r) == lookup_either(text@, k1@, k2@),
{
    let f = lookup_json_field(text, k1);
    match f {
        JsonField::Missing => lookup_json_field(text, k2),
        _ => f,
    }
}

fn str_or_exec(f: JsonField, default: &str) -> (r: Vec<char>)
    ensures
        r@ == str_or(field_view(f), default@),
{
    match f {
        JsonField::Str(s) => chars_of(s.as_str()),
        _ => chars_of(default),
    }
}

fn kib_one_decimal_exec(len: usize) -> (r: Vec<char>)
    ensures
        r@ == kib_one_decimal(len as nat),
{
    let x: u128 = (len as u128) * 10;
    let q: u128 = x / 1024;
    let rem: u128 = x % 1024;
    let tenths: u128 = if rem > 512 || (rem == 512 && q % 2 == 1) {
        q + 1
    } else {
        q
    };
    let mut v = u64_to_decimal((tenths / 10) as u64);
    v.push('.');
    v.push(((48 + (tenths % 10)) as u8) as char);
    v
}

fn path_field(args: &str) -> (r: Vec<char>)
    ensures
        r@ == str_or(
            match json_lookup(args@, "path"@) {
                JsonLookup::Missing => lookup_either(args@, "file_path"@, "target_file"@),
                l => l,
            },
            "unknown"@,
        ),
{
    let f = lookup_json_field(args, "path");
    let f = match f {
        JsonField::Missing => lookup_either_exec(args, "file_path", "target_file"),
        _ => f,
    };
    str_or_exec(f, "unknown")
}

/// Computes the target description of a tool call.
pub fn describe_tool_call(tool_name: &str, args: &str) -> (r: Vec<char>)
    ensures
        r@ == approval_description(tool_name@, args@),
{
    if crate::text::str_eq(tool_name, "exec_cmd") {
        let mut r: Vec<char> = Vec::new();
        r.push('$');
        r.push(' ');
        let cmd = str_or_exec(lookup_either_exec(args, "command", "cmd"), "command");
        extend_chars(&mut r, &cmd);
        assert(r@ =~= seq!['$', ' '] + cmd@);
        assert(r@ == approval_description(tool_name@, args@));
        r
    } else if crate::text::str_eq(tool_name, "patch_file") {
        let mut r = path_field(args);
        let ghost path = r@;
        let search = str_or_exec(lookup_either_exec(args, "search_block", "search"), "");
        let replace = str_or_exec(lookup_either_exec(args, "replace_block", "replace"), "");
        let search_lines = count_lines(string_from_chars(&search).as_str());
        let replace_lines = count_lines(string_from_chars(&replace).as_str());
        extend_chars(&mut r, &chars_of(" (+"));
        extend_chars(&mut r, &u64_to_decimal(replace_lines as u64));
        extend_chars(&mut r, &chars_of("/-"));
        extend_chars(&mut r, &u64_to_decimal(search_lines as u64));
        extend_chars(&mut r, &chars_of(" lines)"));
        assert(r@ =~= path + " (+"@ + decimal(line_count(replace@)) + "/-"@ + decimal(
            line_count(search@),
        ) + " lines)"@);
        assert(r@ == approval_description(tool_name@, args@));
        r
    } else if crate::text::str_eq(tool_name, "write_file") {
        let mut r = path_field(args);
        let ghost path = r@;
        let content = str_or_exec(lookup_either_exec(args, "content", "code_content"), "");
        let content_s = string_from_chars(&content);
        let len = content_s.as_str().len();
        if len >= 1024 {
            extend_chars(&mut r, &chars_of(" ("));
            extend_chars(&mut r, &kib_one_decimal_exec(len));
            extend_chars(&mut r, &chars_of(" KB)"));
        } else {
            extend_chars(&mut r, &chars_of(" ("));
            extend_chars(&mut r, &u64_to_decimal(len as u64));
            extend_chars(&mut r, &chars_of(" B)"));
        }
        assert(content_s@ == content@);
        assert(r@ == approval_description(tool_name@, args@));
        r
    } else {
        match lookup_either_exec(args, "command", "cmd") {
            JsonField::Str(cmd) => {
                let mut r: Vec<char> = Vec::new();
                r.push('$');
                r.push(' ');
                extend_chars(&mut r, &chars_of(cmd.as_str()));
                assert(r@ =~= seq!['$', ' '] + cmd@);
                r
            },
            _ => match lookup_either_exec(args, "path", "file_path") {
                JsonField::Str(p) => chars_of(p.as_str()),
                _ => match lookup_json_field(args, "url") {
                    JsonField::Str(u) => chars_of(u.as_str()),
                    _ => chars_of(tool_name),
                },
            },
        }
    }
}

/// Selection after moving down: wraps around the four options.
pub open spec fn next_index(i: nat) -> nat {
    (i + 1) % 4
}

/// Selection after moving up: wraps around the four options.
pub open spec fn prev_index(i: nat) -> nat {
    (i + 3) % 4
}

/// Response of confirming while typing feedback: the trimmed feedback, or a rejection when
/// it is blank.
pub open spec fn feedback_confirmed(input: Seq<char>, r: Option<ApprovalResponse>) -> bool {
    if trim(input).len() > 0 {
        r matches Some(ApprovalResponse::CustomFeedback(f)) && f@ == trim(input)
    } else {
        r == Some(ApprovalResponse::Reject)
    }
}

impl ApprovalModalState {
    pub fn new(
        turn_id: usize,
        tool_id: String,
        tool_name: String,
        target_description: String,
        diff_lines: Vec<StyledLine>,
    ) -> (r: Self)
        ensures
            r.turn_id == turn_id,
            r.tool_id == tool_id,
            r.tool_name == tool_name,
            r.target_description == target_description,
            r.diff_preview == diff_lines,
            r.selected_index == 0,
            !r.is_typing_feedback,
            r.feedback_input@.len() == 0,
    {
        Self {
            turn_id,
            tool_id,
            tool_name,
            target_description,
            diff_preview: diff_lines,
            selected_index: 0,
            is_typing_feedback: false,
            feedback_input: String::new(),
        }
    }

    /// Builds the modal for a tool call from its name and JSON arguments.
    pub fn from_tool_call(turn_id: usize, tool_id: &str, tool_name: &str, args: &str) -> (r: Self)
        ensures
            r.turn_id == turn_id,
            r.tool_id@ == tool_id@,
            r.tool_name@ == tool_name@,
            r.target_description@ == approval_description(tool_name@, args@),
            lines_view(r.diff_preview@) == approval_preview(tool_name@, args@),
            r.selected_index == 0,
            !r.is_typing_feedback,
            r.feedback_input@.len() == 0,
    {
        let desc = describe_tool_call(tool_name, args);
        let diff: Vec<StyledLine> = if crate::text::str_eq(tool_name, "patch_file") {
            let path = string_from_chars(&path_field(args));
            let search = string_from_chars(
                &str_or_exec(lookup_either_exec(args, "search_block", "search"), ""),
            );
            let replace = string_from_chars(
                &str_or_exec(lookup_either_exec(args, "replace_block", "replace"), ""),
            );
            DiffViewer::render_patch_args(path.as_str(), search.as_str(), replace.as_str(), 6)
        } else if crate::text::str_eq(tool_name, "write_file") {
            let content = string_from_chars(
                &str_or_exec(lookup_either_exec(args, "content", "code_content"), ""),
            );
            DiffViewer::render_diff("", content.as_str(), 6)
        } else {
            let v: Vec<StyledLine> = Vec::new();
            assert(lines_view(v@) =~= seq![]);
            v
        };
        Self::new(
            turn_id,
            tool_id.to_owned(),
            tool_name.to_owned(),
            string_from_chars(&desc),
            diff,
        )
    }

    pub fn next_option(&mut self)
        ensures
            final(self).selected_index == if old(self).is_typing_feedback {
                old(self).selected_index as nat
            } else {
                next_index(old(self).selected_index as nat)
            },
            final(self).is_typing_feedback == old(self).is_typing_feedback,
            final(self).feedback_input == old(self).feedback_input,
    {
        if !self.is_typing_feedback {
            self.selected_index = ((self.selected_index % 4) + 1) % 4;
        }
    }

    pub fn prev_option(&mut self)
        ensures
            final(self).selected_index == if old(self).is_typing_feedback {
                old(self).selected_index as nat
            } else {
                prev_index(old(self).selected_index as nat)
            },
            final(self).is_typing_feedback == old(self).is_typing_feedback,
            final(self).feedback_input == old(self).feedback_input,
    {
        if !self.is_typing_feedback {
            self.selected_index = ((self.selected_index % 4) + 3) % 4;
        }
    }

    pub fn select_by_number(&mut self, num: usize)
        ensures
            1 <= num <= 4 ==> final(self).selected_index == num - 1 && final(self).is_typing_feedback
                == (old(self).is_typing_feedback || num == 4),
            !(1 <= num <= 4) ==> *final(self) == *old(self),
            final(self).feedback_input == old(self).feedback_input,
    {
        if num >= 1 && num <= 4 {
            self.selected_index = num - 1;
            if self.selected_index == 3 {
                self.is_typing_feedback = true;
            }
        }
    }

    pub fn handle_char(&mut self, c: char) -> (r: Option<ApprovalResponse>)
        ensures
            old(self).is_typing_feedback ==> r is None && final(self).feedback_input@ == old(
                self,
            ).feedback_input@.push(c) && final(self).selected_index == old(self).selected_index
                && final(self).is_typing_feedback,
            !old(self).is_typing_feedback ==> final(self).feedback_input == old(self).feedback_input,
            !old(self).is_typing_feedback ==> match c {
                'y' | 'Y' => r == Some(ApprovalResponse::Accept) && *final(self) == *old(self),
                'n' | 'N' => r == Some(ApprovalResponse::Reject) && *final(self) == *old(self),
                'a' | 'A' => r == Some(ApprovalResponse::AllowSession) && *final(self) == *old(self),
                'f' | 'F' | '4' => r is None && final(self).selected_index == 3
                    && final(self).is_typing_feedback,
                'j' | 'J' => r is None && final(self).selected_index == next_index(
                    old(self).selected_index as nat,
                ) && !final(self).is_typing_feedback,
                'k' | 'K' => r is None && final(self).selected_index == prev_index(
                    old(self).selected_index as nat,
                ) && !final(self).is_typing_feedback,
                '1' => r is None && final(self).selected_index == 0 && !final(self).is_typing_feedback,
                '2' => r is None && final(self).selected_index == 1 && !final(self).is_typing_feedback,
                '3' => r is None && final(self).selected_index == 2 && !final(self).is_typing_feedback,
                _ => r is None && *final(self) == *old(self),
            },
    {
        if self.is_typing_feedback {
            push_char(&mut self.feedback_input, c);
            None
        } else {
            match c {
                'y' | 'Y' => Some(ApprovalResponse::Accept),
                'n' | 'N' => Some(ApprovalResponse::Reject),
                'a' | 'A' => Some(ApprovalResponse::AllowSession),
                'f' | 'F' => {
                    self.select_by_number(4);
                    None
                },
                'j' | 'J' => {
                    self.next_option();
                    None
                },
                'k' | 'K' => {
                    self.prev_option();
                    None
                },
                '1' => {
                    self.select_by_number(1);
                    None
                },
                '2' => {
                    self.select_by_number(2);
                    None
                },
                '3' => {
                    self.select_by_number(3);
                    None
                },
                '4' => {
                    self.select_by_number(4);
                    None
                },
                _ => None,
            }
        }
    }

    pub fn handle_backspace(&mut self)
        ensures
            old(self).is_typing_feedback ==> final(self).feedback_input@ == if old(
                self,
            ).feedback_input@.len() > 0 {
                old(self).feedback_input@.drop_last()
            } else {
                old(self).feedback_input@
            },
            !old(self).is_typing_feedback ==> final(self).feedback_input == old(self).feedback_input,
            final(self).selected_index == old(self).selected_index,
            final(self).is_typing_feedback == old(self).is_typing_feedback,
    {
        if self.is_typing_feedback {
            let _ = crate::text::pop_char(&mut self.feedback_input);
        }
    }

    pub fn confirm_selection(&mut self) -> (r: Option<ApprovalResponse>)
        ensures
            old(self).is_typing_feedback ==> feedback_confirmed(old(self).feedback_input@, r)
                && *final(self) == *old(self),
            !old(self).is_typing_feedback ==> match old(self).selected_index {
                0 => r == Some(ApprovalResponse::Accept) && *final(self) == *old(self),
                1 => r == Some(ApprovalResponse::Reject) && *final(self) == *old(self),
                2 => r == Some(ApprovalResponse::AllowSession) && *final(self) == *old(self),
                3 => r is None && final(self).is_typing_feedback && final(self).selected_index == 3
                    && final(self).feedback_input == old(self).feedback_input,
                _ => r == Some(ApprovalResponse::Reject) && *final(self) == *old(self),
            },
    {
        if self.is_typing_feedback {
            let feedback = str_trim(self.feedback_input.as_str());
            if !feedback.as_str().is_empty() {
                Some(ApprovalResponse::CustomFeedback(feedback))
            } else {
                Some(ApprovalResponse::Reject)
            }
        } else {
            match self.selected_index {
                0 => Some(ApprovalResponse::Accept),
                1 => Some(ApprovalResponse::Reject),
                2 => Some(ApprovalResponse::AllowSession),
                3 => {
                    self.is_typing_feedback = true;
                    None
                },
                _ => Some(ApprovalResponse::Reject),
            }
        }
    }
}

/// Moving down then up (or up then down) returns to the same option.
pub proof fn lemma_option_cycle(i: nat)
    requires
        i < 4,
    ensures
        prev_index(next_index(i)) == i,
        next_index(prev_index(i)) == i,
        next_index(next_index(next_index(next_index(i)))) == i,
{
}

} // verus!
