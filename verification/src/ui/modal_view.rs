//! Content of the pickers and viewers of `ModalState` as styled lines: provider and model
//! pickers, stack wizard, git diff viewer, help, undo checkpoints and theme switcher.

use vstd::prelude::*;
use vstd::utf8::*;
use vstd::string::StringSliceAdditionalSpecFns;
use crate::records::{GitDiffFile, GitDiffLine, ModelInfo, Stack, ThemeInfo};
use crate::ui::modals::common::TurnCheckpointInfo;
use crate::ui::modals::{file_name_of, path_file_name};
use crate::text::{decimal, push_char, push_str, string_from_chars, u64_to_decimal};
use crate::tools::{concat2, concat3};
use crate::ui::modals::blocks_view::{join_sep, join_sep_exec};
use crate::ui::modals::command_catalog::{
    blank_line, blank_line_exec, pad_left, pad_left_exec, pad_right, pad_right_exec,
    scroll_offset_spec,
};
use crate::ui::styled::{
    fg, fg_bold, line_from, line_of, line_view, lines_view, plain_style, push_line, span_str,
    span_view, style_fg, style_fg_bold, style_plain, SpanStyle, StyledLine, StyledSpan,
    ThemeColor,
};

verus! {

/// Selected row text: background colour on the accent colour, bold.
pub open spec fn picked_style() -> SpanStyle {
    SpanStyle {
        fg: Some(ThemeColor::BgPrimary),
        bg: Some(ThemeColor::BrandAccent),
        bold: true,
        underlined: false,
        italic: false, dim: false,
    }
}

/// Selected row detail: background colour on the accent colour.
pub open spec fn picked_detail_style() -> SpanStyle {
    SpanStyle {
        fg: Some(ThemeColor::BgPrimary),
        bg: Some(ThemeColor::BrandAccent),
        bold: false,
        underlined: false,
        italic: false, dim: false,
    }
}

/// The marker in front of a picker row.
pub open spec fn picker_prefix(selected: bool) -> Seq<char> {
    if selected {
        " › "@
    } else {
        "   "@
    }
}

/// The provider picker: one row per provider, the selected one highlighted.
pub open spec fn provider_select_spec(providers: Seq<String>, sel: nat) -> Seq<Seq<(Seq<char>, SpanStyle)>> {
    Seq::new(
        providers.len(),
        |i: int|
            seq![
                (picker_prefix(i == sel) + providers[i]@, if i == sel {
                    picked_style()
                } else {
                    fg(ThemeColor::TextPrimary)
                }),
            ],
    )
}

/// Title of the model picker.
pub open spec fn model_select_title_spec(provider: Seq<char>) -> Seq<char> {
    " Select Model ("@ + provider + ") "@
}

/// The model picker's note while the catalogue loads.
pub open spec fn model_loading_spec(provider: Seq<char>) -> Seq<(Seq<char>, SpanStyle)> {
    seq![("Fetching live models from "@ + provider + " API..."@, fg(ThemeColor::Warning))]
}

/// A search line: prompt, text and block cursor.
pub open spec fn search_spec(prompt: Seq<char>, filter: Seq<char>) -> Seq<(Seq<char>, SpanStyle)> {
    seq![(prompt + filter + "█"@, fg(ThemeColor::TextPrimary))]
}

/// A row of the model picker: id, `[FREE]` for free models, context size in thousands.
pub open spec fn model_row(m: ModelInfo, selected: bool) -> Seq<(Seq<char>, SpanStyle)> {
    seq![
        (picker_prefix(selected), plain_style()),
        (m.id@, if selected {
            picked_style()
        } else {
            fg(ThemeColor::TextPrimary)
        }),
    ] + (if m.is_free {
        seq![(" [FREE]"@, fg_bold(ThemeColor::Success))]
    } else {
        seq![]
    }) + match m.context_length {
        Some(c) => seq![(" ("@ + decimal((c / 1000) as nat) + "k ctx)"@, fg(ThemeColor::Muted))],
        None => seq![],
    }
}

/// The rows of the model picker for the listed models.
pub open spec fn model_rows_spec(models: Seq<ModelInfo>, filtered: Seq<usize>, sel: nat) -> Seq<
    Seq<(Seq<char>, SpanStyle)>,
> {
    Seq::new(filtered.len(), |i: int| model_row(models[filtered[i] as int], i == sel))
}

/// A centred hint line in the muted colour.
pub open spec fn hint_spec(text: Seq<char>) -> Seq<(Seq<char>, SpanStyle)> {
    seq![(text, fg(ThemeColor::Muted))]
}

/// A row of the stack wizard: name, runtime badge and file count.
pub open spec fn stack_row(s: Stack, selected: bool) -> Seq<(Seq<char>, SpanStyle)> {
    seq![
        (picker_prefix(selected), plain_style()),
        (s.name@, if selected {
            picked_style()
        } else {
            fg(ThemeColor::TextPrimary)
        }),
        (" ["@ + s.runtime@ + "]"@, if selected {
            picked_detail_style()
        } else {
            fg(ThemeColor::BrandAccent)
        }),
        (" ("@ + decimal(s.files@.len()) + " files)"@, if selected {
            picked_detail_style()
        } else {
            fg(ThemeColor::Muted)
        }),
    ]
}

/// The rows of the stack wizard for the listed stacks.
pub open spec fn stack_rows_spec(stacks: Seq<Stack>, filtered: Seq<usize>, sel: nat) -> Seq<
    Seq<(Seq<char>, SpanStyle)>,
> {
    Seq::new(filtered.len(), |i: int| stack_row(stacks[filtered[i] as int], i == sel))
}

/// A list title: label and count.
pub open spec fn count_title_spec(label: Seq<char>, n: nat) -> Seq<char> {
    " "@ + label + " ("@ + decimal(n) + ") "@
}

/// The packages of a stack as shown.
pub open spec fn packages_text(ps: Seq<String>) -> Seq<char> {
    if ps.len() == 0 {
        "none"@
    } else {
        join_sep(ps, ", "@)
    }
}

/// The preview of a stack: name and runtime, description, packages, and up to twelve files.
pub open spec fn stack_preview_lines(s: Stack) -> Seq<Seq<(Seq<char>, SpanStyle)>> {
    let n = s.files@.len();
    seq![
        seq![
            ("📦 "@, plain_style()),
            (s.name@, fg_bold(ThemeColor::BrandAccent)),
            ("  (Runtime: "@ + s.runtime@ + ")"@, fg(ThemeColor::Success)),
        ],
        blank_line(),
        seq![("📝 "@, plain_style()), (s.description@, fg(ThemeColor::TextPrimary))],
        blank_line(),
        seq![
            ("⚡ Packages: "@, fg_bold(ThemeColor::Warning)),
            (packages_text(s.packages@), fg(ThemeColor::TextPrimary)),
        ],
        blank_line(),
        seq![("📁 File Structure ("@ + decimal(n) + " files):"@, fg(ThemeColor::BrandAccent))],
    ] + Seq::new(
        if n < 12 {
            n
        } else {
            12
        },
        |i: int| seq![("  ├── "@, fg(ThemeColor::Muted)), (s.files@[i]@, fg(ThemeColor::TextPrimary))],
    ) + (if n > 12 {
        seq![seq![("  ╰── ... and "@ + decimal((n - 12) as nat) + " more files"@, fg(ThemeColor::Muted))]]
    } else {
        seq![]
    })
}

/// The stack preview pane: the selected stack, or a note.
pub open spec fn stack_preview_spec(stacks: Seq<Stack>, filtered: Seq<usize>, sel: nat) -> Seq<
    Seq<(Seq<char>, SpanStyle)>,
> {
    if sel < filtered.len() {
        stack_preview_lines(stacks[filtered[sel as int] as int])
    } else {
        seq![seq![("No stack selected"@, fg(ThemeColor::Muted))]]
    }
}

/// Colour of a file's status badge: added, deleted, modified, other.
pub open spec fn status_color(c: char) -> ThemeColor {
    if c == 'A' {
        ThemeColor::Success
    } else if c == 'D' {
        ThemeColor::Destructive
    } else if c == 'M' {
        ThemeColor::Warning
    } else {
        ThemeColor::Muted
    }
}

/// A row of the changed-file list: status badge, path, added and removed line counts.
pub open spec fn diff_file_row(f: GitDiffFile, selected: bool) -> Seq<(Seq<char>, SpanStyle)> {
    seq![
        (picker_prefix(selected), plain_style()),
        (seq!['[', f.status_char] + "] "@, fg(status_color(f.status_char))),
        (f.path@, if selected {
            picked_style()
        } else {
            fg(ThemeColor::TextPrimary)
        }),
        (" +"@ + decimal(f.additions as nat) + " -"@ + decimal(f.deletions as nat), fg(ThemeColor::Muted)),
    ]
}

/// The changed-file list.
pub open spec fn diff_files_spec(files: Seq<GitDiffFile>, sel: nat) -> Seq<Seq<(Seq<char>, SpanStyle)>> {
    Seq::new(files.len(), |i: int| diff_file_row(files[i], i == sel))
}

/// Title of the diff pane.
pub open spec fn diff_title_spec(files: Seq<GitDiffFile>, sel: nat) -> Seq<char> {
    if sel < files.len() {
        " Diff: "@ + files[sel as int].path@ + " "@
    } else {
        " Diff Preview "@
    }
}

/// Style of a diff line by its tag.
pub open spec fn diff_line_style(tag: char) -> SpanStyle {
    if tag == '+' {
        fg(ThemeColor::Success)
    } else if tag == '-' {
        fg(ThemeColor::Destructive)
    } else if tag == '@' {
        fg_bold(ThemeColor::BrandAccent)
    } else {
        fg(ThemeColor::TextPrimary)
    }
}

/// The line-number gutter of a diff line: old and new numbers right-aligned in 4 columns.
pub open spec fn lineno_text(old: Option<usize>, new: Option<usize>) -> Seq<char> {
    (match old {
        Some(o) => pad_left(decimal(o as nat), 4),
        None => "    "@,
    }) + " "@ + (match new {
        Some(n) => pad_left(decimal(n as nat), 4),
        None => "    "@,
    }) + " │ "@
}

/// One diff line: gutter, marker and text.
pub open spec fn diff_line_spec(l: GitDiffLine) -> Seq<(Seq<char>, SpanStyle)> {
    seq![
        (lineno_text(l.old_lineno, l.new_lineno), fg(ThemeColor::Muted)),
        (if l.tag == '+' {
            "+ "@
        } else if l.tag == '-' {
            "- "@
        } else {
            "  "@
        }, diff_line_style(l.tag)),
        (l.content@, diff_line_style(l.tag)),
    ]
}

/// The diff pane: the selected file's lines from `scroll` on, or a note.
pub open spec fn diff_pane_spec(files: Seq<GitDiffFile>, sel: nat, scroll: nat) -> Seq<
    Seq<(Seq<char>, SpanStyle)>,
> {
    if sel < files.len() {
        let ls = files[sel as int].lines@;
        if ls.len() == 0 {
            seq![seq![(" (No line diffs recorded) "@, fg(ThemeColor::Muted))]]
        } else if scroll < ls.len() {
            Seq::new((ls.len() - scroll) as nat, |i: int| diff_line_spec(ls[scroll + i]))
        } else {
            seq![]
        }
    } else {
        seq![seq![(" Working tree is clean — no diffs found. "@, fg(ThemeColor::Muted))]]
    }
}

/// Title of the diff viewer.
pub open spec fn diff_viewer_title_spec(staged: bool) -> Seq<char> {
    if staged {
        " 🔍 Staged Git Changes (--cached) "@
    } else {
        " 🔍 Working Tree Git Changes (unstaged) "@
    }
}

/// Key hints of the diff viewer.
pub open spec fn diff_footer_text(staged: bool) -> Seq<char> {
    if staged {
        " [↑/↓] Files  [j/k/PgUp/PgDn] Scroll  [Tab] View Unstaged  [s] Unstage  [r] Review  [Esc] Close "@
    } else {
        " [↑/↓] Files  [j/k/PgUp/PgDn] Scroll  [Tab] View Staged  [s] Stage  [r] Review  [Esc] Close "@
    }
}

/// A help entry: key in the given colour, then its description.
pub open spec fn help_entry(key: Seq<char>, color: ThemeColor, text: Seq<char>) -> Seq<(Seq<char>, SpanStyle)> {
    seq![(key, fg(color)), (text, fg(ThemeColor::TextPrimary))]
}

/// The help dialog.
pub open spec fn help_spec() -> Seq<Seq<(Seq<char>, SpanStyle)>> {
    seq![
        seq![("⚡ minicode Help & Keyboard Shortcuts"@, fg_bold(ThemeColor::BrandAccent))],
        blank_line(),
        help_entry("  /model     "@, ThemeColor::Success, "Choose LLM model & provider interactively"@),
        help_entry("  /theme     "@, ThemeColor::Success, "Switch TUI color theme palette interactively"@),
        help_entry("  /undo      "@, ThemeColor::Success, "Revert all file modifications from previous turn"@),
        help_entry("  /sessions  "@, ThemeColor::Success, "Browse & reload past workspace session history"@),
        help_entry(
            "  /copy      "@,
            ThemeColor::Success,
            "Copy latest AI response to clipboard (/copy all for whole chat)"@,
        ),
        help_entry("  /clear     "@, ThemeColor::Success, "Clear conversation timeline display"@),
        help_entry("  /exit      "@, ThemeColor::Success, "Quit minicode interactive session"@),
        blank_line(),
        help_entry("  Shift+Drag "@, ThemeColor::Warning, "Select and copy text in terminal directly"@),
        help_entry("  Enter      "@, ThemeColor::Warning, "Submit prompt or confirm action"@),
        help_entry("  Ctrl+J     "@, ThemeColor::Warning, "Insert newline (multi-line prompt)"@),
        help_entry("  PgUp / PgDn"@, ThemeColor::Warning, "Scroll timeline (or Shift+↑/↓, Mouse wheel)"@),
        help_entry("  Home / End "@, ThemeColor::Warning, "Scroll directly to top / bottom of timeline"@),
        help_entry("  Ctrl+T     "@, ThemeColor::Warning, "Toggle embedded PTY terminal drawer"@),
        help_entry("  Esc        "@, ThemeColor::Warning, "Interrupt running execution / close modal"@),
        blank_line(),
        seq![("Press Esc or Enter to close"@, fg(ThemeColor::Muted))],
    ]
}

/// The file name of a path, or the path where it has none.
pub open spec fn shown_file_name(p: Seq<char>) -> Seq<char> {
    match path_file_name(p) {
        Some(n) => n,
        None => p,
    }
}

/// What a checkpoint changed: no files, or the count, the first two file names and how
/// many more.
pub open spec fn file_summary(files: Seq<String>) -> Seq<char> {
    let n = files.len();
    if n == 0 {
        "0 files modified"@
    } else {
        decimal(n) + " file(s) ("@ + shown_file_name(files[0]@) + (if n > 1 {
            ", "@ + shown_file_name(files[1]@)
        } else {
            seq![]
        }) + (if n > 2 {
            " +"@ + decimal((n - 2) as nat) + " more"@
        } else {
            seq![]
        }) + ")"@
    }
}

/// A prompt as shown: over 55 bytes it keeps its first 52 bytes and `...`.
pub open spec fn prompt_shown(p: Seq<char>) -> Seq<char> {
    if encode_utf8(p).len() > 55 {
        decode_utf8(encode_utf8(p).take(52)) + "..."@
    } else {
        p
    }
}

/// The cut of `prompt_shown` falls on a character boundary, and the byte length fits.
pub open spec fn prompt_cut_ok(p: Seq<char>) -> bool {
    &&& encode_utf8(p).len() <= usize::MAX
    &&& encode_utf8(p).len() > 55 ==> is_char_boundary(encode_utf8(p), 52)
}

/// The rail left of a checkpoint: hidden on the last one.
pub open spec fn rail_style(is_last: bool) -> SpanStyle {
    if is_last {
        fg(ThemeColor::BgElevated)
    } else {
        fg(ThemeColor::Muted)
    }
}

/// The lines of a checkpoint on the timeline: node and turn, prompt, age and files, and a
/// connector below all but the last.
pub open spec fn checkpoint_lines(cp: TurnCheckpointInfo, selected: bool, is_last: bool) -> Seq<
    Seq<(Seq<char>, SpanStyle)>,
> {
    seq![
        seq![
            (if selected {
                "  ◉─ "@
            } else {
                "  ○─ "@
            }, if selected {
                fg_bold(ThemeColor::BrandAccent)
            } else {
                fg(ThemeColor::Muted)
            }),
            ("[Turn "@ + decimal(cp.turn_id as nat) + "]"@ + (if cp.is_latest {
                " (Latest)"@
            } else {
                seq![]
            }), if selected {
                fg_bold(ThemeColor::Success)
            } else {
                fg(ThemeColor::Muted)
            }),
        ],
        seq![
            ("  │   "@, rail_style(is_last)),
            ("\""@ + prompt_shown(cp.prompt@) + "\""@, if selected {
                fg_bold(ThemeColor::TextPrimary)
            } else {
                fg(ThemeColor::Muted)
            }),
        ],
        seq![
            ("  │   "@, rail_style(is_last)),
            ("└─ "@ + cp.time_ago@ + " • "@ + file_summary(cp.files@), if selected {
                fg(ThemeColor::BrandAccent)
            } else {
                fg(ThemeColor::Muted)
            }),
        ],
    ] + (if is_last {
        seq![]
    } else {
        seq![seq![("  │"@, fg(ThemeColor::Muted))]]
    })
}

/// The checkpoints at positions `off..k`.
pub open spec fn checkpoints_from(cps: Seq<TurnCheckpointInfo>, sel: nat, off: int, k: int) -> Seq<
    Seq<(Seq<char>, SpanStyle)>,
>
    decreases k - off,
{
    if k <= off {
        seq![]
    } else {
        checkpoints_from(cps, sel, off, k - 1) + checkpoint_lines(
            cps[k - 1],
            k - 1 == sel,
            k - 1 == cps.len() - 1,
        )
    }
}

/// First and past-the-last of `max` entries shown around `sel` in a list of `n`.
pub open spec fn five_window(sel: nat, n: nat) -> (nat, nat) {
    let off = scroll_offset_spec(sel, 5);
    (off, if off + 5 < n {
        off + 5
    } else if off < n {
        n
    } else {
        off
    })
}

/// The undo timeline: a blank line, then five checkpoints around the selection.
pub open spec fn undo_spec(cps: Seq<TurnCheckpointInfo>, sel: nat) -> Seq<Seq<(Seq<char>, SpanStyle)>> {
    let w = five_window(sel, cps.len());
    seq![blank_line()] + checkpoints_from(cps, sel, w.0 as int, w.1 as int)
}

/// Key hints of the undo and theme pickers, with the confirm action's name.
pub open spec fn select_footer_spec(action: Seq<char>) -> Seq<(Seq<char>, SpanStyle)> {
    seq![
        ("[↑/↓] "@, fg_bold(ThemeColor::BrandAccent)),
        ("Select   "@, fg(ThemeColor::TextPrimary)),
        ("[Enter] "@, fg_bold(ThemeColor::Success)),
        (action, fg(ThemeColor::TextPrimary)),
        ("[Esc] "@, fg_bold(ThemeColor::Warning)),
        ("Cancel"@, fg(ThemeColor::TextPrimary)),
    ]
}

/// The lines of a theme in the switcher: number, name and colour samples; description;
/// blank.
pub open spec fn theme_lines(t: ThemeInfo, idx: nat, selected: bool) -> Seq<Seq<(Seq<char>, SpanStyle)>> {
    seq![
        seq![
            (if selected {
                "  ❯ "@
            } else {
                "    "@
            }, fg_bold(ThemeColor::BrandAccent)),
            ("["@ + decimal(idx + 1) + "] "@, fg(ThemeColor::Muted)),
            (pad_right(t.name@, 22), if selected {
                fg_bold(ThemeColor::BrandAccent)
            } else {
                fg(ThemeColor::TextPrimary)
            }),
        ] + Seq::new(
            t.swatches@.len(),
            |k: int| (" ■"@, fg(ThemeColor::Rgb(t.swatches@[k].0, t.swatches@[k].1, t.swatches@[k].2))),
        ),
        seq![
            ("        "@, plain_style()),
            (t.description@, if selected {
                fg(ThemeColor::TextPrimary)
            } else {
                fg(ThemeColor::Muted)
            }),
        ],
        blank_line(),
    ]
}

/// The themes at positions `off..k`.
pub open spec fn themes_from(ts: Seq<ThemeInfo>, sel: nat, off: int, k: int) -> Seq<
    Seq<(Seq<char>, SpanStyle)>,
>
    decreases k - off,
{
    if k <= off {
        seq![]
    } else {
        themes_from(ts, sel, off, k - 1) + theme_lines(ts[k - 1], (k - 1) as nat, k - 1 == sel)
    }
}

/// The theme switcher: a blank line, then five themes around the selection.
pub open spec fn theme_switcher_spec(ts: Seq<ThemeInfo>, sel: nat) -> Seq<Seq<(Seq<char>, SpanStyle)>> {
    let w = five_window(sel, ts.len());
    seq![blank_line()] + themes_from(ts, sel, w.0 as int, w.1 as int)
}

fn picked_style_exec() -> (s: SpanStyle)
    ensures
        s == picked_style(),
{
    SpanStyle {
        fg: Some(ThemeColor::BgPrimary),
        bg: Some(ThemeColor::BrandAccent),
        bold: true,
        underlined: false,
        italic: false, dim: false,
    }
}

fn picked_detail_style_exec() -> (s: SpanStyle)
    ensures
        s == picked_detail_style(),
{
    SpanStyle {
        fg: Some(ThemeColor::BgPrimary),
        bg: Some(ThemeColor::BrandAccent),
        bold: false,
        underlined: false,
        italic: false, dim: false,
    }
}

fn prefix_exec(selected: bool) -> (r: &'static str)
    ensures
        r@ == picker_prefix(selected),
{
    if selected {
        " › "
    } else {
        "   "
    }
}

fn decimal_string(n: usize) -> (r: String)
    ensures
        r@ == decimal(n as nat),
{
    string_from_chars(&u64_to_decimal(n as u64))
}

fn one_span_line(text: &str, style: SpanStyle) -> (l: StyledLine)
    ensures
        line_view(l) == seq![(text@, style)],
{
    let l = line_of(span_str(text, style));
    l
}

/// The provider picker's rows.
pub fn provider_select_lines(providers: &Vec<String>, sel: usize) -> (r: Vec<StyledLine>)
    ensures
        lines_view(r@) == provider_select_spec(providers@, sel as nat),
{
    let mut out: Vec<StyledLine> = Vec::new();
    let mut i: usize = 0;
    while i < providers.len()
        invariant
            i <= providers@.len(),
            lines_view(out@) == provider_select_spec(providers@, sel as nat).take(i as int),
        decreases providers@.len() - i,
    {
        let st = if i == sel {
            picked_style_exec()
        } else {
            style_fg(ThemeColor::TextPrimary)
        };
        push_line(&mut out, one_span_line(concat2(prefix_exec(i == sel), providers[i].as_str()).as_str(), st));
        i += 1;
        assert(lines_view(out@) =~= provider_select_spec(providers@, sel as nat).take(i as int));
    }
    assert(provider_select_spec(providers@, sel as nat).take(i as int) =~= provider_select_spec(
        providers@,
        sel as nat,
    ));
    out
}

/// Title of the model picker.
pub fn model_select_title(provider: &str) -> (r: String)
    ensures
        r@ == model_select_title_spec(provider@),
{
    concat3(" Select Model (", provider, ") ")
}

/// The model picker's loading note.
pub fn model_loading_line(provider: &str) -> (r: StyledLine)
    ensures
        line_view(r) == model_loading_spec(provider@),
{
    one_span_line(concat3("Fetching live models from ", provider, " API...").as_str(), style_fg(ThemeColor::Warning))
}

/// A search line with the given prompt.
pub fn search_line(prompt: &str, filter: &str) -> (r: StyledLine)
    ensures
        line_view(r) == search_spec(prompt@, filter@),
{
    one_span_line(concat3(prompt, filter, "█").as_str(), style_fg(ThemeColor::TextPrimary))
}

/// A hint line in the muted colour.
pub fn hint_line(text: &str) -> (r: StyledLine)
    ensures
        line_view(r) == hint_spec(text@),
{
    one_span_line(text, style_fg(ThemeColor::Muted))
}

fn model_row_line(m: &ModelInfo, selected: bool) -> (l: StyledLine)
    ensures
        line_view(l) == model_row(*m, selected),
{
    let mut v: Vec<StyledSpan> = Vec::new();
    v.push(span_str(prefix_exec(selected), style_plain()));
    v.push(span_str(
        m.id.as_str(),
        if selected {
            picked_style_exec()
        } else {
            style_fg(ThemeColor::TextPrimary)
        },
    ));
    if m.is_free {
        v.push(span_str(" [FREE]", style_fg_bold(ThemeColor::Success)));
    }
    match m.context_length {
        Some(c) => {
            v.push(span_str(
                concat3(" (", decimal_string(c / 1000).as_str(), "k ctx)").as_str(),
                style_fg(ThemeColor::Muted),
            ));
        },
        None => {},
    }
    let l = line_from(v);
    assert(line_view(l) =~= model_row(*m, selected));
    l
}

/// The model picker's rows; the listed indices must point into `models`.
pub fn model_rows(models: &Vec<ModelInfo>, filtered: &Vec<usize>, sel: usize) -> (r: Vec<StyledLine>)
    requires
        forall|i: int| 0 <= i < filtered@.len() ==> #[trigger] filtered@[i] < models@.len(),
    ensures
        lines_view(r@) == model_rows_spec(models@, filtered@, sel as nat),
{
    let mut out: Vec<StyledLine> = Vec::new();
    let mut i: usize = 0;
    while i < filtered.len()
        invariant
            i <= filtered@.len(),
            forall|j: int| 0 <= j < filtered@.len() ==> #[trigger] filtered@[j] < models@.len(),
            lines_view(out@) == model_rows_spec(models@, filtered@, sel as nat).take(i as int),
        decreases filtered@.len() - i,
    {
        assert(filtered@[i as int] < models@.len());
        push_line(&mut out, model_row_line(&models[filtered[i]], i == sel));
        i += 1;
        assert(lines_view(out@) =~= model_rows_spec(models@, filtered@, sel as nat).take(i as int));
    }
    assert(model_rows_spec(models@, filtered@, sel as nat).take(i as int) =~= model_rows_spec(
        models@,
        filtered@,
        sel as nat,
    ));
    out
}

fn stack_row_line(s: &Stack, selected: bool) -> (l: StyledLine)
    ensures
        line_view(l) == stack_row(*s, selected),
{
    let mut v: Vec<StyledSpan> = Vec::new();
    v.push(span_str(prefix_exec(selected), style_plain()));
    v.push(span_str(
        s.name.as_str(),
        if selected {
            picked_style_exec()
        } else {
            style_fg(ThemeColor::TextPrimary)
        },
    ));
    v.push(span_str(
        concat3(" [", s.runtime.as_str(), "]").as_str(),
        if selected {
            picked_detail_style_exec()
        } else {
            style_fg(ThemeColor::BrandAccent)
        },
    ));
    v.push(span_str(
        concat3(" (", decimal_string(s.files.len()).as_str(), " files)").as_str(),
        if selected {
            picked_detail_style_exec()
        } else {
            style_fg(ThemeColor::Muted)
        },
    ));
    let l = line_from(v);
    assert(line_view(l) =~= stack_row(*s, selected));
    l
}

/// The stack wizard's rows; the listed indices must point into `stacks`.
pub fn stack_rows(stacks: &Vec<Stack>, filtered: &Vec<usize>, sel: usize) -> (r: Vec<StyledLine>)
    requires
        forall|i: int| 0 <= i < filtered@.len() ==> #[trigger] filtered@[i] < stacks@.len(),
    ensures
        lines_view(r@) == stack_rows_spec(stacks@, filtered@, sel as nat),
{
    let mut out: Vec<StyledLine> = Vec::new();
    let mut i: usize = 0;
    while i < filtered.len()
        invariant
            i <= filtered@.len(),
            forall|j: int| 0 <= j < filtered@.len() ==> #[trigger] filtered@[j] < stacks@.len(),
            lines_view(out@) == stack_rows_spec(stacks@, filtered@, sel as nat).take(i as int),
        decreases filtered@.len() - i,
    {
        assert(filtered@[i as int] < stacks@.len());
        push_line(&mut out, stack_row_line(&stacks[filtered[i]], i == sel));
        i += 1;
        assert(lines_view(out@) =~= stack_rows_spec(stacks@, filtered@, sel as nat).take(i as int));
    }
    assert(stack_rows_spec(stacks@, filtered@, sel as nat).take(i as int) =~= stack_rows_spec(
        stacks@,
        filtered@,
        sel as nat,
    ));
    out
}

/// A list title: label and count.
pub fn count_title(label: &str, n: usize) -> (r: String)
    ensures
        r@ == count_title_spec(label@, n as nat),
{
    concat3(concat2(" ", label).as_str(), " (", concat2(decimal_string(n).as_str(), ") ").as_str())
}

/// The stack preview pane; the selected index must point into `stacks`.
pub fn stack_preview(stacks: &Vec<Stack>, filtered: &Vec<usize>, sel: usize) -> (r: Vec<StyledLine>)
    requires
        sel < filtered@.len() ==> filtered@[sel as int] < stacks@.len(),
    ensures
        lines_view(r@) == stack_preview_spec(stacks@, filtered@, sel as nat),
{
    let mut out: Vec<StyledLine> = Vec::new();
    if sel >= filtered.len() {
        push_line(&mut out, one_span_line("No stack selected", style_fg(ThemeColor::Muted)));
        assert(lines_view(out@) =~= stack_preview_spec(stacks@, filtered@, sel as nat));
        return out;
    }
    let s = &stacks[filtered[sel]];
    let n = s.files.len();
    let mut a: Vec<StyledSpan> = Vec::new();
    a.push(span_str("📦 ", style_plain()));
    a.push(span_str(s.name.as_str(), style_fg_bold(ThemeColor::BrandAccent)));
    a.push(span_str(concat3("  (Runtime: ", s.runtime.as_str(), ")").as_str(), style_fg(ThemeColor::Success)));
    let la = line_from(a);
    assert(line_view(la) =~= stack_preview_lines(*s)[0]);
    push_line(&mut out, la);
    push_line(&mut out, blank_line_exec());
    let mut b: Vec<StyledSpan> = Vec::new();
    b.push(span_str("📝 ", style_plain()));
    b.push(span_str(s.description.as_str(), style_fg(ThemeColor::TextPrimary)));
    let lb = line_from(b);
    assert(line_view(lb) =~= stack_preview_lines(*s)[2]);
    push_line(&mut out, lb);
    push_line(&mut out, blank_line_exec());
    let pk = if s.packages.len() == 0 {
        "none".to_owned()
    } else {
        join_sep_exec(&s.packages, ", ")
    };
    let mut c: Vec<StyledSpan> = Vec::new();
    c.push(span_str("⚡ Packages: ", style_fg_bold(ThemeColor::Warning)));
    c.push(span_str(pk.as_str(), style_fg(ThemeColor::TextPrimary)));
    let lc = line_from(c);
    assert(line_view(lc) =~= stack_preview_lines(*s)[4]);
    push_line(&mut out, lc);
    push_line(&mut out, blank_line_exec());
    push_line(
        &mut out,
        one_span_line(
            concat3("📁 File Structure (", decimal_string(n).as_str(), " files):").as_str(),
            style_fg(ThemeColor::BrandAccent),
        ),
    );
    let ghost head = lines_view(out@);
    let shown: usize = if n < 12 {
        n
    } else {
        12
    };
    let mut i: usize = 0;
    while i < shown
        invariant
            i <= shown <= s.files@.len(),
            lines_view(out@) == head + Seq::new(
                i as nat,
                |j: int| seq![("  ├── "@, fg(ThemeColor::Muted)), (s.files@[j]@, fg(ThemeColor::TextPrimary))],
            ),
        decreases shown - i,
    {
        let mut v: Vec<StyledSpan> = Vec::new();
        v.push(span_str("  ├── ", style_fg(ThemeColor::Muted)));
        v.push(span_str(s.files[i].as_str(), style_fg(ThemeColor::TextPrimary)));
        let l = line_from(v);
        assert(line_view(l) =~= seq![("  ├── "@, fg(ThemeColor::Muted)), (s.files@[i as int]@, fg(ThemeColor::TextPrimary))]);
        push_line(&mut out, l);
        i += 1;
        assert(lines_view(out@) =~= head + Seq::new(
            i as nat,
            |j: int| seq![("  ├── "@, fg(ThemeColor::Muted)), (s.files@[j]@, fg(ThemeColor::TextPrimary))],
        ));
    }
    let ghost mid = lines_view(out@);
    if n > 12 {
        push_line(
            &mut out,
            one_span_line(
                concat3("  ╰── ... and ", decimal_string(n - 12).as_str(), " more files").as_str(),
                style_fg(ThemeColor::Muted),
            ),
        );
    }
    proof {
        let sp = stack_preview_lines(*s);
        assert(head =~= sp.take(7));
        assert(lines_view(out@) =~= sp);
    }
    out
}

fn diff_file_row_line(f: &GitDiffFile, selected: bool) -> (l: StyledLine)
    ensures
        line_view(l) == diff_file_row(*f, selected),
{
    let mut badge = String::new();
    push_char(&mut badge, '[');
    push_char(&mut badge, f.status_char);
    push_str(&mut badge, "] ");
    proof {
        reveal_strlit("] ");
        assert(badge@ =~= seq!['[', f.status_char] + "] "@);
    }
    let color = if f.status_char == 'A' {
        ThemeColor::Success
    } else if f.status_char == 'D' {
        ThemeColor::Destructive
    } else if f.status_char == 'M' {
        ThemeColor::Warning
    } else {
        ThemeColor::Muted
    };
    let stats = concat3(
        concat2(" +", decimal_string(f.additions).as_str()).as_str(),
        " -",
        decimal_string(f.deletions).as_str(),
    );
    let mut v: Vec<StyledSpan> = Vec::new();
    v.push(span_str(prefix_exec(selected), style_plain()));
    v.push(span_str(badge.as_str(), style_fg(color)));
    v.push(span_str(
        f.path.as_str(),
        if selected {
            picked_style_exec()
        } else {
            style_fg(ThemeColor::TextPrimary)
        },
    ));
    v.push(span_str(stats.as_str(), style_fg(ThemeColor::Muted)));
    let l = line_from(v);
    assert(line_view(l) =~= diff_file_row(*f, selected));
    l
}

/// The changed-file list of the diff viewer.
pub fn diff_file_rows(files: &Vec<GitDiffFile>, sel: usize) -> (r: Vec<StyledLine>)
    ensures
        lines_view(r@) == diff_files_spec(files@, sel as nat),
{
    let mut out: Vec<StyledLine> = Vec::new();
    let mut i: usize = 0;
    while i < files.len()
        invariant
            i <= files@.len(),
            lines_view(out@) == diff_files_spec(files@, sel as nat).take(i as int),
        decreases files@.len() - i,
    {
        push_line(&mut out, diff_file_row_line(&files[i], i == sel));
        i += 1;
        assert(lines_view(out@) =~= diff_files_spec(files@, sel as nat).take(i as int));
    }
    assert(diff_files_spec(files@, sel as nat).take(i as int) =~= diff_files_spec(files@, sel as nat));
    out
}

/// Title of the diff pane.
pub fn diff_title(files: &Vec<GitDiffFile>, sel: usize) -> (r: String)
    ensures
        r@ == diff_title_spec(files@, sel as nat),
{
    if sel < files.len() {
        concat3(" Diff: ", files[sel].path.as_str(), " ")
    } else {
        " Diff Preview ".to_owned()
    }
}

fn gutter_number(n: Option<usize>) -> (r: String)
    ensures
        r@ == (match n {
            Some(o) => pad_left(decimal(o as nat), 4),
            None => "    "@,
        }),
{
    match n {
        Some(o) => pad_left_exec(decimal_string(o).as_str(), 4),
        None => "    ".to_owned(),
    }
}

fn diff_line_line(l: &GitDiffLine) -> (r: StyledLine)
    ensures
        line_view(r) == diff_line_spec(*l),
{
    let st = if l.tag == '+' {
        style_fg(ThemeColor::Success)
    } else if l.tag == '-' {
        style_fg(ThemeColor::Destructive)
    } else if l.tag == '@' {
        style_fg_bold(ThemeColor::BrandAccent)
    } else {
        style_fg(ThemeColor::TextPrimary)
    };
    let marker = if l.tag == '+' {
        "+ "
    } else if l.tag == '-' {
        "- "
    } else {
        "  "
    };
    let gutter = concat3(
        concat2(gutter_number(l.old_lineno).as_str(), " ").as_str(),
        gutter_number(l.new_lineno).as_str(),
        " │ ",
    );
    let mut v: Vec<StyledSpan> = Vec::new();
    v.push(span_str(gutter.as_str(), style_fg(ThemeColor::Muted)));
    v.push(span_str(marker, st));
    v.push(span_str(l.content.as_str(), st));
    let r = line_from(v);
    assert(line_view(r) =~= diff_line_spec(*l));
    r
}

/// The diff pane: the selected file's lines from `scroll` on.
pub fn diff_pane(files: &Vec<GitDiffFile>, sel: usize, scroll: usize) -> (r: Vec<StyledLine>)
    ensures
        lines_view(r@) == diff_pane_spec(files@, sel as nat, scroll as nat),
{
    let mut out: Vec<StyledLine> = Vec::new();
    if sel >= files.len() {
        push_line(&mut out, one_span_line(" Working tree is clean — no diffs found. ", style_fg(ThemeColor::Muted)));
        assert(lines_view(out@) =~= diff_pane_spec(files@, sel as nat, scroll as nat));
        return out;
    }
    let ls = &files[sel].lines;
    if ls.len() == 0 {
        push_line(&mut out, one_span_line(" (No line diffs recorded) ", style_fg(ThemeColor::Muted)));
        assert(lines_view(out@) =~= diff_pane_spec(files@, sel as nat, scroll as nat));
        return out;
    }
    if scroll >= ls.len() {
        assert(lines_view(out@) =~= diff_pane_spec(files@, sel as nat, scroll as nat));
        return out;
    }
    let mut i: usize = scroll;
    while i < ls.len()
        invariant
            scroll <= i <= ls@.len(),
            lines_view(out@) == Seq::new((i - scroll) as nat, |j: int| diff_line_spec(ls@[scroll + j])),
        decreases ls@.len() - i,
    {
        push_line(&mut out, diff_line_line(&ls[i]));
        i += 1;
        assert(lines_view(out@) =~= Seq::new((i - scroll) as nat, |j: int| diff_line_spec(ls@[scroll + j])));
    }
    assert(lines_view(out@) =~= diff_pane_spec(files@, sel as nat, scroll as nat));
    out
}

/// Title of the diff viewer.
pub fn diff_viewer_title(staged: bool) -> (r: &'static str)
    ensures
        r@ == diff_viewer_title_spec(staged),
{
    if staged {
        " 🔍 Staged Git Changes (--cached) "
    } else {
        " 🔍 Working Tree Git Changes (unstaged) "
    }
}

/// Key hints of the diff viewer.
pub fn diff_footer(staged: bool) -> (r: StyledLine)
    ensures
        line_view(r) == hint_spec(diff_footer_text(staged)),
{
    hint_line(
        if staged {
            " [↑/↓] Files  [j/k/PgUp/PgDn] Scroll  [Tab] View Unstaged  [s] Unstage  [r] Review  [Esc] Close "
        } else {
            " [↑/↓] Files  [j/k/PgUp/PgDn] Scroll  [Tab] View Staged  [s] Stage  [r] Review  [Esc] Close "
        },
    )
}

fn help_entry_line(key: &str, color: ThemeColor, text: &str) -> (l: StyledLine)
    ensures
        line_view(l) == help_entry(key@, color, text@),
{
    let mut v: Vec<StyledSpan> = Vec::new();
    v.push(span_str(key, style_fg(color)));
    v.push(span_str(text, style_fg(ThemeColor::TextPrimary)));
    let l = line_from(v);
    assert(line_view(l) =~= help_entry(key@, color, text@));
    l
}

/// The help dialog's lines.
pub fn help_lines() -> (r: Vec<StyledLine>)
    ensures
        lines_view(r@) == help_spec(),
{
    let mut out: Vec<StyledLine> = Vec::new();
    push_line(&mut out, one_span_line("⚡ minicode Help & Keyboard Shortcuts", style_fg_bold(ThemeColor::BrandAccent)));
    push_line(&mut out, blank_line_exec());
    push_line(&mut out, help_entry_line("  /model     ", ThemeColor::Success, "Choose LLM model & provider interactively"));
    push_line(&mut out, help_entry_line("  /theme     ", ThemeColor::Success, "Switch TUI color theme palette interactively"));
    push_line(&mut out, help_entry_line("  /undo      ", ThemeColor::Success, "Revert all file modifications from previous turn"));
    push_line(&mut out, help_entry_line("  /sessions  ", ThemeColor::Success, "Browse & reload past workspace session history"));
    push_line(
        &mut out,
        help_entry_line("  /copy      ", ThemeColor::Success, "Copy latest AI response to clipboard (/copy all for whole chat)"),
    );
    push_line(&mut out, help_entry_line("  /clear     ", ThemeColor::Success, "Clear conversation timeline display"));
    push_line(&mut out, help_entry_line("  /exit      ", ThemeColor::Success, "Quit minicode interactive session"));
    push_line(&mut out, blank_line_exec());
    push_line(&mut out, help_entry_line("  Shift+Drag ", ThemeColor::Warning, "Select and copy text in terminal directly"));
    push_line(&mut out, help_entry_line("  Enter      ", ThemeColor::Warning, "Submit prompt or confirm action"));
    push_line(&mut out, help_entry_line("  Ctrl+J     ", ThemeColor::Warning, "Insert newline (multi-line prompt)"));
    push_line(&mut out, help_entry_line("  PgUp / PgDn", ThemeColor::Warning, "Scroll timeline (or Shift+↑/↓, Mouse wheel)"));
    push_line(&mut out, help_entry_line("  Home / End ", ThemeColor::Warning, "Scroll directly to top / bottom of timeline"));
    push_line(&mut out, help_entry_line("  Ctrl+T     ", ThemeColor::Warning, "Toggle embedded PTY terminal drawer"));
    push_line(&mut out, help_entry_line("  Esc        ", ThemeColor::Warning, "Interrupt running execution / close modal"));
    push_line(&mut out, blank_line_exec());
    push_line(&mut out, one_span_line("Press Esc or Enter to close", style_fg(ThemeColor::Muted)));
    assert(lines_view(out@) =~= help_spec());
    out
}


fn shown_file_name_exec(p: &str) -> (r: String)
    ensures
        r@ == shown_file_name(p@),
{
    match file_name_of(p) {
        Some(n) => n,
        None => p.to_owned(),
    }
}

fn file_summary_exec(files: &Vec<String>) -> (r: String)
    ensures
        r@ == file_summary(files@),
{
    let n = files.len();
    if n == 0 {
        return "0 files modified".to_owned();
    }
    let mut s = concat2(decimal_string(n).as_str(), " file(s) (");
    push_str(&mut s, shown_file_name_exec(files[0].as_str()).as_str());
    if n > 1 {
        push_str(&mut s, ", ");
        push_str(&mut s, shown_file_name_exec(files[1].as_str()).as_str());
    }
    if n > 2 {
        push_str(&mut s, " +");
        push_str(&mut s, decimal_string(n - 2).as_str());
        push_str(&mut s, " more");
    }
    push_str(&mut s, ")");
    assert(s@ =~= file_summary(files@));
    s
}

fn prompt_shown_exec(p: &str) -> (r: String)
    requires
        prompt_cut_ok(p@),
    ensures
        r@ == prompt_shown(p@),
{
    if p.len() <= 55 {
        return p.to_owned();
    }
    let (head, _) = p.split_at(52);
    proof {
        encode_utf8_decode_utf8(head@);
        assert(head.spec_bytes() =~= encode_utf8(p@).take(52));
    }
    concat2(head, "...")
}

fn checkpoint_push(out: &mut Vec<StyledLine>, cp: &TurnCheckpointInfo, selected: bool, is_last: bool)
    requires
        prompt_cut_ok(cp.prompt@),
    ensures
        lines_view(final(out)@) == lines_view(old(out)@) + checkpoint_lines(*cp, selected, is_last),
{
    let ghost start = lines_view(out@);
    let ghost spec = checkpoint_lines(*cp, selected, is_last);
    let rail = if is_last {
        style_fg(ThemeColor::BgElevated)
    } else {
        style_fg(ThemeColor::Muted)
    };
    let mut badge = concat3("[Turn ", decimal_string(cp.turn_id).as_str(), "]");
    if cp.is_latest {
        push_str(&mut badge, " (Latest)");
    }
    let mut a: Vec<StyledSpan> = Vec::new();
    a.push(span_str(
        if selected {
            "  ◉─ "
        } else {
            "  ○─ "
        },
        if selected {
            style_fg_bold(ThemeColor::BrandAccent)
        } else {
            style_fg(ThemeColor::Muted)
        },
    ));
    a.push(span_str(
        badge.as_str(),
        if selected {
            style_fg_bold(ThemeColor::Success)
        } else {
            style_fg(ThemeColor::Muted)
        },
    ));
    let la = line_from(a);
    assert(line_view(la) =~= spec[0]);
    push_line(out, la);
    let mut b: Vec<StyledSpan> = Vec::new();
    b.push(span_str("  │   ", rail));
    b.push(span_str(
        concat3("\"", prompt_shown_exec(cp.prompt.as_str()).as_str(), "\"").as_str(),
        if selected {
            style_fg_bold(ThemeColor::TextPrimary)
        } else {
            style_fg(ThemeColor::Muted)
        },
    ));
    let lb = line_from(b);
    assert(line_view(lb) =~= spec[1]);
    push_line(out, lb);
    let meta = concat3(
        concat2("└─ ", cp.time_ago.as_str()).as_str(),
        " • ",
        file_summary_exec(&cp.files).as_str(),
    );
    let mut c: Vec<StyledSpan> = Vec::new();
    c.push(span_str("  │   ", rail));
    c.push(span_str(
        meta.as_str(),
        if selected {
            style_fg(ThemeColor::BrandAccent)
        } else {
            style_fg(ThemeColor::Muted)
        },
    ));
    let lc = line_from(c);
    assert(line_view(lc) =~= spec[2]);
    push_line(out, lc);
    if !is_last {
        push_line(out, one_span_line("  │", style_fg(ThemeColor::Muted)));
    }
    assert(lines_view(out@) =~= start + spec);
}

fn five_window_exec(sel: usize, n: usize) -> (r: (usize, usize))
    ensures
        (r.0 as nat, r.1 as nat) == five_window(sel as nat, n as nat),
        r.0 <= r.1,
        r.0 < r.1 ==> r.1 <= n,
{
    let off = crate::ui::layout_utils::compute_scroll_offset(sel, 5);
    let end = if off < n && n - off > 5 {
        off + 5
    } else if off < n {
        n
    } else {
        off
    };
    (off, end)
}

/// The undo timeline's lines; the prompts shown are cut at a byte offset that must fall on
/// a character boundary.
pub fn undo_lines(cps: &Vec<TurnCheckpointInfo>, sel: usize) -> (r: Vec<StyledLine>)
    requires
        forall|i: int|
            five_window(sel as nat, cps@.len()).0 <= i < five_window(sel as nat, cps@.len()).1
                ==> prompt_cut_ok(#[trigger] cps@[i].prompt@),
    ensures
        lines_view(r@) == undo_spec(cps@, sel as nat),
{
    let (off, end) = five_window_exec(sel, cps.len());
    let mut out: Vec<StyledLine> = Vec::new();
    push_line(&mut out, blank_line_exec());
    let ghost head = lines_view(out@);
    let mut k: usize = off;
    while k < end
        invariant
            off <= k <= end,
            off < end ==> end <= cps@.len(),
            (off as nat, end as nat) == five_window(sel as nat, cps@.len()),
            forall|i: int| off <= i < end ==> prompt_cut_ok(#[trigger] cps@[i].prompt@),
            lines_view(out@) == head + checkpoints_from(cps@, sel as nat, off as int, k as int),
        decreases end - k,
    {
        assert(prompt_cut_ok(cps@[k as int].prompt@));
        checkpoint_push(&mut out, &cps[k], k == sel, k == cps.len() - 1);
        k += 1;
        assert(lines_view(out@) =~= head + checkpoints_from(cps@, sel as nat, off as int, k as int));
    }
    assert(lines_view(out@) =~= undo_spec(cps@, sel as nat));
    out
}

/// Key hints of the undo and theme pickers.
pub fn select_footer(action: &str) -> (r: StyledLine)
    ensures
        line_view(r) == select_footer_spec(action@),
{
    let mut v: Vec<StyledSpan> = Vec::new();
    v.push(span_str("[↑/↓] ", style_fg_bold(ThemeColor::BrandAccent)));
    v.push(span_str("Select   ", style_fg(ThemeColor::TextPrimary)));
    v.push(span_str("[Enter] ", style_fg_bold(ThemeColor::Success)));
    v.push(span_str(action, style_fg(ThemeColor::TextPrimary)));
    v.push(span_str("[Esc] ", style_fg_bold(ThemeColor::Warning)));
    v.push(span_str("Cancel", style_fg(ThemeColor::TextPrimary)));
    let l = line_from(v);
    assert(line_view(l) =~= select_footer_spec(action@));
    l
}

fn theme_push(out: &mut Vec<StyledLine>, t: &ThemeInfo, idx: usize, selected: bool)
    requires
        idx < usize::MAX,
    ensures
        lines_view(final(out)@) == lines_view(old(out)@) + theme_lines(*t, idx as nat, selected),
{
    let ghost start = lines_view(out@);
    let ghost spec = theme_lines(*t, idx as nat, selected);
    let mut a: Vec<StyledSpan> = Vec::new();
    a.push(span_str(
        if selected {
            "  ❯ "
        } else {
            "    "
        },
        style_fg_bold(ThemeColor::BrandAccent),
    ));
    a.push(span_str(concat3("[", decimal_string(idx + 1).as_str(), "] ").as_str(), style_fg(ThemeColor::Muted)));
    a.push(span_str(
        pad_right_exec(t.name.as_str(), 22).as_str(),
        if selected {
            style_fg_bold(ThemeColor::BrandAccent)
        } else {
            style_fg(ThemeColor::TextPrimary)
        },
    ));
    let ghost base = a@.map_values(|x: StyledSpan| span_view(x));
    let mut k: usize = 0;
    while k < t.swatches.len()
        invariant
            k <= t.swatches@.len(),
            a@.map_values(|x: StyledSpan| span_view(x)) == base + Seq::new(
                k as nat,
                |j: int| (" ■"@, fg(ThemeColor::Rgb(t.swatches@[j].0, t.swatches@[j].1, t.swatches@[j].2))),
            ),
        decreases t.swatches@.len() - k,
    {
        let (r, g, b) = t.swatches[k];
        assert(r == t.swatches@[k as int].0 && g == t.swatches@[k as int].1 && b == t.swatches@[k as int].2);
        let ghost before = a@;
        let sp = span_str(" ■", style_fg(ThemeColor::Rgb(r, g, b)));
        a.push(sp);
        assert(a@ =~= before.push(sp));
        assert(a@.map_values(|x: StyledSpan| span_view(x)) =~= before.map_values(|x: StyledSpan| span_view(x)).push(
            span_view(sp),
        ));
        k += 1;
        assert(a@.map_values(|x: StyledSpan| span_view(x)) =~= base + Seq::new(
            k as nat,
            |j: int| (" ■"@, fg(ThemeColor::Rgb(t.swatches@[j].0, t.swatches@[j].1, t.swatches@[j].2))),
        ));
    }
    let la = line_from(a);
    assert(line_view(la) =~= spec[0]);
    push_line(out, la);
    let mut b: Vec<StyledSpan> = Vec::new();
    b.push(span_str("        ", style_plain()));
    b.push(span_str(
        t.description.as_str(),
        if selected {
            style_fg(ThemeColor::TextPrimary)
        } else {
            style_fg(ThemeColor::Muted)
        },
    ));
    let lb = line_from(b);
    assert(line_view(lb) =~= spec[1]);
    push_line(out, lb);
    push_line(out, blank_line_exec());
    assert(lines_view(out@) =~= start + spec);
}

/// The theme switcher's lines.
pub fn theme_switcher_lines(ts: &Vec<ThemeInfo>, sel: usize) -> (r: Vec<StyledLine>)
    ensures
        lines_view(r@) == theme_switcher_spec(ts@, sel as nat),
{
    let (off, end) = five_window_exec(sel, ts.len());
    let mut out: Vec<StyledLine> = Vec::new();
    push_line(&mut out, blank_line_exec());
    let ghost head = lines_view(out@);
    let mut k: usize = off;
    while k < end
        invariant
            off <= k <= end,
            off < end ==> end <= ts@.len(),
            lines_view(out@) == head + themes_from(ts@, sel as nat, off as int, k as int),
        decreases end - k,
    {
        theme_push(&mut out, &ts[k], k, k == sel);
        k += 1;
        assert(lines_view(out@) =~= head + themes_from(ts@, sel as nat, off as int, k as int));
    }
    assert(lines_view(out@) =~= theme_switcher_spec(ts@, sel as nat));
    out
}

} // verus!
