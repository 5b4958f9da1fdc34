//! Content of the `/settings` modal as styled lines: the tab bar, the divider, the Workspace,
//! Autonomy and Probes tabs, and the key hints of the footer.

use vstd::prelude::*;
use crate::records::ConnectionTestResult;
use crate::text::{chars_of, decimal, str_eq, string_from_chars, u64_to_decimal};
use crate::tools::{concat2, concat3};
use crate::ui::modals::command_catalog::{
    scroll_offset_spec, blank_line, blank_line_exec, pad_left, pad_left_exec, pad_right, pad_right_exec,
};
use crate::ui::modals::settings::{
    strip_width, tab_strip_width, tab_window, truncate_cut_ok, truncate_middle, truncated_middle,
    widened, width_sum, format_context_tokens, format_context_tokens_spec, SettingsModalState,
    SettingsTab,
};
use crate::ui::styled::{
    fg, fg_bold, lemma_lines_view_push, line_from, line_view, lines_view, plain_style, span_str,
    span_view, style_fg, style_fg_bold, style_plain, SpanStyle, StyledLine, StyledSpan,
    ThemeColor,
};

verus! {

/// The tab at position `i` of the tab bar.
pub open spec fn tab_at(i: int) -> SettingsTab {
    if i == 0 {
        SettingsTab::Providers
    } else if i == 1 {
        SettingsTab::Workspace
    } else if i == 2 {
        SettingsTab::Autonomy
    } else {
        SettingsTab::Probes
    }
}

/// Title of a tab.
pub open spec fn tab_title(t: SettingsTab) -> Seq<char> {
    match t {
        SettingsTab::Providers => "1. Providers"@,
        SettingsTab::Workspace => "2. Workspace"@,
        SettingsTab::Autonomy => "3. Autonomy"@,
        SettingsTab::Probes => "4. Probes"@,
    }
}

/// A tab as shown in the bar: ` [ title ] `.
pub open spec fn tab_label(t: SettingsTab) -> Seq<char> {
    " [ "@ + tab_title(t) + " ] "@
}

/// Widths of the four tab labels, in order (their characters are ASCII, so their length is
/// their width).
pub open spec fn tab_label_widths() -> Seq<usize> {
    seq![
        tab_label(tab_at(0)).len() as usize,
        tab_label(tab_at(1)).len() as usize,
        tab_label(tab_at(2)).len() as usize,
        tab_label(tab_at(3)).len() as usize,
    ]
}

/// Highlight of the active tab: background-coloured text on the accent colour, bold.
pub open spec fn active_tab_style() -> SpanStyle {
    SpanStyle {
        fg: Some(ThemeColor::BgPrimary),
        bg: Some(ThemeColor::BrandAccent),
        bold: true,
        underlined: false,
        italic: false, dim: false,
    }
}

/// The span of the tab at position `i`, highlighted when it is the active tab.
pub open spec fn tab_span(i: int, active: SettingsTab) -> (Seq<char>, SpanStyle) {
    (tab_label(tab_at(i)), if tab_at(i) == active {
        active_tab_style()
    } else {
        fg(ThemeColor::TextPrimary)
    })
}

/// The tabs at positions `s..=e`, two spaces between neighbours.
pub open spec fn tab_run(s: int, e: int, active: SettingsTab) -> Seq<(Seq<char>, SpanStyle)>
    decreases e - s,
{
    if e < s {
        seq![]
    } else if e == s {
        seq![tab_span(s, active)]
    } else {
        tab_run(s, e - 1, active) + seq![("  "@, plain_style()), tab_span(e, active)]
    }
}

/// The tab bar in `avail` columns: every tab after one space where the whole strip fits;
/// otherwise the widest window around the active tab that fits, with `◀`/`▶` marks where
/// tabs are hidden to the left or right.
pub open spec fn settings_tab_bar_spec(active: SettingsTab, avail: nat) -> Seq<
    (Seq<char>, SpanStyle),
> {
    let w = tab_label_widths();
    if strip_width(w) <= avail {
        seq![(" "@, plain_style())] + tab_run(0, 3, active)
    } else {
        let r = widened(w, avail as int, active.index_spec(), active.index_spec());
        (if r.0 > 0 {
            seq![("◀ "@, fg_bold(ThemeColor::BrandAccent))]
        } else {
            seq![(" "@, plain_style())]
        }) + tab_run(r.0, r.1, active) + (if r.1 + 1 < 4 {
            seq![(" ▶"@, fg_bold(ThemeColor::BrandAccent))]
        } else {
            seq![]
        })
    }
}

/// The divider under the tab bar: `width` box-drawing characters.
pub open spec fn settings_divider_spec(width: nat) -> Seq<(Seq<char>, SpanStyle)> {
    seq![(Seq::new(width, |i: int| '─'), fg(ThemeColor::Border))]
}

/// The selection mark in front of an item.
pub open spec fn cursor_mark(selected: bool) -> Seq<char> {
    if selected {
        "  ❯ "@
    } else {
        "    "@
    }
}

/// Byte budget for the workspace path: the content width less 26, at least 20.
pub open spec fn path_budget(inner: nat) -> nat {
    if inner >= 46 {
        (inner - 26) as nat
    } else {
        20
    }
}

/// The Workspace tab for a content area `inner` columns wide: the workspace root (cut in
/// the middle to `path_budget(inner)` bytes), the active provider and model, and the choice
/// of where settings are saved.
pub open spec fn workspace_tab_spec(s: SettingsModalState, inner: nat) -> Seq<
    Seq<(Seq<char>, SpanStyle)>,
> {
    let sel = s.selected_index;
    let ws = s.save_to_workspace;
    seq![
        blank_line(),
        seq![
            (cursor_mark(sel == 0), fg_bold(ThemeColor::BrandAccent)),
            ("📂 Workspace Root: "@, fg_bold(ThemeColor::BrandAccent)),
            (truncated_middle(s.workspace_path@, path_budget(inner)), fg(ThemeColor::TextPrimary)),
        ],
        blank_line(),
        seq![
            (cursor_mark(sel == 1), fg_bold(ThemeColor::BrandAccent)),
            ("🤖 Assigned Provider & Model: "@, fg_bold(ThemeColor::BrandAccent)),
            (s.active_provider@ + " → "@ + s.active_model@, fg(ThemeColor::TextPrimary)),
        ],
        blank_line(),
        seq![
            (cursor_mark(sel == 2), fg_bold(ThemeColor::BrandAccent)),
            ("🎯 Configuration Scope Preference:"@, fg_bold(ThemeColor::BrandAccent)),
        ],
        blank_line(),
        seq![
            ("      "@, plain_style()),
            (if ws {
                "[●] Workspace only (.minicode/config.toml)"@
            } else {
                "[○] Workspace only (.minicode/config.toml)"@
            }, if ws {
                fg_bold(ThemeColor::Success)
            } else {
                fg(ThemeColor::TextPrimary)
            }),
            ("  — Project isolated; checked into git"@, fg(ThemeColor::Muted)),
        ],
        seq![
            ("      "@, plain_style()),
            (if !ws {
                "[●] Global default (~/.config/minicode/config.toml)"@
            } else {
                "[○] Global default (~/.config/minicode/config.toml)"@
            }, if !ws {
                fg_bold(ThemeColor::BrandAccent)
            } else {
                fg(ThemeColor::TextPrimary)
            }),
            ("  — Global user default across all repos"@, fg(ThemeColor::Muted)),
        ],
        blank_line(),
        seq![
            ("    "@, plain_style()),
            ("Press [Enter] or [Space] to toggle scope preference"@, fg(ThemeColor::Muted)),
        ],
    ]
}

/// The thinking budget as shown: `0 tokens (Disabled)` or `<n> tokens`.
pub open spec fn budget_label(b: nat) -> Seq<char> {
    if b == 0 {
        "0 tokens (Disabled)"@
    } else {
        decimal(b) + " tokens"@
    }
}

/// Style of a value that is highlighted while its item is selected.
pub open spec fn value_style(selected: bool) -> SpanStyle {
    if selected {
        fg_bold(ThemeColor::BrandAccent)
    } else {
        fg(ThemeColor::TextPrimary)
    }
}

/// The Autonomy tab: auto-approve, thinking budget and approval policy.
pub open spec fn autonomy_tab_spec(s: SettingsModalState) -> Seq<Seq<(Seq<char>, SpanStyle)>> {
    let sel = s.selected_index;
    let aa = s.auto_approve;
    seq![
        blank_line(),
        seq![
            (cursor_mark(sel == 0), fg_bold(ThemeColor::BrandAccent)),
            ("⚡ Auto-Approve: "@, fg_bold(ThemeColor::BrandAccent)),
            (if aa {
                "[●] Enabled (Auto-execute)"@
            } else {
                "[○] Disabled (Prompt confirmation)"@
            }, if aa {
                fg_bold(ThemeColor::Success)
            } else {
                fg(ThemeColor::TextPrimary)
            }),
            (if aa {
                "  — Auto-executes tool actions"@
            } else {
                "  — Prompts before mutating actions"@
            }, fg(ThemeColor::Muted)),
        ],
        blank_line(),
        seq![
            (cursor_mark(sel == 1), fg_bold(ThemeColor::BrandAccent)),
            ("🧠 Extended Thinking Budget: "@, fg_bold(ThemeColor::BrandAccent)),
            (budget_label(s.thinking_budget as nat), value_style(sel == 1)),
            ("  — Allocated reasoning tokens (models with extended thinking)"@, fg(ThemeColor::Muted)),
        ],
        blank_line(),
        seq![
            (cursor_mark(sel == 2), fg_bold(ThemeColor::BrandAccent)),
            ("🛡️ Approval Policy: "@, fg_bold(ThemeColor::BrandAccent)),
            ("[ "@ + s.approval_policy@ + " ]"@, value_style(sel == 2)),
            (
                "  — (strict: confirm all | prompt: mutate only | permissive: full autonomy)"@,
                fg(ThemeColor::Muted),
            ),
        ],
        blank_line(),
        seq![
            ("    "@, plain_style()),
            (
                "Press [Enter] or [Space] to toggle auto-approve or cycle budget/policy"@,
                fg(ThemeColor::Muted),
            ),
        ],
    ]
}

/// Status mark of a probe result: `✔` connected, `✗` disconnected, `○` otherwise.
pub open spec fn probe_badge(status: Seq<char>) -> (Seq<char>, SpanStyle) {
    if status == "connected"@ {
        ("✔"@, fg_bold(ThemeColor::Success))
    } else if status == "disconnected"@ {
        ("✗"@, fg_bold(ThemeColor::Destructive))
    } else {
        ("○"@, fg(ThemeColor::Warning))
    }
}

/// One probe result: its mark, the provider left-aligned in 12 columns and the latency
/// right-aligned in 4 columns followed by `ms`.
pub open spec fn probe_entry(r: ConnectionTestResult) -> Seq<(Seq<char>, SpanStyle)> {
    seq![
        probe_badge(r.status@),
        (" "@, plain_style()),
        (pad_right(r.provider@, 12), fg_bold(ThemeColor::TextPrimary)),
        (pad_left(decimal(r.latency_ms as nat), 4) + "ms"@, fg(ThemeColor::Muted)),
    ]
}

/// The row of results `i` and, where there is one, `i + 1`.
pub open spec fn probe_row(rs: Seq<ConnectionTestResult>, i: int) -> Seq<(Seq<char>, SpanStyle)> {
    seq![("    "@, plain_style())] + probe_entry(rs[i]) + (if i + 1 < rs.len() {
        seq![("     "@, plain_style())] + probe_entry(rs[i + 1])
    } else {
        seq![]
    })
}

/// The results two to a row.
pub open spec fn probe_rows(rs: Seq<ConnectionTestResult>) -> Seq<Seq<(Seq<char>, SpanStyle)>> {
    Seq::new((rs.len() + 1) / 2, |k: int| probe_row(rs, 2 * k))
}

/// The Probes tab: the probe action, then a progress note while probing, the results where
/// there are some, or a hint.
pub open spec fn probes_tab_spec(s: SettingsModalState) -> Seq<Seq<(Seq<char>, SpanStyle)>> {
    seq![
        blank_line(),
        seq![
            ("  ❯ "@, fg_bold(ThemeColor::BrandAccent)),
            ("[ ▶ Probe All Configured Provider Endpoints ]"@, fg_bold(ThemeColor::BrandAccent)),
            ("  — Verifies connectivity, latency & credentials"@, fg(ThemeColor::Muted)),
        ],
        blank_line(),
    ] + (if s.probing {
        seq![
            seq![
                ("    "@, plain_style()),
                (
                    "⏳ Testing connectivity, latency, and credentials across all providers..."@,
                    fg(ThemeColor::Warning),
                ),
            ],
        ]
    } else {
        match s.probe_results {
            Some(rs) => probe_rows(rs@),
            None => seq![
                seq![
                    ("    "@, plain_style()),
                    (
                        "Press [Enter] or [Space] to test live connections, ping latencies, and credentials."@,
                        fg(ThemeColor::Muted),
                    ),
                ],
            ],
        }
    })
}

/// The key hints of the footer: those of the model list while a provider's models are
/// shown, else the general ones.
pub open spec fn settings_footer_spec(choosing_model: bool) -> Seq<(Seq<char>, SpanStyle)> {
    if choosing_model {
        seq![
            ("  [↑/↓] "@, fg_bold(ThemeColor::BrandAccent)),
            ("Navigate Models  "@, fg(ThemeColor::TextPrimary)),
            ("[Enter] "@, fg_bold(ThemeColor::BrandAccent)),
            ("Set Default Model  "@, fg(ThemeColor::TextPrimary)),
            ("[Esc/Backspace] "@, fg_bold(ThemeColor::Muted)),
            ("Back to Providers  "@, fg(ThemeColor::Muted)),
            ("[Tab] "@, fg(ThemeColor::Muted)),
            ("Next Tab"@, fg(ThemeColor::Muted)),
        ]
    } else {
        seq![
            ("  [Tab/◄►] "@, fg_bold(ThemeColor::BrandAccent)),
            ("Switch Tab  "@, fg(ThemeColor::TextPrimary)),
            ("[↑/↓] "@, fg_bold(ThemeColor::BrandAccent)),
            ("Navigate  "@, fg(ThemeColor::TextPrimary)),
            ("[Enter] "@, fg_bold(ThemeColor::BrandAccent)),
            ("Choose/Toggle  "@, fg(ThemeColor::TextPrimary)),
            ("[Space] "@, fg_bold(ThemeColor::BrandAccent)),
            ("Activate/Toggle  "@, fg(ThemeColor::TextPrimary)),
            ("[Esc] "@, fg(ThemeColor::Muted)),
            ("Save & Close"@, fg(ThemeColor::Muted)),
        ]
    }
}

/// Name of the provider at position `i` of `SUPPORTED_PROVIDERS`.
pub open spec fn provider_name(i: int) -> Seq<char> {
    if i == 0 {
        "anthropic"@
    } else if i == 1 {
        "openrouter"@
    } else if i == 2 {
        "gemini"@
    } else if i == 3 {
        "openai"@
    } else if i == 4 {
        "deepseek"@
    } else if i == 5 {
        "groq"@
    } else if i == 6 {
        "minimax"@
    } else if i == 7 {
        "z.ai"@
    } else if i == 8 {
        "together"@
    } else if i == 9 {
        "mistral"@
    } else if i == 10 {
        "ollama"@
    } else if i == 11 {
        "lmstudio"@
    } else if i == 12 {
        "vllm"@
    } else {
        "localhost"@
    }
}

/// First row and number of rows shown of a list of `len` rows, `max_visible` at a time,
/// keeping `selected` in view.
pub open spec fn list_window(selected: nat, max_visible: nat, len: nat) -> (nat, nat) {
    let off = scroll_offset_spec(selected, max_visible);
    (off, if off >= len {
        0
    } else if len - off < max_visible {
        (len - off) as nat
    } else {
        max_visible
    })
}

/// Row `i` of the provider list: cursor, name in 14 columns, its default model in 30
/// columns (the active model for the active provider where one is set, else `defaults[i]`)
/// and an `[Active ✔]` mark on the active provider.
pub open spec fn provider_row(s: SettingsModalState, defaults: Seq<String>, i: int) -> Seq<
    (Seq<char>, SpanStyle),
> {
    let p = provider_name(i);
    let active = p == s.active_provider@;
    let dm = if active && s.active_model@.len() > 0 {
        s.active_model@
    } else {
        defaults[i]@
    };
    seq![
        (cursor_mark(i == s.selected_index), fg_bold(ThemeColor::BrandAccent)),
        (pad_right(p, 14), value_style(i == s.selected_index)),
        (" default: "@, fg(ThemeColor::Muted)),
        (pad_right(dm, 30), fg(ThemeColor::TextPrimary)),
    ] + (if active {
        seq![(" [Active ✔]"@, fg_bold(ThemeColor::Success))]
    } else {
        seq![]
    })
}

/// The Providers tab's list: seven providers at a time around the selection, then a hint.
/// `defaults[i]` is the default model of provider `i`.
pub open spec fn providers_list_spec(s: SettingsModalState, defaults: Seq<String>) -> Seq<
    Seq<(Seq<char>, SpanStyle)>,
> {
    let w = list_window(s.selected_index as nat, 7, 14);
    seq![blank_line()] + Seq::new(w.1, |k: int| provider_row(s, defaults, w.0 + k)) + seq![
        blank_line(),
        seq![
            ("    "@, plain_style()),
            (
                "Press [Enter] to browse & choose models  •  [Space] to activate provider immediately"@,
                fg(ThemeColor::Muted),
            ),
        ],
    ]
}

/// Row `i` of a provider's model list: cursor, the model id cut in the middle to 34 bytes
/// and padded to 34 columns, the context size right-aligned in 6 columns, and marks for
/// reasoning support, the active model, or the provider's default model.
pub open spec fn model_row(
    s: SettingsModalState,
    prov: Seq<char>,
    current_default: Seq<char>,
    reasoning: Seq<bool>,
    i: int,
) -> Seq<(Seq<char>, SpanStyle)> {
    let m = s.provider_models@[i];
    let sel = i == s.model_selected_index;
    let is_active = m.id@ == s.active_model@ && prov == s.active_provider@;
    let is_default = is_active || m.id@ == current_default;
    seq![
        (cursor_mark(sel), fg_bold(ThemeColor::BrandAccent)),
        (pad_right(truncated_middle(m.id@, 34), 34), value_style(sel)),
        (" "@, plain_style()),
        (pad_left(format_context_tokens_spec(m.context_length), 6) + " ctx"@, fg(ThemeColor::Muted)),
    ] + (if reasoning[i] {
        seq![(" "@, plain_style()), ("[🧠 Reasoning]"@, fg(ThemeColor::Warning))]
    } else {
        seq![]
    }) + (if is_active {
        seq![(" "@, plain_style()), ("[Active ✔]"@, fg_bold(ThemeColor::Success))]
    } else if is_default {
        seq![(" "@, plain_style()), ("[Default]"@, fg(ThemeColor::BrandAccent))]
    } else {
        seq![]
    })
}

/// The visible rows of the model list: eight at a time around the selected model.
pub open spec fn model_window(s: SettingsModalState) -> (nat, nat) {
    list_window(s.model_selected_index as nat, 8, s.provider_models@.len())
}

/// The model list shown for provider `prov`: a title with the model count, a hint, the
/// visible rows (or a warning when there are no models), and the key hint.
/// `current_default` is the provider's default model and `reasoning[i]` tells whether model
/// `i` supports extended reasoning.
pub open spec fn model_list_spec(
    s: SettingsModalState,
    prov: Seq<char>,
    current_default: Seq<char>,
    reasoning: Seq<bool>,
) -> Seq<Seq<(Seq<char>, SpanStyle)>> {
    let n = s.provider_models@.len();
    let w = model_window(s);
    seq![
        blank_line(),
        seq![
            ("  📋 Select Default Model for: "@, fg_bold(ThemeColor::BrandAccent)),
            (prov, fg_bold(ThemeColor::BrandAccent)),
            ("  ("@ + decimal(n) + " models available)"@, fg(ThemeColor::Muted)),
        ],
        seq![
            ("     "@, plain_style()),
            (
                "Choose a model to assign as default for this provider & switch active model."@,
                fg(ThemeColor::Muted),
            ),
        ],
        blank_line(),
    ] + (if n == 0 {
        seq![
            seq![
                ("    "@, plain_style()),
                (
                    "⚠️ No models found or provider unconfigured. Press [Esc] to return to providers."@,
                    fg(ThemeColor::Warning),
                ),
            ],
        ]
    } else {
        Seq::new(w.1, |k: int| model_row(s, prov, current_default, reasoning, w.0 + k))
    }) + seq![
        blank_line(),
        seq![
            ("    "@, plain_style()),
            (
                "Press [Enter] to set as default  •  [Esc] or [Backspace] to return to providers"@,
                fg(ThemeColor::Muted),
            ),
        ],
    ]
}

/// The content area of the settings modal: the active tab's lines. On the Providers tab
/// that is the model list of the provider being browsed, if any, else the provider list.
pub open spec fn settings_content_spec(
    s: SettingsModalState,
    inner: nat,
    defaults: Seq<String>,
    current_default: Seq<char>,
    reasoning: Seq<bool>,
) -> Seq<Seq<(Seq<char>, SpanStyle)>> {
    match s.active_tab {
        SettingsTab::Providers => match s.selecting_model_for_provider {
            Some(p) => model_list_spec(s, p@, current_default, reasoning),
            None => providers_list_spec(s, defaults),
        },
        SettingsTab::Workspace => workspace_tab_spec(s, inner),
        SettingsTab::Autonomy => autonomy_tab_spec(s),
        SettingsTab::Probes => probes_tab_spec(s),
    }
}

/// What the settings content needs of its arguments: a default model for each provider,
/// a reasoning flag for each model, and cut points on character boundaries for the texts
/// that are shortened in the middle on the active tab.
pub open spec fn settings_content_ok(
    s: SettingsModalState,
    inner: nat,
    defaults: Seq<String>,
    reasoning: Seq<bool>,
) -> bool {
    &&& defaults.len() == 14
    &&& reasoning.len() == s.provider_models@.len()
    &&& s.active_tab == SettingsTab::Workspace ==> truncate_cut_ok(s.workspace_path@, path_budget(inner))
    &&& s.active_tab == SettingsTab::Providers && s.selecting_model_for_provider is Some ==> forall|i: int|
        model_window(s).0 <= i < model_window(s).0 + model_window(s).1 ==> truncate_cut_ok(
            #[trigger] s.provider_models@[i].id@,
            34,
        )
}

fn tab_style_exec(t: SettingsTab, active: SettingsTab) -> (s: SpanStyle)
    ensures
        s == (if t == active {
            active_tab_style()
        } else {
            fg(ThemeColor::TextPrimary)
        }),
{
    if t == active {
        SpanStyle {
            fg: Some(ThemeColor::BgPrimary),
            bg: Some(ThemeColor::BrandAccent),
            bold: true,
            underlined: false,
            italic: false, dim: false,
        }
    } else {
        style_fg(ThemeColor::TextPrimary)
    }
}

/// The tab bar of the settings modal for a content area `avail` columns wide.
pub fn settings_tab_bar(active: SettingsTab, avail: usize) -> (r: StyledLine)
    ensures
        line_view(r) == settings_tab_bar_spec(active, avail as nat),
{
    let tabs = SettingsTab::all();
    let mut labels: Vec<String> = Vec::new();
    let mut widths: Vec<usize> = Vec::new();
    let mut i: usize = 0;
    while i < 4
        invariant
            i <= 4,
            tabs@ == seq![
                SettingsTab::Providers,
                SettingsTab::Workspace,
                SettingsTab::Autonomy,
                SettingsTab::Probes,
            ],
            labels@.len() == i,
            widths@.len() == i,
            forall|k: int| 0 <= k < i ==> labels@[k]@ == tab_label(tab_at(k)),
            forall|k: int| 0 <= k < i ==> widths@[k] == tab_label(tab_at(k)).len(),
        decreases 4 - i,
    {
        let l = concat3(" [ ", tabs[i].title(), " ] ");
        assert(tabs@[i as int] == tab_at(i as int));
        widths.push(chars_of(l.as_str()).len());
        labels.push(l);
        i += 1;
    }
    proof {
        reveal_strlit("1. Providers");
        reveal_strlit("2. Workspace");
        reveal_strlit("3. Autonomy");
        reveal_strlit("4. Probes");
        reveal_strlit(" [ ");
        reveal_strlit(" ] ");
        assert(widths@ =~= tab_label_widths());
        reveal_with_fuel(width_sum, 5);
        assert(width_sum(widths@, 0, 4) == 68);
    }
    let mut spans: Vec<StyledSpan> = Vec::new();
    let start: usize;
    let end: usize;
    let fits = tab_strip_width(&widths) <= avail;
    if fits {
        spans.push(span_str(" ", style_plain()));
        start = 0;
        end = 3;
    } else {
        let ai: usize = match active {
            SettingsTab::Providers => 0,
            SettingsTab::Workspace => 1,
            SettingsTab::Autonomy => 2,
            SettingsTab::Probes => 3,
        };
        let (s, e) = tab_window(&widths, ai, avail);
        proof {
            crate::ui::modals::settings::lemma_tab_window(widths@, avail as int, ai as int);
        }
        if s > 0 {
            spans.push(span_str("◀ ", style_fg_bold(ThemeColor::BrandAccent)));
        } else {
            spans.push(span_str(" ", style_plain()));
        }
        start = s;
        end = e;
    }
    let ghost head = spans@.map_values(|x: StyledSpan| span_view(x));
    assert(start <= end < 4);
    spans.push(span_str(labels[start].as_str(), tab_style_exec(tabs[start], active)));
    proof {
        assert(tabs@[start as int] == tab_at(start as int));
        assert(spans@.map_values(|x: StyledSpan| span_view(x)) =~= head + tab_run(
            start as int,
            start as int,
            active,
        ));
    }
    let mut k: usize = start + 1;
    while k <= end
        invariant
            start < k <= end + 1,
            end < 4,
            tabs@ == seq![
                SettingsTab::Providers,
                SettingsTab::Workspace,
                SettingsTab::Autonomy,
                SettingsTab::Probes,
            ],
            labels@.len() == 4,
            forall|m: int| 0 <= m < 4 ==> labels@[m]@ == tab_label(tab_at(m)),
            spans@.map_values(|x: StyledSpan| span_view(x)) == head + tab_run(
                start as int,
                k - 1,
                active,
            ),
        decreases end + 1 - k,
    {
        let ghost before = spans@;
        spans.push(span_str("  ", style_plain()));
        spans.push(span_str(labels[k].as_str(), tab_style_exec(tabs[k], active)));
        proof {
            assert(tabs@[k as int] == tab_at(k as int));
            assert(spans@ =~= before.push(spans@[spans@.len() - 2]).push(spans@.last()));
            assert(spans@.map_values(|x: StyledSpan| span_view(x)) =~= before.map_values(
                |x: StyledSpan| span_view(x),
            ) + seq![("  "@, plain_style()), tab_span(k as int, active)]);
        }
        k += 1;
    }
    let ghost mid = spans@;
    let ghost tail: Seq<(Seq<char>, SpanStyle)> = seq![];
    if !fits && end + 1 < 4 {
        spans.push(span_str(" ▶", style_fg_bold(ThemeColor::BrandAccent)));
        proof {
            tail = seq![(" ▶"@, fg_bold(ThemeColor::BrandAccent))];
        }
    }
    proof {
        assert(spans@.map_values(|x: StyledSpan| span_view(x)) =~= mid.map_values(
            |x: StyledSpan| span_view(x),
        ) + tail);
    }
    let l = line_from(spans);
    proof {
        let w = tab_label_widths();
        if fits {
            assert(head =~= seq![(" "@, plain_style())]);
        } else {
            let r = widened(w, avail as int, active.index_spec(), active.index_spec());
            assert(start == r.0 && end == r.1);
        }
    }
    assert(line_view(l) =~= settings_tab_bar_spec(active, avail as nat));
    l
}

/// The divider line `width` columns wide.
pub fn settings_divider(width: usize) -> (r: StyledLine)
    ensures
        line_view(r) == settings_divider_spec(width as nat),
{
    let mut cs: Vec<char> = Vec::new();
    let mut i: usize = 0;
    while i < width
        invariant
            i <= width,
            cs@ == Seq::new(i as nat, |j: int| '─'),
        decreases width - i,
    {
        cs.push('─');
        i += 1;
        assert(cs@ =~= Seq::new(i as nat, |j: int| '─'));
    }
    let mut spans: Vec<StyledSpan> = Vec::new();
    spans.push(crate::ui::styled::span_from(&cs, style_fg(ThemeColor::Border)));
    let l = line_from(spans);
    assert(line_view(l) =~= settings_divider_spec(width as nat));
    l
}


fn line2(a: StyledSpan, b: StyledSpan) -> (l: StyledLine)
    ensures
        line_view(l) == seq![span_view(a), span_view(b)],
{
    let mut v: Vec<StyledSpan> = Vec::new();
    v.push(a);
    v.push(b);
    let l = line_from(v);
    assert(line_view(l) =~= seq![span_view(a), span_view(b)]);
    l
}

fn line3(a: StyledSpan, b: StyledSpan, c: StyledSpan) -> (l: StyledLine)
    ensures
        line_view(l) == seq![span_view(a), span_view(b), span_view(c)],
{
    let mut v: Vec<StyledSpan> = Vec::new();
    v.push(a);
    v.push(b);
    v.push(c);
    let l = line_from(v);
    assert(line_view(l) =~= seq![span_view(a), span_view(b), span_view(c)]);
    l
}

fn line4(a: StyledSpan, b: StyledSpan, c: StyledSpan, d: StyledSpan) -> (l: StyledLine)
    ensures
        line_view(l) == seq![span_view(a), span_view(b), span_view(c), span_view(d)],
{
    let mut v: Vec<StyledSpan> = Vec::new();
    v.push(a);
    v.push(b);
    v.push(c);
    v.push(d);
    let l = line_from(v);
    assert(line_view(l) =~= seq![span_view(a), span_view(b), span_view(c), span_view(d)]);
    l
}

fn cursor_exec(selected: bool) -> (r: &'static str)
    ensures
        r@ == cursor_mark(selected),
{
    if selected {
        "  ❯ "
    } else {
        "    "
    }
}

fn value_style_exec(selected: bool) -> (r: SpanStyle)
    ensures
        r == value_style(selected),
{
    if selected {
        style_fg_bold(ThemeColor::BrandAccent)
    } else {
        style_fg(ThemeColor::TextPrimary)
    }
}

/// The Workspace tab's lines for a content area `inner` columns wide.
pub fn workspace_tab_lines(s: &SettingsModalState, inner: usize) -> (r: Vec<StyledLine>)
    requires
        truncate_cut_ok(s.workspace_path@, path_budget(inner as nat)),
    ensures
        lines_view(r@) == workspace_tab_spec(*s, inner as nat),
{
    let budget: usize = if inner >= 46 {
        inner - 26
    } else {
        20
    };
    let sel = s.selected_index;
    let ws = s.save_to_workspace;
    let accent = style_fg_bold(ThemeColor::BrandAccent);
    let mut out: Vec<StyledLine> = Vec::new();
    out.push(blank_line_exec());
    let path = truncate_middle(s.workspace_path.as_str(), budget);
    out.push(line3(
        span_str(cursor_exec(sel == 0), accent),
        span_str("📂 Workspace Root: ", accent),
        span_str(path.as_str(), style_fg(ThemeColor::TextPrimary)),
    ));
    out.push(blank_line_exec());
    let pm = concat3(s.active_provider.as_str(), " → ", s.active_model.as_str());
    out.push(line3(
        span_str(cursor_exec(sel == 1), accent),
        span_str("🤖 Assigned Provider & Model: ", accent),
        span_str(pm.as_str(), style_fg(ThemeColor::TextPrimary)),
    ));
    out.push(blank_line_exec());
    out.push(line2(
        span_str(cursor_exec(sel == 2), accent),
        span_str("🎯 Configuration Scope Preference:", accent),
    ));
    out.push(blank_line_exec());
    out.push(line3(
        span_str("      ", style_plain()),
        span_str(
            if ws {
                "[●] Workspace only (.minicode/config.toml)"
            } else {
                "[○] Workspace only (.minicode/config.toml)"
            },
            if ws {
                style_fg_bold(ThemeColor::Success)
            } else {
                style_fg(ThemeColor::TextPrimary)
            },
        ),
        span_str("  — Project isolated; checked into git", style_fg(ThemeColor::Muted)),
    ));
    out.push(line3(
        span_str("      ", style_plain()),
        span_str(
            if !ws {
                "[●] Global default (~/.config/minicode/config.toml)"
            } else {
                "[○] Global default (~/.config/minicode/config.toml)"
            },
            if !ws {
                style_fg_bold(ThemeColor::BrandAccent)
            } else {
                style_fg(ThemeColor::TextPrimary)
            },
        ),
        span_str("  — Global user default across all repos", style_fg(ThemeColor::Muted)),
    ));
    out.push(blank_line_exec());
    out.push(line2(
        span_str("    ", style_plain()),
        span_str("Press [Enter] or [Space] to toggle scope preference", style_fg(ThemeColor::Muted)),
    ));
    assert(lines_view(out@) =~= workspace_tab_spec(*s, inner as nat));
    out
}

/// The Autonomy tab's lines.
pub fn autonomy_tab_lines(s: &SettingsModalState) -> (r: Vec<StyledLine>)
    ensures
        lines_view(r@) == autonomy_tab_spec(*s),
{
    let sel = s.selected_index;
    let aa = s.auto_approve;
    let accent = style_fg_bold(ThemeColor::BrandAccent);
    let mut out: Vec<StyledLine> = Vec::new();
    out.push(blank_line_exec());
    out.push(line4(
        span_str(cursor_exec(sel == 0), accent),
        span_str("⚡ Auto-Approve: ", accent),
        span_str(
            if aa {
                "[●] Enabled (Auto-execute)"
            } else {
                "[○] Disabled (Prompt confirmation)"
            },
            if aa {
                style_fg_bold(ThemeColor::Success)
            } else {
                style_fg(ThemeColor::TextPrimary)
            },
        ),
        span_str(
            if aa {
                "  — Auto-executes tool actions"
            } else {
                "  — Prompts before mutating actions"
            },
            style_fg(ThemeColor::Muted),
        ),
    ));
    out.push(blank_line_exec());
    let budget = if s.thinking_budget == 0 {
        "0 tokens (Disabled)".to_owned()
    } else {
        let digits = string_from_chars(&u64_to_decimal(s.thinking_budget as u64));
        concat2(digits.as_str(), " tokens")
    };
    assert(budget@ == budget_label(s.thinking_budget as nat));
    out.push(line4(
        span_str(cursor_exec(sel == 1), accent),
        span_str("🧠 Extended Thinking Budget: ", accent),
        span_str(budget.as_str(), value_style_exec(sel == 1)),
        span_str(
            "  — Allocated reasoning tokens (models with extended thinking)",
            style_fg(ThemeColor::Muted),
        ),
    ));
    out.push(blank_line_exec());
    let policy = concat3("[ ", s.approval_policy.as_str(), " ]");
    out.push(line4(
        span_str(cursor_exec(sel == 2), accent),
        span_str("🛡️ Approval Policy: ", accent),
        span_str(policy.as_str(), value_style_exec(sel == 2)),
        span_str(
            "  — (strict: confirm all | prompt: mutate only | permissive: full autonomy)",
            style_fg(ThemeColor::Muted),
        ),
    ));
    out.push(blank_line_exec());
    out.push(line2(
        span_str("    ", style_plain()),
        span_str(
            "Press [Enter] or [Space] to toggle auto-approve or cycle budget/policy",
            style_fg(ThemeColor::Muted),
        ),
    ));
    assert(lines_view(out@) =~= autonomy_tab_spec(*s));
    out
}

fn push_probe_entry(spans: &mut Vec<StyledSpan>, r: &ConnectionTestResult)
    ensures
        final(spans)@.map_values(|x: StyledSpan| span_view(x)) == old(spans)@.map_values(
            |x: StyledSpan| span_view(x),
        ) + probe_entry(*r),
{
    let ghost before = spans@;
    if str_eq(r.status.as_str(), "connected") {
        spans.push(span_str("✔", style_fg_bold(ThemeColor::Success)));
    } else if str_eq(r.status.as_str(), "disconnected") {
        spans.push(span_str("✗", style_fg_bold(ThemeColor::Destructive)));
    } else {
        spans.push(span_str("○", style_fg(ThemeColor::Warning)));
    }
    spans.push(span_str(" ", style_plain()));
    spans.push(span_str(
        pad_right_exec(r.provider.as_str(), 12).as_str(),
        style_fg_bold(ThemeColor::TextPrimary),
    ));
    let digits = string_from_chars(&u64_to_decimal(r.latency_ms));
    let latency = concat2(pad_left_exec(digits.as_str(), 4).as_str(), "ms");
    spans.push(span_str(latency.as_str(), style_fg(ThemeColor::Muted)));
    proof {
        let n = before.len();
        assert(spans@.len() == n + 4);
        assert(spans@.subrange(0, n as int) =~= before);
        assert(spans@.map_values(|x: StyledSpan| span_view(x)) =~= before.map_values(
            |x: StyledSpan| span_view(x),
        ) + probe_entry(*r));
    }
}

fn probe_row_line(rs: &Vec<ConnectionTestResult>, i: usize) -> (l: StyledLine)
    requires
        i < rs@.len(),
    ensures
        line_view(l) == probe_row(rs@, i as int),
{
    let mut spans: Vec<StyledSpan> = Vec::new();
    spans.push(span_str("    ", style_plain()));
    assert(spans@.map_values(|x: StyledSpan| span_view(x)) =~= seq![("    "@, plain_style())]);
    push_probe_entry(&mut spans, &rs[i]);
    if i < rs.len() - 1 {
        let ghost before = spans@;
        spans.push(span_str("     ", style_plain()));
        assert(spans@.map_values(|x: StyledSpan| span_view(x)) =~= before.map_values(
            |x: StyledSpan| span_view(x),
        ) + seq![("     "@, plain_style())]);
        push_probe_entry(&mut spans, &rs[i + 1]);
    }
    let l = line_from(spans);
    assert(line_view(l) =~= probe_row(rs@, i as int));
    l
}

/// The Probes tab's lines.
pub fn probes_tab_lines(s: &SettingsModalState) -> (r: Vec<StyledLine>)
    ensures
        lines_view(r@) == probes_tab_spec(*s),
{
    let mut out: Vec<StyledLine> = Vec::new();
    out.push(blank_line_exec());
    out.push(line3(
        span_str("  ❯ ", style_fg_bold(ThemeColor::BrandAccent)),
        span_str("[ ▶ Probe All Configured Provider Endpoints ]", style_fg_bold(ThemeColor::BrandAccent)),
        span_str("  — Verifies connectivity, latency & credentials", style_fg(ThemeColor::Muted)),
    ));
    out.push(blank_line_exec());
    let ghost head = lines_view(out@);
    if s.probing {
        out.push(line2(
            span_str("    ", style_plain()),
            span_str(
                "⏳ Testing connectivity, latency, and credentials across all providers...",
                style_fg(ThemeColor::Warning),
            ),
        ));
    } else {
        match &s.probe_results {
            Some(rs) => {
                let n = rs.len();
                let rows = n / 2 + n % 2;
                assert(rows == (n + 1) / 2);
                let mut k: usize = 0;
                while k < rows
                    invariant
                        k <= rows,
                        rows == (rs@.len() + 1) / 2,
                        n == rs@.len(),
                        lines_view(out@) == head + Seq::new(k as nat, |j: int| probe_row(rs@, 2 * j)),
                    decreases rows - k,
                {
                    let ghost before = out@;
                    out.push(probe_row_line(rs, 2 * k));
                    proof {
                        assert(out@ =~= before.push(out@.last()));
                        assert(lines_view(out@) =~= lines_view(before).push(
                            probe_row(rs@, 2 * k as int),
                        ));
                        assert(lines_view(out@) =~= head + Seq::new(
                            (k + 1) as nat,
                            |j: int| probe_row(rs@, 2 * j),
                        ));
                    }
                    k += 1;
                }
            },
            None => {
                out.push(line2(
                    span_str("    ", style_plain()),
                    span_str(
                        "Press [Enter] or [Space] to test live connections, ping latencies, and credentials.",
                        style_fg(ThemeColor::Muted),
                    ),
                ));
            },
        }
    }
    assert(lines_view(out@) =~= probes_tab_spec(*s));
    out
}

/// The footer's key hints.
pub fn settings_footer(choosing_model: bool) -> (r: StyledLine)
    ensures
        line_view(r) == settings_footer_spec(choosing_model),
{
    let accent = style_fg_bold(ThemeColor::BrandAccent);
    let text = style_fg(ThemeColor::TextPrimary);
    let muted = style_fg(ThemeColor::Muted);
    let mut v: Vec<StyledSpan> = Vec::new();
    if choosing_model {
        v.push(span_str("  [↑/↓] ", accent));
        v.push(span_str("Navigate Models  ", text));
        v.push(span_str("[Enter] ", accent));
        v.push(span_str("Set Default Model  ", text));
        v.push(span_str("[Esc/Backspace] ", style_fg_bold(ThemeColor::Muted)));
        v.push(span_str("Back to Providers  ", muted));
        v.push(span_str("[Tab] ", muted));
        v.push(span_str("Next Tab", muted));
    } else {
        v.push(span_str("  [Tab/◄►] ", accent));
        v.push(span_str("Switch Tab  ", text));
        v.push(span_str("[↑/↓] ", accent));
        v.push(span_str("Navigate  ", text));
        v.push(span_str("[Enter] ", accent));
        v.push(span_str("Choose/Toggle  ", text));
        v.push(span_str("[Space] ", accent));
        v.push(span_str("Activate/Toggle  ", text));
        v.push(span_str("[Esc] ", muted));
        v.push(span_str("Save & Close", muted));
    }
    let l = line_from(v);
    assert(line_view(l) =~= settings_footer_spec(choosing_model));
    l
}


fn supported_provider(i: usize) -> (r: &'static str)
    requires
        i < 14,
    ensures
        r@ == provider_name(i as int),
{
    if i == 0 {
        "anthropic"
    } else if i == 1 {
        "openrouter"
    } else if i == 2 {
        "gemini"
    } else if i == 3 {
        "openai"
    } else if i == 4 {
        "deepseek"
    } else if i == 5 {
        "groq"
    } else if i == 6 {
        "minimax"
    } else if i == 7 {
        "z.ai"
    } else if i == 8 {
        "together"
    } else if i == 9 {
        "mistral"
    } else if i == 10 {
        "ollama"
    } else if i == 11 {
        "lmstudio"
    } else if i == 12 {
        "vllm"
    } else {
        "localhost"
    }
}

fn window_exec(selected: usize, max_visible: usize, len: usize) -> (r: (usize, usize))
    ensures
        (r.0 as nat, r.1 as nat) == list_window(selected as nat, max_visible as nat, len as nat),
        r.1 > 0 ==> r.0 + r.1 <= len,
{
    let off = crate::ui::layout_utils::compute_scroll_offset(selected, max_visible);
    let shown = if off >= len {
        0
    } else if len - off < max_visible {
        len - off
    } else {
        max_visible
    };
    (off, shown)
}

fn provider_row_line(s: &SettingsModalState, defaults: &Vec<String>, i: usize) -> (l: StyledLine)
    requires
        i < 14,
        defaults@.len() == 14,
    ensures
        line_view(l) == provider_row(*s, defaults@, i as int),
{
    let p = supported_provider(i);
    let active = str_eq(p, s.active_provider.as_str());
    let dm: &str = if active && chars_of(s.active_model.as_str()).len() > 0 {
        s.active_model.as_str()
    } else {
        defaults[i].as_str()
    };
    let mut v: Vec<StyledSpan> = Vec::new();
    v.push(span_str(cursor_exec(i == s.selected_index), style_fg_bold(ThemeColor::BrandAccent)));
    v.push(span_str(pad_right_exec(p, 14).as_str(), value_style_exec(i == s.selected_index)));
    v.push(span_str(" default: ", style_fg(ThemeColor::Muted)));
    v.push(span_str(pad_right_exec(dm, 30).as_str(), style_fg(ThemeColor::TextPrimary)));
    if active {
        v.push(span_str(" [Active ✔]", style_fg_bold(ThemeColor::Success)));
    }
    let l = line_from(v);
    assert(line_view(l) =~= provider_row(*s, defaults@, i as int));
    l
}

/// The Providers tab's list; `defaults[i]` is the default model of the provider at
/// position `i` of `SUPPORTED_PROVIDERS`.
pub fn providers_list_lines(s: &SettingsModalState, defaults: &Vec<String>) -> (r: Vec<StyledLine>)
    requires
        defaults@.len() == 14,
    ensures
        lines_view(r@) == providers_list_spec(*s, defaults@),
{
    let (off, shown) = window_exec(s.selected_index, 7, 14);
    let mut out: Vec<StyledLine> = Vec::new();
    out.push(blank_line_exec());
    let ghost head = lines_view(out@);
    let mut k: usize = 0;
    while k < shown
        invariant
            k <= shown,
            shown > 0 ==> off + shown <= 14,
            defaults@.len() == 14,
            lines_view(out@) == head + Seq::new(
                k as nat,
                |j: int| provider_row(*s, defaults@, off + j),
            ),
        decreases shown - k,
    {
        let ghost before = out@;
        out.push(provider_row_line(s, defaults, off + k));
        proof {
            assert(out@ =~= before.push(out@.last()));
            assert(lines_view(out@) =~= lines_view(before).push(
                provider_row(*s, defaults@, off + k),
            ));
            assert(lines_view(out@) =~= head + Seq::new(
                (k + 1) as nat,
                |j: int| provider_row(*s, defaults@, off + j),
            ));
        }
        k += 1;
    }
    let ghost mid = out@;
    let b = blank_line_exec();
    let hint = line2(
        span_str("    ", style_plain()),
        span_str(
            "Press [Enter] to browse & choose models  •  [Space] to activate provider immediately",
            style_fg(ThemeColor::Muted),
        ),
    );
    out.push(b);
    out.push(hint);
    proof {
        assert(out@ =~= mid.push(b).push(hint));
        lemma_lines_view_push(mid, b);
        lemma_lines_view_push(mid.push(b), hint);
    }
    assert(lines_view(out@) =~= providers_list_spec(*s, defaults@));
    out
}

fn model_row_line(
    s: &SettingsModalState,
    prov: &str,
    current_default: &str,
    reasoning: &Vec<bool>,
    i: usize,
) -> (l: StyledLine)
    requires
        i < s.provider_models@.len(),
        reasoning@.len() == s.provider_models@.len(),
        truncate_cut_ok(s.provider_models@[i as int].id@, 34),
    ensures
        line_view(l) == model_row(*s, prov@, current_default@, reasoning@, i as int),
{
    let m = &s.provider_models[i];
    let sel = i == s.model_selected_index;
    let is_active = str_eq(m.id.as_str(), s.active_model.as_str()) && str_eq(
        prov,
        s.active_provider.as_str(),
    );
    let is_default = is_active || str_eq(m.id.as_str(), current_default);
    let id = truncate_middle(m.id.as_str(), 34);
    let ctx = format_context_tokens(m.context_length);
    let ctx_col = concat2(pad_left_exec(ctx.as_str(), 6).as_str(), " ctx");
    let mut v: Vec<StyledSpan> = Vec::new();
    v.push(span_str(cursor_exec(sel), style_fg_bold(ThemeColor::BrandAccent)));
    v.push(span_str(pad_right_exec(id.as_str(), 34).as_str(), value_style_exec(sel)));
    v.push(span_str(" ", style_plain()));
    v.push(span_str(ctx_col.as_str(), style_fg(ThemeColor::Muted)));
    let ghost base = v@.map_values(|x: StyledSpan| span_view(x));
    let ghost mark1: Seq<(Seq<char>, SpanStyle)> = seq![];
    if reasoning[i] {
        v.push(span_str(" ", style_plain()));
        v.push(span_str("[🧠 Reasoning]", style_fg(ThemeColor::Warning)));
        proof {
            mark1 = seq![(" "@, plain_style()), ("[🧠 Reasoning]"@, fg(ThemeColor::Warning))];
        }
    }
    proof {
        assert(v@.map_values(|x: StyledSpan| span_view(x)) =~= base + mark1);
    }
    let ghost mid = v@.map_values(|x: StyledSpan| span_view(x));
    let ghost mark2: Seq<(Seq<char>, SpanStyle)> = seq![];
    if is_active {
        v.push(span_str(" ", style_plain()));
        v.push(span_str("[Active ✔]", style_fg_bold(ThemeColor::Success)));
        proof {
            mark2 = seq![(" "@, plain_style()), ("[Active ✔]"@, fg_bold(ThemeColor::Success))];
        }
    } else if is_default {
        v.push(span_str(" ", style_plain()));
        v.push(span_str("[Default]", style_fg(ThemeColor::BrandAccent)));
        proof {
            mark2 = seq![(" "@, plain_style()), ("[Default]"@, fg(ThemeColor::BrandAccent))];
        }
    }
    proof {
        assert(v@.map_values(|x: StyledSpan| span_view(x)) =~= mid + mark2);
    }
    let l = line_from(v);
    assert(line_view(l) =~= model_row(*s, prov@, current_default@, reasoning@, i as int));
    l
}

/// The model list of provider `prov`; `current_default` is that provider's default model
/// and `reasoning[i]` tells whether model `i` supports extended reasoning. The ids of the
/// visible models are cut at byte offsets, which must fall on character boundaries.
pub fn model_list_lines(
    s: &SettingsModalState,
    prov: &str,
    current_default: &str,
    reasoning: &Vec<bool>,
) -> (r: Vec<StyledLine>)
    requires
        reasoning@.len() == s.provider_models@.len(),
        forall|i: int|
            model_window(*s).0 <= i < model_window(*s).0 + model_window(*s).1 ==> truncate_cut_ok(
                #[trigger] s.provider_models@[i].id@,
                34,
            ),
    ensures
        lines_view(r@) == model_list_spec(*s, prov@, current_default@, reasoning@),
{
    let n = s.provider_models.len();
    let mut out: Vec<StyledLine> = Vec::new();
    out.push(blank_line_exec());
    let title_count = concat3(
        "  (",
        string_from_chars(&u64_to_decimal(n as u64)).as_str(),
        " models available)",
    );
    out.push(line3(
        span_str("  📋 Select Default Model for: ", style_fg_bold(ThemeColor::BrandAccent)),
        span_str(prov, style_fg_bold(ThemeColor::BrandAccent)),
        span_str(title_count.as_str(), style_fg(ThemeColor::Muted)),
    ));
    out.push(line2(
        span_str("     ", style_plain()),
        span_str(
            "Choose a model to assign as default for this provider & switch active model.",
            style_fg(ThemeColor::Muted),
        ),
    ));
    out.push(blank_line_exec());
    let ghost head = lines_view(out@);
    if n == 0 {
        out.push(line2(
            span_str("    ", style_plain()),
            span_str(
                "⚠️ No models found or provider unconfigured. Press [Esc] to return to providers.",
                style_fg(ThemeColor::Warning),
            ),
        ));
    } else {
        let (off, shown) = window_exec(s.model_selected_index, 8, n);
        let mut k: usize = 0;
        while k < shown
            invariant
                k <= shown,
                (off as nat, shown as nat) == model_window(*s),
                shown > 0 ==> off + shown <= n,
                n == s.provider_models@.len(),
                reasoning@.len() == n,
                forall|i: int|
                    model_window(*s).0 <= i < model_window(*s).0 + model_window(*s).1
                        ==> truncate_cut_ok(#[trigger] s.provider_models@[i].id@, 34),
                lines_view(out@) == head + Seq::new(
                    k as nat,
                    |j: int| model_row(*s, prov@, current_default@, reasoning@, off + j),
                ),
            decreases shown - k,
        {
            let ghost before = out@;
            assert(truncate_cut_ok(s.provider_models@[off + k as int].id@, 34));
            out.push(model_row_line(s, prov, current_default, reasoning, off + k));
            proof {
                assert(out@ =~= before.push(out@.last()));
                assert(lines_view(out@) =~= lines_view(before).push(
                    model_row(*s, prov@, current_default@, reasoning@, off + k),
                ));
                assert(lines_view(out@) =~= head + Seq::new(
                    (k + 1) as nat,
                    |j: int| model_row(*s, prov@, current_default@, reasoning@, off + j),
                ));
            }
            k += 1;
        }
    }
    let ghost mid = out@;
    proof {
        let n0 = s.provider_models@.len();
        let w = model_window(*s);
        assert(lines_view(mid) =~= head + (if n0 == 0 {
            seq![
                seq![
                    ("    "@, plain_style()),
                    (
                        "⚠️ No models found or provider unconfigured. Press [Esc] to return to providers."@,
                        fg(ThemeColor::Warning),
                    ),
                ],
            ]
        } else {
            Seq::new(w.1, |k: int| model_row(*s, prov@, current_default@, reasoning@, w.0 + k))
        }));
    }
    let b = blank_line_exec();
    let hint = line2(
        span_str("    ", style_plain()),
        span_str(
            "Press [Enter] to set as default  •  [Esc] or [Backspace] to return to providers",
            style_fg(ThemeColor::Muted),
        ),
    );
    out.push(b);
    out.push(hint);
    proof {
        assert(out@ =~= mid.push(b).push(hint));
        lemma_lines_view_push(mid, b);
        lemma_lines_view_push(mid.push(b), hint);
    }
    assert(lines_view(out@) =~= model_list_spec(*s, prov@, current_default@, reasoning@));
    out
}


/// The lines of the settings modal's content area, `inner` columns wide. `defaults[i]` is
/// the default model of the provider at position `i` of `SUPPORTED_PROVIDERS`,
/// `current_default` the default model of the provider being browsed, and `reasoning[i]`
/// whether model `i` of that provider supports extended reasoning.
pub fn settings_content_lines(
    s: &SettingsModalState,
    inner: usize,
    defaults: &Vec<String>,
    current_default: &str,
    reasoning: &Vec<bool>,
) -> (r: Vec<StyledLine>)
    requires
        settings_content_ok(*s, inner as nat, defaults@, reasoning@),
    ensures
        lines_view(r@) == settings_content_spec(
            *s,
            inner as nat,
            defaults@,
            current_default@,
            reasoning@,
        ),
{
    match s.active_tab {
        SettingsTab::Providers => match &s.selecting_model_for_provider {
            Some(p) => model_list_lines(s, p.as_str(), current_default, reasoning),
            None => providers_list_lines(s, defaults),
        },
        SettingsTab::Workspace => workspace_tab_lines(s, inner),
        SettingsTab::Autonomy => autonomy_tab_lines(s),
        SettingsTab::Probes => probes_tab_lines(s),
    }
}

} // verus!
