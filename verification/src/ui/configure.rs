//! The decisions of the interactive configuration wizard: menu choices, provider and key
//! handling, masked key display, environment variable names, model picks, and the update of
//! a `.env` text.

use vstd::prelude::*;
use crate::records::ModelInfo;
use crate::text::{
    ascii_lower_chars, ascii_lower_seq, chars_eq, chars_of, chars_starts_with, decimal,
    extend_chars, lowercase, slice_chars, starts_with, str_lines, str_to_lowercase, str_trim,
    string_from_chars, text_lines, trim, u64_to_decimal, vec_views,
};
use crate::ui::input::join_lines;

verus! {

/// The interactive configuration wizard.
pub struct ConfigMenu;

/// Entries of the main menu.
#[derive(Debug, Clone, Copy, PartialEq, Eq, Structural)]
pub enum MenuChoice {
    SetupProvider,
    ManageKeys,
    AddCustomProvider,
    SelectModel,
    TogglePolicy,
    ToggleCost,
    SaveAndExit,
    Invalid,
}

/// The main menu entry typed (trimmed): `1`–`6`, or `0`/`exit`/`quit`/`q` to save and exit.
pub open spec fn menu_choice(input: Seq<char>) -> MenuChoice {
    let c = trim(input);
    if c == "1"@ {
        MenuChoice::SetupProvider
    } else if c == "2"@ {
        MenuChoice::ManageKeys
    } else if c == "3"@ {
        MenuChoice::AddCustomProvider
    } else if c == "4"@ {
        MenuChoice::SelectModel
    } else if c == "5"@ {
        MenuChoice::TogglePolicy
    } else if c == "6"@ {
        MenuChoice::ToggleCost
    } else if c == "0"@ || c == "exit"@ || c == "quit"@ || c == "q"@ {
        MenuChoice::SaveAndExit
    } else {
        MenuChoice::Invalid
    }
}

/// A pick in the provider menu.
#[derive(Debug, Clone, Copy, PartialEq, Eq)]
pub enum ProviderPick {
    Provider { name: &'static str, env_var: &'static str },
    Custom,
    Back,
    Invalid,
}

/// Abstract view of a provider pick.
pub enum ProviderPickView {
    Provider(Seq<char>, Seq<char>),
    Custom,
    Back,
    Invalid,
}

pub open spec fn provider_pick_view(p: ProviderPick) -> ProviderPickView {
    match p {
        ProviderPick::Provider { name, env_var } => ProviderPickView::Provider(name@, env_var@),
        ProviderPick::Custom => ProviderPickView::Custom,
        ProviderPick::Back => ProviderPickView::Back,
        ProviderPick::Invalid => ProviderPickView::Invalid,
    }
}

/// The provider picked by number (trimmed input): `1`–`10` name a provider and its key
/// variable, `11` adds a custom provider, `0`/`b`/`back`/`q` go back.
pub open spec fn provider_pick(input: Seq<char>) -> ProviderPickView {
    let c = trim(input);
    if c == "1"@ {
        ProviderPickView::Provider("openrouter"@, "OPENROUTER_API_KEY"@)
    } else if c == "2"@ {
        ProviderPickView::Provider("gemini"@, "GEMINI_API_KEY"@)
    } else if c == "3"@ {
        ProviderPickView::Provider("openai"@, "OPENAI_API_KEY"@)
    } else if c == "4"@ {
        ProviderPickView::Provider("deepseek"@, "DEEPSEEK_API_KEY"@)
    } else if c == "5"@ {
        ProviderPickView::Provider("groq"@, "GROQ_API_KEY"@)
    } else if c == "6"@ {
        ProviderPickView::Provider("minimax"@, "MINIMAX_API_KEY"@)
    } else if c == "7"@ {
        ProviderPickView::Provider("z.ai"@, "ZHIPU_API_KEY"@)
    } else if c == "8"@ {
        ProviderPickView::Provider("together"@, "TOGETHER_API_KEY"@)
    } else if c == "9"@ {
        ProviderPickView::Provider("mistral"@, "MISTRAL_API_KEY"@)
    } else if c == "10"@ {
        ProviderPickView::Provider("ollama"@, "OLLAMA_API_KEY"@)
    } else if c == "11"@ {
        ProviderPickView::Custom
    } else if c == "0"@ || c == "b"@ || c == "back"@ || c == "q"@ {
        ProviderPickView::Back
    } else {
        ProviderPickView::Invalid
    }
}

/// What to do with a provider's API key after the prompt.
#[derive(Debug, Clone, PartialEq, Eq)]
pub enum KeyEdit {
    Back,
    Clear,
    Replace(String),
    Keep,
}

pub enum KeyEditView {
    Back,
    Clear,
    Replace(Seq<char>),
    Keep,
}

pub open spec fn key_edit_view(k: KeyEdit) -> KeyEditView {
    match k {
        KeyEdit::Back => KeyEditView::Back,
        KeyEdit::Clear => KeyEditView::Clear,
        KeyEdit::Replace(s) => KeyEditView::Replace(s@),
        KeyEdit::Keep => KeyEditView::Keep,
    }
}

/// The key answer (trimmed): `0`/`b` go back, `del` in any ASCII case clears, other text
/// sets the key, nothing keeps it.
pub open spec fn key_edit(input: Seq<char>) -> KeyEditView {
    let c = trim(input);
    if c == "0"@ || c == "b"@ {
        KeyEditView::Back
    } else if ascii_lower_seq(c) == "del"@ {
        KeyEditView::Clear
    } else if c.len() > 0 {
        KeyEditView::Replace(c)
    } else {
        KeyEditView::Keep
    }
}

/// A fetch of the model list is wanted unless the answer (trimmed) is `0`, `b` or `n` in
/// any ASCII case.
pub open spec fn fetch_requested(input: Seq<char>) -> bool {
    let c = trim(input);
    c != "0"@ && c != "b"@ && ascii_lower_seq(c) != "n"@
}

/// `usize::from_str`: an optional `+` and at least one ASCII digit, of a value that fits.
pub open spec fn digits_value(s: Seq<char>) -> nat
    decreases s.len(),
{
    if s.len() == 0 {
        0
    } else {
        digits_value(s.drop_last()) * 10 + ((s.last() as nat) - ('0' as nat)) as nat
    }
}

/// `s` without one leading `+`.
pub open spec fn plus_stripped(s: Seq<char>) -> Seq<char> {
    if s.len() > 0 && s[0] == '+' {
        s.drop_first()
    } else {
        s
    }
}

pub open spec fn all_ascii_digits(d: Seq<char>) -> bool {
    forall|i: int| 0 <= i < d.len() ==> '0' <= #[trigger] d[i] <= '9'
}

pub open spec fn parsed_usize(s: Seq<char>) -> Option<nat> {
    let d = plus_stripped(s);
    if d.len() > 0 && all_ascii_digits(d) && digits_value(d) <= usize::MAX {
        Some(digits_value(d))
    } else {
        None
    }
}

fn parse_usize(s: &Vec<char>) -> (r: Option<usize>)
    ensures
        match r {
            Some(n) => parsed_usize(s@) == Some(n as nat),
            None => parsed_usize(s@) is None,
        },
{
    let start: usize = if s.len() > 0 && s[0] == '+' {
        1
    } else {
        0
    };
    let d = slice_chars(s, start, s.len());
    assert(d@ =~= plus_stripped(s@));
    if d.len() == 0 {
        return None;
    }
    let mut value: usize = 0;
    let mut i: usize = 0;
    assert(d@.take(0) =~= Seq::<char>::empty());
    while i < d.len()
        invariant
            i <= d@.len(),
            d@ == plus_stripped(s@),
            d@.len() > 0,
            value == digits_value(d@.take(i as int)),
            forall|k: int| 0 <= k < i ==> '0' <= #[trigger] d@[k] <= '9',
        decreases d@.len() - i,
    {
        let ch = d[i];
        if !('0' <= ch && ch <= '9') {
            assert(!('0' <= d@[i as int] <= '9'));
            assert(!all_ascii_digits(d@));
            return None;
        }
        assert(d@.take(i + 1).drop_last() =~= d@.take(i as int));
        let digit = (ch as u32 - '0' as u32) as usize;
        assert(digits_value(d@.take(i + 1)) == value * 10 + digit);
        match value.checked_mul(10) {
            Some(m) => match m.checked_add(digit) {
                Some(v) => {
                    value = v;
                },
                None => {
                    proof {
                        if all_ascii_digits(d@) {
                            lemma_digits_prefix(d@, i + 1);
                        }
                    }
                    return None;
                },
            },
            None => {
                proof {
                    if all_ascii_digits(d@) {
                        lemma_digits_prefix(d@, i + 1);
                    }
                }
                return None;
            },
        }
        i += 1;
    }
    assert(d@.take(d@.len() as int) =~= d@);
    Some(value)
}

/// A longer string of digits has at least the value of its prefix.
proof fn lemma_digits_prefix(d: Seq<char>, i: int)
    requires
        0 <= i <= d.len(),
        all_ascii_digits(d),
    ensures
        digits_value(d.take(i)) <= digits_value(d),
    decreases d.len() - i,
{
    if i < d.len() {
        lemma_digits_prefix(d, i + 1);
        assert(d.take(i + 1).drop_last() =~= d.take(i));
    } else {
        assert(d.take(i) =~= d);
    }
}

/// A pick in the key management menu.
#[derive(Debug, Clone, Copy, PartialEq, Eq, Structural)]
pub enum KeysPick {
    Back,
    Provider(usize),
    Ignore,
}

/// The providers whose keys can be managed: identifier, label and key variable.
pub open spec fn managed_providers() -> Seq<(Seq<char>, Seq<char>, Seq<char>)> {
    seq![
        ("openrouter"@, "OpenRouter"@, "OPENROUTER_API_KEY"@),
        ("gemini"@, "Google Gemini"@, "GEMINI_API_KEY"@),
        ("openai"@, "OpenAI"@, "OPENAI_API_KEY"@),
        ("deepseek"@, "DeepSeek"@, "DEEPSEEK_API_KEY"@),
        ("groq"@, "Groq"@, "GROQ_API_KEY"@),
        ("minimax"@, "MiniMax"@, "MINIMAX_API_KEY"@),
        ("z.ai"@, "Z.ai / Zhipu GLM"@, "ZHIPU_API_KEY"@),
        ("together"@, "Together AI"@, "TOGETHER_API_KEY"@),
        ("mistral"@, "Mistral AI"@, "MISTRAL_API_KEY"@),
    ]
}

/// The key management pick (trimmed): `0`/`b`/`back`/`q` go back, a number from 1 to 9
/// picks that provider, anything else is ignored.
pub open spec fn keys_pick(input: Seq<char>) -> KeysPick {
    let c = trim(input);
    if c == "0"@ || c == "b"@ || c == "back"@ || c == "q"@ {
        KeysPick::Back
    } else {
        match parsed_usize(c) {
            Some(n) => if 1 <= n <= 9 {
                KeysPick::Provider((n - 1) as usize)
            } else {
                KeysPick::Ignore
            },
            None => KeysPick::Ignore,
        }
    }
}

/// A pick in the model list.
#[derive(Debug, Clone, PartialEq, Eq)]
pub enum ModelPick {
    Keep,
    Manual,
    Index(usize),
    Typed(String),
    Nothing,
}

pub enum ModelPickView {
    Keep,
    Manual,
    Index(nat),
    Typed(Seq<char>),
    Nothing,
}

pub open spec fn model_pick_view(m: ModelPick) -> ModelPickView {
    match m {
        ModelPick::Keep => ModelPickView::Keep,
        ModelPick::Manual => ModelPickView::Manual,
        ModelPick::Index(i) => ModelPickView::Index(i as nat),
        ModelPick::Typed(s) => ModelPickView::Typed(s@),
        ModelPick::Nothing => ModelPickView::Nothing,
    }
}

/// The model pick (trimmed): `0`/`b`/`back` keep the model, `m` in any ASCII case asks for
/// an identifier, a listed number picks that model, other text is taken as an identifier.
pub open spec fn model_pick(input: Seq<char>, shown: nat) -> ModelPickView {
    let c = trim(input);
    if c == "0"@ || c == "b"@ || c == "back"@ {
        ModelPickView::Keep
    } else if ascii_lower_seq(c) == "m"@ {
        ModelPickView::Manual
    } else if parsed_usize(c) is Some && 1 <= parsed_usize(c).unwrap() <= shown {
        ModelPickView::Index((parsed_usize(c).unwrap() - 1) as nat)
    } else if c.len() > 0 {
        ModelPickView::Typed(c)
    } else {
        ModelPickView::Nothing
    }
}

/// The first `n` characters of `s`, then `...`, then its last `m`.
pub open spec fn ends_shown(s: Seq<char>, n: nat, m: nat) -> Seq<char> {
    s.take(n as int) + "..."@ + s.skip(s.len() - m)
}

/// A key as the provider setup shows it: masked when short, its ends when long.
pub open spec fn masked_key_text(key: Seq<char>) -> Seq<char> {
    if key.len() == 0 {
        "None configured"@
    } else if key.len() <= 10 {
        "********"@
    } else {
        ends_shown(key, 6, 4)
    }
}

/// A key's status as the key manager shows it.
pub open spec fn key_status_text(key: Seq<char>) -> Seq<char> {
    if key.len() == 0 {
        "\x1b[90m[NOT SET]\x1b[0m"@
    } else if key.len() <= 8 {
        "\x1b[32m[CONFIGURED]\x1b[0m"@
    } else {
        "\x1b[32m[CONFIGURED: "@ + ends_shown(key, 4, 3) + "]\x1b[0m"@
    }
}

/// Unicode upper-casing (`str::to_uppercase`).
pub uninterp spec fn uppercase(s: Seq<char>) -> Seq<char>;

/// `str::to_uppercase`: the result is the name `uppercase` of the text.
#[verifier::external_body]
fn str_to_uppercase(s: &str) -> (r: String)
    ensures
        r@ == uppercase(s@),
{
    s.to_uppercase()
}

/// `s` with each character that `bad` holds replaced by `_`.
pub open spec fn underscored(s: Seq<char>, dots_too: bool) -> Seq<char> {
    s.map_values(|c: char| if c == '-' || (dots_too && c == '.') { '_' } else { c })
}

/// The key variable of a custom provider: its name upper-cased, `-` as `_`, then `_API_KEY`.
pub open spec fn custom_env_var(name: Seq<char>) -> Seq<char> {
    underscored(uppercase(name), false) + "_API_KEY"@
}

/// The key variable a provider's key is saved under: the known providers' own variables,
/// else the name upper-cased with `-` and `.` as `_`, then `_API_KEY`.
pub open spec fn provider_env_var(p: Seq<char>) -> Seq<char> {
    if p == "openrouter"@ {
        "OPENROUTER_API_KEY"@
    } else if p == "gemini"@ || p == "google"@ {
        "GEMINI_API_KEY"@
    } else if p == "openai"@ {
        "OPENAI_API_KEY"@
    } else if p == "deepseek"@ {
        "DEEPSEEK_API_KEY"@
    } else if p == "groq"@ {
        "GROQ_API_KEY"@
    } else if p == "minimax"@ {
        "MINIMAX_API_KEY"@
    } else if p == "z.ai"@ || p == "z_ai"@ || p == "zhipu"@ || p == "glm"@ || p == "bigmodel"@ {
        "ZHIPU_API_KEY"@
    } else if p == "together"@ {
        "TOGETHER_API_KEY"@
    } else if p == "mistral"@ {
        "MISTRAL_API_KEY"@
    } else {
        underscored(uppercase(p), true) + "_API_KEY"@
    }
}

/// A `.env` line after setting `key` to `value`: a line for the key is replaced.
pub open spec fn dotenv_line(l: Seq<char>, key: Seq<char>, value: Seq<char>) -> Seq<char> {
    if starts_with(l, key + "="@) {
        key + "="@ + value
    } else {
        l
    }
}

/// Lines of a `.env` text after setting `key` to `value`: every line starting with `key=`
/// is replaced, or a line is added at the end when none does.
pub open spec fn dotenv_lines(ls: Seq<Seq<char>>, key: Seq<char>, value: Seq<char>) -> Seq<
    Seq<char>,
> {
    let entry = key + "="@ + value;
    let replaced = ls.map_values(|l: Seq<char>| dotenv_line(l, key, value));
    if exists|i: int| 0 <= i < ls.len() && starts_with(#[trigger] ls[i], key + "="@) {
        replaced
    } else {
        replaced.push(entry)
    }
}

/// Lines of the current `.env` text (none when there is none).
pub open spec fn existing_lines(existing: Option<Seq<char>>) -> Seq<Seq<char>> {
    match existing {
        Some(c) => text_lines(c),
        None => Seq::empty(),
    }
}

/// The `.env` text after setting `key` to `value`: its lines joined, with a final newline.
pub open spec fn dotenv_text(existing: Option<Seq<char>>, key: Seq<char>, value: Seq<char>) -> Seq<
    char,
> {
    join_lines(dotenv_lines(existing_lines(existing), key, value)) + seq!['\n']
}

/// The approval policy picked: `1` strict, `2` auto-approve.
pub open spec fn policy_pick(input: Seq<char>) -> Option<Seq<char>> {
    let c = trim(input);
    if c == "1"@ {
        Some("strict"@)
    } else if c == "2"@ {
        Some("auto-approve"@)
    } else {
        None
    }
}

/// How many of `n` fetched models are listed: at most 25.
pub open spec fn shown_models(n: nat) -> nat {
    if n < 25 {
        n
    } else {
        25
    }
}

/// One line of the model list: the number (right-aligned in two columns), the identifier,
/// a free badge and the context size in thousands of tokens.
pub open spec fn model_line_text(index: nat, m: ModelInfo) -> Seq<char> {
    let num = if index + 1 < 10 {
        seq![' '] + decimal(index + 1)
    } else {
        decimal(index + 1)
    };
    "  \x1b[1m["@ + num + "]\x1b[0m "@ + m.id@ + (if m.is_free {
        " \x1b[1;32m[FREE]\x1b[0m"@
    } else {
        Seq::empty()
    }) + match m.context_length {
        Some(c) => " \x1b[90m("@ + decimal(c as nat / 1000) + "k ctx)\x1b[0m"@,
        None => Seq::empty(),
    }
}

fn is_lit(c: &Vec<char>, lit: &str) -> (b: bool)
    ensures
        b == (c@ == lit@),
{
    chars_eq(c, &chars_of(lit))
}

fn trimmed(input: &str) -> (r: Vec<char>)
    ensures
        r@ == trim(input@),
{
    chars_of(str_trim(input).as_str())
}

fn ascii_lower_is(c: &Vec<char>, lit: &str) -> (b: bool)
    ensures
        b == (ascii_lower_seq(c@) == lit@),
{
    chars_eq(&ascii_lower_chars(c), &chars_of(lit))
}

fn ends_shown_exec(s: &Vec<char>, n: usize, m: usize) -> (r: Vec<char>)
    requires
        n <= s@.len(),
        m <= s@.len(),
    ensures
        r@ == ends_shown(s@, n as nat, m as nat),
{
    let mut r = slice_chars(s, 0, n);
    extend_chars(&mut r, &chars_of("..."));
    extend_chars(&mut r, &slice_chars(s, s.len() - m, s.len()));
    assert(r@ =~= ends_shown(s@, n as nat, m as nat));
    r
}

fn underscored_exec(s: &Vec<char>, dots_too: bool) -> (r: Vec<char>)
    ensures
        r@ == underscored(s@, dots_too),
{
    let mut r: Vec<char> = Vec::new();
    let mut i: usize = 0;
    while i < s.len()
        invariant
            i <= s@.len(),
            r@ == s@.take(i as int).map_values(
                |c: char|
                    if c == '-' || (dots_too && c == '.') {
                        '_'
                    } else {
                        c
                    },
            ),
        decreases s@.len() - i,
    {
        let c = s[i];
        r.push(
            if c == '-' || (dots_too && c == '.') {
                '_'
            } else {
                c
            },
        );
        assert(s@.take(i + 1) =~= s@.take(i as int).push(c));
        assert(r@ =~= s@.take(i + 1).map_values(
            |c: char|
                if c == '-' || (dots_too && c == '.') {
                    '_'
                } else {
                    c
                },
        ));
        i += 1;
    }
    assert(s@.take(s@.len() as int) =~= s@);
    r
}

impl ConfigMenu {
    /// Reads the main menu entry.
    pub fn main_choice(input: &str) -> (r: MenuChoice)
        ensures
            r == menu_choice(input@),
    {
        let c = trimmed(input);
        if is_lit(&c, "1") {
            MenuChoice::SetupProvider
        } else if is_lit(&c, "2") {
            MenuChoice::ManageKeys
        } else if is_lit(&c, "3") {
            MenuChoice::AddCustomProvider
        } else if is_lit(&c, "4") {
            MenuChoice::SelectModel
        } else if is_lit(&c, "5") {
            MenuChoice::TogglePolicy
        } else if is_lit(&c, "6") {
            MenuChoice::ToggleCost
        } else if is_lit(&c, "0") || is_lit(&c, "exit") || is_lit(&c, "quit") || is_lit(&c, "q") {
            MenuChoice::SaveAndExit
        } else {
            MenuChoice::Invalid
        }
    }

    /// Reads the provider menu entry.
    pub fn provider_choice(input: &str) -> (r: ProviderPick)
        ensures
            provider_pick_view(r) == provider_pick(input@),
    {
        let c = trimmed(input);
        if is_lit(&c, "1") {
            ProviderPick::Provider { name: "openrouter", env_var: "OPENROUTER_API_KEY" }
        } else if is_lit(&c, "2") {
            ProviderPick::Provider { name: "gemini", env_var: "GEMINI_API_KEY" }
        } else if is_lit(&c, "3") {
            ProviderPick::Provider { name: "openai", env_var: "OPENAI_API_KEY" }
        } else if is_lit(&c, "4") {
            ProviderPick::Provider { name: "deepseek", env_var: "DEEPSEEK_API_KEY" }
        } else if is_lit(&c, "5") {
            ProviderPick::Provider { name: "groq", env_var: "GROQ_API_KEY" }
        } else if is_lit(&c, "6") {
            ProviderPick::Provider { name: "minimax", env_var: "MINIMAX_API_KEY" }
        } else if is_lit(&c, "7") {
            ProviderPick::Provider { name: "z.ai", env_var: "ZHIPU_API_KEY" }
        } else if is_lit(&c, "8") {
            ProviderPick::Provider { name: "together", env_var: "TOGETHER_API_KEY" }
        } else if is_lit(&c, "9") {
            ProviderPick::Provider { name: "mistral", env_var: "MISTRAL_API_KEY" }
        } else if is_lit(&c, "10") {
            ProviderPick::Provider { name: "ollama", env_var: "OLLAMA_API_KEY" }
        } else if is_lit(&c, "11") {
            ProviderPick::Custom
        } else if is_lit(&c, "0") || is_lit(&c, "b") || is_lit(&c, "back") || is_lit(&c, "q") {
            ProviderPick::Back
        } else {
            ProviderPick::Invalid
        }
    }

    /// Reads the answer to a key prompt.
    pub fn key_edit(input: &str) -> (r: KeyEdit)
        ensures
            key_edit_view(r) == key_edit(input@),
    {
        let c = trimmed(input);
        if is_lit(&c, "0") || is_lit(&c, "b") {
            KeyEdit::Back
        } else if ascii_lower_is(&c, "del") {
            KeyEdit::Clear
        } else if c.len() > 0 {
            KeyEdit::Replace(string_from_chars(&c))
        } else {
            KeyEdit::Keep
        }
    }

    /// Whether the answer asks for the model list to be fetched.
    pub fn fetch_requested(input: &str) -> (b: bool)
        ensures
            b == fetch_requested(input@),
    {
        let c = trimmed(input);
        !is_lit(&c, "0") && !is_lit(&c, "b") && !ascii_lower_is(&c, "n")
    }

    /// Reads the key management menu entry.
    pub fn keys_pick(input: &str) -> (r: KeysPick)
        ensures
            r == keys_pick(input@),
    {
        let c = trimmed(input);
        if is_lit(&c, "0") || is_lit(&c, "b") || is_lit(&c, "back") || is_lit(&c, "q") {
            return KeysPick::Back;
        }
        match parse_usize(&c) {
            Some(n) => if 1 <= n && n <= 9 {
                KeysPick::Provider(n - 1)
            } else {
                KeysPick::Ignore
            },
            None => KeysPick::Ignore,
        }
    }

    /// Reads the model list entry; `shown` models are listed.
    pub fn model_pick(input: &str, shown: usize) -> (r: ModelPick)
        ensures
            model_pick_view(r) == model_pick(input@, shown as nat),
    {
        let c = trimmed(input);
        if is_lit(&c, "0") || is_lit(&c, "b") || is_lit(&c, "back") {
            return ModelPick::Keep;
        }
        if ascii_lower_is(&c, "m") {
            return ModelPick::Manual;
        }
        match parse_usize(&c) {
            Some(n) => {
                if 1 <= n && n <= shown {
                    return ModelPick::Index(n - 1);
                }
            },
            None => {},
        }
        if c.len() > 0 {
            ModelPick::Typed(string_from_chars(&c))
        } else {
            ModelPick::Nothing
        }
    }

    /// The API key as the provider setup shows it.
    pub fn masked_key(key: &str) -> (r: String)
        ensures
            r@ == masked_key_text(key@),
    {
        let k = chars_of(key);
        if k.len() == 0 {
            "None configured".to_owned()
        } else if k.len() <= 10 {
            "********".to_owned()
        } else {
            string_from_chars(&ends_shown_exec(&k, 6, 4))
        }
    }

    /// The API key status as the key manager shows it.
    pub fn key_status(key: &str) -> (r: String)
        ensures
            r@ == key_status_text(key@),
    {
        let k = chars_of(key);
        if k.len() == 0 {
            "\x1b[90m[NOT SET]\x1b[0m".to_owned()
        } else if k.len() <= 8 {
            "\x1b[32m[CONFIGURED]\x1b[0m".to_owned()
        } else {
            let mut r = chars_of("\x1b[32m[CONFIGURED: ");
            extend_chars(&mut r, &ends_shown_exec(&k, 4, 3));
            extend_chars(&mut r, &chars_of("]\x1b[0m"));
            string_from_chars(&r)
        }
    }

    /// The name a custom provider is registered under (trimmed and lower-cased), unless the
    /// answer is empty, `0` or `b`.
    pub fn custom_provider_name(input: &str) -> (r: Option<String>)
        ensures
            match r {
                Some(n) => n@ == lowercase(trim(input@)) && n@.len() > 0 && n@ != "0"@ && n@
                    != "b"@,
                None => lowercase(trim(input@)).len() == 0 || lowercase(trim(input@)) == "0"@
                    || lowercase(trim(input@)) == "b"@,
            },
    {
        let name = str_to_lowercase(str_trim(input).as_str());
        let n = chars_of(name.as_str());
        if n.len() == 0 || is_lit(&n, "0") || is_lit(&n, "b") {
            None
        } else {
            Some(name)
        }
    }

    /// The key variable of a custom provider.
    pub fn custom_env_var(name: &str) -> (r: String)
        ensures
            r@ == custom_env_var(name@),
    {
        let up = chars_of(str_to_uppercase(name).as_str());
        let mut r = underscored_exec(&up, false);
        extend_chars(&mut r, &chars_of("_API_KEY"));
        string_from_chars(&r)
    }

    /// The key variable a provider's key is saved under.
    pub fn env_var_for_provider(p: &str) -> (r: String)
        ensures
            r@ == provider_env_var(p@),
    {
        let v = chars_of(p);
        if is_lit(&v, "openrouter") {
            "OPENROUTER_API_KEY".to_owned()
        } else if is_lit(&v, "gemini") || is_lit(&v, "google") {
            "GEMINI_API_KEY".to_owned()
        } else if is_lit(&v, "openai") {
            "OPENAI_API_KEY".to_owned()
        } else if is_lit(&v, "deepseek") {
            "DEEPSEEK_API_KEY".to_owned()
        } else if is_lit(&v, "groq") {
            "GROQ_API_KEY".to_owned()
        } else if is_lit(&v, "minimax") {
            "MINIMAX_API_KEY".to_owned()
        } else if is_lit(&v, "z.ai") || is_lit(&v, "z_ai") || is_lit(&v, "zhipu") || is_lit(
            &v,
            "glm",
        ) || is_lit(&v, "bigmodel") {
            "ZHIPU_API_KEY".to_owned()
        } else if is_lit(&v, "together") {
            "TOGETHER_API_KEY".to_owned()
        } else if is_lit(&v, "mistral") {
            "MISTRAL_API_KEY".to_owned()
        } else {
            let up = chars_of(str_to_uppercase(p).as_str());
            let mut r = underscored_exec(&up, true);
            extend_chars(&mut r, &chars_of("_API_KEY"));
            string_from_chars(&r)
        }
    }

    /// The approval policy picked, if any.
    pub fn policy_pick(input: &str) -> (r: Option<&'static str>)
        ensures
            match r {
                Some(p) => policy_pick(input@) == Some(p@),
                None => policy_pick(input@) is None,
            },
    {
        let c = trimmed(input);
        if is_lit(&c, "1") {
            Some("strict")
        } else if is_lit(&c, "2") {
            Some("auto-approve")
        } else {
            None
        }
    }

    /// How many of `n` fetched models are listed.
    pub fn shown_models(n: usize) -> (r: usize)
        ensures
            r == shown_models(n as nat),
    {
        if n < 25 {
            n
        } else {
            25
        }
    }

    /// One line of the model list.
    pub fn model_line(index: usize, m: &ModelInfo) -> (r: String)
        requires
            index < usize::MAX,
        ensures
            r@ == model_line_text(index as nat, *m),
    {
        let mut r = chars_of("  \x1b[1m[");
        if index + 1 < 10 {
            r.push(' ');
        }
        extend_chars(&mut r, &u64_to_decimal((index + 1) as u64));
        extend_chars(&mut r, &chars_of("]\x1b[0m "));
        extend_chars(&mut r, &chars_of(m.id.as_str()));
        if m.is_free {
            extend_chars(&mut r, &chars_of(" \x1b[1;32m[FREE]\x1b[0m"));
        }
        match m.context_length {
            Some(c) => {
                extend_chars(&mut r, &chars_of(" \x1b[90m("));
                extend_chars(&mut r, &u64_to_decimal((c / 1000) as u64));
                extend_chars(&mut r, &chars_of("k ctx)\x1b[0m"));
            },
            None => {},
        }
        assert(r@ =~= model_line_text(index as nat, *m));
        string_from_chars(&r)
    }
}

/// The `.env` text after setting `key` to `value`; `existing` is the current text, if the
/// file could be read.
pub fn update_dotenv_content(existing: Option<&str>, key: &str, value: &str) -> (r: String)
    ensures
        r@ == dotenv_text(
            match existing {
                Some(c) => Some(c@),
                None => None,
            },
            key@,
            value@,
        ),
{
    let ghost ex = match existing {
        Some(c) => Some(c@),
        None => None::<Seq<char>>,
    };
    let ls: Vec<Vec<char>> = match existing {
        Some(c) => str_lines(c),
        None => Vec::new(),
    };
    let ghost lv = vec_views(ls@);
    assert(lv == existing_lines(ex)) by {
        if existing is None {
            assert(vec_views(ls@) =~= Seq::<Seq<char>>::empty());
        }
    }
    let mut prefix = chars_of(key);
    prefix.push('=');
    let mut entry = slice_chars(&prefix, 0, prefix.len());
    extend_chars(&mut entry, &chars_of(value));
    assert(prefix@ =~= key@ + "="@) by {
        reveal_strlit("=");
    }
    assert(entry@ =~= key@ + "="@ + value@);
    let mut out: Vec<Vec<char>> = Vec::new();
    let mut found = false;
    let mut i: usize = 0;
    while i < ls.len()
        invariant
            i <= ls@.len(),
            lv == vec_views(ls@),
            prefix@ == key@ + "="@,
            entry@ == key@ + "="@ + value@,
            vec_views(out@) == lv.take(i as int).map_values(
                |l: Seq<char>| dotenv_line(l, key@, value@),
            ),
            found == exists|k: int| 0 <= k < i && starts_with(#[trigger] lv[k], key@ + "="@),
        decreases ls@.len() - i,
    {
        let ghost before = out@;
        assert(lv[i as int] == ls@[i as int]@);
        let line_out = if chars_starts_with(&ls[i], &prefix) {
            found = true;
            slice_chars(&entry, 0, entry.len())
        } else {
            slice_chars(&ls[i], 0, ls[i].len())
        };
        assert(line_out@ =~= dotenv_line(lv[i as int], key@, value@));
        out.push(line_out);
        proof {
            assert(lv.take(i + 1).map_values(|l: Seq<char>| dotenv_line(l, key@, value@)) =~= lv.take(
                i as int,
            ).map_values(|l: Seq<char>| dotenv_line(l, key@, value@)).push(
                dotenv_line(lv[i as int], key@, value@),
            ));
            assert(vec_views(out@) =~= vec_views(before).push(dotenv_line(lv[i as int], key@, value@)));
        }
        i += 1;
    }
    assert(lv.take(lv.len() as int) =~= lv);
    let ghost replaced = lv.map_values(|l: Seq<char>| dotenv_line(l, key@, value@));
    assert(vec_views(out@) == replaced);
    if !found {
        let ghost before = out@;
        out.push(entry);
        assert(vec_views(out@) =~= vec_views(before).push(key@ + "="@ + value@));
    }
    proof {
        let ls = existing_lines(ex);
        assert(ls == lv);
        if found {
            assert(exists|i: int| 0 <= i < ls.len() && starts_with(#[trigger] ls[i], key@ + "="@));
            assert(vec_views(out@) == replaced);
        } else {
            assert(!exists|i: int| 0 <= i < ls.len() && starts_with(#[trigger] ls[i], key@ + "="@));
            assert(vec_views(out@) == replaced.push(key@ + "="@ + value@));
        }
        assert(vec_views(out@) =~= dotenv_lines(lv, key@, value@));
    }
    let mut text: Vec<char> = Vec::new();
    let ghost ov = vec_views(out@);
    let mut k: usize = 0;
    assert(ov.take(0) =~= Seq::<Seq<char>>::empty());
    while k < out.len()
        invariant
            k <= out@.len(),
            ov == vec_views(out@),
            text@ == join_lines(ov.take(k as int)),
        decreases out@.len() - k,
    {
        if k > 0 {
            text.push('\n');
        }
        assert(ov[k as int] == out@[k as int]@);
        extend_chars(&mut text, &out[k]);
        proof {
            assert(ov.take(k + 1).drop_last() =~= ov.take(k as int));
            if k == 0 {
                assert(text@ =~= ov[0]);
            }
        }
        k += 1;
    }
    assert(ov.take(ov.len() as int) =~= ov);
    text.push('\n');
    string_from_chars(&text)
}

} // verus!
