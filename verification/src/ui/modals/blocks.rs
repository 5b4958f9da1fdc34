//! State of the `/blocks` MiniBlocks component and design token warehouse modal: its tabs,
//! search query, selection and preview scroll, and the lists of block identifiers it shows,
//! ordered by name.

use vstd::prelude::*;
use vstd::set_lib::{lemma_int_range, lemma_subset_equality, set_int_range};
use crate::text::{
    chars_contains, chars_eq, chars_of, chars_starts_with, find_first, find_first_chars,
    indices_where, lemma_trim_start_skip, lowercase, pop_char, push_char, seq_contains,
    skip_ws_forward, slice_chars, starts_with, str_to_lowercase, str_trim, trim, trim_chars, trim_start,
};
use crate::ui::styled::{
    fg, fg_bold, plain_style, span_from, span_view, style_fg, style_fg_bold, SpanStyle,
    StyledSpan, ThemeColor,
};
use crate::ui::modals::common::{clamp_selection, clamp_selection_exec};

verus! {

/// Active tab within the `/blocks` MiniBlocks warehouse modal dialog.
#[derive(Debug, Clone, Copy, PartialEq, Eq, Structural)]
pub enum BlocksTab {
    Components,
    Palettes,
    Gradients,
    Templates,
}

impl BlocksTab {
    /// Position of the tab in `all()`.
    pub open spec fn index_spec(self) -> int {
        match self {
            BlocksTab::Components => 0,
            BlocksTab::Palettes => 1,
            BlocksTab::Gradients => 2,
            BlocksTab::Templates => 3,
        }
    }

    /// The tab that follows `self`, wrapping around.
    pub open spec fn next_spec(self) -> BlocksTab {
        match self {
            BlocksTab::Components => BlocksTab::Palettes,
            BlocksTab::Palettes => BlocksTab::Gradients,
            BlocksTab::Gradients => BlocksTab::Templates,
            BlocksTab::Templates => BlocksTab::Components,
        }
    }

    /// The tab that precedes `self`, wrapping around.
    pub open spec fn prev_spec(self) -> BlocksTab {
        match self {
            BlocksTab::Components => BlocksTab::Templates,
            BlocksTab::Palettes => BlocksTab::Components,
            BlocksTab::Gradients => BlocksTab::Palettes,
            BlocksTab::Templates => BlocksTab::Gradients,
        }
    }

    pub fn all() -> (r: &'static [BlocksTab])
        ensures
            r@ == seq![
                BlocksTab::Components,
                BlocksTab::Palettes,
                BlocksTab::Gradients,
                BlocksTab::Templates,
            ],
    {
        &[BlocksTab::Components, BlocksTab::Palettes, BlocksTab::Gradients, BlocksTab::Templates]
    }

    pub fn title(&self) -> (r: &'static str)
        ensures
            r@ == (match *self {
                BlocksTab::Components => "Components"@,
                BlocksTab::Palettes => "Palettes"@,
                BlocksTab::Gradients => "Gradients"@,
                BlocksTab::Templates => "Templates"@,
            }),
    {
        match self {
            BlocksTab::Components => "Components",
            BlocksTab::Palettes => "Palettes",
            BlocksTab::Gradients => "Gradients",
            BlocksTab::Templates => "Templates",
        }
    }

    pub fn next(&self) -> (r: Self)
        ensures
            r == self.next_spec(),
    {
        match self {
            BlocksTab::Components => BlocksTab::Palettes,
            BlocksTab::Palettes => BlocksTab::Gradients,
            BlocksTab::Gradients => BlocksTab::Templates,
            BlocksTab::Templates => BlocksTab::Components,
        }
    }

    pub fn prev(&self) -> (r: Self)
        ensures
            r == self.prev_spec(),
    {
        match self {
            BlocksTab::Components => BlocksTab::Templates,
            BlocksTab::Palettes => BlocksTab::Components,
            BlocksTab::Gradients => BlocksTab::Palettes,
            BlocksTab::Templates => BlocksTab::Gradients,
        }
    }
}

/// `prev` undoes `next` and vice versa; `next` follows `all()` and returns after four steps.
pub proof fn lemma_blocks_tab_cycle(t: BlocksTab)
    ensures
        t.next_spec().prev_spec() == t,
        t.prev_spec().next_spec() == t,
        t.next_spec().index_spec() == (t.index_spec() + 1) % 4,
        t.next_spec().next_spec().next_spec().next_spec() == t,
{
}

/// `a` sorts before `b` as `str` comparison orders them: by code point (the order of their
/// UTF-8 bytes), a proper prefix first.
pub open spec fn text_lt(a: Seq<char>, b: Seq<char>) -> bool
    decreases a.len(),
{
    if a.len() == 0 {
        b.len() > 0
    } else if b.len() == 0 {
        false
    } else if a[0] != b[0] {
        (a[0] as int) < (b[0] as int)
    } else {
        text_lt(a.drop_first(), b.drop_first())
    }
}

/// No text sorts before itself.
pub proof fn lemma_text_lt_irreflexive(a: Seq<char>)
    ensures
        !text_lt(a, a),
    decreases a.len(),
{
    if a.len() > 0 {
        lemma_text_lt_irreflexive(a.drop_first());
    }
}

/// The order of texts is transitive.
pub proof fn lemma_text_lt_transitive(a: Seq<char>, b: Seq<char>, c: Seq<char>)
    requires
        text_lt(a, b),
        text_lt(b, c),
    ensures
        text_lt(a, c),
    decreases a.len(),
{
    if a.len() > 0 && b.len() > 0 && c.len() > 0 && a[0] == b[0] && b[0] == c[0] {
        lemma_text_lt_transitive(a.drop_first(), b.drop_first(), c.drop_first());
    }
}

/// Of two different texts, one sorts before the other.
pub proof fn lemma_text_lt_total(a: Seq<char>, b: Seq<char>)
    ensures
        a == b || text_lt(a, b) || text_lt(b, a),
    decreases a.len(),
{
    if a.len() > 0 && b.len() > 0 && a[0] == b[0] {
        lemma_text_lt_total(a.drop_first(), b.drop_first());
        if a.drop_first() == b.drop_first() {
            assert(a =~= seq![a[0]] + a.drop_first());
            assert(b =~= seq![b[0]] + b.drop_first());
        }
    } else if a.len() == 0 && b.len() == 0 {
        assert(a =~= b);
    } else if a.len() > 0 && b.len() > 0 {
        assert((a[0] as int) != (b[0] as int));
    }
}

/// Position `i` of `keys` comes before position `j`: its key sorts first, or the keys are
/// equal and `i` was first.
pub open spec fn name_before(keys: Seq<Seq<char>>, i: int, j: int) -> bool {
    text_lt(keys[i], keys[j]) || (keys[i] == keys[j] && i < j)
}

/// `order` lists positions of `keys`, each once, sorted by key, equal keys in their first
/// order: the order a stable sort by key gives.
pub open spec fn stable_name_order(keys: Seq<Seq<char>>, order: Seq<usize>) -> bool {
    &&& order.len() == keys.len()
    &&& forall|a: int| 0 <= a < order.len() ==> order[a] < keys.len()
    &&& forall|a: int, b: int|
        0 <= a < b < order.len() ==> name_before(keys, #[trigger] order[a] as int, #[trigger] order[b] as int)
}

/// `before` never holds both ways.
proof fn lemma_name_before_asymmetric(keys: Seq<Seq<char>>, i: int, j: int)
    requires
        name_before(keys, i, j),
    ensures
        !name_before(keys, j, i),
{
    if text_lt(keys[i], keys[j]) && text_lt(keys[j], keys[i]) {
        lemma_text_lt_transitive(keys[i], keys[j], keys[i]);
        lemma_text_lt_irreflexive(keys[i]);
    }
    if text_lt(keys[i], keys[j]) && keys[j] == keys[i] {
        lemma_text_lt_irreflexive(keys[i]);
    }
    if keys[i] == keys[j] && text_lt(keys[j], keys[i]) {
        lemma_text_lt_irreflexive(keys[i]);
    }
}

/// Positions sorted strictly by `before`.
spec fn strictly_before(keys: Seq<Seq<char>>, o: Seq<int>) -> bool {
    forall|a: int, b: int| 0 <= a < b < o.len() ==> name_before(keys, #[trigger] o[a], #[trigger] o[b])
}

proof fn lemma_strictly_before_no_duplicates(keys: Seq<Seq<char>>, o: Seq<int>)
    requires
        strictly_before(keys, o),
    ensures
        o.no_duplicates(),
{
    assert forall|a: int, b: int| 0 <= a < o.len() && 0 <= b < o.len() && a != b implies o[a]
        != o[b] by {
        if o[a] == o[b] {
            if a < b {
                assert(name_before(keys, o[a], o[b]));
            } else {
                assert(name_before(keys, o[b], o[a]));
            }
            lemma_text_lt_irreflexive(keys[o[a]]);
        }
    }
}

/// Two sequences sorted strictly by `before` that hold the same positions are equal.
proof fn lemma_sorted_same_set(keys: Seq<Seq<char>>, o1: Seq<int>, o2: Seq<int>)
    requires
        strictly_before(keys, o1),
        strictly_before(keys, o2),
        o1.to_set() == o2.to_set(),
    ensures
        o1 == o2,
    decreases o1.len(),
{
    lemma_strictly_before_no_duplicates(keys, o1);
    lemma_strictly_before_no_duplicates(keys, o2);
    o1.unique_seq_to_set();
    o2.unique_seq_to_set();
    if o1.len() == 0 {
        assert(o1 =~= o2);
    } else {
        let n = o1.len() - 1;
        let x = o1[n];
        let y = o2[n];
        if x != y {
            assert(o1.to_set().contains(y)) by {
                assert(o2.to_set().contains(y));
            }
            let i = choose|i: int| 0 <= i < o1.len() && o1[i] == y;
            assert(o2.to_set().contains(x)) by {
                assert(o1.to_set().contains(x));
            }
            let j = choose|j: int| 0 <= j < o2.len() && o2[j] == x;
            assert(i < n && j < n);
            assert(name_before(keys, o1[i], o1[n]));
            assert(name_before(keys, o2[j], o2[n]));
            lemma_name_before_asymmetric(keys, y, x);
        }
        let p1 = o1.drop_last();
        let p2 = o2.drop_last();
        assert(p1.to_set() =~= p2.to_set()) by {
            assert forall|z: int| p1.to_set().contains(z) implies p2.to_set().contains(z) by {
                let i = choose|i: int| 0 <= i < p1.len() && p1[i] == z;
                assert(o1[i] == z && i != n);
                assert(z != x);
                assert(o2.to_set().contains(z)) by {
                    assert(o1.to_set().contains(z));
                }
                let j = choose|j: int| 0 <= j < o2.len() && o2[j] == z;
                assert(j != n);
                assert(p2[j] == z);
            }
            assert forall|z: int| p2.to_set().contains(z) implies p1.to_set().contains(z) by {
                let j = choose|j: int| 0 <= j < p2.len() && p2[j] == z;
                assert(o2[j] == z && j != n);
                assert(z != x);
                assert(o1.to_set().contains(z)) by {
                    assert(o2.to_set().contains(z));
                }
                let i = choose|i: int| 0 <= i < o1.len() && o1[i] == z;
                assert(i != n);
                assert(p1[i] == z);
            }
        }
        lemma_sorted_same_set(keys, p1, p2);
        assert(o1 =~= p1.push(x));
        assert(o2 =~= p2.push(y));
    }
}

spec fn positions_int(o: Seq<usize>) -> Seq<int> {
    o.map_values(|v: usize| v as int)
}

/// A stable order lists every position of `keys`.
proof fn lemma_stable_order_covers(keys: Seq<Seq<char>>, o: Seq<usize>)
    requires
        stable_name_order(keys, o),
    ensures
        positions_int(o).to_set() == set_int_range(0, keys.len() as int),
{
    let oi = positions_int(o);
    assert(strictly_before(keys, oi));
    lemma_strictly_before_no_duplicates(keys, oi);
    oi.unique_seq_to_set();
    lemma_int_range(0, keys.len() as int);
    assert(oi.to_set().subset_of(set_int_range(0, keys.len() as int))) by {
        assert forall|z: int| oi.to_set().contains(z) implies set_int_range(
            0,
            keys.len() as int,
        ).contains(z) by {
            let i = choose|i: int| 0 <= i < oi.len() && oi[i] == z;
            assert(o[i] < keys.len());
        }
    }
    lemma_subset_equality(oi.to_set(), set_int_range(0, keys.len() as int));
}

/// Only one stable order of positions by key exists: the lists the modal shows are
/// determined by what the store answered.
pub proof fn lemma_stable_name_order_unique(keys: Seq<Seq<char>>, o1: Seq<usize>, o2: Seq<usize>)
    requires
        stable_name_order(keys, o1),
        stable_name_order(keys, o2),
    ensures
        o1 == o2,
{
    lemma_stable_order_covers(keys, o1);
    lemma_stable_order_covers(keys, o2);
    let p1 = positions_int(o1);
    let p2 = positions_int(o2);
    assert(strictly_before(keys, p1));
    assert(strictly_before(keys, p2));
    lemma_sorted_same_set(keys, p1, p2);
    assert forall|a: int| 0 <= a < o1.len() implies o1[a] == o2[a] by {
        assert(p1[a] == p2[a]);
    }
    assert(o1 =~= o2);
}

/// The lower-cased names, the keys the modal sorts by.
pub open spec fn name_keys(names: Seq<Seq<char>>) -> Seq<Seq<char>> {
    names.map_values(|n: Seq<char>| lowercase(n))
}

/// `ids` are the entries' identifiers in a stable order of their lower-cased names.
pub open spec fn ids_by_name(ids: Seq<u128>, entry_ids: Seq<u128>, names: Seq<Seq<char>>) -> bool {
    exists|order: Seq<usize>|
        #[trigger] stable_name_order(name_keys(names), order) && ids == order.map_values(
            |k: usize| entry_ids[k as int],
        )
}

fn text_less(a: &Vec<char>, b: &Vec<char>) -> (r: bool)
    ensures
        r == text_lt(a@, b@),
{
    let mut i: usize = 0;
    assert(a@.skip(0) =~= a@);
    assert(b@.skip(0) =~= b@);
    while i < a.len() && i < b.len()
        invariant
            i <= a@.len(),
            i <= b@.len(),
            text_lt(a@, b@) == text_lt(a@.skip(i as int), b@.skip(i as int)),
        decreases a@.len() - i,
    {
        assert(a@.skip(i as int)[0] == a@[i as int]);
        assert(b@.skip(i as int)[0] == b@[i as int]);
        if a[i] != b[i] {
            return a[i] < b[i];
        }
        assert(a@.skip(i as int).drop_first() =~= a@.skip(i + 1));
        assert(b@.skip(i as int).drop_first() =~= b@.skip(i + 1));
        i += 1;
    }
    i == a.len() && i < b.len()
}

/// Positions `0..keys.len()` in a stable order of the keys (insertion sort).
fn stable_order(keys: &Vec<Vec<char>>) -> (order: Vec<usize>)
    ensures
        stable_name_order(keys@.map_values(|k: Vec<char>| k@), order@),
{
    let ghost ks = keys@.map_values(|k: Vec<char>| k@);
    let mut order: Vec<usize> = Vec::new();
    let mut i: usize = 0;
    while i < keys.len()
        invariant
            i <= keys@.len(),
            ks == keys@.map_values(|k: Vec<char>| k@),
            order@.len() == i,
            forall|a: int| 0 <= a < order@.len() ==> order@[a] < i,
            forall|a: int, b: int|
                0 <= a < b < order@.len() ==> name_before(ks, #[trigger] order@[a] as int, #[trigger] order@[b] as int),
        decreases keys@.len() - i,
    {
        let mut k: usize = 0;
        while k < order.len()
            invariant
                i < keys@.len(),
                k <= order@.len(),
                ks == keys@.map_values(|k: Vec<char>| k@),
                forall|m: int| 0 <= m < k ==> !text_lt(ks[i as int], ks[#[trigger] order@[m] as int]),
                forall|a: int| 0 <= a < order@.len() ==> order@[a] < i,
            ensures
                k <= order@.len(),
                forall|m: int| 0 <= m < k ==> !text_lt(ks[i as int], ks[#[trigger] order@[m] as int]),
                k < order@.len() ==> text_lt(ks[i as int], ks[order@[k as int] as int]),
            decreases order@.len() - k,
        {
            let j = order[k];
            assert(ks[i as int] == keys@[i as int]@ && ks[j as int] == keys@[j as int]@);
            if text_less(&keys[i], &keys[j]) {
                break;
            }
            k += 1;
        }
        let ghost old_order = order@;
        proof {
            assert forall|a: int, b: int| 0 <= a < b < old_order.len() + 1 implies name_before(
                ks,
                #[trigger] old_order.insert(k as int, i)[a] as int,
                #[trigger] old_order.insert(k as int, i)[b] as int,
            ) by {
                let o = old_order.insert(k as int, i);
                if b < k {
                    assert(o[a] == old_order[a] && o[b] == old_order[b]);
                } else if b == k {
                    assert(o[a] == old_order[a]);
                    assert(!text_lt(ks[i as int], ks[old_order[a] as int]));
                    lemma_text_lt_total(ks[i as int], ks[old_order[a] as int]);
                } else if a < k {
                    assert(o[a] == old_order[a] && o[b] == old_order[b - 1]);
                    assert(name_before(ks, old_order[a] as int, old_order[b - 1] as int));
                } else if a == k {
                    assert(o[b] == old_order[b - 1]);
                    assert(k < old_order.len());
                    assert(text_lt(ks[i as int], ks[old_order[k as int] as int]));
                    if b - 1 > k {
                        assert(name_before(ks, old_order[k as int] as int, old_order[b - 1] as int));
                        if text_lt(ks[old_order[k as int] as int], ks[old_order[b - 1] as int]) {
                            lemma_text_lt_transitive(
                                ks[i as int],
                                ks[old_order[k as int] as int],
                                ks[old_order[b - 1] as int],
                            );
                        }
                    }
                } else {
                    assert(o[a] == old_order[a - 1] && o[b] == old_order[b - 1]);
                    assert(name_before(ks, old_order[a - 1] as int, old_order[b - 1] as int));
                }
            }
        }
        order.insert(k, i);
        assert(order@ == old_order.insert(k as int, i));
        i += 1;
    }
    order
}

/// The identifiers of the entries, in a stable order of their lower-cased names.
fn sort_ids_by_name(ids: &Vec<u128>, names: &Vec<String>) -> (r: Vec<u128>)
    requires
        ids@.len() == names@.len(),
    ensures
        ids_by_name(r@, ids@, names@.map_values(|n: String| n@)),
{
    let ghost nv = names@.map_values(|n: String| n@);
    let mut keys: Vec<Vec<char>> = Vec::new();
    let mut i: usize = 0;
    while i < names.len()
        invariant
            i <= names@.len(),
            nv == names@.map_values(|n: String| n@),
            keys@.len() == i,
            forall|j: int| 0 <= j < i ==> #[trigger] keys@[j]@ == lowercase(nv[j]),
        decreases names@.len() - i,
    {
        keys.push(chars_of(str_to_lowercase(names[i].as_str()).as_str()));
        i += 1;
    }
    let order = stable_order(&keys);
    assert(keys@.map_values(|k: Vec<char>| k@) =~= name_keys(nv));
    let mut r: Vec<u128> = Vec::new();
    let mut k: usize = 0;
    while k < order.len()
        invariant
            k <= order@.len(),
            order@.len() == ids@.len(),
            forall|a: int| 0 <= a < order@.len() ==> order@[a] < ids@.len(),
            r@ == order@.take(k as int).map_values(|o: usize| ids@[o as int]),
        decreases order@.len() - k,
    {
        r.push(ids[order[k]]);
        assert(order@.take(k + 1) =~= order@.take(k as int).push(order@[k as int]));
        k += 1;
    }
    assert(order@.take(order@.len() as int) =~= order@);
    assert(stable_name_order(name_keys(nv), order@) && r@ == order@.map_values(
        |o: usize| ids@[o as int],
    ));
    r
}

/// The template identifiers and names at the given positions.
pub open spec fn template_ids_at(ts: Seq<TemplateEntry>, ks: Seq<usize>) -> Seq<u128> {
    ks.map_values(|k: usize| ts[k as int].id)
}

pub open spec fn template_names_at(ts: Seq<TemplateEntry>, ks: Seq<usize>) -> Seq<Seq<char>> {
    ks.map_values(|k: usize| ts[k as int].name@)
}

fn template_matches_exec(t: &TemplateEntry, q: &Vec<char>) -> (b: bool)
    ensures
        b == template_matches(*t, q@),
{
    q.len() == 0 || chars_contains(&chars_of(str_to_lowercase(t.name.as_str()).as_str()), q)
        || chars_contains(&chars_of(str_to_lowercase(t.description.as_str()).as_str()), q)
        || chars_contains(&chars_of(str_to_lowercase(t.base_layout.as_str()).as_str()), q)
}

/// Identifiers and names of the templates shown for `q`, in the store's order.
fn kept_template_entries(ts: &Vec<TemplateEntry>, q: &Vec<char>) -> (r: (Vec<u128>, Vec<String>))
    ensures
        r.0@ == template_ids_at(ts@, kept_templates(ts@, q@)),
        r.1@.map_values(|n: String| n@) == template_names_at(ts@, kept_templates(ts@, q@)),
        r.0@.len() == r.1@.len(),
{
    let ghost p = |i: int| template_matches(ts@[i], q@);
    let mut ids: Vec<u128> = Vec::new();
    let mut names: Vec<String> = Vec::new();
    let mut i: usize = 0;
    while i < ts.len()
        invariant
            i <= ts@.len(),
            p == (|i: int| template_matches(ts@[i], q@)),
            ids@ == template_ids_at(ts@, indices_where(i as nat, p)),
            names@.map_values(|n: String| n@) == template_names_at(ts@, indices_where(i as nat, p)),
        decreases ts@.len() - i,
    {
        let ghost before = indices_where(i as nat, p);
        let ghost nb = names@;
        if template_matches_exec(&ts[i], q) {
            ids.push(ts[i].id);
            let n = ts[i].name.clone();
            names.push(n);
            assert(names@.map_values(|n: String| n@) =~= nb.map_values(|n: String| n@).push(
                ts@[i as int].name@,
            ));
        }
        assert(template_ids_at(ts@, indices_where((i + 1) as nat, p)) =~= ids@);
        assert(template_names_at(ts@, indices_where((i + 1) as nat, p)) =~= names@.map_values(|n: String| n@));
        i += 1;
    }
    assert(names@.map_values(|n: String| n@).len() == names@.len());
    (ids, names)
}

/// A component, palette or gradient as the block store lists it.
#[derive(Debug, Clone)]
pub struct BlockEntry {
    pub id: u128,
    pub name: String,
}

/// A layout template as the block store lists it.
#[derive(Debug, Clone)]
pub struct TemplateEntry {
    pub id: u128,
    pub name: String,
    pub description: String,
    pub base_layout: String,
}

/// What the block store answered to the modal's queries.
#[derive(Debug, Clone)]
pub struct BlockListings {
    /// The components found for `BlockQueries::component_query`, in the store's order.
    pub components: Vec<BlockEntry>,
    /// The palettes found for `BlockQueries::palette_query`.
    pub palettes: Vec<BlockEntry>,
    /// The gradients found for `BlockQueries::gradient_query`.
    pub gradients: Vec<BlockEntry>,
    /// Every template of the store.
    pub templates: Vec<TemplateEntry>,
}

/// The searches the modal asks the block store for.
#[derive(Debug, Clone, PartialEq, Eq)]
pub struct BlockQueries {
    /// The search text for components (up to 5000 results), or none for all of them.
    pub component_query: Option<String>,
    /// The palette search text: the trimmed query on the palettes tab, else empty.
    pub palette_query: String,
    /// The gradient search text: the trimmed query on the gradients tab, else empty.
    pub gradient_query: String,
}

pub open spec fn entry_ids(es: Seq<BlockEntry>) -> Seq<u128> {
    es.map_values(|e: BlockEntry| e.id)
}

pub open spec fn entry_names(es: Seq<BlockEntry>) -> Seq<Seq<char>> {
    es.map_values(|e: BlockEntry| e.name@)
}

/// A template is shown for the (trimmed, lower-cased) query when the query is empty or its
/// lower-cased name, description or base layout contains it.
pub open spec fn template_matches(t: TemplateEntry, q: Seq<char>) -> bool {
    ||| q.len() == 0
    ||| seq_contains(lowercase(t.name@), q)
    ||| seq_contains(lowercase(t.description@), q)
    ||| seq_contains(lowercase(t.base_layout@), q)
}

/// Positions of the templates shown for `q`, in the store's order.
pub open spec fn kept_templates(ts: Seq<TemplateEntry>, q: Seq<char>) -> Seq<usize> {
    indices_where(ts.len(), |i: int| template_matches(ts[i], q))
}

/// Identifiers and names of the entries, in order.
fn entry_columns(es: &Vec<BlockEntry>) -> (r: (Vec<u128>, Vec<String>))
    ensures
        r.0@ == entry_ids(es@),
        r.1@.map_values(|n: String| n@) == entry_names(es@),
        r.0@.len() == r.1@.len(),
{
    let mut ids: Vec<u128> = Vec::new();
    let mut names: Vec<String> = Vec::new();
    let mut i: usize = 0;
    while i < es.len()
        invariant
            i <= es@.len(),
            ids@ == entry_ids(es@.take(i as int)),
            names@.map_values(|n: String| n@) == entry_names(es@.take(i as int)),
        decreases es@.len() - i,
    {
        let ghost nb = names@;
        ids.push(es[i].id);
        let n = es[i].name.clone();
        names.push(n);
        assert(names@.map_values(|n: String| n@) =~= nb.map_values(|n: String| n@).push(
            es@[i as int].name@,
        ));
        assert(es@.take(i + 1) =~= es@.take(i as int).push(es@[i as int]));
        assert(ids@ =~= entry_ids(es@.take(i + 1)));
        assert(names@.map_values(|n: String| n@) =~= entry_names(es@.take(i + 1)));
        i += 1;
    }
    assert(es@.take(es@.len() as int) =~= es@);
    assert(names@.map_values(|n: String| n@).len() == names@.len());
    (ids, names)
}

/// The identifiers of the entries in a stable order of their lower-cased names.
fn entries_by_name(es: &Vec<BlockEntry>) -> (r: Vec<u128>)
    ensures
        ids_by_name(r@, entry_ids(es@), entry_names(es@)),
{
    let (ids, names) = entry_columns(es);
    sort_ids_by_name(&ids, &names)
}


/// `char::is_alphanumeric`: the character is alphabetic or numeric in Unicode.
pub uninterp spec fn alphanumeric(c: char) -> bool;

/// ASCII letters and digits.
pub open spec fn ascii_alphanumeric(c: char) -> bool {
    ('a' <= c && c <= 'z') || ('A' <= c && c <= 'Z') || ('0' <= c && c <= '9')
}

/// `char::is_alphanumeric`. Its documentation defines it by the Unicode `Alphabetic` and
/// `Numeric` properties; on ASCII these are exactly the letters and digits. The result
/// on other characters is named `alphanumeric` and not stated.
#[verifier::external_body]
fn char_is_alphanumeric(c: char) -> (b: bool)
    ensures
        b == alphanumeric(c),
        (c as u32) < 128 ==> (b <==> ascii_alphanumeric(c)),
{
    c.is_alphanumeric()
}

/// A character of an identifier or keyword in a code preview.
pub open spec fn is_word_char(c: char) -> bool {
    alphanumeric(c) || c == '_' || c == '$'
}

/// Length of the identifier at the start of `r`.
pub open spec fn word_len(r: Seq<char>) -> nat
    decreases r.len(),
{
    if r.len() > 0 && is_word_char(r[0]) {
        1 + word_len(r.drop_first())
    } else {
        0
    }
}

proof fn lemma_word_len(r: Seq<char>)
    ensures
        word_len(r) <= r.len(),
        forall|k: int| 0 <= k < word_len(r) ==> is_word_char(#[trigger] r[k]),
        word_len(r) < r.len() ==> !is_word_char(r[word_len(r) as int]),
    decreases r.len(),
{
    if r.len() > 0 && is_word_char(r[0]) {
        lemma_word_len(r.drop_first());
        assert forall|k: int| 0 <= k < word_len(r) implies is_word_char(#[trigger] r[k]) by {
            if k > 0 {
                assert(r[k] == r.drop_first()[k - 1]);
            }
        }
    }
}

/// The keywords a code preview shows in the accent colour.
pub open spec fn code_keywords() -> Seq<Seq<char>> {
    seq![
        "import"@, "export"@, "from"@, "default"@, "function"@, "const"@, "let"@, "var"@,
        "return"@, "class"@, "interface"@, "type"@, "extends"@, "implements"@, "async"@,
        "await"@, "if"@, "else"@, "match"@, "switch"@, "case"@, "break"@, "continue"@, "for"@,
        "while"@, "new"@, "this"@, "true"@, "false"@, "null"@, "undefined"@, "pub"@, "fn"@,
        "struct"@, "enum"@, "impl"@, "mut"@, "use"@, "mod"@,
    ]
}

/// Attribute names shown highlighted.
pub open spec fn is_attribute_word(w: Seq<char>) -> bool {
    w == "className"@ || w == "class"@ || w == "style"@ || w == "id"@ || w == "onClick"@
        || w == "onChange"@
}

/// Style of an identifier: keywords in bold accent, numbers as warnings, attribute names
/// highlighted, others as primary text.
pub open spec fn word_style(w: Seq<char>) -> SpanStyle {
    if code_keywords().contains(w) {
        fg_bold(ThemeColor::BrandAccent)
    } else if w.len() > 0 && '0' <= w[0] && w[0] <= '9' {
        fg(ThemeColor::Warning)
    } else if is_attribute_word(w) {
        fg(ThemeColor::Highlight)
    } else {
        fg(ThemeColor::TextPrimary)
    }
}

pub open spec fn is_quote(c: char) -> bool {
    c == '"' || c == '\'' || c == '`'
}

/// Spans of the rest `r` of a code line: a trailing `//` comment muted; a quoted literal up
/// to its closing quote (or the end) as success; `</`, `/>`, `<`, `>` as info; identifiers
/// by `word_style`; any other character muted.
pub open spec fn code_tokens(r: Seq<char>) -> Seq<(Seq<char>, SpanStyle)>
    decreases r.len(),
{
    if r.len() == 0 {
        seq![]
    } else if r.len() >= 2 && r[0] == '/' && r[1] == '/' {
        seq![(r, fg(ThemeColor::Muted))]
    } else if is_quote(r[0]) {
        match find_first(r.drop_first(), seq![r[0]]) {
            Some(e) => if 0 <= e && e + 2 <= r.len() {
                seq![(r.take(e + 2), fg(ThemeColor::Success))] + code_tokens(r.skip(e + 2))
            } else {
                seq![]
            },
            None => seq![(r, fg(ThemeColor::Success))],
        }
    } else if r.len() >= 2 && ((r[0] == '<' && r[1] == '/') || (r[0] == '/' && r[1] == '>')) {
        seq![(r.take(2), fg(ThemeColor::Info))] + code_tokens(r.skip(2))
    } else if r[0] == '<' || r[0] == '>' {
        seq![(r.take(1), fg(ThemeColor::Info))] + code_tokens(r.skip(1))
    } else if 0 < word_len(r) <= r.len() {
        seq![(r.take(word_len(r) as int), word_style(r.take(word_len(r) as int)))] + code_tokens(
            r.skip(word_len(r) as int),
        )
    } else {
        seq![(r.take(1), fg(ThemeColor::Muted))] + code_tokens(r.skip(1))
    }
}

/// Spans of a code preview line: a line whose text starts with `//`, `/*` or `*` is one
/// muted span; otherwise its indentation unstyled, then `code_tokens` of the rest.
pub open spec fn code_line_spans(line: Seq<char>) -> Seq<(Seq<char>, SpanStyle)> {
    let t = trim_start(line);
    if starts_with(t, "//"@) || starts_with(t, "/*"@) || starts_with(t, "*"@) {
        seq![(line, fg(ThemeColor::Muted))]
    } else {
        let indent = line.take(line.len() - t.len());
        (if indent.len() > 0 {
            seq![(indent, plain_style())]
        } else {
            seq![]
        }) + code_tokens(t)
    }
}

fn has_prefix(v: &[char], p: &str) -> (b: bool)
    ensures
        b == starts_with(v@, p@),
{
    chars_starts_with(v, &chars_of(p))
}

fn eq_lit(v: &Vec<char>, lit: &str) -> (b: bool)
    ensures
        b == (v@ == lit@),
{
    chars_eq(v, &chars_of(lit))
}

fn is_keyword_exec(w: &Vec<char>) -> (b: bool)
    ensures
        b == code_keywords().contains(w@),
{
    let kws: [&str; 39] = [
        "import", "export", "from", "default", "function", "const", "let", "var", "return",
        "class", "interface", "type", "extends", "implements", "async", "await", "if", "else",
        "match", "switch", "case", "break", "continue", "for", "while", "new", "this", "true",
        "false", "null", "undefined", "pub", "fn", "struct", "enum", "impl", "mut", "use", "mod",
    ];
    let ghost ks = code_keywords();
    assert(kws@.map_values(|k: &str| k@) =~= ks);
    let mut i: usize = 0;
    while i < 39
        invariant
            i <= 39,
            ks == code_keywords(),
            kws@.len() == 39,
            kws@.map_values(|k: &str| k@) == ks,
            forall|j: int| 0 <= j < i ==> ks[j] != w@,
        decreases 39 - i,
    {
        assert(kws@.map_values(|k: &str| k@)[i as int] == kws@[i as int]@);
        if eq_lit(w, kws[i]) {
            assert(ks[i as int] == w@);
            return true;
        }
        i += 1;
    }
    assert(!ks.contains(w@));
    false
}

fn word_style_exec(w: &Vec<char>) -> (st: SpanStyle)
    ensures
        st == word_style(w@),
{
    if is_keyword_exec(w) {
        style_fg_bold(ThemeColor::BrandAccent)
    } else if w.len() > 0 && '0' <= w[0] && w[0] <= '9' {
        style_fg(ThemeColor::Warning)
    } else if eq_lit(w, "className") || eq_lit(w, "class") || eq_lit(w, "style") || eq_lit(
        w,
        "id",
    ) || eq_lit(w, "onClick") || eq_lit(w, "onChange") {
        style_fg(ThemeColor::Highlight)
    } else {
        style_fg(ThemeColor::TextPrimary)
    }
}

fn word_len_exec(r: &Vec<char>) -> (n: usize)
    ensures
        n == word_len(r@),
{
    proof {
        lemma_word_len(r@);
    }
    let mut n: usize = 0;
    while n < r.len() && (char_is_alphanumeric(r[n]) || r[n] == '_' || r[n] == '$')
        invariant
            n <= r@.len(),
            word_len(r@) <= r@.len(),
            forall|k: int| 0 <= k < n ==> is_word_char(#[trigger] r@[k]),
            forall|k: int| 0 <= k < word_len(r@) ==> is_word_char(#[trigger] r@[k]),
            word_len(r@) < r@.len() ==> !is_word_char(r@[word_len(r@) as int]),
        decreases r@.len() - n,
    {
        n += 1;
    }
    proof {
        lemma_word_len_exact(r@, n as int);
    }
    n
}

proof fn lemma_word_len_exact(r: Seq<char>, n: int)
    requires
        0 <= n <= r.len(),
        forall|k: int| 0 <= k < n ==> is_word_char(#[trigger] r[k]),
        n < r.len() ==> !is_word_char(r[n]),
    ensures
        word_len(r) == n,
    decreases n,
{
    if n > 0 {
        assert forall|k: int| 0 <= k < n - 1 implies is_word_char(#[trigger] r.drop_first()[k]) by {
            assert(r.drop_first()[k] == r[k + 1]);
        }
        if n - 1 < r.drop_first().len() {
            assert(r.drop_first()[n - 1] == r[n]);
        }
        lemma_word_len_exact(r.drop_first(), n - 1);
    }
}

/// Spans of `code_tokens(t)` appended to `spans`.
fn push_code_tokens(t: &Vec<char>, spans: &mut Vec<StyledSpan>)
    ensures
        final(spans)@.map_values(|s: StyledSpan| span_view(s)) == old(spans)@.map_values(
            |s: StyledSpan| span_view(s),
        ) + code_tokens(t@),
{
    let ghost start = spans@.map_values(|s: StyledSpan| span_view(s));
    let mut pos: usize = 0;
    assert(t@.skip(0) =~= t@);
    while pos < t.len()
        invariant
            pos <= t@.len(),
            spans@.map_values(|s: StyledSpan| span_view(s)) + code_tokens(t@.skip(pos as int))
                == start + code_tokens(t@),
        decreases t@.len() - pos,
    {
        let rest = slice_chars(t, pos, t.len());
        let ghost r = rest@;
        assert(r =~= t@.skip(pos as int));
        let ghost before = spans@.map_values(|s: StyledSpan| span_view(s));
        if rest.len() >= 2 && rest[0] == '/' && rest[1] == '/' {
            spans.push(span_from(&rest, style_fg(ThemeColor::Muted)));
            assert(spans@.map_values(|s: StyledSpan| span_view(s)) =~= before.push(
                (r, fg(ThemeColor::Muted)),
            ));
            assert(t@.skip(t@.len() as int) =~= Seq::<char>::empty());
            assert(code_tokens(t@.skip(t@.len() as int)) =~= Seq::<(Seq<char>, SpanStyle)>::empty());
            pos = t.len();
        } else if rest[0] == '"' || rest[0] == '\'' || rest[0] == '`' {
            let q = rest[0];
            let after = slice_chars(&rest, 1, rest.len());
            assert(after@ =~= r.drop_first());
            let mut qv: Vec<char> = Vec::new();
            qv.push(q);
            assert(qv@ =~= seq![r[0]]);
            match find_first_chars(&after, &qv) {
                Some(e) => {
                    proof {
                        crate::text::lemma_find_first_bounds(after@, qv@);
                    }
                    let tok = slice_chars(&rest, 0, e + 2);
                    assert(tok@ =~= r.take(e + 2));
                    spans.push(span_from(&tok, style_fg(ThemeColor::Success)));
                    assert(spans@.map_values(|s: StyledSpan| span_view(s)) =~= before.push(
                        (r.take(e + 2), fg(ThemeColor::Success)),
                    ));
                    assert(r.skip(e + 2) =~= t@.skip(pos + e + 2));
                    pos = pos + e + 2;
                },
                None => {
                    spans.push(span_from(&rest, style_fg(ThemeColor::Success)));
                    assert(spans@.map_values(|s: StyledSpan| span_view(s)) =~= before.push(
                        (r, fg(ThemeColor::Success)),
                    ));
                    assert(t@.skip(t@.len() as int) =~= Seq::<char>::empty());
                    pos = t.len();
                },
            }
        } else if rest.len() >= 2 && ((rest[0] == '<' && rest[1] == '/') || (rest[0] == '/'
            && rest[1] == '>')) {
            let tok = slice_chars(&rest, 0, 2);
            assert(tok@ =~= r.take(2));
            spans.push(span_from(&tok, style_fg(ThemeColor::Info)));
            assert(spans@.map_values(|s: StyledSpan| span_view(s)) =~= before.push(
                (r.take(2), fg(ThemeColor::Info)),
            ));
            assert(r.skip(2) =~= t@.skip(pos + 2));
            pos = pos + 2;
        } else if rest[0] == '<' || rest[0] == '>' {
            let tok = slice_chars(&rest, 0, 1);
            assert(tok@ =~= r.take(1));
            spans.push(span_from(&tok, style_fg(ThemeColor::Info)));
            assert(spans@.map_values(|s: StyledSpan| span_view(s)) =~= before.push(
                (r.take(1), fg(ThemeColor::Info)),
            ));
            assert(r.skip(1) =~= t@.skip(pos + 1));
            pos = pos + 1;
        } else {
            let w = word_len_exec(&rest);
            proof {
                lemma_word_len(r);
            }
            if w > 0 {
                let tok = slice_chars(&rest, 0, w);
                assert(tok@ =~= r.take(w as int));
                let st = word_style_exec(&tok);
                spans.push(span_from(&tok, st));
                assert(spans@.map_values(|s: StyledSpan| span_view(s)) =~= before.push(
                    (r.take(w as int), word_style(r.take(w as int))),
                ));
                assert(r.skip(w as int) =~= t@.skip(pos + w));
                pos = pos + w;
            } else {
                let tok = slice_chars(&rest, 0, 1);
                assert(tok@ =~= r.take(1));
                spans.push(span_from(&tok, style_fg(ThemeColor::Muted)));
                assert(spans@.map_values(|s: StyledSpan| span_view(s)) =~= before.push(
                    (r.take(1), fg(ThemeColor::Muted)),
                ));
                assert(r.skip(1) =~= t@.skip(pos + 1));
                pos = pos + 1;
            }
        }
    }
    assert(t@.skip(pos as int) =~= Seq::<char>::empty());
}

/// Syntax-highlighted spans of one line of a code preview.
pub fn style_code_line(line: &str) -> (r: Vec<StyledSpan>)
    ensures
        r@.map_values(|s: StyledSpan| span_view(s)) == code_line_spans(line@),
{
    let v = chars_of(line);
    let k = skip_ws_forward(&v, 0);
    let t = slice_chars(&v, k, v.len());
    proof {
        lemma_trim_start_skip(v@, k as int);
        assert(t@ =~= v@.skip(k as int));
        assert(trim_start(t@) == t@);
        assert(v@.take(v@.len() - t@.len()) =~= v@.take(k as int));
    }
    let mut spans: Vec<StyledSpan> = Vec::new();
    if has_prefix(&t, "//") || has_prefix(&t, "/*") || has_prefix(&t, "*") {
        spans.push(span_from(&v, style_fg(ThemeColor::Muted)));
        assert(spans@.map_values(|s: StyledSpan| span_view(s)) =~= seq![(line@, fg(ThemeColor::Muted))]);
        return spans;
    }
    if k > 0 {
        let indent = slice_chars(&v, 0, k);
        assert(indent@ =~= v@.take(k as int));
        spans.push(span_from(&indent, SpanStyle { fg: None, bg: None, bold: false, underlined: false, italic: false, dim: false }));
    }
    let ghost head = spans@.map_values(|s: StyledSpan| span_view(s));
    assert(head =~= (if k > 0 {
        seq![(v@.take(k as int), plain_style())]
    } else {
        Seq::<(Seq<char>, SpanStyle)>::empty()
    }));
    push_code_tokens(&t, &mut spans);
    spans
}

/// Value of a hexadecimal digit.
pub open spec fn hex_digit(c: char) -> Option<u8> {
    if '0' <= c && c <= '9' {
        Some((c as u32 - '0' as u32) as u8)
    } else if 'a' <= c && c <= 'f' {
        Some((c as u32 - 'a' as u32 + 10) as u8)
    } else if 'A' <= c && c <= 'F' {
        Some((c as u32 - 'A' as u32 + 10) as u8)
    } else {
        None
    }
}

/// `u8::from_str_radix(s, 16)` on a text of at most two characters: an optional `+`, then
/// one or two hexadecimal digits.
pub open spec fn radix16_short(s: Seq<char>) -> Option<u8> {
    let d = if s.len() > 0 && s[0] == '+' {
        s.drop_first()
    } else {
        s
    };
    if d.len() == 1 {
        hex_digit(d[0])
    } else if d.len() == 2 {
        match (hex_digit(d[0]), hex_digit(d[1])) {
            (Some(a), Some(b)) => Some((16 * a + b) as u8),
            _ => None,
        }
    } else {
        None
    }
}

fn hex_digit_exec(c: char) -> (r: Option<u8>)
    ensures
        r == hex_digit(c),
{
    if '0' <= c && c <= '9' {
        Some(((c as u32) - ('0' as u32)) as u8)
    } else if 'a' <= c && c <= 'f' {
        Some(((c as u32) - ('a' as u32) + 10) as u8)
    } else if 'A' <= c && c <= 'F' {
        Some(((c as u32) - ('A' as u32) + 10) as u8)
    } else {
        None
    }
}

/// The value of an optional `+` and one or two hexadecimal digits, as `u8::from_str_radix`
/// reads them in base 16.
fn radix16_value(s: &[char]) -> (r: Option<u8>)
    requires
        s@.len() <= 2,
    ensures
        r == radix16_short(s@),
{
    let start: usize = if s.len() > 0 && s[0] == '+' {
        1
    } else {
        0
    };
    let n = s.len() - start;
    if n == 1 {
        hex_digit_exec(s[start])
    } else if n == 2 {
        match (hex_digit_exec(s[start]), hex_digit_exec(s[start + 1])) {
            (Some(a), Some(b)) => {
                assert(a < 16 && b < 16);
                Some(16 * a + b)
            },
            _ => None,
        }
    } else {
        None
    }
}

/// The colour a `#rrggbb` or `#rgb` text names (after trimming), each short digit doubled.
pub open spec fn hex_color(hex: Seq<char>) -> Option<(u8, u8, u8)> {
    let t = trim(hex);
    if t.len() == 0 || t[0] != '#' {
        None
    } else {
        let s = t.drop_first();
        if !(forall|k: int| 0 <= k < s.len() ==> s[k] < '\u{80}') {
            None
        } else if s.len() == 6 {
            match (
                radix16_short(s.subrange(0, 2)),
                radix16_short(s.subrange(2, 4)),
                radix16_short(s.subrange(4, 6)),
            ) {
                (Some(r), Some(g), Some(b)) => Some((r, g, b)),
                _ => None,
            }
        } else if s.len() == 3 {
            match (
                radix16_short(s.subrange(0, 1)),
                radix16_short(s.subrange(1, 2)),
                radix16_short(s.subrange(2, 3)),
            ) {
                (Some(r), Some(g), Some(b)) => Some(((r * 17) as u8, (g * 17) as u8, (b * 17) as u8)),
                _ => None,
            }
        } else {
            None
        }
    }
}

fn radix16_of(v: &Vec<char>, lo: usize, hi: usize) -> (r: Option<u8>)
    requires
        lo <= hi <= v@.len(),
        hi - lo <= 2,
    ensures
        r == radix16_short(v@.subrange(lo as int, hi as int)),
        hi - lo == 1 && r.is_some() ==> r.unwrap() < 16,
{
    let piece = slice_chars(v, lo, hi);
    radix16_value(&piece)
}

/// Parses a `#rrggbb` or `#rgb` colour into its red, green and blue bytes.
pub fn hex_to_rgb(hex: &str) -> (r: Option<(u8, u8, u8)>)
    ensures
        r == hex_color(hex@),
{
    let t = trim_chars(&chars_of(hex));
    if t.len() == 0 || t[0] != '#' {
        return None;
    }
    let s = slice_chars(&t, 1, t.len());
    assert(s@ =~= t@.drop_first());
    let mut k: usize = 0;
    while k < s.len()
        invariant
            k <= s@.len(),
            s@ == t@.drop_first(),
            t@ == trim(hex@),
            t@.len() > 0 && t@[0] == '#',
            forall|j: int| 0 <= j < k ==> s@[j] < '\u{80}',
        decreases s@.len() - k,
    {
        if s[k] >= '\u{80}' {
            assert(!(s@[k as int] < '\u{80}'));
            return None;
        }
        k += 1;
    }
    if s.len() == 6 {
        let r = radix16_of(&s, 0, 2);
        let g = radix16_of(&s, 2, 4);
        let b = radix16_of(&s, 4, 6);
        match (r, g, b) {
            (Some(r), Some(g), Some(b)) => Some((r, g, b)),
            _ => None,
        }
    } else if s.len() == 3 {
        let r = radix16_of(&s, 0, 1);
        let g = radix16_of(&s, 1, 2);
        let b = radix16_of(&s, 2, 3);
        match (r, g, b) {
            (Some(r), Some(g), Some(b)) => Some((r * 17, g * 17, b * 17)),
            _ => None,
        }
    } else {
        None
    }
}

/// State of the interactive `/blocks` modal dialog.
#[derive(Debug, Clone)]
pub struct BlocksModalState {
    pub workspace_root: String,
    pub active_tab: BlocksTab,
    pub search_query: String,
    pub selected_index: usize,
    pub preview_scroll_offset: usize,
    pub filtered_component_ids: Vec<u128>,
    pub filtered_palette_ids: Vec<u128>,
    pub filtered_gradient_ids: Vec<u128>,
    pub filtered_template_ids: Vec<u128>,
    pub status_message: Option<String>,
}

impl BlocksModalState {
    /// The identifiers listed on the active tab.
    pub open spec fn tab_ids(self) -> Seq<u128> {
        match self.active_tab {
            BlocksTab::Components => self.filtered_component_ids@,
            BlocksTab::Palettes => self.filtered_palette_ids@,
            BlocksTab::Gradients => self.filtered_gradient_ids@,
            BlocksTab::Templates => self.filtered_template_ids@,
        }
    }

    /// The lists and text are unchanged from `old`.
    pub open spec fn same_lists(self, old: Self) -> bool {
        &&& self.workspace_root == old.workspace_root
        &&& self.filtered_component_ids == old.filtered_component_ids
        &&& self.filtered_palette_ids == old.filtered_palette_ids
        &&& self.filtered_gradient_ids == old.filtered_gradient_ids
        &&& self.filtered_template_ids == old.filtered_template_ids
    }

    /// The modal for `workspace` on the components tab with an empty query; its lists are
    /// empty until `refresh_filtered` hands it the store's answer.
    pub fn new(workspace: &str) -> (r: Self)
        ensures
            r.workspace_root@ == workspace@,
            r.active_tab == BlocksTab::Components,
            r.search_query@.len() == 0,
            r.selected_index == 0,
            r.preview_scroll_offset == 0,
            r.filtered_component_ids@.len() == 0,
            r.filtered_palette_ids@.len() == 0,
            r.filtered_gradient_ids@.len() == 0,
            r.filtered_template_ids@.len() == 0,
            r.status_message is None,
    {
        BlocksModalState {
            workspace_root: workspace.to_owned(),
            active_tab: BlocksTab::Components,
            search_query: String::new(),
            selected_index: 0,
            preview_scroll_offset: 0,
            filtered_component_ids: Vec::new(),
            filtered_palette_ids: Vec::new(),
            filtered_gradient_ids: Vec::new(),
            filtered_template_ids: Vec::new(),
            status_message: None,
        }
    }

    /// Number of entries listed on the active tab.
    pub fn current_tab_len(&self) -> (r: usize)
        ensures
            r == self.tab_ids().len(),
    {
        match self.active_tab {
            BlocksTab::Components => self.filtered_component_ids.len(),
            BlocksTab::Palettes => self.filtered_palette_ids.len(),
            BlocksTab::Gradients => self.filtered_gradient_ids.len(),
            BlocksTab::Templates => self.filtered_template_ids.len(),
        }
    }

    /// Moves to the next tab with a cleared query, the first entry selected, the preview at
    /// its top and no status message; `refresh_filtered` then lists the new tab.
    pub fn next_tab(&mut self)
        ensures
            final(self).active_tab == old(self).active_tab.next_spec(),
            final(self).search_query@.len() == 0,
            final(self).selected_index == 0,
            final(self).preview_scroll_offset == 0,
            final(self).status_message is None,
            final(self).same_lists(*old(self)),
    {
        self.active_tab = self.active_tab.next();
        self.search_query = String::new();
        self.selected_index = 0;
        self.preview_scroll_offset = 0;
        self.status_message = None;
    }

    /// Moves to the previous tab, as `next_tab` does.
    pub fn prev_tab(&mut self)
        ensures
            final(self).active_tab == old(self).active_tab.prev_spec(),
            final(self).search_query@.len() == 0,
            final(self).selected_index == 0,
            final(self).preview_scroll_offset == 0,
            final(self).status_message is None,
            final(self).same_lists(*old(self)),
    {
        self.active_tab = self.active_tab.prev();
        self.search_query = String::new();
        self.selected_index = 0;
        self.preview_scroll_offset = 0;
        self.status_message = None;
    }

    /// Selects the next entry, if there is one, and resets the preview scroll.
    pub fn select_next(&mut self)
        ensures
            old(self).selected_index + 1 < old(self).tab_ids().len() ==> final(self).selected_index
                == old(self).selected_index + 1 && final(self).preview_scroll_offset == 0,
            old(self).selected_index + 1 >= old(self).tab_ids().len() ==> *final(self) == *old(self),
            final(self).active_tab == old(self).active_tab,
            final(self).search_query == old(self).search_query,
            final(self).status_message == old(self).status_message,
            final(self).same_lists(*old(self)),
    {
        let len = self.current_tab_len();
        if len > 0 && self.selected_index < len - 1 {
            self.selected_index = self.selected_index + 1;
            self.preview_scroll_offset = 0;
        }
    }

    /// Selects the previous entry, if there is one, and resets the preview scroll.
    pub fn select_prev(&mut self)
        ensures
            old(self).selected_index > 0 ==> final(self).selected_index == old(self).selected_index
                - 1 && final(self).preview_scroll_offset == 0,
            old(self).selected_index == 0 ==> *final(self) == *old(self),
            final(self).active_tab == old(self).active_tab,
            final(self).search_query == old(self).search_query,
            final(self).status_message == old(self).status_message,
            final(self).same_lists(*old(self)),
    {
        if self.selected_index > 0 {
            self.selected_index = self.selected_index - 1;
            self.preview_scroll_offset = 0;
        }
    }

    /// Scrolls the code preview three lines up, stopping at the top.
    pub fn scroll_preview_up(&mut self)
        ensures
            final(self).preview_scroll_offset == (if old(self).preview_scroll_offset >= 3 {
                old(self).preview_scroll_offset - 3
            } else {
                0
            }),
            final(self).selected_index == old(self).selected_index,
            final(self).active_tab == old(self).active_tab,
            final(self).search_query == old(self).search_query,
            final(self).same_lists(*old(self)),
    {
        self.preview_scroll_offset = self.preview_scroll_offset.saturating_sub(3);
    }

    /// Scrolls the code preview three lines down (saturating).
    pub fn scroll_preview_down(&mut self)
        ensures
            final(self).preview_scroll_offset == (if old(self).preview_scroll_offset + 3
                <= usize::MAX {
                (old(self).preview_scroll_offset + 3) as usize
            } else {
                usize::MAX
            }),
            final(self).selected_index == old(self).selected_index,
            final(self).active_tab == old(self).active_tab,
            final(self).search_query == old(self).search_query,
            final(self).same_lists(*old(self)),
    {
        self.preview_scroll_offset = self.preview_scroll_offset.saturating_add(3);
    }

    /// Types a character into the search query; the first entry is selected and the preview
    /// is at its top until `refresh_filtered` lists the new matches.
    pub fn handle_char(&mut self, c: char)
        ensures
            final(self).search_query@ == old(self).search_query@.push(c),
            final(self).selected_index == 0,
            final(self).preview_scroll_offset == 0,
            final(self).active_tab == old(self).active_tab,
            final(self).status_message == old(self).status_message,
            final(self).same_lists(*old(self)),
    {
        push_char(&mut self.search_query, c);
        self.selected_index = 0;
        self.preview_scroll_offset = 0;
    }

    /// Deletes the last character of the query. Returns whether there was one; then the
    /// first entry is selected, the preview is at its top and the lists are to be refreshed.
    pub fn handle_backspace(&mut self) -> (changed: bool)
        ensures
            changed == (old(self).search_query@.len() > 0),
            changed ==> final(self).search_query@ == old(self).search_query@.drop_last()
                && final(self).selected_index == 0 && final(self).preview_scroll_offset == 0,
            !changed ==> final(self).search_query@ == old(self).search_query@
                && final(self).selected_index == old(self).selected_index
                && final(self).preview_scroll_offset == old(self).preview_scroll_offset,
            final(self).active_tab == old(self).active_tab,
            final(self).status_message == old(self).status_message,
            final(self).same_lists(*old(self)),
    {
        match pop_char(&mut self.search_query) {
            Some(_) => {
                self.selected_index = 0;
                self.preview_scroll_offset = 0;
                true
            },
            None => false,
        }
    }

    /// The searches to hand the block store for the current tab and query.
    pub fn store_queries(&self) -> (q: BlockQueries)
        ensures
            trim(self.search_query@).len() == 0 ==> q.component_query is None,
            trim(self.search_query@).len() > 0 ==> q.component_query is Some
                && q.component_query->0@ == self.search_query@,
            q.palette_query@ == (if self.active_tab == BlocksTab::Palettes {
                trim(self.search_query@)
            } else {
                Seq::empty()
            }),
            q.gradient_query@ == (if self.active_tab == BlocksTab::Gradients {
                trim(self.search_query@)
            } else {
                Seq::empty()
            }),
    {
        let t = str_trim(self.search_query.as_str());
        let empty = t.as_str().is_empty();
        BlockQueries {
            component_query: if empty {
                None
            } else {
                Some(self.search_query.clone())
            },
            palette_query: if self.active_tab == BlocksTab::Palettes {
                t.clone()
            } else {
                String::new()
            },
            gradient_query: if self.active_tab == BlocksTab::Gradients {
                t
            } else {
                String::new()
            },
        }
    }
    /// Lists the store's answer to `store_queries()`: components in the store's order when
    /// a query is typed and by lower-cased name otherwise; palettes and gradients by
    /// lower-cased name; the templates whose name, description or base layout contains the
    /// trimmed, lower-cased query (on the templates tab), by lower-cased name. Equal names keep
    /// the store's order. The selection is then clamped into the active tab's list.
    pub fn refresh_filtered(&mut self, listings: &BlockListings)
        ensures
            trim(old(self).search_query@).len() == 0 ==> ids_by_name(
                final(self).filtered_component_ids@,
                entry_ids(listings.components@),
                entry_names(listings.components@),
            ),
            trim(old(self).search_query@).len() > 0 ==> final(self).filtered_component_ids@
                == entry_ids(listings.components@),
            ids_by_name(
                final(self).filtered_palette_ids@,
                entry_ids(listings.palettes@),
                entry_names(listings.palettes@),
            ),
            ids_by_name(
                final(self).filtered_gradient_ids@,
                entry_ids(listings.gradients@),
                entry_names(listings.gradients@),
            ),
            ({
                let tq = if old(self).active_tab == BlocksTab::Templates {
                    lowercase(trim(old(self).search_query@))
                } else {
                    Seq::empty()
                };
                let kept = kept_templates(listings.templates@, tq);
                ids_by_name(
                    final(self).filtered_template_ids@,
                    template_ids_at(listings.templates@, kept),
                    template_names_at(listings.templates@, kept),
                )
            }),
            final(self).selected_index == clamp_selection(
                old(self).selected_index as nat,
                final(self).tab_ids().len(),
            ),
            final(self).workspace_root == old(self).workspace_root,
            final(self).active_tab == old(self).active_tab,
            final(self).search_query == old(self).search_query,
            final(self).preview_scroll_offset == old(self).preview_scroll_offset,
            final(self).status_message == old(self).status_message,
    {
        let t = str_trim(self.search_query.as_str());
        if t.as_str().is_empty() {
            self.filtered_component_ids = entries_by_name(&listings.components);
        } else {
            let (ids, _names) = entry_columns(&listings.components);
            self.filtered_component_ids = ids;
        }
        self.filtered_palette_ids = entries_by_name(&listings.palettes);
        self.filtered_gradient_ids = entries_by_name(&listings.gradients);
        let tq = if self.active_tab == BlocksTab::Templates {
            chars_of(str_to_lowercase(t.as_str()).as_str())
        } else {
            Vec::new()
        };
        let (tids, tnames) = kept_template_entries(&listings.templates, &tq);
        self.filtered_template_ids = sort_ids_by_name(&tids, &tnames);
        let len = self.current_tab_len();
        self.selected_index = clamp_selection_exec(self.selected_index, len);
    }

    /// The identifier of the selected entry on the active tab, whose code the preview and
    /// the copy action show, if the list has one at the selection.
    pub fn selected_id(&self) -> (r: Option<u128>)
        ensures
            self.selected_index < self.tab_ids().len() ==> r == Some(
                self.tab_ids()[self.selected_index as int],
            ),
            self.selected_index >= self.tab_ids().len() ==> r is None,
    {
        let ids = match self.active_tab {
            BlocksTab::Components => &self.filtered_component_ids,
            BlocksTab::Palettes => &self.filtered_palette_ids,
            BlocksTab::Gradients => &self.filtered_gradient_ids,
            BlocksTab::Templates => &self.filtered_template_ids,
        };
        if self.selected_index < ids.len() {
            Some(ids[self.selected_index])
        } else {
            None
        }
    }
}

} // verus!
