//! Lays out, for a classified enum, the arms of its four dispatches: one
//! arm per variant, in declaration order, all sharing the variant's binding.

use crate::message::{compile_message, message_arm};
use crate::schema::{ClassKey, EnumSpec, EnumSpecView, VariantSpec, VariantSpecView};
use crate::shape::{binding, resolve};
use vstd::prelude::*;

verus! {

/// The columns of the dispatch tables. Entry `i` of every column belongs to
/// variant `i` of the enum.
#[derive(Clone, Debug, PartialEq, Eq)]
pub struct Dispatch {
    pub patterns: Vec<String>,
    pub statuses: Vec<String>,
    pub tags: Vec<String>,
    pub codes: Vec<String>,
    pub messages: Vec<String>,
}

pub struct DispatchView {
    pub patterns: Seq<Seq<char>>,
    pub statuses: Seq<Seq<char>>,
    pub tags: Seq<Seq<char>>,
    pub codes: Seq<Seq<char>>,
    pub messages: Seq<Seq<char>>,
}

impl DeepView for Dispatch {
    type V = DispatchView;

    open spec fn deep_view(&self) -> DispatchView {
        DispatchView {
            patterns: self.patterns.deep_view(),
            statuses: self.statuses.deep_view(),
            tags: self.tags.deep_view(),
            codes: self.codes.deep_view(),
            messages: self.messages.deep_view(),
        }
    }
}

impl View for Dispatch {
    type V = DispatchView;

    open spec fn view(&self) -> DispatchView {
        self.deep_view()
    }
}

/// What one variant contributes to the tables: its pattern, its status, tag
/// and code as written, and the arm that renders its message.
pub open spec fn row(enum_name: Seq<char>, variant: VariantSpecView) -> (
    Seq<char>,
    Seq<char>,
    Seq<char>,
    Seq<char>,
    Seq<char>,
) {
    let bound = binding(enum_name, variant.name, variant.shape);
    (
        bound.pattern,
        variant.attributes.status,
        variant.attributes.tag,
        variant.attributes.code,
        message_arm(bound, variant.attributes.message),
    )
}

/// The dispatch tables of a classified enum.
pub open spec fn dispatch(spec: EnumSpecView) -> DispatchView {
    DispatchView {
        patterns: Seq::new(spec.variants.len(), |i: int| row(spec.name, spec.variants[i]).0),
        statuses: Seq::new(spec.variants.len(), |i: int| row(spec.name, spec.variants[i]).1),
        tags: Seq::new(spec.variants.len(), |i: int| row(spec.name, spec.variants[i]).2),
        codes: Seq::new(spec.variants.len(), |i: int| row(spec.name, spec.variants[i]).3),
        messages: Seq::new(spec.variants.len(), |i: int| row(spec.name, spec.variants[i]).4),
    }
}

/// The column of `table` that answers `key`. For the message it is the
/// column of rendering arms.
pub open spec fn column(table: DispatchView, key: ClassKey) -> Seq<Seq<char>> {
    match key {
        ClassKey::Status => table.statuses,
        ClassKey::Tag => table.tags,
        ClassKey::Code => table.codes,
        ClassKey::Message => table.messages,
    }
}

/// What a variant answers to `key`: the expression as written, or for the
/// message the arm compiled from its template.
pub open spec fn answer(enum_name: Seq<char>, variant: VariantSpecView, key: ClassKey) -> Seq<
    char,
> {
    match key {
        ClassKey::Message => message_arm(
            binding(enum_name, variant.name, variant.shape),
            variant.attributes.message,
        ),
        _ => variant.attributes.get(key),
    }
}

/// Whether no two variants share a name.
pub open spec fn distinct_names(spec: EnumSpecView) -> bool {
    forall|i: int, j: int|
        0 <= i < j < spec.variants.len() ==> (#[trigger] spec.variants[i]).name != (
        #[trigger] spec.variants[j]).name
}

/// The position of the first arm written for the variant named `name`, or
/// the number of variants if there is none. This is the arm a value of that
/// variant selects.
pub open spec fn selected(variants: Seq<VariantSpecView>, name: Seq<char>) -> int
    decreases variants.len(),
{
    if variants.len() == 0 {
        0
    } else if variants.first().name == name {
        0
    } else {
        1 + selected(variants.drop_first(), name)
    }
}

/// Splits a list of five-part rows into its five columns, keeping the order.
pub fn unzip_n_vec<T1, T2, T3, T4, T5>(items: Vec<(T1, T2, T3, T4, T5)>) -> (out: (
    Vec<T1>,
    Vec<T2>,
    Vec<T3>,
    Vec<T4>,
    Vec<T5>,
))
    ensures
        out.0@ == Seq::new(items@.len(), |i: int| items@[i].0),
        out.1@ == Seq::new(items@.len(), |i: int| items@[i].1),
        out.2@ == Seq::new(items@.len(), |i: int| items@[i].2),
        out.3@ == Seq::new(items@.len(), |i: int| items@[i].3),
        out.4@ == Seq::new(items@.len(), |i: int| items@[i].4),
{
    broadcast use vstd::std_specs::vec::axiom_spec_into_iter;

    let mut t1: Vec<T1> = Vec::new();
    let mut t2: Vec<T2> = Vec::new();
    let mut t3: Vec<T3> = Vec::new();
    let mut t4: Vec<T4> = Vec::new();
    let mut t5: Vec<T5> = Vec::new();
    for item in it: items.into_iter()
        invariant
            it.seq() == items@,
            t1@ == Seq::new(it.index() as nat, |i: int| items@[i].0),
            t2@ == Seq::new(it.index() as nat, |i: int| items@[i].1),
            t3@ == Seq::new(it.index() as nat, |i: int| items@[i].2),
            t4@ == Seq::new(it.index() as nat, |i: int| items@[i].3),
            t5@ == Seq::new(it.index() as nat, |i: int| items@[i].4),
    {
        let (x1, x2, x3, x4, x5) = item;
        t1.push(x1);
        t2.push(x2);
        t3.push(x3);
        t4.push(x4);
        t5.push(x5);
    }
    (t1, t2, t3, t4, t5)
}

/// What one variant contributes to the tables.
pub fn plan_variant(enum_name: &str, variant: &VariantSpec) -> (out: (
    String,
    String,
    String,
    String,
    String,
))
    ensures
        (out.0@, out.1@, out.2@, out.3@, out.4@) == row(enum_name@, variant@),
{
    let bound = resolve(enum_name, variant.name.as_str(), &variant.shape);
    let message = compile_message(&bound, variant.attributes.message.as_str());
    (
        bound.pattern,
        variant.attributes.status.clone(),
        variant.attributes.tag.clone(),
        variant.attributes.code.clone(),
        message,
    )
}

/// Lays out the dispatch tables of a classified enum: for every variant, in
/// declaration order, exactly one entry in each column, and nothing else.
pub fn plan(spec: &EnumSpec) -> (out: Dispatch)
    ensures
        out@ == dispatch(spec@),
{
    let mut rows: Vec<(String, String, String, String, String)> = Vec::new();
    let mut i: usize = 0;
    while i < spec.variants.len()
        invariant
            i <= spec.variants.len(),
            rows@.len() == i,
            forall|k: int|
                0 <= k < i ==> (
                    (#[trigger] rows@[k]).0@,
                    rows@[k].1@,
                    rows@[k].2@,
                    rows@[k].3@,
                    rows@[k].4@,
                ) == row(spec@.name, spec@.variants[k]),
        decreases spec.variants.len() - i,
    {
        let planned = plan_variant(spec.name.as_str(), &spec.variants[i]);
        assert(spec@.variants[i as int] == spec.variants[i as int]@);
        rows.push(planned);
        i += 1;
    }
    let (patterns, statuses, tags, codes, messages) = unzip_n_vec(rows);
    let out = Dispatch { patterns, statuses, tags, codes, messages };
    assert(out@.patterns == dispatch(spec@).patterns);
    assert(out@.statuses == dispatch(spec@).statuses);
    assert(out@.tags == dispatch(spec@).tags);
    assert(out@.codes == dispatch(spec@).codes);
    assert(out@.messages == dispatch(spec@).messages);
    out
}

/// Every dispatch covers every variant exactly once and in declaration
/// order: each column has as many arms as the enum has variants, with no
/// arm left over for a default, and the arm at a variant's position carries
/// that variant's pattern and what was written for it.
pub proof fn lemma_dispatch_covers_every_variant(spec: EnumSpecView, key: ClassKey, i: int)
    requires
        0 <= i < spec.variants.len(),
    ensures
        dispatch(spec).patterns.len() == spec.variants.len(),
        column(dispatch(spec), key).len() == spec.variants.len(),
        dispatch(spec).patterns[i] == binding(
            spec.name,
            spec.variants[i].name,
            spec.variants[i].shape,
        ).pattern,
        column(dispatch(spec), key)[i] == answer(spec.name, spec.variants[i], key),
{
}

/// In an enum whose variants have distinct names, a value of any variant
/// selects the arm written for that variant, in each of the four
/// dispatches, and so is answered with exactly what was written for it. No
/// variant goes unmatched.
pub proof fn lemma_dispatch_exhaustive(spec: EnumSpecView, key: ClassKey, i: int)
    requires
        distinct_names(spec),
        0 <= i < spec.variants.len(),
    ensures
        selected(spec.variants, spec.variants[i].name) == i,
        column(dispatch(spec), key)[selected(spec.variants, spec.variants[i].name)] == answer(
            spec.name,
            spec.variants[i],
            key,
        ),
{
    lemma_selected_position(spec.variants, i);
}

proof fn lemma_selected_position(variants: Seq<VariantSpecView>, i: int)
    requires
        0 <= i < variants.len(),
        forall|a: int, b: int|
            0 <= a < b < variants.len() ==> (#[trigger] variants[a]).name != (
            #[trigger] variants[b]).name,
    ensures
        selected(variants, variants[i].name) == i,
    decreases variants.len(),
{
    if i > 0 {
        let rest = variants.drop_first();
        assert(variants[0].name != variants[i].name);
        assert forall|a: int, b: int| 0 <= a < b < rest.len() implies (#[trigger] rest[a]).name != (
        #[trigger] rest[b]).name by {
            assert(rest[a] == variants[a + 1]);
            assert(rest[b] == variants[b + 1]);
        }
        assert(rest[i - 1] == variants[i]);
        lemma_selected_position(rest, i - 1);
    }
}

} // verus!
