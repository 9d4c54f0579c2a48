//! Values as they travel over D-Bus.

use vstd::prelude::*;

use crate::number::Real64;
use crate::text::{holds_empty, non_empty, same_text, unless_empty};

verus! {

/// A D-Bus value, as far as the metadata of a player is told by it.
#[derive(Debug)]
pub enum Variant {
    I32(i32),
    I64(i64),
    U64(u64),
    F64(Real64),
    Str(String),
    /// A value wrapped in a variant of its own.
    Boxed(Box<Variant>),
    Array(Vec<Variant>),
    /// The entries of a dictionary, in the order of their keys.
    Dict(Vec<(Variant, Variant)>),
    /// A value of any other type.
    Other,
}

/// What a [`Variant`] says.
pub enum VariantModel {
    I32(i32),
    I64(i64),
    U64(u64),
    F64(Real64),
    Str(Seq<char>),
    Boxed(Box<VariantModel>),
    Array(Seq<VariantModel>),
    Dict(Seq<(VariantModel, VariantModel)>),
    Other,
}

impl Variant {
    /// What the value says.
    pub open spec fn model(self) -> VariantModel
        decreases self,
    {
        match self {
            Variant::I32(n) => VariantModel::I32(n),
            Variant::I64(n) => VariantModel::I64(n),
            Variant::U64(n) => VariantModel::U64(n),
            Variant::F64(x) => VariantModel::F64(x),
            Variant::Str(s) => VariantModel::Str(s@),
            Variant::Boxed(v) => VariantModel::Boxed(Box::new((*v).model())),
            Variant::Array(items) => VariantModel::Array(
                Seq::new(
                    items@.len(),
                    |i: int|
                        if 0 <= i < items@.len() {
                            items@[i].model()
                        } else {
                            VariantModel::Other
                        },
                ),
            ),
            Variant::Dict(entries) => VariantModel::Dict(
                Seq::new(
                    entries@.len(),
                    |i: int|
                        if 0 <= i < entries@.len() {
                            (entries@[i].0.model(), entries@[i].1.model())
                        } else {
                            (VariantModel::Other, VariantModel::Other)
                        },
                ),
            ),
            Variant::Other => VariantModel::Other,
        }
    }
}

impl DeepView for Variant {
    type V = VariantModel;

    open spec fn deep_view(&self) -> VariantModel {
        self.model()
    }
}

/// The value under a text key: that of the first entry with the key, taken out of its own variant
/// where it is wrapped in one.
pub open spec fn entry(entries: Seq<(VariantModel, VariantModel)>, key: Seq<char>) -> Option<
    VariantModel,
>
    decreases entries.len(),
{
    if entries.len() == 0 {
        None
    } else if entries[0].0 == VariantModel::Str(key) {
        Some(unboxed(entries[0].1))
    } else {
        entry(entries.drop_first(), key)
    }
}

/// A value without the variant that it may be wrapped in.
pub open spec fn unboxed(value: VariantModel) -> VariantModel {
    match value {
        VariantModel::Boxed(v) => *v,
        v => v,
    }
}

/// Looks a text key up among the entries of a dictionary.
pub fn lookup<'a>(entries: &'a Vec<(Variant, Variant)>, key: &str) -> (r: Option<&'a Variant>)
    ensures
        r.deep_view() == entry(entries.deep_view(), key@),
{
    let ghost all = entries.deep_view();
    let mut i: usize = 0;
    assert(all.skip(0) =~= all);
    while i < entries.len()
        invariant
            i <= entries.len(),
            all == entries.deep_view(),
            entry(all, key@) == entry(all.skip(i as int), key@),
        decreases entries.len() - i,
    {
        let ghost rest = all.skip(i as int);
        assert(rest[0] == entries[i as int].deep_view());
        assert(rest.drop_first() =~= all.skip(i + 1));
        if let Variant::Str(name) = &entries[i].0 {
            if same_text(name.as_str(), key) {
                return match &entries[i].1 {
                    Variant::Boxed(v) => Some(&**v),
                    v => Some(v),
                };
            }
        }
        i += 1;
    }
    None
}

/// The text of a value that is one.
pub open spec fn text_of(value: Option<VariantModel>) -> Option<Seq<char>> {
    match value {
        Some(VariantModel::Str(s)) => Some(s),
        _ => None,
    }
}

/// The text of a value that is one.
pub fn read_text(value: Option<&Variant>) -> (r: Option<String>)
    ensures
        r.deep_view() == text_of(value.deep_view()),
{
    match value {
        Some(Variant::Str(s)) => Some(s.clone()),
        _ => None,
    }
}

/// The text of a value that is one and not empty.
pub open spec fn filled_text_of(value: Option<VariantModel>) -> Option<Seq<char>> {
    match value {
        Some(VariantModel::Str(s)) => unless_empty(s),
        _ => None,
    }
}

/// The text of a value that is one and not empty.
pub fn read_filled_text(value: Option<&Variant>) -> (r: Option<String>)
    ensures
        r.deep_view() == filled_text_of(value.deep_view()),
{
    match value {
        Some(Variant::Str(s)) => non_empty(s.clone()),
        _ => None,
    }
}

/// The texts among some values, in their order, without the empty ones.
pub open spec fn filled_texts(items: Seq<VariantModel>) -> Seq<Seq<char>>
    decreases items.len(),
{
    if items.len() == 0 {
        seq![]
    } else {
        let before = filled_texts(items.drop_last());
        match items.last() {
            VariantModel::Str(s) => if s.len() > 0 {
                before.push(s)
            } else {
                before
            },
            _ => before,
        }
    }
}

/// The texts of a value that is an array, without the empty ones; none of any other value.
pub open spec fn names_of(value: Option<VariantModel>) -> Seq<Seq<char>> {
    match value {
        Some(VariantModel::Array(items)) => filled_texts(items),
        _ => seq![],
    }
}

/// The texts of a value that is an array, without the empty ones.
pub fn read_names(value: Option<&Variant>) -> (r: Vec<String>)
    ensures
        r.deep_view() == names_of(value.deep_view()),
{
    let mut names: Vec<String> = Vec::new();
    assert(names.deep_view() =~= Seq::<Seq<char>>::empty());
    if let Some(Variant::Array(items)) = value {
        let ghost all = items.deep_view();
        assert(value.deep_view() == Some(VariantModel::Array(all))) by {
            assert(value->0.model()->Array_0 =~= all);
        }
        let mut i: usize = 0;
        while i < items.len()
            invariant
                i <= items.len(),
                all == items.deep_view(),
                names.deep_view() == filled_texts(all.take(i as int)),
            decreases items.len() - i,
        {
            let ghost next = all.take(i + 1);
            assert(next.drop_last() =~= all.take(i as int));
            assert(next.last() == items[i as int].model());
            let ghost before = names.deep_view();
            if let Variant::Str(s) = &items[i] {
                if let Some(name) = non_empty(s.clone()) {
                    names.push(name);
                    assert(names.deep_view() =~= before.push(name@));
                }
            }
            i += 1;
        }
        assert(all.take(i as int) =~= all);
    }
    names
}

/// No name that is read is empty.
pub proof fn names_are_filled(value: Option<VariantModel>)
    ensures
        !holds_empty(names_of(value)),
{
    match value {
        Some(VariantModel::Array(items)) => filled_texts_are_filled(items),
        _ => {},
    }
}

proof fn filled_texts_are_filled(items: Seq<VariantModel>)
    ensures
        !holds_empty(filled_texts(items)),
    decreases items.len(),
{
    if items.len() > 0 {
        filled_texts_are_filled(items.drop_last());
        let before = filled_texts(items.drop_last());
        let names = filled_texts(items);
        assert forall|i: int| 0 <= i < names.len() implies (#[trigger] names[i]).len() > 0 by {
            if i < before.len() {
                assert(names[i] == before[i]);
            }
        }
    }
}

/// A key finds the value of the first entry under it, taken out of the variant that it is wrapped
/// in, if it is in one.
pub proof fn lookups_find_the_first_entry(
    entries: Seq<(VariantModel, VariantModel)>,
    key: Seq<char>,
    i: int,
)
    requires
        0 <= i < entries.len(),
        entries[i].0 == VariantModel::Str(key),
        forall|j: int| 0 <= j < i ==> (#[trigger] entries[j]).0 != VariantModel::Str(key),
    ensures
        entries[i].1 matches VariantModel::Boxed(v) ==> entry(entries, key) == Some(*v),
        !(entries[i].1 is Boxed) ==> entry(entries, key) == Some(entries[i].1),
    decreases i,
{
    if i > 0 {
        let rest = entries.drop_first();
        assert(entries[0].0 != VariantModel::Str(key));
        assert(rest[i - 1] == entries[i]);
        assert forall|j: int| 0 <= j < i - 1 implies (#[trigger] rest[j]).0 != VariantModel::Str(
            key,
        ) by {
            assert(rest[j] == entries[j + 1]);
        }
        lookups_find_the_first_entry(rest, key, i - 1);
    }
}

/// A key that no entry is under finds nothing.
pub proof fn lookups_of_missing_keys_find_nothing(
    entries: Seq<(VariantModel, VariantModel)>,
    key: Seq<char>,
)
    requires
        forall|j: int|
            0 <= j < entries.len() ==> (#[trigger] entries[j]).0 != VariantModel::Str(key),
    ensures
        entry(entries, key) is None,
    decreases entries.len(),
{
    if entries.len() > 0 {
        let rest = entries.drop_first();
        assert(entries[0].0 != VariantModel::Str(key));
        assert forall|j: int| 0 <= j < rest.len() implies (#[trigger] rest[j]).0
            != VariantModel::Str(key) by {
            assert(rest[j] == entries[j + 1]);
        }
        lookups_of_missing_keys_find_nothing(rest, key);
    }
}

/// The names in two runs of values are those in the first and then those in the second.
pub proof fn names_are_read_in_turn(a: Seq<VariantModel>, b: Seq<VariantModel>)
    ensures
        names_of(Some(VariantModel::Array(a + b))) == names_of(Some(VariantModel::Array(a)))
            + names_of(Some(VariantModel::Array(b))),
    decreases b.len(),
{
    if b.len() == 0 {
        assert(a + b =~= a);
        assert(filled_texts(a) + filled_texts(b) =~= filled_texts(a));
    } else {
        names_are_read_in_turn(a, b.drop_last());
        assert((a + b).drop_last() =~= a + b.drop_last());
        assert(filled_texts(a + b) =~= filled_texts(a) + filled_texts(b));
    }
}

/// Of a single value the name is its text, where it is one and not empty; and only an array holds
/// names.
pub proof fn one_value_is_one_name(item: VariantModel, value: VariantModel)
    ensures
        item matches VariantModel::Str(s) ==> s.len() > 0 ==> names_of(
            Some(VariantModel::Array(seq![item])),
        ) == seq![s],
        item matches VariantModel::Str(s) ==> s.len() == 0 ==> names_of(
            Some(VariantModel::Array(seq![item])),
        ) == Seq::<Seq<char>>::empty(),
        !(item is Str) ==> names_of(Some(VariantModel::Array(seq![item]))) == Seq::<
            Seq<char>,
        >::empty(),
        !(value is Array) ==> names_of(Some(value)) == Seq::<Seq<char>>::empty(),
        names_of(None) == Seq::<Seq<char>>::empty(),
{
    let items = seq![item];
    reveal_with_fuel(filled_texts, 2);
    assert(items.drop_last() =~= Seq::<VariantModel>::empty());
    assert(items.last() == item);
    match item {
        VariantModel::Str(s) => {
            if s.len() > 0 {
                assert(filled_texts(items) =~= seq![s]);
            } else {
                assert(filled_texts(items) =~= Seq::<Seq<char>>::empty());
            }
        },
        _ => {
            assert(filled_texts(items) =~= Seq::<Seq<char>>::empty());
        },
    }
}

/// A text is read from a value that is one; a filled text, from one that is not empty.
pub proof fn texts_are_read_as_they_are(text: Seq<char>, value: VariantModel)
    ensures
        text_of(Some(VariantModel::Str(text))) == Some(text),
        filled_text_of(Some(VariantModel::Str(text))) == if text.len() > 0 {
            Some(text)
        } else {
            None
        },
        !(value is Str) ==> text_of(Some(value)) is None && filled_text_of(Some(value)) is None,
        text_of(None) is None,
        filled_text_of(None) is None,
{
}

/// A value says what it holds.
pub proof fn values_say_all(value: Variant)
    ensures
        match value {
            Variant::I32(n) => value.model() == VariantModel::I32(n),
            Variant::I64(n) => value.model() == VariantModel::I64(n),
            Variant::U64(n) => value.model() == VariantModel::U64(n),
            Variant::F64(x) => value.model() == VariantModel::F64(x),
            Variant::Str(s) => value.model() == VariantModel::Str(s@),
            Variant::Boxed(v) => value.model() matches VariantModel::Boxed(w) && *w == v.model(),
            Variant::Array(items) => value.model() matches VariantModel::Array(told) && told.len()
                == items@.len() && forall|i: int|
                0 <= i < told.len() ==> #[trigger] told[i] == items@[i].model(),
            Variant::Dict(entries) => value.model() matches VariantModel::Dict(told) && told.len()
                == entries@.len() && forall|i: int|
                0 <= i < told.len() ==> (#[trigger] told[i]).0 == entries@[i].0.model() && told[i].1
                    == entries@[i].1.model(),
            Variant::Other => value.model() == VariantModel::Other,
        },
{
}

} // verus!
