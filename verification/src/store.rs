//! A model of the hierarchical configuration store.
//!
//! The store is described by what each location holds. Effects are replayed
//! against it one by one; only the three configuration effects change it.
use vstd::prelude::*;
use crate::effect::{append_deep, push_deep, Effect, EffectView, Hive};
use crate::text::same_text;

verus! {

/// One value location: hive, path and value name.
pub struct Location {
    pub hive: Hive,
    pub path: Seq<char>,
    pub name: Seq<char>,
}

/// What a location can hold.
pub enum StoredValue {
    Dword(u32),
    Text(Seq<char>),
}

pub open spec fn location(hive: Hive, path: Seq<char>, name: Seq<char>) -> Location {
    Location { hive, path, name }
}

/// A value as it is read from the store.
#[derive(Clone, Debug, PartialEq, Eq)]
pub enum RegistryData {
    Dword(u32),
    Text(String),
}

impl View for RegistryData {
    type V = StoredValue;

    open spec fn view(&self) -> StoredValue {
        match *self {
            RegistryData::Dword(value) => StoredValue::Dword(value),
            RegistryData::Text(text) => StoredValue::Text(text@),
        }
    }
}

impl DeepView for RegistryData {
    type V = StoredValue;

    open spec fn deep_view(&self) -> StoredValue {
        self@
    }
}

/// The effect that puts a value back exactly as it was read: written back
/// with its type when it was present, removed when it was absent.
pub open spec fn restore_value(
    hive: Hive,
    path: Seq<char>,
    name: Seq<char>,
    original: Option<StoredValue>,
) -> EffectView {
    match original {
        Some(StoredValue::Dword(value)) => EffectView::SetDword { hive, path, name, value },
        Some(StoredValue::Text(text)) => EffectView::SetText { hive, path, name, text },
        None => EffectView::DeleteValue { hive, path, name },
    }
}

/// Whether `e` writes or deletes the value at `at`.
pub open spec fn writes_to(e: EffectView, at: Location) -> bool {
    match e {
        EffectView::SetDword { hive, path, name, .. } => at == location(hive, path, name),
        EffectView::SetText { hive, path, name, .. } => at == location(hive, path, name),
        EffectView::DeleteValue { hive, path, name } => at == location(hive, path, name),
        _ => false,
    }
}

/// What `e` leaves at the location it writes to.
pub open spec fn written(e: EffectView) -> Option<StoredValue> {
    match e {
        EffectView::SetDword { value, .. } => Some(StoredValue::Dword(value)),
        EffectView::SetText { text, .. } => Some(StoredValue::Text(text)),
        _ => None,
    }
}

/// The value at `at` after `e`, given that it was `before`.
pub open spec fn step(before: Option<StoredValue>, e: EffectView, at: Location) -> Option<
    StoredValue,
> {
    if writes_to(e, at) {
        written(e)
    } else {
        before
    }
}

/// The value at `at` after all of `effects` in order, given that it was `before`.
pub open spec fn replay(before: Option<StoredValue>, effects: Seq<EffectView>, at: Location)
    -> Option<StoredValue>
    decreases effects.len(),
{
    if effects.len() == 0 {
        before
    } else {
        step(replay(before, effects.drop_last(), at), effects.last(), at)
    }
}

/// Typed read of an integer: a text value or an absent one reads as `None`.
pub open spec fn as_dword(v: Option<StoredValue>) -> Option<u32> {
    match v {
        Some(StoredValue::Dword(d)) => Some(d),
        _ => None,
    }
}

/// Typed read of a text: an integer value or an absent one reads as `None`.
pub open spec fn as_text(v: Option<StoredValue>) -> Option<Seq<char>> {
    match v {
        Some(StoredValue::Text(t)) => Some(t),
        _ => None,
    }
}

/// Replaying a concatenation is replaying its parts in turn.
pub proof fn lemma_replay_concat(
    before: Option<StoredValue>,
    first: Seq<EffectView>,
    second: Seq<EffectView>,
    at: Location,
)
    ensures
        replay(before, first + second, at) == replay(replay(before, first, at), second, at),
    decreases second.len(),
{
    if second.len() == 0 {
        assert(first + second =~= first);
    } else {
        assert((first + second).drop_last() =~= first + second.drop_last());
        assert((first + second).last() == second.last());
        lemma_replay_concat(before, first, second.drop_last(), at);
    }
}

/// None of `effects` writes to `at`.
pub open spec fn spares(effects: Seq<EffectView>, at: Location) -> bool {
    forall|i: int| 0 <= i < effects.len() ==> !writes_to(#[trigger] effects[i], at)
}

/// Two lists that spare a location spare it together.
pub proof fn lemma_spares_concat(first: Seq<EffectView>, second: Seq<EffectView>, at: Location)
    requires
        spares(first, at),
        spares(second, at),
    ensures
        spares(first + second, at),
{
    assert forall|i: int| 0 <= i < (first + second).len() implies !writes_to(
        #[trigger] (first + second)[i],
        at,
    ) by {
        if i < first.len() {
            assert((first + second)[i] == first[i]);
        } else {
            assert((first + second)[i] == second[i - first.len()]);
        }
    }
}

/// Effects that do not write to `at` leave it as it was.
pub proof fn lemma_replay_untouched(before: Option<StoredValue>, effects: Seq<EffectView>, at: Location)
    requires
        spares(effects, at),
    ensures
        replay(before, effects, at) == before,
    decreases effects.len(),
{
    if effects.len() > 0 {
        lemma_replay_untouched(before, effects.drop_last(), at);
    }
}

/// In a list where only the effect at `i` writes to `at`, the value left at
/// `at` is the one that effect writes.
pub proof fn lemma_single_writer(
    before: Option<StoredValue>,
    effects: Seq<EffectView>,
    i: int,
    at: Location,
)
    requires
        0 <= i < effects.len(),
        writes_to(effects[i], at),
        forall|j: int| 0 <= j < effects.len() && j != i ==> !writes_to(#[trigger] effects[j], at),
    ensures
        replay(before, effects, at) == written(effects[i]),
    decreases effects.len(),
{
    let rest = effects.drop_last();
    if i == effects.len() - 1 {
    } else {
        assert(rest[i] == effects[i]);
        assert forall|j: int| 0 <= j < rest.len() && j != i implies !writes_to(
            #[trigger] rest[j],
            at,
        ) by {
            assert(rest[j] == effects[j]);
        }
        lemma_single_writer(before, rest, i, at);
    }
}

/// Replaying a single effect is one step.
pub proof fn lemma_replay_one(before: Option<StoredValue>, e: EffectView, at: Location)
    ensures
        replay(before, seq![e], at) == step(before, e, at),
{
    assert(seq![e].drop_last() =~= Seq::<EffectView>::empty());
    assert(replay(before, seq![e].drop_last(), at) == before);
}

/// An in-memory configuration store: the record of the effects applied to an
/// initially empty store.
pub struct ConfigStore {
    pub history: Vec<Effect>,
}

impl ConfigStore {
    /// The value the store holds at `at`.
    pub open spec fn value(&self, at: Location) -> Option<StoredValue> {
        replay(None, self.history.deep_view(), at)
    }

    /// An empty store: every location is absent.
    pub fn new() -> (s: Self)
        ensures
            s.history@.len() == 0,
            forall|at: Location| s.value(at).is_none(),
    {
        let s = ConfigStore { history: Vec::new() };
        assert(s.history.deep_view() =~= Seq::<EffectView>::empty());
        s
    }

    /// Applies `effects` in order.
    pub fn apply(&mut self, effects: Vec<Effect>)
        ensures
            final(self).history.deep_view() == old(self).history.deep_view() + effects.deep_view(),
            forall|at: Location| #[trigger]
                final(self).value(at) == replay(old(self).value(at), effects.deep_view(), at),
    {
        let ghost added = effects.deep_view();
        append_deep(&mut self.history, effects);
        assert forall|at: Location| #[trigger]
            self.value(at) == replay(old(self).value(at), added, at) by {
            lemma_replay_concat(None, old(self).history.deep_view(), added, at);
        }
    }

    /// Writes an integer value.
    pub fn set_dword(&mut self, hive: Hive, path: &str, name: &str, value: u32)
        ensures
            final(self).history.deep_view() == old(self).history.deep_view().push(
                EffectView::SetDword { hive, path: path@, name: name@, value },
            ),
            final(self).value(location(hive, path@, name@)) == Some(StoredValue::Dword(value)),
            forall|at: Location|
                at != location(hive, path@, name@) ==> #[trigger] final(self).value(at) == old(
                    self,
                ).value(at),
    {
        let e = Effect::SetDword { hive, path: path.to_owned(), name: name.to_owned(), value };
        push_deep(&mut self.history, e);
        assert(self.history.deep_view().drop_last() =~= old(self).history.deep_view());
    }

    /// Writes a text value.
    pub fn set_text(&mut self, hive: Hive, path: &str, name: &str, text: &str)
        ensures
            final(self).history.deep_view() == old(self).history.deep_view().push(
                EffectView::SetText { hive, path: path@, name: name@, text: text@ },
            ),
            final(self).value(location(hive, path@, name@)) == Some(StoredValue::Text(text@)),
            forall|at: Location|
                at != location(hive, path@, name@) ==> #[trigger] final(self).value(at) == old(
                    self,
                ).value(at),
    {
        let e = Effect::SetText {
            hive,
            path: path.to_owned(),
            name: name.to_owned(),
            text: text.to_owned(),
        };
        push_deep(&mut self.history, e);
        assert(self.history.deep_view().drop_last() =~= old(self).history.deep_view());
    }

    /// Removes a value.
    pub fn delete(&mut self, hive: Hive, path: &str, name: &str)
        ensures
            final(self).history.deep_view() == old(self).history.deep_view().push(
                EffectView::DeleteValue { hive, path: path@, name: name@ },
            ),
            final(self).value(location(hive, path@, name@)).is_none(),
            forall|at: Location|
                at != location(hive, path@, name@) ==> #[trigger] final(self).value(at) == old(
                    self,
                ).value(at),
    {
        let e = Effect::DeleteValue { hive, path: path.to_owned(), name: name.to_owned() };
        push_deep(&mut self.history, e);
        assert(self.history.deep_view().drop_last() =~= old(self).history.deep_view());
    }

    /// Index of the last effect that wrote to the location, if any.
    fn last_write(&self, hive: Hive, path: &str, name: &str) -> (r: Option<usize>)
        ensures
            match r {
                Some(i) => i < self.history@.len() && writes_to(
                    self.history.deep_view()[i as int],
                    location(hive, path@, name@),
                ) && self.value(location(hive, path@, name@)) == written(
                    self.history.deep_view()[i as int],
                ),
                None => self.value(location(hive, path@, name@)).is_none(),
            },
    {
        let ghost at = location(hive, path@, name@);
        let ghost h = self.history.deep_view();
        let mut i: usize = self.history.len();
        assert(h.subrange(0, i as int) =~= h);
        while i > 0
            invariant
                i <= self.history@.len(),
                h == self.history.deep_view(),
                at == location(hive, path@, name@),
                replay(None, h, at) == replay(None, h.subrange(0, i as int), at),
            decreases i,
        {
            i -= 1;
            let hit = match &self.history[i] {
                Effect::SetDword { hive: other, path: at_path, name: at_name, .. } => *other == hive && same_text(
                    at_path.as_str(),
                    path,
                ) && same_text(at_name.as_str(), name),
                Effect::SetText { hive: other, path: at_path, name: at_name, .. } => *other == hive && same_text(
                    at_path.as_str(),
                    path,
                ) && same_text(at_name.as_str(), name),
                Effect::DeleteValue { hive: other, path: at_path, name: at_name } => *other == hive && same_text(
                    at_path.as_str(),
                    path,
                ) && same_text(at_name.as_str(), name),
                _ => false,
            };
            proof {
                let prefix = h.subrange(0, i as int + 1);
                assert(prefix.drop_last() =~= h.subrange(0, i as int));
                assert(prefix.last() == h[i as int]);
                assert(hit == writes_to(h[i as int], at));
            }
            if hit {
                return Some(i);
            }
        }
        proof {
            assert(h.subrange(0, 0) =~= Seq::<EffectView>::empty());
        }
        None
    }

    /// Typed read of an integer value.
    pub fn read_dword(&self, hive: Hive, path: &str, name: &str) -> (r: Option<u32>)
        ensures
            r == as_dword(self.value(location(hive, path@, name@))),
    {
        match self.last_write(hive, path, name) {
            Some(i) => match &self.history[i] {
                Effect::SetDword { value, .. } => Some(*value),
                _ => None,
            },
            None => None,
        }
    }

    /// Typed read of a text value.
    pub fn read_text(&self, hive: Hive, path: &str, name: &str) -> (r: Option<String>)
        ensures
            r.deep_view() == as_text(self.value(location(hive, path@, name@))),
    {
        match self.last_write(hive, path, name) {
            Some(i) => match &self.history[i] {
                Effect::SetText { text, .. } => Some(text.clone()),
                _ => None,
            },
            None => None,
        }
    }

    /// Read of a value with its type.
    pub fn read(&self, hive: Hive, path: &str, name: &str) -> (r: Option<RegistryData>)
        ensures
            r.deep_view() == self.value(location(hive, path@, name@)),
    {
        match self.last_write(hive, path, name) {
            Some(i) => match &self.history[i] {
                Effect::SetDword { value, .. } => Some(RegistryData::Dword(*value)),
                Effect::SetText { text, .. } => Some(RegistryData::Text(text.clone())),
                _ => None,
            },
            None => None,
        }
    }

    /// The effect that puts a value back exactly as it was read.
    pub fn restore(hive: Hive, path: &str, name: &str, original: &Option<RegistryData>) -> (e:
        Effect)
        ensures
            e@ == restore_value(hive, path@, name@, original.deep_view()),
    {
        match original {
            Some(RegistryData::Dword(value)) => Effect::set_dword(hive, path, name, *value),
            Some(RegistryData::Text(text)) => Effect::set_text(hive, path, name, text.as_str()),
            None => Effect::delete_value(hive, path, name),
        }
    }
}

} // verus!
