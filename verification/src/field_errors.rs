//! Messages grouped by the field of the request body that they are about.

use crate::text::texts;
use vstd::prelude::*;

verus! {

/// The field and the message of each pair, as texts.
pub open spec fn pair_texts(pairs: Seq<(String, String)>) -> Seq<(Seq<char>, Seq<char>)> {
    pairs.map_values(|p: (String, String)| (p.0@, p.1@))
}

/// Whether some pair is about `field`.
pub open spec fn mentions(pairs: Seq<(Seq<char>, Seq<char>)>, field: Seq<char>) -> bool {
    exists|i: int| 0 <= i < pairs.len() && (#[trigger] pairs[i]).0 == field
}

/// The test that a pair is about `field`.
pub open spec fn is_about(field: Seq<char>) -> spec_fn((Seq<char>, Seq<char>)) -> bool {
    |p: (Seq<char>, Seq<char>)| p.0 == field
}

/// The message of a pair.
pub open spec fn message_of() -> spec_fn((Seq<char>, Seq<char>)) -> Seq<char> {
    |p: (Seq<char>, Seq<char>)| p.1
}

/// The messages of the pairs that are about `field`, in the order of the pairs.
pub open spec fn messages_for(pairs: Seq<(Seq<char>, Seq<char>)>, field: Seq<char>) -> Seq<
    Seq<char>,
> {
    pairs.filter(is_about(field)).map_values(message_of())
}

/// The pairs grouped by field: every field that some pair is about, with the
/// messages of its pairs in their order.
pub open spec fn grouped(pairs: Seq<(Seq<char>, Seq<char>)>) -> Map<Seq<char>, Seq<Seq<char>>> {
    Map::new(|field: Seq<char>| mentions(pairs, field), |field: Seq<char>| messages_for(pairs, field))
}

/// The fields that the pairs are about, each once, in the order in which they first occur.
pub open spec fn field_order(pairs: Seq<(Seq<char>, Seq<char>)>) -> Seq<Seq<char>>
    decreases pairs.len(),
{
    if pairs.len() == 0 {
        Seq::empty()
    } else {
        let earlier = field_order(pairs.drop_last());
        if mentions(pairs.drop_last(), pairs.last().0) {
            earlier
        } else {
            earlier.push(pairs.last().0)
        }
    }
}

/// A field that no pair is about has no message.
pub proof fn lemma_unmentioned_has_no_message(pairs: Seq<(Seq<char>, Seq<char>)>, field: Seq<char>)
    requires
        !mentions(pairs, field),
    ensures
        messages_for(pairs, field) == Seq::<Seq<char>>::empty(),
{
    let about = is_about(field);
    let kept = pairs.filter(about);
    if kept.len() > 0 {
        pairs.lemma_filter_pred(about, 0);
        assert(kept.contains(kept[0]));
        pairs.lemma_filter_contains_rev(about, kept[0]);
        let i = choose|i: int| 0 <= i < pairs.len() && pairs[i] == kept[0];
        assert(pairs[i].0 == field);
    }
    assert(messages_for(pairs, field) =~= Seq::<Seq<char>>::empty());
}

/// One more pair adds its message behind those that its field already has.
pub proof fn lemma_grouped_push(pairs: Seq<(Seq<char>, Seq<char>)>, pair: (Seq<char>, Seq<char>))
    ensures
        grouped(pairs.push(pair)) == grouped(pairs).insert(
            pair.0,
            (if grouped(pairs).contains_key(pair.0) {
                grouped(pairs)[pair.0]
            } else {
                Seq::<Seq<char>>::empty()
            }).push(pair.1),
        ),
        field_order(pairs.push(pair)) == (if grouped(pairs).contains_key(pair.0) {
            field_order(pairs)
        } else {
            field_order(pairs).push(pair.0)
        }),
{
    let more = pairs.push(pair);
    assert(more.drop_last() =~= pairs);
    if !mentions(pairs, pair.0) {
        lemma_unmentioned_has_no_message(pairs, pair.0);
    }
    assert forall|field: Seq<char>| mentions(more, field) <==> (field == pair.0 || mentions(pairs, field)) by {
        if mentions(pairs, field) {
            let i = choose|i: int| 0 <= i < pairs.len() && (#[trigger] pairs[i]).0 == field;
            assert(more[i] == pairs[i]);
        }
        if field == pair.0 {
            assert(more[pairs.len() as int] == pair);
        }
        if mentions(more, field) {
            let i = choose|i: int| 0 <= i < more.len() && (#[trigger] more[i]).0 == field;
            if i < pairs.len() {
                assert(pairs[i] == more[i]);
            }
        }
    }
    assert forall|field: Seq<char>| #[trigger] messages_for(more, field) == (if field == pair.0 {
        messages_for(pairs, field).push(pair.1)
    } else {
        messages_for(pairs, field)
    }) by {
        let about = is_about(field);
        pairs.lemma_filter_push(pair, about);
        if field == pair.0 {
            assert(pairs.filter(about).push(pair).map_values(message_of())
                =~= pairs.filter(about).map_values(message_of()).push(pair.1));
        }
    }
    assert(grouped(more) =~= grouped(pairs).insert(
        pair.0,
        messages_for(pairs, pair.0).push(pair.1),
    ));
}

/// No field of a grouping is left without a message.
pub proof fn lemma_grouped_nonempty(pairs: Seq<(Seq<char>, Seq<char>)>, field: Seq<char>)
    requires
        grouped(pairs).contains_key(field),
    ensures
        grouped(pairs)[field].len() > 0,
    decreases pairs.len(),
{
    if pairs.len() > 0 {
        let init = pairs.drop_last();
        assert(pairs == init.push(pairs.last()));
        lemma_grouped_push(init, pairs.last());
        if field != pairs.last().0 {
            lemma_grouped_nonempty(init, field);
        }
    }
}

/// For each field the messages about it, in the order in which they came.
/// Every field that is present has at least one message.
#[derive(Debug)]
pub struct FieldErrors {
    entries: Vec<(String, Vec<String>)>,
}

impl FieldErrors {
    #[verifier::type_invariant]
    closed spec fn well_formed(&self) -> bool {
        &&& forall|i: int, j: int|
            0 <= i < j < self.entries@.len() ==> (#[trigger] self.entries@[i]).0@ != (
            #[trigger] self.entries@[j]).0@
        &&& forall|i: int| 0 <= i < self.entries@.len() ==> (#[trigger] self.entries@[i]).1@.len() > 0
    }

    /// The names of the fields, in the order in which each first came up.
    pub closed spec fn names(&self) -> Seq<Seq<char>> {
        self.entries@.map_values(|e: (String, Vec<String>)| e.0@)
    }

    /// Where `field` stands among the entries, if it does.
    closed spec fn position(&self, field: Seq<char>) -> int {
        choose|i: int| 0 <= i < self.entries@.len() && (#[trigger] self.entries@[i]).0@ == field
    }
}

impl View for FieldErrors {
    type V = Map<Seq<char>, Seq<Seq<char>>>;

    closed spec fn view(&self) -> Map<Seq<char>, Seq<Seq<char>>> {
        Map::new(
            |field: Seq<char>|
                exists|i: int|
                    0 <= i < self.entries@.len() && (#[trigger] self.entries@[i]).0@ == field,
            |field: Seq<char>| texts(self.entries@[self.position(field)].1@),
        )
    }
}

impl FieldErrors {
    /// No field at all.
    pub fn new() -> (empty: FieldErrors)
        ensures
            empty@ == Map::<Seq<char>, Seq<Seq<char>>>::empty(),
            empty.names() == Seq::<Seq<char>>::empty(),
    {
        let empty = FieldErrors { entries: Vec::new() };
        assert(empty@ =~= Map::<Seq<char>, Seq<Seq<char>>>::empty());
        assert(empty.names() =~= Seq::<Seq<char>>::empty());
        empty
    }

    /// These errors with `message` put behind the messages that `field` already has.
    pub fn with(self, field: String, message: String) -> (more: FieldErrors)
        ensures
            more@ == self@.insert(
                field@,
                (if self@.contains_key(field@) {
                    self@[field@]
                } else {
                    Seq::<Seq<char>>::empty()
                }).push(message@),
            ),
            more.names() == (if self@.contains_key(field@) {
                self.names()
            } else {
                self.names().push(field@)
            }),
    {
        proof {
            use_type_invariant(&self);
        }
        let ghost before = self.entries@;
        let mut entries = self.entries;
        let count = entries.len();
        let mut at: usize = 0;
        while at < count && !(entries[at].0 == field)
            invariant
                at <= count,
                count == entries@.len(),
                entries@ == before,
                forall|i: int| 0 <= i < at ==> (#[trigger] entries@[i]).0@ != field@,
            decreases count - at,
        {
            at += 1;
        }
        if at < count {
            let (name, mut messages) = entries.remove(at);
            messages.push(message);
            entries.insert(at, (name, messages));
            let more = FieldErrors { entries };
            proof {
                let after = more.entries@;
                assert(before[at as int].0@ == field@);
                assert(self@.contains_key(field@));
                let expected = self@.insert(field@, self@[field@].push(message@));
                assert(after =~= before.update(at as int, (name, messages)));
                assert(self.position(field@) == at);
                assert forall|f: Seq<char>| #[trigger] more@.contains_key(f) <==> expected.contains_key(f) by {
                    if self@.contains_key(f) {
                        let i = choose|i: int| 0 <= i < before.len() && (#[trigger] before[i]).0@ == f;
                        assert(after[i].0@ == f);
                    }
                    if more@.contains_key(f) {
                        let i = choose|i: int| 0 <= i < after.len() && (#[trigger] after[i]).0@ == f;
                        assert(before[i].0@ == f);
                    }
                }
                assert forall|f: Seq<char>| more@.contains_key(f) implies #[trigger] more@[f] == expected[f] by {
                    let i = more.position(f);
                    assert(before[i].0@ == f);
                    assert(self.position(f) == i);
                    if f == field@ {
                        assert(texts(messages@) =~= texts(before[i].1@).push(message@));
                    }
                }
                assert(more@ =~= expected);
                assert(more.names() =~= self.names());
            }
            more
        } else {
            let mut messages: Vec<String> = Vec::new();
            messages.push(message);
            entries.push((field, messages));
            let more = FieldErrors { entries };
            proof {
                let after = more.entries@;
                let expected = self@.insert(field@, Seq::<Seq<char>>::empty().push(message@));
                assert(!self@.contains_key(field@));
                assert(texts(messages@) =~= Seq::<Seq<char>>::empty().push(message@));
                assert forall|f: Seq<char>| #[trigger] more@.contains_key(f) <==> expected.contains_key(f) by {
                    if self@.contains_key(f) {
                        let i = choose|i: int| 0 <= i < before.len() && (#[trigger] before[i]).0@ == f;
                        assert(after[i].0@ == f);
                    }
                    if f == field@ {
                        assert(after[count as int].0@ == f);
                    }
                    if more@.contains_key(f) {
                        let i = choose|i: int| 0 <= i < after.len() && (#[trigger] after[i]).0@ == f;
                        if i < count {
                            assert(before[i].0@ == f);
                        }
                    }
                }
                assert forall|f: Seq<char>| more@.contains_key(f) implies #[trigger] more@[f] == expected[f] by {
                    let i = more.position(f);
                    if f != field@ {
                        assert(i < count);
                        assert(before[i].0@ == f);
                        assert(self.position(f) == i);
                    } else {
                        assert(i == count);
                    }
                }
                assert(more@ =~= expected);
                assert(more.names() =~= self.names().push(field@));
            }
            more
        }
    }

    /// How many fields have messages.
    pub fn len(&self) -> (count: usize)
        ensures
            count == self.names().len(),
    {
        self.entries.len()
    }

    /// Whether no field has a message.
    pub fn is_empty(&self) -> (empty: bool)
        ensures
            empty == (self.names().len() == 0),
            empty == (self@ == Map::<Seq<char>, Seq<Seq<char>>>::empty()),
    {
        proof {
            if self.entries@.len() > 0 {
                assert(self@.contains_key(self.entries@[0].0@));
            } else {
                assert(self@ =~= Map::<Seq<char>, Seq<Seq<char>>>::empty());
            }
        }
        self.entries.len() == 0
    }

    /// The fields that have messages, each once, in the order in which each
    /// first came up.
    pub fn field_names(&self) -> (names: Vec<String>)
        ensures
            texts(names@) == self.names(),
            self.names().no_duplicates(),
            forall|field: Seq<char>| self@.contains_key(field) <==> self.names().contains(field),
    {
        proof {
            use_type_invariant(self);
        }
        let mut names: Vec<String> = Vec::new();
        let mut at: usize = 0;
        while at < self.entries.len()
            invariant
                at <= self.entries@.len(),
                texts(names@) == self.names().take(at as int),
            decreases self.entries.len() - at,
        {
            let ghost before = names@;
            names.push(self.entries[at].0.clone());
            proof {
                assert(texts(names@) =~= texts(before).push(self.entries@[at as int].0@));
                assert(self.names().take(at + 1) =~= self.names().take(at as int).push(
                    self.entries@[at as int].0@,
                ));
            }
            at += 1;
        }
        proof {
            assert(self.names().take(at as int) =~= self.names());
            assert forall|field: Seq<char>| self@.contains_key(field) <==> self.names().contains(
                field,
            ) by {
                if self@.contains_key(field) {
                    let i = choose|i: int|
                        0 <= i < self.entries@.len() && (#[trigger] self.entries@[i]).0@ == field;
                    assert(self.names()[i] == field);
                }
                if self.names().contains(field) {
                    let i = choose|i: int| 0 <= i < self.names().len() && self.names()[i] == field;
                    assert(self.entries@[i].0@ == field);
                }
            }
        }
        names
    }

    /// The messages about `field`, in the order in which they came, if it has any.
    pub fn messages(&self, field: &str) -> (found: Option<Vec<String>>)
        ensures
            match found {
                Some(messages) => self@.contains_key(field@) && texts(messages@) == self@[field@]
                    && messages@.len() > 0,
                None => !self@.contains_key(field@),
            },
    {
        proof {
            use_type_invariant(self);
        }
        let wanted = field.to_owned();
        let mut at: usize = 0;
        while at < self.entries.len() && !(self.entries[at].0 == wanted)
            invariant
                at <= self.entries@.len(),
                wanted@ == field@,
                forall|i: int| 0 <= i < at ==> (#[trigger] self.entries@[i]).0@ != field@,
            decreases self.entries.len() - at,
        {
            at += 1;
        }
        if at < self.entries.len() {
            proof {
                assert(self.entries@[at as int].0@ == field@);
                assert(self.position(field@) == at);
            }
            let stored = &self.entries[at].1;
            let mut messages: Vec<String> = Vec::new();
            let mut next: usize = 0;
            while next < stored.len()
                invariant
                    next <= stored@.len(),
                    texts(messages@) == texts(stored@).take(next as int),
                decreases stored.len() - next,
            {
                let ghost before = messages@;
                messages.push(stored[next].clone());
                proof {
                    assert(texts(messages@) =~= texts(before).push(stored@[next as int]@));
                    assert(texts(stored@).take(next + 1) =~= texts(stored@).take(next as int).push(
                        stored@[next as int]@,
                    ));
                }
                next += 1;
            }
            proof {
                assert(texts(stored@).take(next as int) =~= texts(stored@));
                assert(texts(messages@).len() == messages@.len());
            }
            Some(messages)
        } else {
            None
        }
    }
}

} // verus!
