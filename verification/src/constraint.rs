//! Reading the constraint identifiers out of the message with which the
//! storage engine reports a uniqueness violation.

use crate::text::{chars_of, slice_texts, starts_with, text_of, texts};
use vstd::prelude::*;

verus! {

/// What every message about a uniqueness violation begins with.
pub open spec fn unique_prefix() -> Seq<char> {
    "UNIQUE constraint failed:"@
}

/// The pattern that finds the list of identifiers in such a message: after the
/// prefix at least one character, then the list, which runs to the end of the
/// line.
pub open spec fn unique_pattern() -> Seq<char> {
    "UNIQUE constraint failed:.+?(?P<constraints>.+)"@
}

/// The name of the group of the pattern that holds the list.
pub open spec fn list_group() -> Seq<char> {
    "constraints"@
}

/// Whether a separator of the list, a comma and a space, begins at `at`.
pub open spec fn separator_at(list: Seq<char>, at: int) -> bool {
    0 <= at && at + 1 < list.len() && list[at] == ',' && list[at + 1] == ' '
}

/// The identifiers of `list` from `start` on, where no separator begins in
/// `start..from`: the text up to the next separator, then those behind it.
pub open spec fn identifiers_from(list: Seq<char>, start: int, from: int) -> Seq<Seq<char>>
    decreases list.len() - from,
{
    if !(0 <= start <= from) {
        Seq::empty()
    } else if from >= list.len() {
        seq![list.subrange(start, list.len() as int)]
    } else if separator_at(list, from) {
        seq![list.subrange(start, from)] + identifiers_from(list, from + 2, from + 2)
    } else {
        identifiers_from(list, start, from + 1)
    }
}

/// The identifiers that `list` names: what stands between its separators, from
/// left to right. A list without a separator names one identifier, itself.
pub open spec fn identifiers(list: Seq<char>) -> Seq<Seq<char>> {
    identifiers_from(list, 0, 0)
}

/// The texts with the separator of the list between each and the next.
pub open spec fn joined(names: Seq<Seq<char>>) -> Seq<char>
    decreases names.len(),
{
    if names.len() == 0 {
        Seq::empty()
    } else if names.len() == 1 {
        names[0]
    } else {
        names[0] + seq![',', ' '] + joined(names.drop_first())
    }
}

/// What holds of the identifiers from `start` on: there is at least one, none
/// of them holds a separator, and joined they are the list from `start` on.
pub proof fn lemma_identifiers_from(list: Seq<char>, start: int, from: int)
    requires
        0 <= start <= from <= list.len(),
        forall|i: int| start <= i < from ==> !separator_at(list, i),
    ensures
        identifiers_from(list, start, from).len() >= 1,
        joined(identifiers_from(list, start, from)) == list.subrange(start, list.len() as int),
        forall|k: int, i: int|
            0 <= k < identifiers_from(list, start, from).len() ==> !#[trigger] separator_at(
                identifiers_from(list, start, from)[k],
                i,
            ),
    decreases list.len() - from,
{
    let names = identifiers_from(list, start, from);
    if from >= list.len() {
        let only = list.subrange(start, list.len() as int);
        assert forall|k: int, i: int| 0 <= k < names.len() implies !#[trigger] separator_at(
            names[k],
            i,
        ) by {
            if separator_at(only, i) {
                assert(separator_at(list, start + i));
            }
        }
    } else if separator_at(list, from) {
        let head = list.subrange(start, from);
        let rest = identifiers_from(list, from + 2, from + 2);
        lemma_identifiers_from(list, from + 2, from + 2);
        assert(names == seq![head] + rest);
        assert(names.drop_first() =~= rest);
        assert(joined(names) =~= list.subrange(start, list.len() as int));
        assert forall|k: int, i: int| 0 <= k < names.len() implies !#[trigger] separator_at(
            names[k],
            i,
        ) by {
            if k == 0 {
                if separator_at(head, i) {
                    assert(separator_at(list, start + i));
                }
            } else {
                assert(names[k] == rest[k - 1]);
            }
        }
    } else {
        lemma_identifiers_from(list, start, from + 1);
    }
}

/// The identifiers of a list are what a split at its separators gives: there
/// is at least one, none of them holds a separator, and with the separator put
/// back between them they are the list again.
pub proof fn lemma_identifiers_split(list: Seq<char>)
    ensures
        identifiers(list).len() >= 1,
        joined(identifiers(list)) == list,
        forall|k: int, i: int|
            0 <= k < identifiers(list).len() ==> !#[trigger] separator_at(identifiers(list)[k], i),
{
    lemma_identifiers_from(list, 0, 0);
    assert(list.subrange(0, list.len() as int) =~= list);
}

/// Splits a list of identifiers at each comma that a space follows.
pub fn split_identifiers(list: &str) -> (names: Vec<String>)
    ensures
        texts(names@) == identifiers(list@),
{
    let chars = chars_of(list);
    let count = chars.len();
    let mut names: Vec<String> = Vec::new();
    let mut start: usize = 0;
    let mut at: usize = 0;
    assert(texts(names@) + identifiers_from(list@, 0, 0) =~= identifiers(list@));
    while at < count
        invariant
            start <= at <= count,
            count == list@.len(),
            chars@ == list@,
            identifiers(list@) == texts(names@) + identifiers_from(list@, start as int, at as int),
        decreases count - at,
    {
        if chars[at] == ',' && at + 1 < count && chars[at + 1] == ' ' {
            let name = list.substring_char(start, at);
            let ghost before = names@;
            names.push(name.to_owned());
            proof {
                assert(texts(names@) =~= texts(before).push(list@.subrange(start as int, at as int)));
                assert(texts(before) + (seq![list@.subrange(start as int, at as int)]
                    + identifiers_from(list@, at + 2, at + 2)) =~= texts(names@) + identifiers_from(
                    list@,
                    at + 2,
                    at + 2,
                ));
            }
            at = at + 2;
            start = at;
        } else {
            at = at + 1;
        }
    }
    let name = list.substring_char(start, count);
    let ghost before = names@;
    names.push(name.to_owned());
    proof {
        assert(texts(names@) =~= texts(before).push(list@.subrange(start as int, count as int)));
        assert(texts(before) + seq![list@.subrange(start as int, count as int)] =~= texts(names@));
    }
    names
}

/// Whether `regex::Regex::new` accepts `pattern`.
pub uninterp spec fn pattern_compiles(pattern: Seq<char>) -> bool;

/// What the group named `group` holds in the first match of `pattern` in
/// `haystack`, as `regex` finds it: `None` where there is no match, or no such
/// group took part in it.
pub uninterp spec fn named_capture(pattern: Seq<char>, group: Seq<char>, haystack: Seq<char>) -> Option<Seq<char>>;

/// Compiles `pattern` with `regex::Regex::new`, searches `haystack` with
/// `Regex::captures` and reads the group with `Captures::name` and
/// `Match::as_str`. Believed, not proved: the outer result is `None` exactly
/// for the patterns that `regex` refuses, and what is found depends on the
/// three texts alone.
#[verifier::external_body]
fn capture_named(pattern: &str, group: &str, haystack: &str) -> (found: Option<Option<String>>)
    ensures
        (found is Some) == pattern_compiles(pattern@),
        found matches Some(text) ==> text_of(text) == named_capture(pattern@, group@, haystack@),
{
    let compiled = regex::Regex::new(pattern).ok()?;
    Some(compiled.captures(haystack).and_then(|groups| groups.name(group)).map(|m| m.as_str().to_owned()))
}

/// Why a message names no constraints.
#[derive(Clone, Copy, Debug, PartialEq, Eq, Structural)]
pub enum Unparseable {
    /// The message does not begin as a uniqueness violation does.
    Prefix,
    /// The pattern for the list of identifiers was refused.
    Pattern,
    /// The message holds no list of identifiers behind the prefix.
    List,
}

/// Whether `message` begins as the report of a uniqueness violation does.
pub fn has_unique_prefix(message: &str) -> (begins: bool)
    ensures
        begins == unique_prefix().is_prefix_of(message@),
{
    starts_with(message, "UNIQUE constraint failed:")
}

/// What is made of the list that was found in a message, if one was.
pub open spec fn constraints_listed(found: Option<Seq<char>>) -> Result<Set<Seq<char>>, Unparseable> {
    match found {
        Some(list) => Ok(identifiers(list).to_set()),
        None => Err(Unparseable::List),
    }
}

/// The constraints that `message` names, or why it names none.
pub open spec fn constraints_named(message: Seq<char>) -> Result<Set<Seq<char>>, Unparseable> {
    if !unique_prefix().is_prefix_of(message) {
        Err(Unparseable::Prefix)
    } else if !pattern_compiles(unique_pattern()) {
        Err(Unparseable::Pattern)
    } else {
        constraints_listed(named_capture(unique_pattern(), list_group(), message))
    }
}

/// Whether `parsed` is the outcome `expected`, a set standing for its names.
pub open spec fn parsed_as(parsed: Result<ConstraintSet, Unparseable>, expected: Result<Set<Seq<char>>, Unparseable>) -> bool {
    match parsed {
        Ok(set) => expected == Ok::<Set<Seq<char>>, Unparseable>(set@),
        Err(why) => expected == Err::<Set<Seq<char>>, Unparseable>(why),
    }
}

/// The set of the identifiers in the list that was found in a message; without
/// a list the message is unparseable.
pub fn constraints_from_list(found: Option<String>) -> (parsed: Result<ConstraintSet, Unparseable>)
    ensures
        parsed_as(parsed, constraints_listed(text_of(found))),
{
    match found {
        Some(list) => Ok(ConstraintSet::from_list(list.as_str())),
        None => Err(Unparseable::List),
    }
}

/// Reads the set of constraint identifiers out of the message of a uniqueness
/// violation. A message of any other shape is unparseable; this never fails in
/// another way.
pub fn convert_constraint_error(message: &str) -> (parsed: Result<ConstraintSet, Unparseable>)
    ensures
        parsed_as(parsed, constraints_named(message@)),
{
    if !has_unique_prefix(message) {
        return Err(Unparseable::Prefix);
    }
    match capture_named("UNIQUE constraint failed:.+?(?P<constraints>.+)", "constraints", message) {
        Some(found) => constraints_from_list(found),
        None => Err(Unparseable::Pattern),
    }
}

/// A set of constraint identifiers, such as `person.NAME`. It serves as a key
/// to compare: neither the order of its names nor a repetition counts.
#[derive(Debug)]
pub struct ConstraintSet {
    pub names: Vec<String>,
}

impl View for ConstraintSet {
    type V = Set<Seq<char>>;

    open spec fn view(&self) -> Set<Seq<char>> {
        texts(self.names@).to_set()
    }
}

impl ConstraintSet {
    /// The set of the given names.
    pub fn new(names: Vec<&str>) -> (set: ConstraintSet)
        ensures
            set@ == slice_texts(names@).to_set(),
    {
        let mut owned: Vec<String> = Vec::new();
        let mut next: usize = 0;
        while next < names.len()
            invariant
                next <= names.len(),
                texts(owned@) == slice_texts(names@).take(next as int),
            decreases names.len() - next,
        {
            let ghost before = owned@;
            owned.push(names[next].to_owned());
            proof {
                assert(texts(owned@) =~= texts(before).push(names[next as int]@));
                assert(slice_texts(names@).take(next + 1) =~= slice_texts(names@).take(
                    next as int,
                ).push(names[next as int]@));
            }
            next += 1;
        }
        assert(slice_texts(names@).take(next as int) =~= slice_texts(names@));
        ConstraintSet { names: owned }
    }

    /// The set of the identifiers that `list` names.
    pub fn from_list(list: &str) -> (set: ConstraintSet)
        ensures
            set@ == identifiers(list@).to_set(),
    {
        ConstraintSet { names: split_identifiers(list) }
    }

    /// Whether `name` is in the set.
    pub fn contains(&self, name: &String) -> (found: bool)
        ensures
            found == self@.contains(name@),
    {
        let mut at: usize = 0;
        while at < self.names.len()
            invariant
                at <= self.names.len(),
                forall|i: int| 0 <= i < at ==> texts(self.names@)[i] != name@,
            decreases self.names.len() - at,
        {
            if self.names[at] == *name {
                assert(texts(self.names@)[at as int] == name@);
                return true;
            }
            at += 1;
        }
        false
    }

    /// Whether every name of this set is in `other`.
    pub fn is_subset_of(&self, other: &ConstraintSet) -> (within: bool)
        ensures
            within == self@.subset_of(other@),
    {
        let mut at: usize = 0;
        while at < self.names.len()
            invariant
                at <= self.names.len(),
                forall|i: int| 0 <= i < at ==> other@.contains(#[trigger] texts(self.names@)[i]),
            decreases self.names.len() - at,
        {
            if !other.contains(&self.names[at]) {
                assert(self@.contains(texts(self.names@)[at as int]));
                return false;
            }
            at += 1;
        }
        true
    }

    /// Whether the two sets hold exactly the same names.
    pub fn same_as(&self, other: &ConstraintSet) -> (same: bool)
        ensures
            same == (self@ == other@),
    {
        let same = self.is_subset_of(other) && other.is_subset_of(self);
        assert(same == (self@ =~= other@));
        same
    }
}

} // verus!
