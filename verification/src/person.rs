//! What the failure to store a new person means to the client that sent it.

use crate::classifier::{violated, ResultExt};
use crate::error::{Error, StorageError};
use crate::field_errors::{field_order, grouped, lemma_grouped_push, pair_texts};
use crate::models::CreatePerson;
use crate::text::{decimal, decimal_text, slice_texts};
use vstd::prelude::*;
use vstd::string::StringExecFns;

verus! {

/// The constraint that keeps the names of persons apart.
pub open spec fn name_constraint() -> Set<Seq<char>> {
    set!["person.NAME"@]
}

/// The constraint that keeps apart the persons of one name by their age.
pub open spec fn name_and_age_constraint() -> Set<Seq<char>> {
    set!["person.NAME"@, "person.AGE"@]
}

/// The message for a name that another person has.
pub open spec fn name_taken(name: Seq<char>) -> Seq<char> {
    "Name '"@ + name + "' is already taken"@
}

/// The message for a name and an age that another person has.
pub open spec fn name_and_age_taken(name: Seq<char>, age: u8) -> Seq<char> {
    "Name '"@ + name + "' and age '"@ + decimal(age as nat) + "' combo is already taken."@
}

/// Whether `error` refuses a request body with this one message about its
/// field `name`.
pub open spec fn refuses_name(error: Error, message: Seq<char>) -> bool {
    error matches Error::UnprocessableEntity { errors } && errors@ == map!["name"@ => seq![message]]
        && errors.names() == seq!["name"@]
}

/// The error for a person whose name is taken.
pub fn name_conflict(person: &CreatePerson) -> (error: Error)
    ensures
        refuses_name(error, name_taken(person.name@)),
{
    let message = String::from_str("Name '").concat(person.name.as_str()).concat(
        "' is already taken",
    );
    refusal_of_name(message)
}

/// The error for a person whose name and age are taken together.
pub fn name_and_age_conflict(person: &CreatePerson) -> (error: Error)
    ensures
        refuses_name(error, name_and_age_taken(person.name@, person.age)),
{
    let age = decimal_text(person.age);
    let message = String::from_str("Name '").concat(person.name.as_str()).concat(
        "' and age '",
    ).concat(age.as_str()).concat("' combo is already taken.");
    refusal_of_name(message)
}

/// The error that refuses a request body with `message` about its field `name`.
fn refusal_of_name(message: String) -> (error: Error)
    ensures
        refuses_name(error, message@),
{
    let mut pairs: Vec<(String, String)> = Vec::new();
    pairs.push((String::from_str("name"), message));
    let error = Error::unprocessable_entity(pairs);
    proof {
        let texts = pair_texts(pairs@);
        assert(texts =~= seq![("name"@, message@)]);
        assert(texts == Seq::<(Seq<char>, Seq<char>)>::empty().push(("name"@, message@)));
        lemma_grouped_push(Seq::empty(), ("name"@, message@));
        assert(grouped(Seq::<(Seq<char>, Seq<char>)>::empty()) =~= Map::<
            Seq<char>,
            Seq<Seq<char>>,
        >::empty());
        assert(field_order(Seq::<(Seq<char>, Seq<char>)>::empty()) =~= Seq::<Seq<char>>::empty());
        assert(grouped(texts) =~= map!["name"@ => seq![message@]]);
        assert(field_order(texts) =~= seq!["name"@]);
    }
    error
}

/// What the outcome of storing `person` means to the client. A violation of
/// the uniqueness of names alone is answered with the message that the name
/// is taken, one of names and ages together with the message that the
/// combination is taken. Every other outcome passes through as it is.
pub fn classify_create_person<T>(person: &CreatePerson, outcome: Result<T, Error>) -> (classified:
    Result<T, Error>)
    ensures
        match outcome {
            Ok(value) => classified == Ok::<T, Error>(value),
            Err(error) => if violated(error) == Some(name_constraint()) {
                classified matches Err(conflict) && refuses_name(conflict, name_taken(person.name@))
            } else if violated(error) == Some(name_and_age_constraint()) {
                classified matches Err(conflict) && refuses_name(
                    conflict,
                    name_and_age_taken(person.name@, person.age),
                )
            } else {
                classified == Err::<T, Error>(error)
            },
        },
{
    let name_only: Vec<&str> = vec!["person.NAME"];
    let name_and_age: Vec<&str> = vec!["person.NAME", "person.AGE"];
    proof {
        assert(slice_texts(name_only@).to_set() =~= name_constraint()) by {
            assert(slice_texts(name_only@) =~= seq!["person.NAME"@]);
            assert(seq!["person.NAME"@][0] == "person.NAME"@);
        }
        assert(slice_texts(name_and_age@).to_set() =~= name_and_age_constraint()) by {
            assert(slice_texts(name_and_age@) =~= seq!["person.NAME"@, "person.AGE"@]);
            assert(seq!["person.NAME"@, "person.AGE"@][0] == "person.NAME"@);
            assert(seq!["person.NAME"@, "person.AGE"@][1] == "person.AGE"@);
        }
    }
    let name_is_taken = |cause: &StorageError| -> (error: Error)
        ensures
            refuses_name(error, name_taken(person.name@)),
        {
            name_conflict(person)
        };
    let name_and_age_are_taken = |cause: &StorageError| -> (error: Error)
        ensures
            refuses_name(error, name_and_age_taken(person.name@, person.age)),
        {
            name_and_age_conflict(person)
        };
    outcome.on_unique_constraint_error(name_only, name_is_taken).on_unique_constraint_error(
        name_and_age,
        name_and_age_are_taken,
    )
}

} // verus!
