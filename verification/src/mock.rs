//! A directory of made-up people, for trying a client against: a thousand
//! users with numbers from zero up, and the lookup of one by its number.

use fake::faker::chrono::raw::DateTimeBefore;
use fake::faker::internet::en::FreeEmail;
use fake::faker::name::en::{FirstName, LastName};
use fake::faker::phone_number::en::PhoneNumber;
use fake::locales::EN;
use fake::Fake;
use vstd::prelude::*;

verus! {

/// A made-up person.
#[derive(Clone, Debug, PartialEq, Eq)]
pub struct User {
    pub id: u32,
    pub first_name: String,
    pub last_name: String,
    pub email: Option<String>,
    pub phone: Option<String>,
    pub date_of_birth: Option<String>,
}

/// How many people the directory is filled with.
pub const POPULATION: u32 = 1000;

/// The time before which everybody was born, in seconds since the epoch: the
/// last second of 1999.
pub const BORN_BEFORE: i64 = 946_684_799;

/// A first name from the `fake` crate's `FirstName`. Nothing is claimed of it.
#[verifier::external_body]
fn fake_first_name() -> String {
    FirstName().fake()
}

/// A last name from the `fake` crate's `LastName`. Nothing is claimed of it.
#[verifier::external_body]
fn fake_last_name() -> String {
    LastName().fake()
}

/// An address from the `fake` crate's `FreeEmail`, or none. Nothing is claimed
/// of it.
#[verifier::external_body]
fn fake_email() -> Option<String> {
    FreeEmail().fake()
}

/// A number from the `fake` crate's `PhoneNumber`, or none. Nothing is claimed
/// of it.
#[verifier::external_body]
fn fake_phone() -> Option<String> {
    PhoneNumber().fake()
}

/// A date from the `fake` crate's `DateTimeBefore`, asked for a time before
/// `before` seconds since the epoch (`DateTime::from_timestamp`), or none.
/// Nothing is claimed of it. The crate goes back up to a million minutes from
/// the time given; the bounds keep that within the years that chrono holds.
#[verifier::external_body]
fn fake_date_of_birth(before: i64) -> Option<String>
    requires
        0 <= before <= 253_402_300_799,
{
    match chrono::DateTime::from_timestamp(before, 0) {
        Some(limit) => DateTimeBefore(EN, limit).fake(),
        None => None,
    }
}

impl Default for User {
    /// Nobody: the number zero, empty names, and nothing else.
    fn default() -> (user: User)
        ensures
            user.id == 0,
            user.first_name@ == Seq::<char>::empty(),
            user.last_name@ == Seq::<char>::empty(),
            user.email is None,
            user.phone is None,
            user.date_of_birth is None,
    {
        User {
            id: 0,
            first_name: String::new(),
            last_name: String::new(),
            email: None,
            phone: None,
            date_of_birth: None,
        }
    }
}

/// Adds a thousand made-up people to `users`, numbered from zero in the order
/// in which they are added. What was there stays where it was.
pub fn generate_users(users: &mut Vec<User>)
    ensures
        final(users)@.len() == old(users)@.len() + POPULATION,
        final(users)@.subrange(0, old(users)@.len() as int) == old(users)@,
        forall|k: int|
            0 <= k < POPULATION ==> (#[trigger] final(users)@[old(users)@.len() + k]).id == k,
{
    let ghost before = users@;
    let mut i: u32 = 0;
    while i < POPULATION
        invariant
            i <= POPULATION,
            users@.len() == before.len() + i,
            users@.subrange(0, before.len() as int) == before,
            forall|k: int| 0 <= k < i ==> (#[trigger] users@[before.len() + k]).id == k,
        decreases POPULATION - i,
    {
        users.push(
            User {
                id: i,
                email: fake_email(),
                phone: fake_phone(),
                date_of_birth: fake_date_of_birth(BORN_BEFORE),
                first_name: fake_first_name(),
                last_name: fake_last_name(),
            },
        );
        i += 1;
    }
}

/// The first of `users` that has the number `id`, if any has.
pub fn find_user(users: &Vec<User>, id: u32) -> (found: Option<&User>)
    ensures
        match found {
            Some(user) => exists|i: int|
                0 <= i < users@.len() && #[trigger] users@[i] == *user && user.id == id && forall|
                    j: int,
                | 0 <= j < i ==> (#[trigger] users@[j]).id != id,
            None => forall|i: int| 0 <= i < users@.len() ==> (#[trigger] users@[i]).id != id,
        },
{
    let mut i: usize = 0;
    while i < users.len()
        invariant
            i <= users@.len(),
            forall|j: int| 0 <= j < i ==> (#[trigger] users@[j]).id != id,
        decreases users@.len() - i,
    {
        if users[i].id == id {
            return Some(&users[i]);
        }
        i += 1;
    }
    None
}

} // verus!
