//! The credential store as the service relies on it, as a mathematical model:
//! a list of users in which no name occurs twice, a lookup by name, and an
//! insert that refuses a name that is there. On this model any number of
//! registrations of one name are run against each other, one store operation
//! at a time.

use crate::error::AuthError;
use crate::password::HashError;
use crate::service::{registration_outcome, registration_request, token_for, StoreFailure};
use crate::user::{NewUserView, UserView};
use vstd::prelude::*;

verus! {

/// Whether a user of that name is stored.
pub open spec fn holds(users: Seq<UserView>, username: Seq<char>) -> bool {
    exists|i: int| 0 <= i < users.len() && (#[trigger] users[i]).username == username
}

/// Whether no two stored users share a name.
pub open spec fn names_unique(users: Seq<UserView>) -> bool {
    forall|i: int, j: int|
        0 <= i < j < users.len() ==> (#[trigger] users[i]).username != (#[trigger] users[j]).username
}

/// The stored user of that name, if there is one.
pub open spec fn find_by_username(users: Seq<UserView>, username: Seq<char>) -> Option<UserView> {
    if holds(users, username) {
        Some(
            users[choose|i: int|
                0 <= i < users.len() && (#[trigger] users[i]).username == username],
        )
    } else {
        None
    }
}

/// The insert, as one indivisible operation: a name that is stored is
/// refused and the store stays as it is; otherwise the user is added under
/// the identifier `id` and handed back.
pub open spec fn insert(users: Seq<UserView>, new_user: NewUserView, id: u128) -> (
    Seq<UserView>,
    Result<UserView, StoreFailure>,
) {
    if holds(users, new_user.username) {
        (users, Err(StoreFailure::UniquenessViolation))
    } else {
        let user = UserView { id, username: new_user.username, password: new_user.password };
        (users.push(user), Ok(user))
    }
}

/// One registration as the model runs it: the name, what hashing its password
/// gave, the identifier that the store would give its user, and the time at
/// which its token would be issued.
pub struct Registration {
    pub username: Seq<char>,
    pub hashed: Result<Seq<char>, HashError>,
    pub id: u128,
    pub now: int,
}

/// How far a registration has come.
pub enum Attempt {
    /// It has yet to look the name up.
    Asking,
    /// The name was free when it looked; it has yet to insert this record.
    Inserting(NewUserView),
    /// It has answered its caller.
    Answered(Result<Seq<char>, AuthError>),
}

/// The user that a registration stores where its insert goes through.
pub open spec fn user_of(registration: Registration) -> UserView {
    UserView {
        id: registration.id,
        username: registration.username,
        password: match registration.hashed {
            Ok(hash) => hash,
            Err(_) => Seq::empty(),
        },
    }
}

/// The next store operation of a registration and what the service makes of
/// its result: first the lookup, then the insert. A registration that has
/// answered does nothing more.
pub open spec fn step(
    users: Seq<UserView>,
    attempt: Attempt,
    registration: Registration,
    key: Seq<u8>,
    ttl: int,
) -> (Seq<UserView>, Attempt) {
    match attempt {
        Attempt::Asking => match registration_request(
            find_by_username(users, registration.username),
            registration.username,
            registration.hashed,
        ) {
            Ok(new_user) => (users, Attempt::Inserting(new_user)),
            Err(e) => (users, Attempt::Answered(Err(e))),
        },
        Attempt::Inserting(new_user) => {
            let (after, inserted) = insert(users, new_user, registration.id);
            (after, Attempt::Answered(registration_outcome(inserted, key, ttl, registration.now)))
        },
        Attempt::Answered(answer) => (users, Attempt::Answered(answer)),
    }
}

/// Registrations run against one store. The schedule says whose store
/// operation comes next, by its place in the list; a number that is nobody's
/// place is passed over.
pub open spec fn run(
    users: Seq<UserView>,
    attempts: Seq<Attempt>,
    registrations: Seq<Registration>,
    key: Seq<u8>,
    ttl: int,
    schedule: Seq<int>,
) -> (Seq<UserView>, Seq<Attempt>)
    decreases schedule.len(),
{
    if schedule.len() == 0 {
        (users, attempts)
    } else {
        let who = schedule[0];
        if 0 <= who < attempts.len() && who < registrations.len() {
            let (after, next) = step(users, attempts[who], registrations[who], key, ttl);
            run(after, attempts.update(who, next), registrations, key, ttl, schedule.drop_first())
        } else {
            run(users, attempts, registrations, key, ttl, schedule.drop_first())
        }
    }
}

/// The registrations at their start: each has yet to look the name up.
pub open spec fn all_asking(count: nat) -> Seq<Attempt> {
    Seq::new(count, |i: int| Attempt::Asking)
}

/// Whether the registrations are of one name and their passwords all hash.
pub open spec fn rivals(registrations: Seq<Registration>, username: Seq<char>) -> bool {
    forall|i: int|
        0 <= i < registrations.len() ==> (#[trigger] registrations[i]).username == username
            && registrations[i].hashed is Ok
}

/// Whether a registration at this point may still win: it has not answered.
pub open spec fn pending(attempt: Attempt, registration: Registration) -> bool {
    match attempt {
        Attempt::Asking => true,
        Attempt::Inserting(new_user) => new_user == (NewUserView {
            username: registration.username,
            password: user_of(registration).password,
        }),
        Attempt::Answered(_) => false,
    }
}

/// Whether a registration at this point has lost: it was told that the name
/// is taken.
pub open spec fn refused(attempt: Attempt) -> bool {
    attempt == Attempt::Answered(Err(AuthError::UsernameTaken))
}

/// Whether a registration at this point has won: it was answered with the
/// token for the user it stored.
pub open spec fn won(attempt: Attempt, registration: Registration, key: Seq<u8>, ttl: int) -> bool {
    attempt == Attempt::Answered(token_for(registration.id, key, ttl, registration.now))
}

/// Whether nobody has inserted yet: the store is as it was and every
/// registration is pending.
pub open spec fn undecided(
    before: Seq<UserView>,
    users: Seq<UserView>,
    attempts: Seq<Attempt>,
    registrations: Seq<Registration>,
) -> bool {
    &&& users == before
    &&& forall|i: int|
        0 <= i < attempts.len() ==> pending(#[trigger] attempts[i], registrations[i])
}

/// Whether the registration at the place `winner` has inserted: the store
/// holds its user and nothing more, it has won, and every other registration
/// is pending or refused.
pub open spec fn decided_for(
    winner: int,
    before: Seq<UserView>,
    users: Seq<UserView>,
    attempts: Seq<Attempt>,
    registrations: Seq<Registration>,
    key: Seq<u8>,
    ttl: int,
) -> bool {
    &&& 0 <= winner < attempts.len()
    &&& users == before.push(user_of(registrations[winner]))
    &&& won(attempts[winner], registrations[winner], key, ttl)
    &&& forall|i: int|
        0 <= i < attempts.len() && i != winner ==> pending(#[trigger] attempts[i], registrations[i])
            || refused(attempts[i])
}

/// What holds of the registrations of one free name at every point of every
/// run: nobody has inserted yet, or exactly one has.
pub open spec fn race_invariant(
    before: Seq<UserView>,
    users: Seq<UserView>,
    attempts: Seq<Attempt>,
    registrations: Seq<Registration>,
    key: Seq<u8>,
    ttl: int,
) -> bool {
    &&& attempts.len() == registrations.len()
    &&& {
        ||| undecided(before, users, attempts, registrations)
        ||| exists|winner: int| #[trigger]
            decided_for(winner, before, users, attempts, registrations, key, ttl)
    }
}

proof fn lemma_push_holds(users: Seq<UserView>, user: UserView)
    ensures
        holds(users.push(user), user.username),
        !holds(users, user.username) && names_unique(users) ==> names_unique(users.push(user)),
{
    let after = users.push(user);
    assert(after[users.len() as int].username == user.username);
    if !holds(users, user.username) && names_unique(users) {
        assert forall|i: int, j: int| 0 <= i < j < after.len() implies (#[trigger] after[i]).username
            != (#[trigger] after[j]).username by {
            assert(after[i] == users[i]);
        }
    }
}

proof fn lemma_step_keeps_invariant(
    before: Seq<UserView>,
    users: Seq<UserView>,
    attempts: Seq<Attempt>,
    registrations: Seq<Registration>,
    username: Seq<char>,
    key: Seq<u8>,
    ttl: int,
    who: int,
)
    requires
        !holds(before, username),
        rivals(registrations, username),
        race_invariant(before, users, attempts, registrations, key, ttl),
        0 <= who < attempts.len(),
    ensures
        race_invariant(
            before,
            step(users, attempts[who], registrations[who], key, ttl).0,
            attempts.update(who, step(users, attempts[who], registrations[who], key, ttl).1),
            registrations,
            key,
            ttl,
        ),
{
    let (after, next) = step(users, attempts[who], registrations[who], key, ttl);
    let moved = attempts.update(who, next);
    assert(registrations[who].username == username);
    lemma_push_holds(before, user_of(registrations[who]));
    if undecided(before, users, attempts, registrations) {
        assert(pending(attempts[who], registrations[who]));
        if attempts[who] is Asking {
            assert forall|i: int| 0 <= i < moved.len() implies pending(
                #[trigger] moved[i],
                registrations[i],
            ) by {
                if i != who {
                    assert(moved[i] == attempts[i]);
                }
            }
            assert(undecided(before, after, moved, registrations));
        } else {
            assert forall|i: int| 0 <= i < moved.len() && i != who implies pending(
                #[trigger] moved[i],
                registrations[i],
            ) || refused(moved[i]) by {
                assert(moved[i] == attempts[i]);
            }
            assert(decided_for(who, before, after, moved, registrations, key, ttl));
        }
    } else {
        let winner = choose|winner: int| #[trigger]
            decided_for(winner, before, users, attempts, registrations, key, ttl);
        assert(registrations[winner].username == username);
        lemma_push_holds(before, user_of(registrations[winner]));
        assert forall|i: int| 0 <= i < moved.len() && i != winner implies pending(
            #[trigger] moved[i],
            registrations[i],
        ) || refused(moved[i]) by {
            if i != who {
                assert(moved[i] == attempts[i]);
            } else {
                assert(pending(attempts[i], registrations[i]) || refused(attempts[i]));
            }
        }
        assert(decided_for(winner, before, after, moved, registrations, key, ttl));
    }
}

proof fn lemma_run_keeps_invariant(
    before: Seq<UserView>,
    users: Seq<UserView>,
    attempts: Seq<Attempt>,
    registrations: Seq<Registration>,
    username: Seq<char>,
    key: Seq<u8>,
    ttl: int,
    schedule: Seq<int>,
)
    requires
        !holds(before, username),
        rivals(registrations, username),
        race_invariant(before, users, attempts, registrations, key, ttl),
    ensures
        race_invariant(
            before,
            run(users, attempts, registrations, key, ttl, schedule).0,
            run(users, attempts, registrations, key, ttl, schedule).1,
            registrations,
            key,
            ttl,
        ),
    decreases schedule.len(),
{
    if schedule.len() > 0 {
        let who = schedule[0];
        if 0 <= who < attempts.len() && who < registrations.len() {
            lemma_step_keeps_invariant(
                before,
                users,
                attempts,
                registrations,
                username,
                key,
                ttl,
                who,
            );
            let (after, next) = step(users, attempts[who], registrations[who], key, ttl);
            lemma_run_keeps_invariant(
                before,
                after,
                attempts.update(who, next),
                registrations,
                username,
                key,
                ttl,
                schedule.drop_first(),
            );
        } else {
            lemma_run_keeps_invariant(
                before,
                users,
                attempts,
                registrations,
                username,
                key,
                ttl,
                schedule.drop_first(),
            );
        }
    }
}

/// Any number of registrations of one name that is free, whose passwords all
/// hash, run against each other in any order of their store operations: at
/// every point the store holds no name twice, and it holds the name at most
/// once, namely for the one registration whose insert went through.
pub proof fn lemma_name_is_stored_once(
    users: Seq<UserView>,
    registrations: Seq<Registration>,
    username: Seq<char>,
    key: Seq<u8>,
    ttl: int,
    schedule: Seq<int>,
)
    requires
        names_unique(users),
        !holds(users, username),
        rivals(registrations, username),
    ensures
        ({
            let after = run(
                users,
                all_asking(registrations.len()),
                registrations,
                key,
                ttl,
                schedule,
            ).0;
            &&& names_unique(after)
            &&& {
                ||| after == users
                ||| exists|winner: int|
                    0 <= winner < registrations.len() && after == users.push(
                        user_of(#[trigger] registrations[winner]),
                    )
            }
        }),
{
    let start = all_asking(registrations.len());
    assert(undecided(users, users, start, registrations));
    lemma_run_keeps_invariant(users, users, start, registrations, username, key, ttl, schedule);
    let (after, attempts) = run(users, start, registrations, key, ttl, schedule);
    if !undecided(users, after, attempts, registrations) {
        let winner = choose|winner: int| #[trigger]
            decided_for(winner, users, after, attempts, registrations, key, ttl);
        assert(registrations[winner].username == username);
        lemma_push_holds(users, user_of(registrations[winner]));
    }
}

/// Any number of registrations of one name that is free, whose passwords all
/// hash, run against each other in any order of their store operations until
/// all have answered: exactly one of them has its user stored and is answered
/// as a registration is, with the token for that user; every other one is
/// told that the name is taken; and the store holds the name once, and no
/// name twice.
pub proof fn lemma_one_registration_wins(
    users: Seq<UserView>,
    registrations: Seq<Registration>,
    username: Seq<char>,
    key: Seq<u8>,
    ttl: int,
    schedule: Seq<int>,
)
    requires
        names_unique(users),
        !holds(users, username),
        rivals(registrations, username),
        registrations.len() > 0,
        forall|i: int|
            0 <= i < registrations.len() ==> (#[trigger] run(
                users,
                all_asking(registrations.len()),
                registrations,
                key,
                ttl,
                schedule,
            ).1[i]) is Answered,
    ensures
        ({
            let (after, attempts) = run(
                users,
                all_asking(registrations.len()),
                registrations,
                key,
                ttl,
                schedule,
            );
            &&& names_unique(after)
            &&& holds(after, username)
            &&& after.len() == users.len() + 1
            &&& attempts.len() == registrations.len()
            &&& exists|winner: int|
                0 <= winner < registrations.len() && after == users.push(
                    user_of(#[trigger] registrations[winner]),
                ) && won(attempts[winner], registrations[winner], key, ttl) && forall|i: int|
                    0 <= i < attempts.len() && i != winner ==> refused(#[trigger] attempts[i])
        }),
{
    let start = all_asking(registrations.len());
    assert(undecided(users, users, start, registrations));
    lemma_run_keeps_invariant(users, users, start, registrations, username, key, ttl, schedule);
    let (after, attempts) = run(users, start, registrations, key, ttl, schedule);
    assert(attempts[0] is Answered);
    assert(!undecided(users, after, attempts, registrations)) by {
        if undecided(users, after, attempts, registrations) {
            assert(pending(attempts[0], registrations[0]));
        }
    }
    let winner = choose|winner: int| #[trigger]
        decided_for(winner, users, after, attempts, registrations, key, ttl);
    assert(registrations[winner].username == username);
    lemma_push_holds(users, user_of(registrations[winner]));
    assert forall|i: int| 0 <= i < attempts.len() && i != winner implies refused(
        #[trigger] attempts[i],
    ) by {
        assert(attempts[i] is Answered);
        assert(pending(attempts[i], registrations[i]) || refused(attempts[i]));
    }
}

} // verus!
