//! Failover over the members of a cluster: the members are tried one at a time, in the order
//! given, and the first attempt that succeeds settles the call.

use vstd::prelude::*;
use crate::error::AuthError;

verus! {

/// The attempt at position `i` succeeded and every attempt before it failed.
pub open spec fn wins<T>(attempts: Seq<Result<T, AuthError>>, i: int) -> bool {
    &&& 0 <= i < attempts.len()
    &&& attempts[i] is Ok
    &&& forall|j: int| 0 <= j < i ==> (#[trigger] attempts[j]) is Err
}

/// The error of each attempt, in the order of the attempts.
pub open spec fn failures<T>(attempts: Seq<Result<T, AuthError>>) -> Seq<AuthError> {
    Seq::new(attempts.len(), |i: int| attempts[i]->Err_0)
}

/// What a call comes to when the attempt on the member at position `i` gives `attempts[i]`:
/// the value of the first attempt that succeeds, or else the errors of all the attempts.
pub open spec fn dispatch<T>(attempts: Seq<Result<T, AuthError>>) -> Result<T, Seq<AuthError>> {
    if exists|i: int| wins(attempts, i) {
        Ok(attempts[choose|i: int| wins(attempts, i)]->Ok_0)
    } else {
        Err(failures(attempts))
    }
}

/// The attempts that lie behind a list of errors: one failed attempt for each.
pub open spec fn failed<T>(errors: Seq<AuthError>) -> Seq<Result<T, AuthError>> {
    Seq::new(errors.len(), |i: int| Err(errors[i]))
}

/// A result with its errors as a sequence.
pub open spec fn result_view<T>(result: Result<T, Vec<AuthError>>) -> Result<T, Seq<AuthError>> {
    match result {
        Ok(value) => Ok(value),
        Err(errors) => Err(errors@),
    }
}

/// A call in progress: the members to try, and the errors of those that were tried.
/// There is always a member left to try.
#[derive(Debug)]
pub struct FirstOk<E> {
    endpoints: Vec<E>,
    errors: Vec<AuthError>,
}

/// Where a call stands after an attempt.
#[derive(Debug)]
pub enum Progress<E, T> {
    /// The attempt failed and there is another member to try.
    Pending(FirstOk<E>),
    /// The call is over: an attempt succeeded, or all of them failed.
    Settled(Result<T, Vec<AuthError>>),
}

impl<E> FirstOk<E> {
    #[verifier::type_invariant]
    spec fn has_next(&self) -> bool {
        self.errors@.len() < self.endpoints@.len()
    }

    /// The members of the call, in the order in which they are tried.
    pub closed spec fn endpoints(&self) -> Seq<E> {
        self.endpoints@
    }

    /// The errors of the attempts made so far, in the order of the attempts.
    pub closed spec fn errors(&self) -> Seq<AuthError> {
        self.errors@
    }

    /// Starts a call over the given members. There is no call over no member.
    pub fn new(endpoints: Vec<E>) -> (r: Option<FirstOk<E>>)
        ensures
            r is None <==> endpoints@.len() == 0,
            r matches Some(call) ==> call.endpoints() == endpoints@ && call.errors().len() == 0,
    {
        if endpoints.len() == 0 {
            None
        } else {
            Some(FirstOk { endpoints, errors: Vec::new() })
        }
    }

    /// The position of the member to try next: as many members were tried as there are errors.
    pub fn position(&self) -> (r: usize)
        ensures
            r == self.errors().len(),
            r < self.endpoints().len(),
    {
        proof {
            use_type_invariant(self);
        }
        self.errors.len()
    }

    /// The member to try next.
    pub fn endpoint(&self) -> (r: &E)
        ensures
            self.errors().len() < self.endpoints().len(),
            *r == self.endpoints()[self.errors().len() as int],
    {
        proof {
            use_type_invariant(self);
        }
        &self.endpoints[self.errors.len()]
    }

    /// Takes in what the attempt on the member at `position()` came to.
    ///
    /// A success settles the call with its value. A failure is kept behind those of the
    /// members before; when it was the last member's, the call is settled with all of them.
    pub fn record<T>(self, outcome: Result<T, AuthError>) -> (r: Progress<E, T>)
        ensures
            r is Settled <==> outcome is Ok || self.errors().len() + 1 == self.endpoints().len(),
            r matches Progress::Settled(result) ==> result_view(result) == dispatch(
                failed::<T>(self.errors()).push(outcome),
            ),
            r matches Progress::Pending(call) ==> call.endpoints() == self.endpoints()
                && call.errors() == self.errors().push(outcome->Err_0),
    {
        proof {
            use_type_invariant(&self);
        }
        let ghost attempts = failed::<T>(self.errors()).push(outcome);
        match outcome {
            Ok(value) => {
                proof {
                    lemma_first_success(attempts, attempts.len() - 1);
                }
                Progress::Settled(Ok(value))
            },
            Err(error) => {
                let FirstOk { endpoints, mut errors } = self;
                errors.push(error);
                proof {
                    assert(failures(attempts) =~= errors@);
                }
                if errors.len() == endpoints.len() {
                    Progress::Settled(Err(errors))
                } else {
                    Progress::Pending(FirstOk { endpoints, errors })
                }
            },
        }
    }
}

/// The attempts are such as `attempt` makes on the first members, each on the member at its
/// own position.
pub open spec fn made_by<E, T, F: Fn(&E) -> Result<T, AuthError>>(
    attempt: F,
    endpoints: Seq<E>,
    attempts: Seq<Result<T, AuthError>>,
) -> bool {
    &&& attempts.len() <= endpoints.len()
    &&& forall|i: int|
        0 <= i < attempts.len() ==> call_ensures(attempt, (&endpoints[i],), #[trigger] attempts[i])
}

/// The attempts are those of a whole call over `total` members: no member was left out
/// before the first success, and none was tried after it.
pub open spec fn complete<T>(attempts: Seq<Result<T, AuthError>>, total: nat) -> bool {
    &&& attempts.len() <= total
    &&& attempts.len() == 0 ==> total == 0
    &&& forall|i: int| 0 <= i < attempts.len() - 1 ==> (#[trigger] attempts[i]) is Err
    &&& attempts.len() > 0 && attempts.last() is Err ==> attempts.len() == total
}

/// Makes a call over the given members: tries them in the order given, one after the other,
/// until an attempt succeeds, and gives the value of that attempt, or else the errors of all
/// the attempts in the order of the members.
pub fn first_ok<E, T, F>(endpoints: Vec<E>, attempt: F) -> (r: Result<T, Vec<AuthError>>) where
    F: Fn(&E) -> Result<T, AuthError>,

    requires
        forall|i: int| 0 <= i < endpoints@.len() ==> call_requires(attempt, (&endpoints@[i],)),
    ensures
        exists|attempts: Seq<Result<T, AuthError>>|
            {
                &&& #[trigger] made_by(attempt, endpoints@, attempts)
                &&& complete(attempts, endpoints@.len())
                &&& result_view(r) == dispatch(attempts)
            },
{
    let ghost members = endpoints@;
    let mut call = match FirstOk::new(endpoints) {
        Some(call) => call,
        None => {
            proof {
                let none = Seq::<Result<T, AuthError>>::empty();
                assert(failures(none) =~= Seq::<AuthError>::empty());
                assert(made_by(attempt, members, none));
            }
            return Err(Vec::new());
        },
    };
    loop
        invariant
            members == endpoints@,
            call.endpoints() == members,
            forall|i: int| 0 <= i < members.len() ==> call_requires(attempt, (&members[i],)),
            made_by(attempt, members, failed::<T>(call.errors())),
        decreases members.len() - call.errors().len(),
    {
        let ghost before = failed::<T>(call.errors());
        let outcome = attempt(call.endpoint());
        let ghost attempts = before.push(outcome);
        proof {
            assert(made_by(attempt, members, attempts));
        }
        match call.record(outcome) {
            Progress::Settled(result) => {
                return result;
            },
            Progress::Pending(next) => {
                proof {
                    assert(failed::<T>(next.errors()) =~= attempts);
                }
                call = next;
            },
        }
    }
}

/// At most one attempt wins.
pub proof fn lemma_winner_is_unique<T>(attempts: Seq<Result<T, AuthError>>, i: int, j: int)
    requires
        wins(attempts, i),
        wins(attempts, j),
    ensures
        i == j,
{
}

/// The first attempt that succeeds settles the call with its value, whatever the later
/// attempts would have come to.
pub proof fn lemma_first_success<T>(attempts: Seq<Result<T, AuthError>>, i: int)
    requires
        wins(attempts, i),
    ensures
        dispatch(attempts) == Ok::<T, Seq<AuthError>>(attempts[i]->Ok_0),
{
}

/// Where exactly one attempt succeeds, the call succeeds with that attempt's value, at
/// whatever position it stands.
pub proof fn lemma_single_success<T>(attempts: Seq<Result<T, AuthError>>, i: int)
    requires
        0 <= i < attempts.len(),
        attempts[i] is Ok,
        forall|j: int| 0 <= j < attempts.len() && j != i ==> (#[trigger] attempts[j]) is Err,
    ensures
        dispatch(attempts) == Ok::<T, Seq<AuthError>>(attempts[i]->Ok_0),
{
    lemma_first_success(attempts, i);
}

/// Where every attempt fails, the call fails with one error for each member, in the order
/// of the members.
pub proof fn lemma_all_failed<T>(attempts: Seq<Result<T, AuthError>>)
    requires
        forall|i: int| 0 <= i < attempts.len() ==> (#[trigger] attempts[i]) is Err,
    ensures
        dispatch(attempts) == Err::<T, Seq<AuthError>>(failures(attempts)),
        failures(attempts).len() == attempts.len(),
        forall|i: int|
            0 <= i < attempts.len() ==> attempts[i] == Err::<T, AuthError>(
                #[trigger] failures(attempts)[i],
            ),
{
}

/// An attempt that succeeds has a first one before or at it.
proof fn lemma_success_has_winner<T>(attempts: Seq<Result<T, AuthError>>, i: int)
    requires
        0 <= i < attempts.len(),
        attempts[i] is Ok,
    ensures
        exists|k: int| wins(attempts, k),
    decreases i,
{
    if exists|j: int| 0 <= j < i && (#[trigger] attempts[j]) is Ok {
        let j = choose|j: int| 0 <= j < i && (#[trigger] attempts[j]) is Ok;
        lemma_success_has_winner(attempts, j);
    } else {
        assert(wins(attempts, i));
    }
}

/// A call fails only where every attempt failed, and then with as many errors as there
/// were attempts.
pub proof fn lemma_failure_is_total<T>(attempts: Seq<Result<T, AuthError>>)
    ensures
        dispatch(attempts) is Err <==> forall|i: int|
            0 <= i < attempts.len() ==> (#[trigger] attempts[i]) is Err,
        dispatch(attempts) matches Err(errors) ==> errors.len() == attempts.len(),
{
    if exists|i: int| 0 <= i < attempts.len() && (#[trigger] attempts[i]) is Ok {
        let i = choose|i: int| 0 <= i < attempts.len() && (#[trigger] attempts[i]) is Ok;
        lemma_success_has_winner(attempts, i);
    }
}

/// A whole call over at least one member that fails has tried every member: it fails with
/// one error for each member, in the order of the members, and so with at least one.
pub proof fn lemma_failed_call_tried_all<T>(attempts: Seq<Result<T, AuthError>>, total: nat)
    requires
        complete(attempts, total),
        total > 0,
        dispatch(attempts) is Err,
    ensures
        attempts.len() == total,
        dispatch(attempts)->Err_0.len() == total,
        forall|i: int|
            0 <= i < total ==> attempts[i] == Err::<T, AuthError>(
                #[trigger] dispatch(attempts)->Err_0[i],
            ),
{
    lemma_failure_is_total(attempts);
}

/// A whole call that succeeds gives the value of its last attempt, and every attempt before
/// that one failed.
pub proof fn lemma_successful_call_stopped<T>(attempts: Seq<Result<T, AuthError>>, total: nat)
    requires
        complete(attempts, total),
        dispatch(attempts) is Ok,
    ensures
        attempts.len() > 0,
        attempts.last() == Ok::<T, AuthError>(dispatch(attempts)->Ok_0),
        forall|i: int| 0 <= i < attempts.len() - 1 ==> (#[trigger] attempts[i]) is Err,
{
}

} // verus!
