//! Auto-join: which room invites the bot accepts, and how it retries joining.
//!
//! Joining is retried with exponential backoff, as a workaround for a homeserver
//! race condition: the first retry waits 2 s, every further one twice as long,
//! and the bot gives up once the next wait would exceed an hour.
use vstd::arithmetic::power2::pow2;
use vstd::prelude::*;

verus! {

/// What the bot does with a room invite.
#[derive(Debug, Clone, Copy, PartialEq, Eq)]
pub enum InviteDecision {
    /// The client is not logged in; the invite is ignored.
    NotLoggedIn,
    /// The invite is addressed to someone else.
    NotForUs,
    /// The invite was not sent by the owner; it is ignored with a warning.
    NotFromOwner,
    /// Join the room.
    Join,
}

pub open spec fn invite_decision_spec(
    own_user_id: Option<Seq<char>>,
    invitee: Seq<char>,
    sender: Seq<char>,
    owner: Seq<char>,
) -> InviteDecision {
    match own_user_id {
        None => InviteDecision::NotLoggedIn,
        Some(me) => if invitee != me {
            InviteDecision::NotForUs
        } else if sender != owner {
            InviteDecision::NotFromOwner
        } else {
            InviteDecision::Join
        },
    }
}

pub open spec fn opt_view(s: Option<String>) -> Option<Seq<char>> {
    match s {
        Some(s) => Some(s@),
        None => None,
    }
}

/// Decides on a membership invite: only invites addressed to the bot and sent by
/// the owner are accepted.
pub fn decide_invite(
    own_user_id: Option<String>,
    invitee: &String,
    sender: &String,
    owner: &String,
) -> (d: InviteDecision)
    ensures
        d == invite_decision_spec(opt_view(own_user_id), invitee@, sender@, owner@),
{
    match own_user_id {
        None => InviteDecision::NotLoggedIn,
        Some(me) => if !(*invitee == me) {
            InviteDecision::NotForUs
        } else if !(*sender == *owner) {
            InviteDecision::NotFromOwner
        } else {
            InviteDecision::Join
        },
    }
}

/// Seconds waited after the first failed join.
pub const INITIAL_JOIN_DELAY: u64 = 2;

/// The bot gives up once the next wait would be longer than this many seconds.
pub const MAX_JOIN_DELAY: u64 = 3600;

/// The wait that follows `delay` seconds, or `None` when the bot gives up.
pub open spec fn next_join_delay(delay: nat) -> Option<nat> {
    if 2 * delay > MAX_JOIN_DELAY {
        None
    } else {
        Some(2 * delay)
    }
}

/// The retry state of one room join: how long to wait after the next failure.
pub struct JoinBackoff {
    delay: u64,
}

impl View for JoinBackoff {
    type V = nat;

    closed spec fn view(&self) -> nat {
        self.delay as nat
    }
}

impl JoinBackoff {
    #[verifier::type_invariant]
    closed spec fn inv(self) -> bool {
        INITIAL_JOIN_DELAY <= self.delay <= MAX_JOIN_DELAY
    }

    /// The backoff before the first join attempt.
    pub fn new() -> (b: JoinBackoff)
        ensures
            b@ == INITIAL_JOIN_DELAY,
    {
        JoinBackoff { delay: INITIAL_JOIN_DELAY }
    }

    /// Seconds to wait after the next failure.
    pub fn delay(&self) -> (d: u64)
        ensures
            d == self@,
    {
        self.delay
    }

    /// After a failed join: the seconds to wait, and the backoff for the next
    /// attempt, or `None` when the bot gives up after that wait.
    pub fn after_failure(self) -> (res: (u64, Option<JoinBackoff>))
        ensures
            res.0 == self@,
            match next_join_delay(self@) {
                None => res.1 is None,
                Some(d) => res.1 matches Some(b) && b@ == d,
            },
    {
        proof {
            use_type_invariant(&self);
        }
        let wait = self.delay;
        let doubled = self.delay * 2;
        if doubled > MAX_JOIN_DELAY {
            (wait, None)
        } else {
            (wait, Some(JoinBackoff { delay: doubled }))
        }
    }
}

/// The wait after the `k`-th failed join (counting from 0): 2 s, doubled each time.
pub open spec fn doubling_delay(k: nat) -> nat
    decreases k,
{
    if k == 0 {
        INITIAL_JOIN_DELAY as nat
    } else {
        2 * doubling_delay((k - 1) as nat)
    }
}

proof fn lemma_doubling_delay_bound(k: nat)
    requires
        k <= 10,
    ensures
        doubling_delay(k) <= 2048,
        k < 10 ==> doubling_delay(k) <= 1024,
    decreases k,
{
    reveal_with_fuel(doubling_delay, 11);
    if k > 0 {
        lemma_doubling_delay_bound((k - 1) as nat);
    }
}

/// The bot joins a room only on an invite addressed to itself and sent by the owner.
pub proof fn lemma_join_only_owner_invites(
    own_user_id: Option<Seq<char>>,
    invitee: Seq<char>,
    sender: Seq<char>,
    owner: Seq<char>,
)
    ensures
        invite_decision_spec(own_user_id, invitee, sender, owner) == InviteDecision::Join <==> (own_user_id
            == Some(invitee) && sender == owner),
{
}

/// The course of joining a room when the backoff stands at `delay` and the next
/// `failures` joins fail before one succeeds: the join calls made, the seconds
/// waited, and whether the room was joined. After each failure the bot waits the
/// current delay, then retries with the doubled delay or gives up.
pub open spec fn join_course(delay: nat, failures: nat) -> (nat, nat, bool)
    decreases failures,
{
    if failures == 0 {
        (1, 0, true)
    } else {
        match next_join_delay(delay) {
            None => (1, delay, false),
            Some(d) => {
                let rest = join_course(d, (failures - 1) as nat);
                (rest.0 + 1, rest.1 + delay, rest.2)
            },
        }
    }
}

proof fn lemma_doubling_delay_values(k: nat)
    requires
        k <= 11,
    ensures
        k < 10 ==> next_join_delay(doubling_delay(k)) == Some(doubling_delay(k + 1)),
        k == 10 ==> next_join_delay(doubling_delay(k)) is None,
        doubling_delay(11) == 4096,
        doubling_delay(0) == 2,
{
    reveal_with_fuel(doubling_delay, 12);
    lemma_doubling_delay_bound(if k <= 10 { k } else { 10 });
}

proof fn lemma_join_course_from(j: nat, failures: nat)
    requires
        j <= 10,
    ensures
        j + failures <= 10 ==> doubling_delay(j) <= doubling_delay(j + failures),
        j + failures <= 10 ==> join_course(doubling_delay(j), failures) == (
            failures + 1,
            (doubling_delay(j + failures) - doubling_delay(j)) as nat,
            true,
        ),
        j + failures > 10 ==> join_course(doubling_delay(j), failures) == (
            (11 - j) as nat,
            (4096 - doubling_delay(j)) as nat,
            false,
        ),
    decreases failures,
{
    lemma_doubling_delay_values(j);
    lemma_doubling_delay_values(j + 1);
    lemma_doubling_delay_bound(j);
    if failures > 0 {
        if j < 10 {
            lemma_join_course_from(j + 1, (failures - 1) as nat);
            assert(doubling_delay(j + 1) == 2 * doubling_delay(j));
        }
    }
}

/// Joining an invited room: when the first `failures` joins fail and the next one
/// succeeds, the bot makes `failures + 1` join calls, waits 2 + 4 + ... + 2^failures
/// seconds between them, and ends up joined, provided `failures` is at most 10.
/// When 11 or more joins would fail, it makes 11 calls, waits 4094 seconds in all,
/// and gives up unjoined.
pub proof fn lemma_join_retry_course(failures: nat)
    ensures
        failures <= 10 ==> join_course(INITIAL_JOIN_DELAY as nat, failures) == (
            failures + 1,
            (doubling_delay(failures) - 2) as nat,
            true,
        ),
        failures > 10 ==> join_course(INITIAL_JOIN_DELAY as nat, failures) == (11nat, 4094nat, false),
        forall|k: nat| k <= 10 ==> #[trigger] doubling_delay(k) == pow2(k + 1),
{
    lemma_doubling_delay_values(0);
    lemma_join_course_from(0, failures);
    assert forall|k: nat| k <= 10 implies #[trigger] doubling_delay(k) == pow2(k + 1) by {
        lemma_doubling_is_pow2(k);
    }
}

proof fn lemma_doubling_is_pow2(k: nat)
    ensures
        doubling_delay(k) == pow2(k + 1),
    decreases k,
{
    vstd::arithmetic::power2::lemma_pow2_unfold(k + 1);
    if k > 0 {
        lemma_doubling_is_pow2((k - 1) as nat);
    } else {
        vstd::arithmetic::power2::lemma2_to64();
    }
}

/// How an invite is decided, for every input: without a login it is ignored; an
/// invite for another user is not for the bot; an invite for the bot from anyone
/// but the owner is refused; an invite for the bot from the owner is joined.
pub proof fn lemma_invite_decisions(
    own_user_id: Option<Seq<char>>,
    invitee: Seq<char>,
    sender: Seq<char>,
    owner: Seq<char>,
)
    ensures
        own_user_id is None ==> invite_decision_spec(own_user_id, invitee, sender, owner)
            == InviteDecision::NotLoggedIn,
        own_user_id is Some && own_user_id != Some(invitee) ==> invite_decision_spec(own_user_id, invitee, sender, owner)
            == InviteDecision::NotForUs,
        own_user_id == Some(invitee) && sender != owner ==> invite_decision_spec(own_user_id, invitee, sender, owner)
            == InviteDecision::NotFromOwner,
        own_user_id == Some(invitee) && sender == owner ==> invite_decision_spec(own_user_id, invitee, sender, owner)
            == InviteDecision::Join,
{
}

/// Each failed join doubles the wait, as long as the doubled wait stays within an
/// hour; beyond that the bot gives up.
pub proof fn lemma_next_join_delay(delay: nat)
    ensures
        delay <= 1800 ==> next_join_delay(delay) == Some(2 * delay),
        delay > 1800 ==> next_join_delay(delay) is None,
{
}

} // verus!
