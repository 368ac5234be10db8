use vstd::prelude::*;

verus! {

/// How long a gossip message waits for its acknowledgement before it is sent again the first
/// time, in milliseconds.
pub const FIRST_WAIT_MS: u64 = 100;

/// How much longer each following wait is, in milliseconds.
pub const WAIT_STEP_MS: u64 = 100;

/// The longest wait; once the next wait would be longer, the message is given up.
pub const LONGEST_WAIT_MS: u64 = 2000;

/// The wait that follows a wait of `wait` ms that ended with no acknowledgement, or none when
/// the message is given up.
pub open spec fn following_wait(wait: nat) -> Option<nat> {
    if wait + WAIT_STEP_MS > LONGEST_WAIT_MS {
        None
    } else {
        Some((wait + WAIT_STEP_MS) as nat)
    }
}

/// The waits of a message whose first wait is `wait`, when no acknowledgement ever comes: the
/// message is sent once before each of them.
pub open spec fn waits_from(wait: nat) -> Seq<nat>
    decreases LONGEST_WAIT_MS + WAIT_STEP_MS - wait,
{
    if wait > LONGEST_WAIT_MS {
        Seq::empty()
    } else {
        match following_wait(wait) {
            Some(next) => seq![wait].add(waits_from(next)),
            None => seq![wait],
        }
    }
}

/// The wait after a wait of `wait` ms that saw no acknowledgement: 100 ms longer, or none once
/// that would exceed 2 s.
pub fn next_wait(wait: u64) -> (r: Option<u64>)
    requires
        wait <= LONGEST_WAIT_MS,
    ensures
        r matches Some(n) ==> following_wait(wait as nat) == Some(n as nat),
        r is None <==> following_wait(wait as nat) is None,
{
    if wait + WAIT_STEP_MS > LONGEST_WAIT_MS {
        None
    } else {
        Some(wait + WAIT_STEP_MS)
    }
}

proof fn lemma_waits_from(k: nat)
    requires
        1 <= k <= 20,
    ensures
        waits_from(100 * k).len() == 21 - k,
        forall|i: int| 0 <= i < 21 - k ==> #[trigger] waits_from(100 * k)[i] == 100 * (k + i),
    decreases 21 - k,
{
    if k < 20 {
        lemma_waits_from(k + 1);
        assert(following_wait(100 * k) == Some(100 * (k + 1)));
        let rest = waits_from(100 * (k + 1));
        assert(waits_from(100 * k) == seq![100 * k].add(rest));
        assert forall|i: int| 0 <= i < 21 - k implies #[trigger] waits_from(100 * k)[i] == 100 * (k + i) by {
            if i > 0 {
                assert(waits_from(100 * k)[i] == rest[i - 1]);
            }
        }
    } else {
        assert(following_wait(2000) is None);
    }
}

/// A message that is never acknowledged is sent 20 times, after waits of 100, 200, ..., 2000 ms,
/// and then given up.
pub proof fn law_unacknowledged_message_is_sent_twenty_times()
    ensures
        waits_from(FIRST_WAIT_MS as nat).len() == 20,
        forall|i: int| 0 <= i < 20 ==> #[trigger] waits_from(FIRST_WAIT_MS as nat)[i] == 100 * (i + 1),
        waits_from(FIRST_WAIT_MS as nat).last() == LONGEST_WAIT_MS,
{
    lemma_waits_from(1);
    assert(waits_from(FIRST_WAIT_MS as nat)[19] == 2000);
}

} // verus!
