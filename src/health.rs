use vstd::prelude::*;

verus! {

pub open spec fn is_digit(b: u8) -> bool {
    48 <= b && b <= 57
}

/// The bytes of `HTTP/1.`.
pub open spec fn http_1_prefix() -> Seq<u8> {
    seq![72u8, 84u8, 84u8, 80u8, 47u8, 49u8, 46u8]
}

/// The start of an HTTP/1.0 or HTTP/1.1 response whose status is 2xx.
pub open spec fn success_status_line(r: Seq<u8>) -> bool {
    &&& r.len() >= 12
    &&& r.subrange(0, 7) == http_1_prefix()
    &&& (r[7] == 48 || r[7] == 49)
    &&& r[8] == 32
    &&& r[9] == 50
    &&& is_digit(r[10])
    &&& is_digit(r[11])
}

/// Whether the first bytes of a response to `GET /health` report success.
pub fn response_is_healthy(response: &Vec<u8>) -> (r: bool)
    ensures
        r == success_status_line(response@),
{
    if response.len() < 12 {
        return false;
    }
    let ok = response[0] == 72 && response[1] == 84 && response[2] == 84 && response[3] == 80
        && response[4] == 47 && response[5] == 49 && response[6] == 46;
    assert(ok <==> response@.subrange(0, 7) =~= http_1_prefix()) by {
        if response@.subrange(0, 7) =~= http_1_prefix() {
            assert(response@.subrange(0, 7)[6] == response@[6]);
        }
    }
    ok && (response[7] == 48 || response[7] == 49) && response[8] == 32 && response[9] == 50 && 48
        <= response[10] && response[10] <= 57 && 48 <= response[11] && response[11] <= 57
}

/// The verdict of one health probe: whatever failed on the way (no
/// connection, a timeout, nothing read) collapses to unhealthy.
pub fn probe_verdict(response: Option<Vec<u8>>) -> (r: bool)
    ensures
        r == match response {
            Some(b) => success_status_line(b@),
            None => false,
        },
{
    match response {
        Some(b) => response_is_healthy(&b),
        None => false,
    }
}

/// What to do after a health probe while waiting for the sidecar.
#[derive(Clone, Copy, PartialEq, Eq, Structural, Debug)]
pub enum WaitStep {
    Ready,
    /// Sleep for the poll interval and probe again.
    Retry,
    TimedOut,
}

/// A bounded wait for the sidecar to answer its health probe: it probes at
/// most one more time than the retries it allows.
pub struct HealthWait {
    retries_left: u32,
    interval_ms: u64,
    finished: bool,
}

impl HealthWait {
    pub closed spec fn retries_left(&self) -> nat {
        self.retries_left as nat
    }

    pub closed spec fn interval(&self) -> u64 {
        self.interval_ms
    }

    pub closed spec fn is_finished(&self) -> bool {
        self.finished
    }

    pub fn new(max_retries: u32, interval_ms: u64) -> (r: HealthWait)
        ensures
            r.retries_left() == max_retries,
            r.interval() == interval_ms,
            !r.is_finished(),
    {
        HealthWait { retries_left: max_retries, interval_ms, finished: false }
    }

    pub fn interval_ms(&self) -> (r: u64)
        ensures
            r == self.interval(),
    {
        self.interval_ms
    }

    /// Takes the result of one probe. A healthy probe ends the wait; an
    /// unhealthy one uses up a retry, or ends the wait with a timeout when
    /// none is left. Once ended, the wait stays timed out or ready.
    pub fn on_probe(&mut self, healthy: bool) -> (r: WaitStep)
        ensures
            final(self).interval() == old(self).interval(),
            old(self).is_finished() ==> r == (if healthy {
                WaitStep::Ready
            } else {
                WaitStep::TimedOut
            }) && final(self).is_finished(),
            !old(self).is_finished() && healthy ==> r == WaitStep::Ready && final(self).is_finished(),
            !old(self).is_finished() && !healthy && old(self).retries_left() == 0 ==> r
                == WaitStep::TimedOut && final(self).is_finished(),
            !old(self).is_finished() && !healthy && old(self).retries_left() > 0 ==> r
                == WaitStep::Retry && !final(self).is_finished() && final(self).retries_left()
                == old(self).retries_left() - 1,
            r == WaitStep::Retry ==> final(self).retries_left() < old(self).retries_left(),
    {
        if self.finished {
            if healthy {
                WaitStep::Ready
            } else {
                WaitStep::TimedOut
            }
        } else if healthy {
            self.finished = true;
            WaitStep::Ready
        } else if self.retries_left == 0 {
            self.finished = true;
            WaitStep::TimedOut
        } else {
            self.retries_left = self.retries_left - 1;
            WaitStep::Retry
        }
    }
}

} // verus!
