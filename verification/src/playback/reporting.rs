//! Where the controller reports its status: the user interface and the queue sync service.
use vstd::prelude::*;
use crate::models::playback::PlaybackStatus;

verus! {

/// Receives every status the controller publishes.
pub trait PlaybackReporter {
    /// The statuses handed to this reporter so far, in order. The contract of
    /// [`Self::report_state`] holds every implementation to keeping it; one that does not
    /// define it shows none.
    closed spec fn reported(&self) -> Seq<PlaybackStatus> {
        Seq::empty()
    }

    /// What this reporter answered to the last status handed to it.
    closed spec fn last_answer(&self) -> Result<(), String> {
        Ok(())
    }

    /// Publishes `status`.
    fn report_state(&mut self, status: &PlaybackStatus) -> (r: Result<(), String>)
        ensures
            final(self).reported() == old(self).reported().push(*status),
            final(self).last_answer() == r;
}

/// Forwards each status to several reporters, all of them even when one fails; the last
/// failure is returned.
pub struct CompositePlaybackReporter {
    reporters: Vec<Box<dyn PlaybackReporter>>,
    answers: Ghost<Seq<Result<(), String>>>,
    log: Ghost<Seq<PlaybackStatus>>,
    last: Ghost<Result<(), String>>,
}

/// The last failure among the answers of the reporters, if any failed.
pub open spec fn last_failure(answers: Seq<Result<(), String>>) -> Option<String>
    decreases answers.len(),
{
    if answers.len() == 0 {
        None
    } else {
        match answers.last() {
            Err(e) => Some(e),
            Ok(()) => last_failure(answers.drop_last()),
        }
    }
}

impl CompositePlaybackReporter {
    /// A reporter forwarding to `reporters`, in order.
    pub fn new(reporters: Vec<Box<dyn PlaybackReporter>>) -> (r: Self)
        ensures
            r.reporters() == reporters@,
            r.answers().len() == 0,
            r.reported().len() == 0,
    {
        CompositePlaybackReporter {
            reporters,
            answers: Ghost(Seq::empty()),
            log: Ghost(Seq::empty()),
            last: Ghost(Ok(())),
        }
    }

    /// What each reporter answered to the last status forwarded, in order.
    pub closed spec fn answers(self) -> Seq<Result<(), String>> {
        self.answers@
    }

    /// The reporters forwarded to.
    pub closed spec fn reporters(self) -> Seq<Box<dyn PlaybackReporter>> {
        self.reporters@
    }
}

impl PlaybackReporter for CompositePlaybackReporter {
    closed spec fn reported(&self) -> Seq<PlaybackStatus> {
        self.log@
    }

    closed spec fn last_answer(&self) -> Result<(), String> {
        self.last@
    }

    /// Hands `status` to every reporter once, in order, even after one fails; the answer is
    /// the last failure among theirs, or success where none failed.
    fn report_state(&mut self, status: &PlaybackStatus) -> (r: Result<(), String>)
        ensures
            final(self).reporters().len() == old(self).reporters().len(),
            final(self).answers().len() == old(self).reporters().len(),
            forall|i: int|
                0 <= i < old(self).reporters().len() ==> (#[trigger] final(self).reporters()[i]).reported()
                    == old(self).reporters()[i].reported().push(*status)
                    && final(self).reporters()[i].last_answer() == final(self).answers()[i],
            r == match last_failure(final(self).answers()) {
                Some(e) => Err::<(), String>(e),
                None => Ok(()),
            },
    {
        let mut last_error: Option<String> = None;
        let n = self.reporters.len();
        self.answers = Ghost(Seq::empty());
        let mut i: usize = 0;
        while i < n
            invariant
                n == self.reporters@.len(),
                n == old(self).reporters@.len(),
                i <= n,
                self.answers@.len() == i,
                last_error == last_failure(self.answers@),
                forall|j: int|
                    0 <= j < i ==> (#[trigger] self.reporters@[j]).reported()
                        == old(self).reporters@[j].reported().push(*status) && self.reporters@[j].last_answer()
                        == self.answers@[j],
                forall|j: int| i <= j < n ==> #[trigger] self.reporters@[j] == old(self).reporters@[j],
                self.log@ == old(self).log@,
            decreases n - i,
        {
            let answer = self.reporters[i].report_state(status);
            let ghost before = self.answers@;
            self.answers = Ghost(self.answers@.push(answer));
            assert(self.answers@.drop_last() =~= before);
            match answer {
                Ok(()) => {},
                Err(error) => {
                    last_error = Some(error);
                },
            }
            i = i + 1;
        }
        let r = match last_error {
            Some(error) => Err(error),
            None => Ok(()),
        };
        self.log = Ghost(self.log@.push(*status));
        self.last = Ghost(r);
        r
    }
}

/// Keeps a remote copy of the queue in step.
pub trait QueueSyncGateway {
    fn sync_queue(&mut self, status: &PlaybackStatus) -> Result<(), String>;
}

/// A queue sync that does nothing.
#[derive(Debug, Default, Clone, Copy)]
pub struct NoopQueueSyncGateway;

impl QueueSyncGateway for NoopQueueSyncGateway {
    fn sync_queue(&mut self, status: &PlaybackStatus) -> (r: Result<(), String>)
        ensures
            r is Ok,
    {
        Ok(())
    }
}

} // verus!
