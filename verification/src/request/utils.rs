//! The caller-side state of an in-flight inference: the cancellation
//! guard and the input-release future.
//!
//! The unverified layer around this crate drives the actual waiting (a
//! one-shot channel per future); the decisions — when a cancellation call
//! is issued, and what each future resolves to — live here.

use vstd::prelude::*;

use crate::memory::Buffer;

verus! {

/// The cancellation guard of one in-flight request.
///
/// Dropping the response future before the inference has completed issues
/// a best-effort cancellation call to the engine; `is_inferenced` mirrors
/// completion and `cancelled` mirrors the engine's cancel state.
#[derive(Debug, Copy, Clone, PartialEq, Eq, Structural)]
pub struct RequestCanceller {
    pub is_inferenced: bool,
    pub cancelled: bool,
}

/// Whether giving up the inference now issues a cancellation call: only
/// when the inference has neither completed nor already been cancelled.
pub open spec fn cancel_issues(c: RequestCanceller) -> bool {
    !c.is_inferenced && !c.cancelled
}

/// The guard's state after giving up the inference.
pub open spec fn after_cancel(c: RequestCanceller) -> RequestCanceller {
    RequestCanceller { cancelled: c.cancelled || cancel_issues(c), ..c }
}

impl RequestCanceller {
    /// A fresh guard: not completed, not cancelled.
    pub fn new() -> (r: RequestCanceller)
        ensures
            !r.is_inferenced,
            !r.cancelled,
    {
        RequestCanceller { is_inferenced: false, cancelled: false }
    }

    /// Whether a cancellation was issued for this request.
    pub fn is_cancelled(&self) -> (r: bool)
        ensures
            r == self.cancelled,
    {
        self.cancelled
    }

    /// Record that the inference has completed: from now on giving up the
    /// future issues no cancellation.
    pub fn mark_inferenced(&mut self)
        ensures
            *final(self) == (RequestCanceller { is_inferenced: true, ..*old(self) }),
    {
        self.is_inferenced = true;
    }

    /// Give up the inference: returns whether a cancellation call must be
    /// issued to the engine, and records it. Idempotent: a second call
    /// never issues another one.
    pub fn request_cancel(&mut self) -> (issue: bool)
        ensures
            issue == cancel_issues(*old(self)),
            *final(self) == after_cancel(*old(self)),
    {
        let issue = !self.is_inferenced && !self.cancelled;
        if issue {
            self.cancelled = true;
        }
        issue
    }
}

/// Giving up an inference cancels at most once: a second attempt after a
/// recorded one issues nothing, and once the inference has completed no
/// attempt issues anything.
pub proof fn lemma_cancel_at_most_once(c: RequestCanceller)
    ensures
        !cancel_issues(after_cancel(c)),
        c.is_inferenced ==> !cancel_issues(c),
        after_cancel(after_cancel(c)) == after_cancel(c),
{
}

/// The future that returns the input buffers assigned to the request.
///
/// The engine's release callback may fire at any time between the start of
/// the inference and its completion; no ordering relative to the response
/// is promised.
pub enum InputRelease {
    /// Entitled to the buffers the engine's release callback returns.
    Pending,
    /// Produced by asking for the release future a second time: resolves
    /// at once to an empty map.
    Empty,
}

/// What an input-release future resolves to, given the buffers the engine
/// delivered: a pending future resolves to them, an empty one to the empty
/// map whatever was delivered.
pub open spec fn resolve_spec(rel: InputRelease, delivered: Seq<(String, Buffer)>) -> Seq<
    (String, Buffer),
> {
    match rel {
        InputRelease::Pending => delivered,
        InputRelease::Empty => Seq::empty(),
    }
}

impl InputRelease {
    /// Resolve this future against what the engine delivered.
    pub fn resolve(self, delivered: Vec<(String, Buffer)>) -> (r: Vec<(String, Buffer)>)
        ensures
            r@ == resolve_spec(self, delivered@),
    {
        match self {
            InputRelease::Pending => delivered,
            InputRelease::Empty => Vec::new(),
        }
    }
}

/// The caller-side state of the response future: the cancellation guard,
/// and the input-release future while nobody has asked for it yet.
pub struct ResponseFuture {
    pub canceller: RequestCanceller,
    pub input_release: Option<InputRelease>,
}

/// What taking the input-release future yields, and the state it leaves.
pub open spec fn take_release_spec(f: ResponseFuture) -> (ResponseFuture, InputRelease) {
    (
        ResponseFuture { input_release: None, ..f },
        match f.input_release {
            Some(rel) => rel,
            None => InputRelease::Empty,
        },
    )
}

impl ResponseFuture {
    /// Get the future that returns the input buffers assigned to the
    /// request. Asking more than once yields, from the second time on, a
    /// future that resolves to an empty map.
    pub fn get_input_release(&mut self) -> (r: InputRelease)
        ensures
            *final(self) == take_release_spec(*old(self)).0,
            r == take_release_spec(*old(self)).1,
    {
        let mut taken: Option<InputRelease> = None;
        core::mem::swap(&mut taken, &mut self.input_release);
        match taken {
            Some(rel) => rel,
            None => InputRelease::Empty,
        }
    }
}

/// Asking for the input-release future twice yields, the second time, a
/// future that resolves to the empty map whatever the engine delivered.
pub proof fn lemma_second_release_future_is_empty(
    f: ResponseFuture,
    delivered: Seq<(String, Buffer)>,
)
    ensures
        resolve_spec(take_release_spec(take_release_spec(f).0).1, delivered) == Seq::<
            (String, Buffer),
        >::empty(),
{
}

} // verus!
