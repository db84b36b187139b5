//! A pipeline source that is fed through a channel.

use vstd::prelude::*;

verus! {

/// A source that hands on what arrives on a channel.
pub struct SyncReceiverSource {}

/// What the source generates from what it received: nothing once the channel
/// is closed, and otherwise the chunk or the failure that arrived.
pub open spec fn generated<C, E>(received: Option<Result<C, E>>) -> Result<Option<C>, E> {
    match received {
        None => Ok(None),
        Some(Err(cause)) => Err(cause),
        Some(Ok(chunk)) => Ok(Some(chunk)),
    }
}

impl SyncReceiverSource {
    /// The name under which the source appears in a pipeline.
    pub fn name() -> (name: &'static str)
        ensures
            name@ == "SyncReceiverSource"@,
    {
        "SyncReceiverSource"
    }

    /// What the source generates from the next thing on its channel, which is
    /// `None` once the channel is closed.
    pub fn generate<C, E>(received: Option<Result<C, E>>) -> (res: Result<Option<C>, E>)
        ensures
            res == generated(received),
    {
        match received {
            None => Ok(None),
            Some(Err(cause)) => Err(cause),
            Some(Ok(chunk)) => Ok(Some(chunk)),
        }
    }
}

/// A chunk comes out as that chunk, a failure as that failure, and the end of
/// the channel as the end.
pub proof fn law_generation_hands_on<C, E>(chunk: C, cause: E)
    ensures
        generated(Some(Ok::<C, E>(chunk))) == Ok::<Option<C>, E>(Some(chunk)),
        generated(Some(Err::<C, E>(cause))) == Err::<Option<C>, E>(cause),
        generated(None::<Result<C, E>>) == Ok::<Option<C>, E>(None),
{
}

/// What the source generates tells exactly what it received.
pub proof fn law_generation_loses_nothing<C, E>(
    received: Option<Result<C, E>>,
    other: Option<Result<C, E>>,
)
    requires
        generated(received) == generated(other),
    ensures
        received == other,
{
}

} // verus!
