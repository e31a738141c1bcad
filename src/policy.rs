use vstd::prelude::*;

verus! {

/// How a child's standard output and standard error are connected.
/// One policy governs both streams of a run.
#[derive(Clone, Copy, Debug, PartialEq, Eq, Structural)]
pub enum RedirectionPolicy {
    /// The child writes straight to the parent's own streams.
    Inherit,
    /// The child's output goes to a sink that drops every byte.
    Discard,
    /// The child's output goes into a kernel pipe that nobody reads.
    PipedUndrained,
    /// The child's output goes into a kernel pipe that a worker drains line by line.
    PipedDrained,
}

/// Where one of the child's output streams is connected.
#[derive(Clone, Copy, Debug, PartialEq, Eq, Structural)]
pub enum StreamTarget {
    /// The parent's corresponding stream.
    Inherit,
    /// A sink that discards all bytes.
    Null,
    /// A new pipe whose read end the parent keeps.
    Piped,
}

pub open spec fn target_of(p: RedirectionPolicy) -> StreamTarget {
    match p {
        RedirectionPolicy::Inherit => StreamTarget::Inherit,
        RedirectionPolicy::Discard => StreamTarget::Null,
        RedirectionPolicy::PipedUndrained => StreamTarget::Piped,
        RedirectionPolicy::PipedDrained => StreamTarget::Piped,
    }
}

/// Whether a policy hands each pipe's read end to a drain worker.
pub open spec fn drains_spec(p: RedirectionPolicy) -> bool {
    p == RedirectionPolicy::PipedDrained
}

/// The symbolic name under which a policy is selected.
pub open spec fn name_of(p: RedirectionPolicy) -> Seq<char> {
    match p {
        RedirectionPolicy::Inherit => "default"@,
        RedirectionPolicy::Discard => "null"@,
        RedirectionPolicy::PipedUndrained => "piped"@,
        RedirectionPolicy::PipedDrained => "piped-process"@,
    }
}

impl RedirectionPolicy {
    /// The connection used for both the child's stdout and its stderr.
    pub fn stream_target(&self) -> (r: StreamTarget)
        ensures
            r == target_of(*self),
    {
        match self {
            RedirectionPolicy::Inherit => StreamTarget::Inherit,
            RedirectionPolicy::Discard => StreamTarget::Null,
            RedirectionPolicy::PipedUndrained => StreamTarget::Piped,
            RedirectionPolicy::PipedDrained => StreamTarget::Piped,
        }
    }

    /// Whether the run starts one drain worker per output stream.
    pub fn drains(&self) -> (r: bool)
        ensures
            r == drains_spec(*self),
            r ==> target_of(*self) == StreamTarget::Piped,
    {
        match self {
            RedirectionPolicy::PipedDrained => true,
            _ => false,
        }
    }

    /// The symbolic name of the policy, as a user selects it.
    pub fn name(&self) -> (r: &'static str)
        ensures
            r@ == name_of(*self),
    {
        match self {
            RedirectionPolicy::Inherit => "default",
            RedirectionPolicy::Discard => "null",
            RedirectionPolicy::PipedUndrained => "piped",
            RedirectionPolicy::PipedDrained => "piped-process",
        }
    }
}

impl Default for RedirectionPolicy {
    /// A run that selects no policy shares the parent's streams.
    fn default() -> (r: RedirectionPolicy)
        ensures
            r == RedirectionPolicy::Inherit,
    {
        RedirectionPolicy::Inherit
    }
}

} // verus!
