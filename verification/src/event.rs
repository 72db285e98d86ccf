use vstd::prelude::*;

verus! {

/// A Codex hook event that tin handles.
#[derive(Clone, Copy, Debug, PartialEq, Eq, Structural)]
pub enum Event {
    /// Ask the agent to update configured files above the context threshold.
    Stop,
    /// Record where the host keeps the raw conversation, before compaction.
    PreCompact,
    /// Hand back the configured paths on startup, resume, clear or compact.
    SessionStart,
    /// Repeat that entry when startup delivery waits for the first input.
    UserPromptSubmit,
}

impl Event {
    /// The event's name as the host spells it in hook output.
    pub open spec fn hook_name(self) -> Seq<char> {
        match self {
            Event::Stop => "Stop"@,
            Event::PreCompact => "PreCompact"@,
            Event::SessionStart => "SessionStart"@,
            Event::UserPromptSubmit => "UserPromptSubmit"@,
        }
    }

    /// Whether the host accepts additional context in reply to this event.
    pub open spec fn takes_context(self) -> bool {
        self is SessionStart || self is UserPromptSubmit
    }

    pub fn name(self) -> (r: &'static str)
        ensures
            r@ == self.hook_name(),
    {
        match self {
            Event::Stop => "Stop",
            Event::PreCompact => "PreCompact",
            Event::SessionStart => "SessionStart",
            Event::UserPromptSubmit => "UserPromptSubmit",
        }
    }

    pub fn accepts_context(self) -> (r: bool)
        ensures
            r == self.takes_context(),
    {
        match self {
            Event::SessionStart | Event::UserPromptSubmit => true,
            _ => false,
        }
    }
}

} // verus!
