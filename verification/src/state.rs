use vstd::prelude::*;

verus! {

/// The possible states along the lifetime of a copper list.
#[derive(Debug, PartialEq, Eq, Structural, Clone, Copy)]
pub enum CopperListState {
    Free,
    Initialized,
    Processing,
    DoneProcessing,
    BeingSerialized,
}

impl CopperListState {
    /// The text that stands for the state in logs: the name of the variant.
    pub open spec fn text(self) -> Seq<char> {
        match self {
            CopperListState::Free => "Free"@,
            CopperListState::Initialized => "Initialized"@,
            CopperListState::Processing => "Processing"@,
            CopperListState::DoneProcessing => "DoneProcessing"@,
            CopperListState::BeingSerialized => "BeingSerialized"@,
        }
    }

    /// Renders the state as text.
    pub fn to_string(&self) -> (text: String)
        ensures
            text@ == self.text(),
            match self {
                CopperListState::Free => text@ == "Free"@,
                CopperListState::Initialized => text@ == "Initialized"@,
                CopperListState::Processing => text@ == "Processing"@,
                CopperListState::DoneProcessing => text@ == "DoneProcessing"@,
                CopperListState::BeingSerialized => text@ == "BeingSerialized"@,
            },
    {
        let name: &str = match self {
            CopperListState::Free => "Free",
            CopperListState::Initialized => "Initialized",
            CopperListState::Processing => "Processing",
            CopperListState::DoneProcessing => "DoneProcessing",
            CopperListState::BeingSerialized => "BeingSerialized",
        };
        name.to_string()
    }
}

/// The text of a state tells which state it is: no two states share one.
pub proof fn law_text_tells_the_state(one: CopperListState, other: CopperListState)
    ensures
        one.text() == other.text() <==> one == other,
{
    reveal_strlit("Free");
    reveal_strlit("Initialized");
    reveal_strlit("Processing");
    reveal_strlit("DoneProcessing");
    reveal_strlit("BeingSerialized");
    // No two texts have the same length.
    assert("Free"@.len() == 4 && "Initialized"@.len() == 11 && "Processing"@.len() == 10
        && "DoneProcessing"@.len() == 14 && "BeingSerialized"@.len() == 15);
}

} // verus!
