use vstd::prelude::*;
use std::cmp::Ordering;

verus! {

/// How urgent a task is. The four levels are totally ordered:
/// `Common < Green < Yellow < Red`.
#[derive(PartialEq, Eq, Structural, Debug, Clone, Copy)]
pub enum Priority {
    Common,
    Green,
    Yellow,
    Red,
}

impl Priority {
    /// Position of the level in the order, from 0 (`Common`) to 3 (`Red`).
    pub open spec fn rank(self) -> nat {
        match self {
            Priority::Common => 0,
            Priority::Green => 1,
            Priority::Yellow => 2,
            Priority::Red => 3,
        }
    }

    /// One level up, staying at `Red`.
    pub open spec fn raised(self) -> Priority {
        match self {
            Priority::Common => Priority::Green,
            Priority::Green => Priority::Yellow,
            Priority::Yellow => Priority::Red,
            Priority::Red => Priority::Red,
        }
    }

    /// One level down, staying at `Common`.
    pub open spec fn lowered(self) -> Priority {
        match self {
            Priority::Common => Priority::Common,
            Priority::Green => Priority::Common,
            Priority::Yellow => Priority::Green,
            Priority::Red => Priority::Yellow,
        }
    }

    /// The level's name as a word.
    pub open spec fn name(self) -> Seq<char> {
        match self {
            Priority::Common => "Common"@,
            Priority::Green => "Green"@,
            Priority::Yellow => "Yellow"@,
            Priority::Red => "Red"@,
        }
    }

    /// Position of the level in the order, from 0 (`Common`) to 3 (`Red`).
    pub fn level(&self) -> (n: u8)
        ensures
            n == self.rank(),
    {
        match self {
            Priority::Common => 0,
            Priority::Green => 1,
            Priority::Yellow => 2,
            Priority::Red => 3,
        }
    }

    /// Steps one level up; `Red` stays `Red`.
    #[verifier::when_used_as_spec(raised)]
    pub fn up(self) -> (next: Priority)
        ensures
            next == self.raised(),
    {
        match self {
            Priority::Common => Priority::Green,
            Priority::Green => Priority::Yellow,
            _ => Priority::Red,
        }
    }

    /// Steps one level down; `Common` stays `Common`.
    #[verifier::when_used_as_spec(lowered)]
    pub fn down(self) -> (next: Priority)
        ensures
            next == self.lowered(),
    {
        match self {
            Priority::Red => Priority::Yellow,
            Priority::Yellow => Priority::Green,
            _ => Priority::Common,
        }
    }

    /// The level's name as a word, e.g. `"Yellow"`.
    pub fn to_string(&self) -> (text: String)
        ensures
            text@ == self.name(),
    {
        match self {
            Priority::Common => "Common".to_owned(),
            Priority::Green => "Green".to_owned(),
            Priority::Yellow => "Yellow".to_owned(),
            Priority::Red => "Red".to_owned(),
        }
    }

    /// At the top, a step up changes nothing, however often it is taken.
    pub proof fn lemma_up_stays_at_red()
        ensures
            Priority::Red.up() == Priority::Red,
            Priority::Red.up().up() == Priority::Red.up(),
    {
    }

    /// At the bottom, a step down changes nothing, however often it is taken.
    pub proof fn lemma_down_stays_at_common()
        ensures
            Priority::Common.down() == Priority::Common,
            Priority::Common.down().down() == Priority::Common.down(),
    {
    }

    /// Below the top, a step up followed by a step down leads back.
    pub proof fn lemma_down_undoes_up(p: Priority)
        requires
            p != Priority::Red,
        ensures
            p.up().down() == p,
    {
    }

    /// Above the bottom, a step down followed by a step up leads back.
    pub proof fn lemma_up_undoes_down(p: Priority)
        requires
            p != Priority::Common,
        ensures
            p.down().up() == p,
    {
    }

    /// A step leads to the next level in the order, or stays at the end of it.
    pub proof fn lemma_steps_follow_the_order(p: Priority)
        ensures
            p.up().rank() == if p == Priority::Red { 3 } else { p.rank() + 1 },
            p.down().rank() == if p == Priority::Common { 0 } else { p.rank() - 1 },
    {
    }
}

/// The lowest level is the default.
impl Default for Priority {
    fn default() -> (p: Priority)
        ensures
            p == Priority::Common,
    {
        Priority::Common
    }
}

/// Levels are compared by their position in the order.
impl PartialOrd for Priority {
    fn partial_cmp(&self, other: &Priority) -> (o: Option<Ordering>) {
        let a: u8 = self.level();
        let b: u8 = other.level();
        if a < b {
            Some(Ordering::Less)
        } else if a == b {
            Some(Ordering::Equal)
        } else {
            Some(Ordering::Greater)
        }
    }
}

impl vstd::std_specs::cmp::PartialOrdSpecImpl for Priority {
    open spec fn obeys_partial_cmp_spec() -> bool {
        true
    }

    open spec fn partial_cmp_spec(&self, other: &Priority) -> Option<Ordering> {
        if self.rank() < other.rank() {
            Some(Ordering::Less)
        } else if self.rank() == other.rank() {
            Some(Ordering::Equal)
        } else {
            Some(Ordering::Greater)
        }
    }
}

} // verus!
