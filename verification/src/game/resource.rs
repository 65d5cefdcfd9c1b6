//! Basic colony resources gathered with `g wood` / `g stone` / `g food`.

use crate::game::commands::Commands;
use crate::text::str_equal;
use vstd::prelude::*;

verus! {

/// Basic colony resources gathered with `g wood` / `g stone` / `g food`.
#[derive(Debug, Clone, Copy, PartialEq, Eq, Structural)]
pub enum ResourceKind {
    Wood,
    Stone,
    Food,
}

impl ResourceKind {
    pub open spec fn label_text(self) -> Seq<char> {
        match self {
            ResourceKind::Wood => "wood"@,
            ResourceKind::Stone => "stone"@,
            ResourceKind::Food => "food"@,
        }
    }

    /// Free-settler bonus percent of the gather formula.
    pub open spec fn percent(self) -> usize {
        match self {
            ResourceKind::Wood => 40,
            ResourceKind::Stone => 33,
            ResourceKind::Food => 50,
        }
    }

    /// The resource a word names, if any.
    pub open spec fn named(s: Seq<char>) -> Option<ResourceKind> {
        if s == "wood"@ {
            Some(ResourceKind::Wood)
        } else if s == "stone"@ {
            Some(ResourceKind::Stone)
        } else if s == "food"@ {
            Some(ResourceKind::Food)
        } else {
            None
        }
    }

    /// The gather command for a resource.
    pub open spec fn gather_command(self) -> Commands {
        match self {
            ResourceKind::Wood => Commands::GetWood,
            ResourceKind::Stone => Commands::GetStone,
            ResourceKind::Food => Commands::GetFood,
        }
    }

    /// The resource a gather command gathers.
    pub open spec fn from_command(c: Commands) -> Option<ResourceKind> {
        match c {
            Commands::GetWood => Some(ResourceKind::Wood),
            Commands::GetStone => Some(ResourceKind::Stone),
            Commands::GetFood => Some(ResourceKind::Food),
            _ => None,
        }
    }

    /// Every resource: wood, stone, food.
    pub fn all() -> (r: [ResourceKind; 3])
        ensures
            r@ == seq![ResourceKind::Wood, ResourceKind::Stone, ResourceKind::Food],
    {
        let r = [ResourceKind::Wood, ResourceKind::Stone, ResourceKind::Food];
        assert(r@ =~= seq![ResourceKind::Wood, ResourceKind::Stone, ResourceKind::Food]);
        r
    }

    /// Lowercase name as shown in logs.
    pub fn label(self) -> (r: &'static str)
        ensures
            r@ == self.label_text(),
    {
        match self {
            ResourceKind::Wood => "wood",
            ResourceKind::Stone => "stone",
            ResourceKind::Food => "food",
        }
    }

    /// Free-settler bonus percent used in gather yield formula.
    pub fn gather_percent(self) -> (r: usize)
        ensures
            r == self.percent(),
    {
        match self {
            ResourceKind::Wood => 40,
            ResourceKind::Stone => 33,
            ResourceKind::Food => 50,
        }
    }

    /// The resource a command-line word names.
    pub fn parse(s: &str) -> (r: Option<Self>)
        ensures
            r == Self::named(s@),
    {
        if str_equal(s, "wood") {
            Some(ResourceKind::Wood)
        } else if str_equal(s, "stone") {
            Some(ResourceKind::Stone)
        } else if str_equal(s, "food") {
            Some(ResourceKind::Food)
        } else {
            None
        }
    }

    /// The resource a gather command fetches, if it is one.
    pub fn from_gather_command(command: &Commands) -> (r: Option<Self>)
        ensures
            r == Self::from_command(*command),
    {
        match command {
            Commands::GetWood => Some(ResourceKind::Wood),
            Commands::GetStone => Some(ResourceKind::Stone),
            Commands::GetFood => Some(ResourceKind::Food),
            _ => None,
        }
    }

    /// The gather command that fetches this resource.
    pub fn to_gather_command(self) -> (r: Commands)
        ensures
            r == self.gather_command(),
    {
        match self {
            ResourceKind::Wood => Commands::GetWood,
            ResourceKind::Stone => Commands::GetStone,
            ResourceKind::Food => Commands::GetFood,
        }
    }
}

/// Reading a resource back from its gather command gives the resource.
pub proof fn lemma_gather_command_round_trip(kind: ResourceKind)
    ensures
        ResourceKind::from_command(kind.gather_command()) == Some(kind),
{
}

} // verus!
