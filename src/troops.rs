use vstd::prelude::*;

verus! {

/// How many kinds of unit there are.
pub const TROOP_KINDS: usize = 13;

/// A kind of unit that can be bought.
#[derive(Clone, Copy, Debug, PartialEq, Eq, Structural, Hash)]
pub enum Troops {
    // Army
    Infantery,
    Tank,
    Artillery,
    AAA,
    IC,
    // Airforce
    Fighter,
    Bomber,
    // Navy
    Battleship,
    AircraftCarrier,
    Destroyer,
    Cruiser,
    Submarine,
    Transport,
}

/// The price of one unit of kind `t`, in income points.
pub open spec fn cost(t: Troops) -> int {
    match t {
        Troops::Infantery => 3,
        Troops::Tank => 6,
        Troops::Artillery => 4,
        Troops::AAA => 5,
        Troops::IC => 15,
        Troops::Fighter => 10,
        Troops::Bomber => 12,
        Troops::Battleship => 20,
        Troops::AircraftCarrier => 14,
        Troops::Cruiser => 12,
        Troops::Destroyer => 8,
        Troops::Submarine => 6,
        Troops::Transport => 7,
    }
}

/// The position of `t` in declaration order, from 0 to `TROOP_KINDS - 1`.
pub open spec fn slot(t: Troops) -> int {
    match t {
        Troops::Infantery => 0,
        Troops::Tank => 1,
        Troops::Artillery => 2,
        Troops::AAA => 3,
        Troops::IC => 4,
        Troops::Fighter => 5,
        Troops::Bomber => 6,
        Troops::Battleship => 7,
        Troops::AircraftCarrier => 8,
        Troops::Destroyer => 9,
        Troops::Cruiser => 10,
        Troops::Submarine => 11,
        Troops::Transport => 12,
    }
}

/// The kind at position `i` in declaration order (the last kind past the end).
pub open spec fn troop_at(i: int) -> Troops {
    if i <= 0 {
        Troops::Infantery
    } else if i == 1 {
        Troops::Tank
    } else if i == 2 {
        Troops::Artillery
    } else if i == 3 {
        Troops::AAA
    } else if i == 4 {
        Troops::IC
    } else if i == 5 {
        Troops::Fighter
    } else if i == 6 {
        Troops::Bomber
    } else if i == 7 {
        Troops::Battleship
    } else if i == 8 {
        Troops::AircraftCarrier
    } else if i == 9 {
        Troops::Destroyer
    } else if i == 10 {
        Troops::Cruiser
    } else if i == 11 {
        Troops::Submarine
    } else {
        Troops::Transport
    }
}

/// The name under which a kind is shown to the player.
pub open spec fn name_of(t: Troops) -> Seq<char> {
    match t {
        Troops::Infantery => "Infantery"@,
        Troops::Tank => "Tank"@,
        Troops::Artillery => "Artillery"@,
        Troops::AAA => "AAA"@,
        Troops::IC => "IC"@,
        Troops::Fighter => "Fighter"@,
        Troops::Bomber => "Bomber"@,
        Troops::Battleship => "Battleship"@,
        Troops::AircraftCarrier => "Aircraft Carrier"@,
        Troops::Destroyer => "Destroyer"@,
        Troops::Cruiser => "Cruiser"@,
        Troops::Submarine => "Submarine"@,
        Troops::Transport => "Transport"@,
    }
}

/// `slot` and `troop_at` are inverse to each other on the valid positions.
pub proof fn lemma_slot_bijective()
    ensures
        forall|t: Troops| #![trigger slot(t)] 0 <= slot(t) < TROOP_KINDS && troop_at(slot(t)) == t,
        forall|i: int| #![trigger troop_at(i)] 0 <= i < TROOP_KINDS ==> slot(troop_at(i)) == i,
{
}

impl Troops {
    /// The price of one unit of this kind.
    pub fn get_cost(&self) -> (r: i32)
        ensures
            r == cost(*self),
    {
        match self {
            Troops::Infantery => 3,
            Troops::Tank => 6,
            Troops::Artillery => 4,
            Troops::AAA => 5,
            Troops::IC => 15,
            Troops::Fighter => 10,
            Troops::Bomber => 12,
            Troops::Battleship => 20,
            Troops::AircraftCarrier => 14,
            Troops::Cruiser => 12,
            Troops::Destroyer => 8,
            Troops::Submarine => 6,
            Troops::Transport => 7,
        }
    }

    /// The name under which this kind is shown to the player.
    pub fn name(&self) -> (r: &'static str)
        ensures
            r@ == name_of(*self),
    {
        match self {
            Troops::Infantery => "Infantery",
            Troops::Tank => "Tank",
            Troops::Artillery => "Artillery",
            Troops::AAA => "AAA",
            Troops::IC => "IC",
            Troops::Fighter => "Fighter",
            Troops::Bomber => "Bomber",
            Troops::Battleship => "Battleship",
            Troops::AircraftCarrier => "Aircraft Carrier",
            Troops::Destroyer => "Destroyer",
            Troops::Cruiser => "Cruiser",
            Troops::Submarine => "Submarine",
            Troops::Transport => "Transport",
        }
    }

    /// The position of this kind in declaration order.
    pub fn index(&self) -> (r: usize)
        ensures
            r == slot(*self),
            r < TROOP_KINDS,
    {
        match self {
            Troops::Infantery => 0,
            Troops::Tank => 1,
            Troops::Artillery => 2,
            Troops::AAA => 3,
            Troops::IC => 4,
            Troops::Fighter => 5,
            Troops::Bomber => 6,
            Troops::Battleship => 7,
            Troops::AircraftCarrier => 8,
            Troops::Destroyer => 9,
            Troops::Cruiser => 10,
            Troops::Submarine => 11,
            Troops::Transport => 12,
        }
    }

    /// The kind at position `i` in declaration order.
    pub fn from_index(i: usize) -> (r: Troops)
        requires
            i < TROOP_KINDS,
        ensures
            r == troop_at(i as int),
            slot(r) == i,
    {
        if i == 0 {
            Troops::Infantery
        } else if i == 1 {
            Troops::Tank
        } else if i == 2 {
            Troops::Artillery
        } else if i == 3 {
            Troops::AAA
        } else if i == 4 {
            Troops::IC
        } else if i == 5 {
            Troops::Fighter
        } else if i == 6 {
            Troops::Bomber
        } else if i == 7 {
            Troops::Battleship
        } else if i == 8 {
            Troops::AircraftCarrier
        } else if i == 9 {
            Troops::Destroyer
        } else if i == 10 {
            Troops::Cruiser
        } else if i == 11 {
            Troops::Submarine
        } else {
            Troops::Transport
        }
    }
}

} // verus!
