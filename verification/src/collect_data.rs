//! The kinds of property a record can describe.

use vstd::prelude::*;

verus! {

/// What a property is a property of, or how its value is obtained.
#[derive(Debug, Clone, Copy, PartialEq, Eq, Structural)]
pub enum PropType {
    Team,
    Rules,
    Custom,
    Controller,
    Player,
    Weapon,
    Button,
    Name,
    Steamid,
    Tick,
}

} // verus!
