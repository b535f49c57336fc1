//! Canonical property names.
//!
//! The full name of a leaf is the dotted path from the entity class down to
//! the field. Every weapon class, and every grenade and projectile class,
//! carries the same fields under a class name of its own. Dropping that class
//! name gives all of them one name per field: the canonical name.

use crate::text::{
    after_first_dot, chars_have_token, chars_of, first_dot_of, first_segment, has_token,
    lemma_first_dot,
};
use vstd::prelude::*;
use vstd::string::StrSliceExecFns;

verus! {

/// The segment names a weapon class: it mentions `Weapon` or `AK`, and does
/// not mention `Player`.
pub open spec fn is_weapon_segment(segment: Seq<char>) -> bool {
    (has_token(segment, "Weapon"@) || has_token(segment, "AK"@)) && !has_token(
        segment,
        "Player"@,
    )
}

/// The segment names a grenade or projectile class: it mentions `Projectile`
/// or `Grenade`, and does not mention `Player`.
pub open spec fn is_projectile_segment(segment: Seq<char>) -> bool {
    (has_token(segment, "Projectile"@) || has_token(segment, "Grenade"@)) && !has_token(
        segment,
        "Player"@,
    )
}

/// The leaf called `full_name` belongs to a weapon, grenade or projectile
/// class. Only the first segment of the name decides.
pub open spec fn is_grenade_or_weapon(full_name: Seq<char>) -> bool {
    is_weapon_segment(first_segment(full_name)) || is_projectile_segment(
        first_segment(full_name),
    )
}

/// The canonical name of the leaf called `full_name`: the name without its
/// first segment for a leaf of a weapon, grenade or projectile class, and the
/// name as it is for every other leaf.
pub open spec fn canonical_name(full_name: Seq<char>) -> Seq<char> {
    if is_grenade_or_weapon(full_name) {
        after_first_dot(full_name)
    } else {
        full_name
    }
}

/// Computes the canonical name of a leaf and whether the leaf belongs to a
/// weapon, grenade or projectile class.
pub fn canonicalize(full_name: &str) -> (r: (&str, bool))
    ensures
        r.0@ == canonical_name(full_name@),
        r.1 == is_grenade_or_weapon(full_name@),
{
    let chars = chars_of(full_name);
    let n = chars.len();
    let dot = first_dot_of(&chars);
    proof {
        lemma_first_dot(full_name@);
    }
    let no_player = !chars_have_token(&chars, dot, "Player");
    let is_weapon = (chars_have_token(&chars, dot, "Weapon") || chars_have_token(
        &chars,
        dot,
        "AK",
    )) && no_player;
    let is_projectile = (chars_have_token(&chars, dot, "Projectile") || chars_have_token(
        &chars,
        dot,
        "Grenade",
    )) && no_player;
    if is_weapon || is_projectile {
        let start = if dot < n {
            dot + 1
        } else {
            n
        };
        let rest = full_name.substring_char(start, n);
        assert(rest@ =~= after_first_dot(full_name@));
        (rest, true)
    } else {
        (full_name, false)
    }
}

} // verus!
