//! The resolution engine as a mathematical state machine.
//!
//! `ControllerView` is what a `PropController` holds, with every string a
//! sequence of characters and every hash map a `Map`. The functions below
//! say how registering the derived properties, resolving one leaf and
//! walking a tree change that state. The executable methods are proved to
//! compute exactly these functions.

use crate::canonical::{canonical_name, is_grenade_or_weapon};
use crate::collect_data::PropType;
use crate::maps::{button_names, prop_type_of, BUTTON_COUNT};
use crate::policy::must_parse;
use crate::sendtables::{FieldView, SerializerView};
use crate::special_ids::SpecialIDs;
use vstd::prelude::*;

verus! {

/// Identifier of the derived property that names the weapon in hand.
pub const WEAPON_NAME_ID: u32 = 1;

/// Identifier of the derived yaw angle.
pub const YAW_ID: u32 = 2;

/// Identifier of the derived pitch angle.
pub const PITCH_ID: u32 = 3;

/// Identifier of the tick number.
pub const TICK_ID: u32 = 4;

/// Identifier of the player's Steam id.
pub const STEAMID_ID: u32 = 5;

/// Identifier of the player's display name.
pub const NAME_ID: u32 = 6;

/// Identifier of the derived world coordinate X.
pub const PLAYER_X_ID: u32 = 7;

/// Identifier of the derived world coordinate Y.
pub const PLAYER_Y_ID: u32 = 8;

/// Identifier of the derived world coordinate Z.
pub const PLAYER_Z_ID: u32 = 9;

/// Identifier of the first button that was asked for.
pub const BUTTONS_BASEID: u32 = 100000;

/// Identifier of the first leaf that is discovered in a tree.
pub const NORMAL_PROP_BASEID: u32 = 1000;

/// Number of slots of a structural path in its fixed form.
pub const PATH_SLOTS: usize = 7;

/// The fixed form of a structural path: its first `PATH_SLOTS` entries,
/// with zeros behind them where the path is shorter. What a longer path has
/// behind those entries is dropped.
pub open spec fn fixed_path(path: Seq<i32>) -> Seq<i32> {
    Seq::new(
        PATH_SLOTS as nat,
        |i: int|
            if i < path.len() {
                path[i]
            } else {
                0i32
            },
    )
}

/// A `PropInfo` as a mathematical value.
pub struct PropInfoView {
    pub id: u32,
    pub prop_type: Option<PropType>,
    pub prop_name: Seq<char>,
    pub prop_friendly_name: Seq<char>,
}

/// A `PropController` as a mathematical value.
pub struct ControllerView {
    pub id: u32,
    pub wanted_player_props: Seq<Seq<char>>,
    pub wanted_prop_ids: Seq<u32>,
    pub prop_infos: Seq<PropInfoView>,
    pub prop_name_to_path: Map<Seq<char>, Seq<i32>>,
    pub path_to_prop_name: Map<Seq<i32>, Seq<char>>,
    pub name_to_id: Map<Seq<char>, u32>,
    pub id_to_name: Map<u32, Seq<char>>,
    pub special_ids: SpecialIDs,
    pub wanted_player_og_props: Seq<Seq<char>>,
    pub real_name_to_og_name: Map<Seq<char>, Seq<char>>,
    pub name_to_special_id: Map<Seq<char>, u32>,
}

/// The state of a new engine: the counter at its start value, no record, no
/// name resolved and no special cell filled.
pub open spec fn initial_state(
    wanted: Seq<Seq<char>>,
    wanted_og: Seq<Seq<char>>,
    friendly: Map<Seq<char>, Seq<char>>,
) -> ControllerView {
    ControllerView {
        id: NORMAL_PROP_BASEID,
        wanted_player_props: wanted,
        wanted_prop_ids: Seq::empty(),
        prop_infos: Seq::empty(),
        prop_name_to_path: Map::empty(),
        path_to_prop_name: Map::empty(),
        name_to_id: Map::empty(),
        id_to_name: Map::empty(),
        special_ids: SpecialIDs::empty(),
        wanted_player_og_props: wanted_og,
        real_name_to_og_name: friendly,
        name_to_special_id: Map::empty(),
    }
}

/// The record of a derived property, which is shown under its own name.
pub open spec fn derived_record(id: u32, kind: PropType, name: Seq<char>) -> PropInfoView {
    PropInfoView { id, prop_type: Some(kind), prop_name: name, prop_friendly_name: name }
}

/// The records of the buttons asked for among the first `n` button names.
/// The buttons get consecutive identifiers in the order of the vocabulary.
pub open spec fn button_records(wanted: Seq<Seq<char>>, n: nat) -> Seq<PropInfoView>
    decreases n,
{
    if n == 0 {
        Seq::empty()
    } else {
        let before = button_records(wanted, (n - 1) as nat);
        let name = button_names()[n - 1];
        if wanted.contains(name) {
            before.push(
                derived_record((BUTTONS_BASEID + before.len()) as u32, PropType::Button, name),
            )
        } else {
            before
        }
    }
}

/// The record, if it was asked for under `asked`.
pub open spec fn if_wanted(wanted: Seq<Seq<char>>, asked: Seq<char>, record: PropInfoView)
    -> Seq<PropInfoView> {
    if wanted.contains(asked) {
        seq![record]
    } else {
        Seq::empty()
    }
}

/// The records of the derived scalars that were asked for: the weapon in
/// hand, pitch, yaw, and the world coordinates, in this order.
pub open spec fn scalar_records(wanted: Seq<Seq<char>>) -> Seq<PropInfoView> {
    if_wanted(
        wanted,
        "weapon_name"@,
        derived_record(WEAPON_NAME_ID, PropType::Custom, "active_weapon_name"@),
    ) + if_wanted(wanted, "pitch"@, derived_record(PITCH_ID, PropType::Custom, "pitch"@))
        + if_wanted(wanted, "yaw"@, derived_record(YAW_ID, PropType::Custom, "yaw"@)) + if_wanted(
        wanted,
        "X"@,
        derived_record(PLAYER_X_ID, PropType::Custom, "X"@),
    ) + if_wanted(wanted, "Y"@, derived_record(PLAYER_Y_ID, PropType::Custom, "Y"@)) + if_wanted(
        wanted,
        "Z"@,
        derived_record(PLAYER_Z_ID, PropType::Custom, "Z"@),
    )
}

/// The records that every engine has: tick, Steam id and display name.
pub open spec fn fixed_records() -> Seq<PropInfoView> {
    seq![
        derived_record(TICK_ID, PropType::Tick, "tick"@),
        derived_record(STEAMID_ID, PropType::Steamid, "steamid"@),
        derived_record(NAME_ID, PropType::Name, "name"@),
    ]
}

/// All records of derived properties for the names in `wanted`: buttons,
/// then derived scalars, then the three fixed records.
pub open spec fn custom_records(wanted: Seq<Seq<char>>) -> Seq<PropInfoView> {
    button_records(wanted, BUTTON_COUNT as nat) + scalar_records(wanted) + fixed_records()
}

/// The state after the derived properties were registered.
pub open spec fn with_custom_records(st: ControllerView) -> ControllerView {
    ControllerView {
        prop_infos: st.prop_infos + custom_records(st.wanted_player_props),
        ..st
    }
}

/// The identifier that a leaf with canonical name `name` resolves to: the
/// one the name already has, or else the counter.
pub open spec fn resolved_id(st: ControllerView, name: Seq<char>) -> u32 {
    if st.name_to_id.contains_key(name) {
        st.name_to_id[name]
    } else {
        st.id
    }
}

/// The name under which the property `name` is shown to the user.
pub open spec fn friendly_name(st: ControllerView, name: Seq<char>) -> Seq<char> {
    if st.real_name_to_og_name.contains_key(name) {
        st.real_name_to_og_name[name]
    } else {
        name
    }
}

/// The record of a discovered property with canonical name `name`.
pub open spec fn discovered_record(st: ControllerView, name: Seq<char>) -> PropInfoView {
    PropInfoView {
        id: resolved_id(st, name),
        prop_type: prop_type_of(name),
        prop_name: name,
        prop_friendly_name: friendly_name(st, name),
    }
}

/// The state after a leaf with canonical name `name` was resolved.
///
/// The special cell of the name, if it has one, is offered the counter. A
/// name met for the first time gets the counter as its identifier, and a
/// record if it was asked for. The counter goes up by one in every case,
/// also when the name was known.
pub open spec fn resolve_canonical(st: ControllerView, name: Seq<char>, is_grenade_or_weapon: bool)
    -> ControllerView {
    let known = st.name_to_id.contains_key(name);
    ControllerView {
        id: (st.id + 1) as u32,
        special_ids: st.special_ids.recorded(name, is_grenade_or_weapon, st.id),
        name_to_id: if known {
            st.name_to_id
        } else {
            st.name_to_id.insert(name, st.id)
        },
        id_to_name: if known {
            st.id_to_name
        } else {
            st.id_to_name.insert(st.id, name)
        },
        prop_infos: if !known && st.wanted_player_props.contains(name) {
            st.prop_infos.push(discovered_record(st, name))
        } else {
            st.prop_infos
        },
        ..st
    }
}

/// The state after the leaf called `full_name` was resolved.
pub open spec fn resolve(st: ControllerView, full_name: Seq<char>) -> ControllerView {
    resolve_canonical(st, canonical_name(full_name), is_grenade_or_weapon(full_name))
}

/// The field `leaf` after it was resolved under the name `full_name` in the
/// state `st`: it carries the identifier of its canonical name, and it has to
/// be decoded if it had to before or if the policy says so now.
pub open spec fn annotate(st: ControllerView, full_name: Seq<char>, leaf: FieldView)
    -> FieldView {
    FieldView {
        prop_id: resolved_id(st, canonical_name(full_name)) as usize,
        should_parse: leaf.should_parse || must_parse(
            st.wanted_player_props,
            canonical_name(full_name),
        ),
        ..leaf
    }
}

/// `name` below `prefix`.
pub open spec fn dotted(prefix: Seq<char>, name: Seq<char>) -> Seq<char> {
    prefix + "."@ + name
}

/// State and field after the walk has visited `f`, which stands below
/// `prefix`. A leaf is resolved under its dotted name. An interior node is
/// walked through, with the name of its serializer added to the prefix.
pub open spec fn walk_field(st: ControllerView, f: FieldView, prefix: Seq<char>) -> (
    ControllerView,
    FieldView,
)
    decreases f,
{
    match f.serializer {
        Some(ser) => {
            let below = walk_fields(st, ser.fields, dotted(prefix, ser.name));
            (
                below.0,
                FieldView {
                    serializer: Some(SerializerView { name: ser.name, fields: below.1 }),
                    ..f
                },
            )
        },
        None => (
            resolve(st, dotted(prefix, f.var_name)),
            annotate(st, dotted(prefix, f.var_name), f),
        ),
    }
}

/// State and fields after the walk has visited `fields` from first to last,
/// each with all that is below it before the next.
pub open spec fn walk_fields(st: ControllerView, fields: Seq<FieldView>, prefix: Seq<char>) -> (
    ControllerView,
    Seq<FieldView>,
)
    decreases fields,
{
    if fields.len() == 0 {
        (st, Seq::empty())
    } else {
        let before = walk_fields(st, fields.drop_last(), prefix);
        let last = walk_field(before.0, fields.last(), prefix);
        (last.0, before.1.push(last.1))
    }
}

/// The dotted names of the leaves below `fields`, in the order of the walk.
pub open spec fn leaf_names(fields: Seq<FieldView>, prefix: Seq<char>) -> Seq<Seq<char>>
    decreases fields,
{
    if fields.len() == 0 {
        Seq::empty()
    } else {
        leaf_names(fields.drop_last(), prefix) + names_below(fields.last(), prefix)
    }
}

/// The dotted names of the leaves at or below `f`, in the order of the walk.
pub open spec fn names_below(f: FieldView, prefix: Seq<char>) -> Seq<Seq<char>>
    decreases f,
{
    match f.serializer {
        Some(ser) => leaf_names(ser.fields, dotted(prefix, ser.name)),
        None => seq![dotted(prefix, f.var_name)],
    }
}

/// The state after the leaves called `names` were resolved one after the
/// other.
pub open spec fn resolve_all(st: ControllerView, names: Seq<Seq<char>>) -> ControllerView
    decreases names.len(),
{
    if names.len() == 0 {
        st
    } else {
        resolve(resolve_all(st, names.drop_last()), names.last())
    }
}

/// The two directions of the index of names and identifiers agree: each
/// leads back to where the other came from, and every identifier in them
/// was handed out by the counter.
pub open spec fn indices_agree(st: ControllerView) -> bool {
    &&& forall|name: Seq<char>| #[trigger]
        st.name_to_id.contains_key(name) ==> {
            &&& st.name_to_id[name] < st.id
            &&& st.id_to_name.contains_key(st.name_to_id[name])
            &&& st.id_to_name[st.name_to_id[name]] == name
        }
    &&& forall|id: u32| #[trigger]
        st.id_to_name.contains_key(id) ==> {
            &&& id < st.id
            &&& st.name_to_id.contains_key(st.id_to_name[id])
            &&& st.name_to_id[st.id_to_name[id]] == id
        }
}

/// Every identifier in the index is one that the counter has handed out
/// since it stood at its start value.
pub open spec fn ids_from_counter(st: ControllerView) -> bool {
    &&& NORMAL_PROP_BASEID <= st.id
    &&& forall|name: Seq<char>| #[trigger]
        st.name_to_id.contains_key(name) ==> NORMAL_PROP_BASEID <= st.name_to_id[name] < st.id
}

} // verus!
