//! What holds of every run of the engine, proved over the model.

use crate::canonical::{canonical_name, is_grenade_or_weapon};
use crate::collect_data::PropType;
use crate::maps::BUTTON_COUNT;
use crate::model::{
    annotate, button_records, custom_records, derived_record, discovered_record, dotted,
    fixed_path, fixed_records, ids_from_counter, indices_agree, initial_state, leaf_names,
    names_below, resolve, resolve_all, resolved_id, scalar_records, walk_field, walk_fields,
    with_custom_records, ControllerView, BUTTONS_BASEID, NAME_ID, NORMAL_PROP_BASEID, PATH_SLOTS,
    PITCH_ID, PLAYER_X_ID, PLAYER_Y_ID, PLAYER_Z_ID, STEAMID_ID, TICK_ID, WEAPON_NAME_ID, YAW_ID,
};
use crate::policy::must_parse;
use crate::sendtables::{all_unresolved, leaf_count, leaves_below, unresolved, FieldView};
use crate::special_ids::{slot_of, Slot, SpecialIDs};
use crate::text::after_first_dot;
use vstd::prelude::*;

verus! {

/// Two leaves of weapon, grenade or projectile classes whose names differ in
/// the first segment alone have the same canonical name.
pub proof fn lemma_class_name_dropped(a: Seq<char>, b: Seq<char>)
    requires
        is_grenade_or_weapon(a),
        is_grenade_or_weapon(b),
        after_first_dot(a) == after_first_dot(b),
    ensures
        canonical_name(a) == canonical_name(b),
{
}

/// When two leaves with one canonical name are resolved one after the
/// other, both get the same identifier, the second adds no record, and the
/// counter has gone up by two. If the name was asked for and new, the first
/// adds its one record.
pub proof fn lemma_one_name_one_id(
    st: ControllerView,
    a: Seq<char>,
    b: Seq<char>,
    leaf_a: FieldView,
    leaf_b: FieldView,
)
    requires
        canonical_name(a) == canonical_name(b),
        st.id + 2 <= u32::MAX,
    ensures
        annotate(st, a, leaf_a).prop_id == annotate(resolve(st, a), b, leaf_b).prop_id,
        resolve(resolve(st, a), b).prop_infos == resolve(st, a).prop_infos,
        resolve(resolve(st, a), b).name_to_id == resolve(st, a).name_to_id,
        resolve(resolve(st, a), b).id == st.id + 2,
        !st.name_to_id.contains_key(canonical_name(a)) && st.wanted_player_props.contains(
            canonical_name(a),
        ) ==> resolve(resolve(st, a), b).prop_infos == st.prop_infos.push(
            discovered_record(st, canonical_name(a)),
        ),
{
}

/// After a leaf was resolved its canonical name has the identifier that the
/// leaf got.
pub proof fn lemma_resolved_name_is_known(st: ControllerView, full_name: Seq<char>)
    ensures
        resolve(st, full_name).name_to_id.contains_key(canonical_name(full_name)),
        resolve(st, full_name).name_to_id[canonical_name(full_name)] == resolved_id(
            st,
            canonical_name(full_name),
        ),
{
}

/// A name keeps the identifier that it has, whichever leaf is resolved.
pub proof fn lemma_id_kept(st: ControllerView, full_name: Seq<char>, name: Seq<char>)
    requires
        st.name_to_id.contains_key(name),
    ensures
        resolve(st, full_name).name_to_id.contains_key(name),
        resolve(st, full_name).name_to_id[name] == st.name_to_id[name],
{
}

/// A name keeps the identifier that it has, whichever leaves are resolved.
pub proof fn lemma_id_kept_throughout(st: ControllerView, names: Seq<Seq<char>>, name: Seq<char>)
    requires
        st.name_to_id.contains_key(name),
    ensures
        resolve_all(st, names).name_to_id.contains_key(name),
        resolve_all(st, names).name_to_id[name] == st.name_to_id[name],
    decreases names.len(),
{
    if names.len() > 0 {
        lemma_id_kept_throughout(st, names.drop_last(), name);
        lemma_id_kept(resolve_all(st, names.drop_last()), names.last(), name);
    }
}

/// Two leaves with one canonical name get the same identifier however many
/// other leaves are resolved between them, and the later of the two adds no
/// record.
pub proof fn lemma_one_name_one_id_throughout(
    st: ControllerView,
    a: Seq<char>,
    between: Seq<Seq<char>>,
    b: Seq<char>,
    leaf_a: FieldView,
    leaf_b: FieldView,
)
    requires
        canonical_name(a) == canonical_name(b),
    ensures
        annotate(resolve_all(resolve(st, a), between), b, leaf_b).prop_id == annotate(
            st,
            a,
            leaf_a,
        ).prop_id,
        resolve(resolve_all(resolve(st, a), between), b).prop_infos == resolve_all(
            resolve(st, a),
            between,
        ).prop_infos,
{
    lemma_resolved_name_is_known(st, a);
    lemma_id_kept_throughout(resolve(st, a), between, canonical_name(a));
}

/// A name that has an identifier gets no further record.
pub proof fn lemma_known_name_adds_no_record(st: ControllerView, full_name: Seq<char>)
    requires
        st.name_to_id.contains_key(canonical_name(full_name)),
    ensures
        resolve(st, full_name).prop_infos == st.prop_infos,
        resolve(st, full_name).name_to_id == st.name_to_id,
        resolve(st, full_name).id_to_name == st.id_to_name,
{
}

/// The name of a leaf of any other class is its canonical name, and the
/// record of such a leaf carries the full name.
pub proof fn lemma_other_names_kept(st: ControllerView, full_name: Seq<char>)
    requires
        !is_grenade_or_weapon(full_name),
    ensures
        canonical_name(full_name) == full_name,
        discovered_record(st, canonical_name(full_name)).prop_name == full_name,
{
}

/// A leaf whose canonical name was not asked for adds no record, whatever it
/// does to the special cells and whether or not it has to be decoded.
pub proof fn lemma_unrequested_adds_no_record(st: ControllerView, full_name: Seq<char>)
    requires
        !st.wanted_player_props.contains(canonical_name(full_name)),
    ensures
        resolve(st, full_name).prop_infos == st.prop_infos,
{
}

/// Resolving a leaf changes no record and takes none away.
pub proof fn lemma_records_kept(st: ControllerView, full_name: Seq<char>)
    ensures
        st.prop_infos.is_prefix_of(resolve(st, full_name).prop_infos),
        resolve(st, full_name).prop_infos.len() <= st.prop_infos.len() + 1,
{
}

/// A special cell that is filled keeps what it holds, whichever name is
/// recorded next.
pub proof fn lemma_filled_cell_kept(
    ids: SpecialIDs,
    slot: Slot,
    name: Seq<char>,
    in_weapon_class: bool,
    id: u32,
)
    requires
        ids.cell(slot) is Some,
    ensures
        ids.recorded(name, in_weapon_class, id).cell(slot) == ids.cell(slot),
{
}

/// Recording a name fills the cell of that name at most, and no other.
pub proof fn lemma_other_cells_untouched(
    ids: SpecialIDs,
    slot: Slot,
    name: Seq<char>,
    in_weapon_class: bool,
    id: u32,
)
    requires
        slot_of(name, in_weapon_class) != Some(slot),
    ensures
        ids.recorded(name, in_weapon_class, id).cell(slot) == ids.cell(slot),
{
}

/// Recording one name twice leaves the registry as the first time left it.
pub proof fn lemma_record_twice(
    ids: SpecialIDs,
    name: Seq<char>,
    in_weapon_class: bool,
    first: u32,
    second: u32,
)
    ensures
        ids.recorded(name, in_weapon_class, first).recorded(
            name,
            in_weapon_class,
            second,
        ) == ids.recorded(name, in_weapon_class, first),
{
}

/// Resolving a leaf keeps every special cell that is filled.
pub proof fn lemma_resolve_keeps_cells(st: ControllerView, full_name: Seq<char>, slot: Slot)
    requires
        st.special_ids.cell(slot) is Some,
    ensures
        resolve(st, full_name).special_ids.cell(slot) == st.special_ids.cell(slot),
{
}

/// The first leaf of a name fills the cell of that name with the identifier
/// that the leaf itself gets.
pub proof fn lemma_cell_holds_leaf_id(st: ControllerView, full_name: Seq<char>, slot: Slot)
    requires
        !st.name_to_id.contains_key(canonical_name(full_name)),
        slot_of(canonical_name(full_name), is_grenade_or_weapon(full_name))
            == Some(slot),
        st.special_ids.cell(slot) is None,
    ensures
        resolve(st, full_name).special_ids.cell(slot) == Some(
            resolved_id(st, canonical_name(full_name)),
        ),
        resolve(st, full_name).name_to_id[canonical_name(full_name)] == resolved_id(
            st,
            canonical_name(full_name),
        ),
{
}

/// A leaf that had to be decoded before it was resolved has to be decoded
/// afterwards, and so has a leaf for which the policy asks.
pub proof fn lemma_flag_never_cleared(st: ControllerView, full_name: Seq<char>, leaf: FieldView)
    ensures
        leaf.should_parse ==> annotate(st, full_name, leaf).should_parse,
        must_parse(st.wanted_player_props, canonical_name(full_name)) ==> annotate(
            st,
            full_name,
            leaf,
        ).should_parse,
        annotate(st, full_name, annotate(st, full_name, leaf)).should_parse == annotate(
            st,
            full_name,
            leaf,
        ).should_parse,
{
}

/// The records of tick, Steam id and display name are the last three of the
/// derived records and carry their reserved identifiers, whatever was asked
/// for.
pub proof fn lemma_fixed_records_last(wanted: Seq<Seq<char>>)
    ensures
        custom_records(wanted).len() >= 3,
        custom_records(wanted).subrange(
            custom_records(wanted).len() - 3,
            custom_records(wanted).len() as int,
        ) == fixed_records(),
        fixed_records()[0].id == TICK_ID,
        fixed_records()[1].id == STEAMID_ID,
        fixed_records()[2].id == NAME_ID,
{
    let front = button_records(wanted, BUTTON_COUNT as nat) + scalar_records(wanted);
    assert(custom_records(wanted) =~= front + fixed_records());
    assert((front + fixed_records()).subrange(
        front.len() as int,
        (front.len() + 3) as int,
    ) =~= fixed_records());
}

/// Every record of a derived scalar carries the identifier reserved for it.
pub proof fn lemma_scalar_ids_reserved(wanted: Seq<Seq<char>>, i: int)
    requires
        0 <= i < scalar_records(wanted).len(),
    ensures
        ({
            let r = scalar_records(wanted)[i];
            ||| r == derived_record(WEAPON_NAME_ID, PropType::Custom, "active_weapon_name"@)
            ||| r == derived_record(PITCH_ID, PropType::Custom, "pitch"@)
            ||| r == derived_record(YAW_ID, PropType::Custom, "yaw"@)
            ||| r == derived_record(PLAYER_X_ID, PropType::Custom, "X"@)
            ||| r == derived_record(PLAYER_Y_ID, PropType::Custom, "Y"@)
            ||| r == derived_record(PLAYER_Z_ID, PropType::Custom, "Z"@)
        }),
{
}

/// The derived records depend on which names were asked for, not on the
/// order in which they were asked for nor on how often.
pub proof fn lemma_custom_records_by_set(first: Seq<Seq<char>>, second: Seq<Seq<char>>)
    requires
        forall|name: Seq<char>| first.contains(name) <==> second.contains(name),
    ensures
        custom_records(first) == custom_records(second),
{
    lemma_button_records_by_set(first, second, BUTTON_COUNT as nat);
}

/// As `lemma_custom_records_by_set`, for the first `n` button names.
pub proof fn lemma_button_records_by_set(first: Seq<Seq<char>>, second: Seq<Seq<char>>, n: nat)
    requires
        forall|name: Seq<char>| first.contains(name) <==> second.contains(name),
    ensures
        button_records(first, n) == button_records(second, n),
    decreases n,
{
    if n > 0 {
        lemma_button_records_by_set(first, second, (n - 1) as nat);
    }
}

/// The fixed form of a path starts with the path, as far as it has room,
/// and is zero behind it.
pub proof fn lemma_fixed_path_prefix(path: Seq<i32>)
    ensures
        fixed_path(path).len() == PATH_SLOTS,
        forall|i: int| 0 <= i < PATH_SLOTS && i < path.len() ==> fixed_path(path)[i] == path[i],
        forall|i: int| path.len() <= i < PATH_SLOTS ==> fixed_path(path)[i] == 0,
        path.len() <= PATH_SLOTS ==> fixed_path(path).take(path.len() as int) == path,
        path.len() > PATH_SLOTS ==> fixed_path(path) == path.take(PATH_SLOTS as int),
{
    if path.len() <= PATH_SLOTS {
        assert(fixed_path(path).take(path.len() as int) =~= path);
    } else {
        assert(fixed_path(path) =~= path.take(PATH_SLOTS as int));
    }
}

/// A path stored under a name in its fixed form, and the name stored under
/// that fixed form, are found again through each other; what is found
/// through the name starts with the path that was stored.
pub proof fn lemma_path_round_trip(
    by_name: Map<Seq<char>, Seq<i32>>,
    by_path: Map<Seq<i32>, Seq<char>>,
    name: Seq<char>,
    path: Seq<i32>,
)
    requires
        path.len() <= PATH_SLOTS,
    ensures
        by_path.insert(fixed_path(path), name)[by_name.insert(name, fixed_path(path))[name]]
            == name,
        by_name.insert(name, fixed_path(path))[name].take(path.len() as int) == path,
        forall|i: int|
            path.len() <= i < PATH_SLOTS ==> by_name.insert(name, fixed_path(path))[name][i] == 0,
{
    lemma_fixed_path_prefix(path);
}

/// A walk moves the counter on by the number of leaves it visits, and
/// returns as many fields as it was given.
pub proof fn lemma_walk_fields_counter(
    st: ControllerView,
    fields: Seq<FieldView>,
    prefix: Seq<char>,
)
    requires
        st.id + leaf_count(fields) <= u32::MAX,
    ensures
        walk_fields(st, fields, prefix).0.id == st.id + leaf_count(fields),
        walk_fields(st, fields, prefix).1.len() == fields.len(),
    decreases fields, 1nat,
{
    if fields.len() > 0 {
        let before = walk_fields(st, fields.drop_last(), prefix).0;
        lemma_walk_fields_counter(st, fields.drop_last(), prefix);
        lemma_walk_field_counter(before, fields.last(), prefix);
    }
}

/// Visiting one field moves the counter on by the number of leaves at or
/// below it.
pub proof fn lemma_walk_field_counter(st: ControllerView, f: FieldView, prefix: Seq<char>)
    requires
        st.id + leaves_below(f) <= u32::MAX,
    ensures
        walk_field(st, f, prefix).0.id == st.id + leaves_below(f),
    decreases f, 0nat,
{
    match f.serializer {
        Some(ser) => {
            lemma_walk_fields_counter(st, ser.fields, dotted(prefix, ser.name));
        },
        None => {},
    }
}

/// Resolving a list of leaves that is made of two lists is resolving the
/// first and then the second.
pub proof fn lemma_resolve_all_split(
    st: ControllerView,
    first: Seq<Seq<char>>,
    second: Seq<Seq<char>>,
)
    ensures
        resolve_all(st, first + second) == resolve_all(resolve_all(st, first), second),
    decreases second.len(),
{
    if second.len() == 0 {
        assert(first + second =~= first);
    } else {
        lemma_resolve_all_split(st, first, second.drop_last());
        assert((first + second).drop_last() =~= first + second.drop_last());
        assert((first + second).last() == second.last());
    }
}

/// A walk leaves the engine in the state in which resolving the leaves
/// below the fields, one after the other in the order of the tree, leaves
/// it.
pub proof fn lemma_walk_resolves_in_order(
    st: ControllerView,
    fields: Seq<FieldView>,
    prefix: Seq<char>,
)
    ensures
        walk_fields(st, fields, prefix).0 == resolve_all(st, leaf_names(fields, prefix)),
    decreases fields, 1nat,
{
    if fields.len() > 0 {
        let before = walk_fields(st, fields.drop_last(), prefix).0;
        lemma_walk_resolves_in_order(st, fields.drop_last(), prefix);
        lemma_visit_resolves_in_order(before, fields.last(), prefix);
        lemma_resolve_all_split(
            st,
            leaf_names(fields.drop_last(), prefix),
            names_below(fields.last(), prefix),
        );
    }
}

/// As `lemma_walk_resolves_in_order`, for the visit of one field.
pub proof fn lemma_visit_resolves_in_order(st: ControllerView, f: FieldView, prefix: Seq<char>)
    ensures
        walk_field(st, f, prefix).0 == resolve_all(st, names_below(f, prefix)),
    decreases f, 0nat,
{
    match f.serializer {
        Some(ser) => {
            lemma_walk_resolves_in_order(st, ser.fields, dotted(prefix, ser.name));
        },
        None => {
            let names = seq![dotted(prefix, f.var_name)];
            assert(names.drop_last() =~= Seq::<Seq<char>>::empty());
            assert(resolve_all(st, names.drop_last()) == st);
            assert(names.last() == dotted(prefix, f.var_name));
        },
    }
}

/// There are as many leaf names as leaves.
pub proof fn lemma_leaf_names_len(fields: Seq<FieldView>, prefix: Seq<char>)
    ensures
        leaf_names(fields, prefix).len() == leaf_count(fields),
    decreases fields, 1nat,
{
    if fields.len() > 0 {
        lemma_leaf_names_len(fields.drop_last(), prefix);
        lemma_names_below_len(fields.last(), prefix);
    }
}

/// As `lemma_leaf_names_len`, for one field.
pub proof fn lemma_names_below_len(f: FieldView, prefix: Seq<char>)
    ensures
        names_below(f, prefix).len() == leaves_below(f),
    decreases f, 0nat,
{
    match f.serializer {
        Some(ser) => {
            lemma_leaf_names_len(ser.fields, dotted(prefix, ser.name));
        },
        None => {},
    }
}

/// In a new engine the two directions of the index agree.
pub proof fn lemma_initial_indices_agree(
    wanted: Seq<Seq<char>>,
    wanted_og: Seq<Seq<char>>,
    friendly: Map<Seq<char>, Seq<char>>,
)
    ensures
        indices_agree(initial_state(wanted, wanted_og, friendly)),
{
}

/// Registering the derived properties leaves the index as it is.
pub proof fn lemma_custom_keeps_indices(st: ControllerView)
    requires
        indices_agree(st),
    ensures
        indices_agree(with_custom_records(st)),
{
}

/// Resolving a leaf keeps the two directions of the index in agreement.
pub proof fn lemma_resolve_keeps_indices(st: ControllerView, full_name: Seq<char>)
    requires
        indices_agree(st),
        st.id < u32::MAX,
    ensures
        indices_agree(resolve(st, full_name)),
{
    let name = canonical_name(full_name);
    let after = resolve(st, full_name);
    if !st.name_to_id.contains_key(name) {
        assert(!st.id_to_name.contains_key(st.id));
        assert forall|other: Seq<char>| #[trigger]
            after.name_to_id.contains_key(other) implies {
            &&& after.name_to_id[other] < after.id
            &&& after.id_to_name.contains_key(after.name_to_id[other])
            &&& after.id_to_name[after.name_to_id[other]] == other
        } by {
            if other != name {
                assert(st.name_to_id.contains_key(other));
            }
        }
        assert forall|id: u32| #[trigger]
            after.id_to_name.contains_key(id) implies {
            &&& id < after.id
            &&& after.name_to_id.contains_key(after.id_to_name[id])
            &&& after.name_to_id[after.id_to_name[id]] == id
        } by {
            if id != st.id {
                assert(st.id_to_name.contains_key(id));
            }
        }
    }
}

/// Resolving leaves one after the other keeps the two directions of the
/// index in agreement.
pub proof fn lemma_resolve_all_keeps_indices(st: ControllerView, names: Seq<Seq<char>>)
    requires
        indices_agree(st),
        st.id + names.len() <= u32::MAX,
    ensures
        indices_agree(resolve_all(st, names)),
        resolve_all(st, names).id == st.id + names.len(),
    decreases names.len(),
{
    if names.len() > 0 {
        lemma_resolve_all_keeps_indices(st, names.drop_last());
        lemma_resolve_keeps_indices(resolve_all(st, names.drop_last()), names.last());
    }
}

/// A walk keeps the two directions of the index in agreement.
pub proof fn lemma_walk_keeps_indices(
    st: ControllerView,
    fields: Seq<FieldView>,
    prefix: Seq<char>,
)
    requires
        indices_agree(st),
        st.id + leaf_count(fields) <= u32::MAX,
    ensures
        indices_agree(walk_fields(st, fields, prefix).0),
{
    lemma_walk_resolves_in_order(st, fields, prefix);
    lemma_leaf_names_len(fields, prefix);
    lemma_resolve_all_keeps_indices(st, leaf_names(fields, prefix));
}

/// Where the two directions of the index agree, no two names share an
/// identifier.
pub proof fn lemma_ids_distinct(st: ControllerView, a: Seq<char>, b: Seq<char>)
    requires
        indices_agree(st),
        st.name_to_id.contains_key(a),
        st.name_to_id.contains_key(b),
        a != b,
    ensures
        st.name_to_id[a] != st.name_to_id[b],
{
}

/// Resolving leaves one after the other changes no record, takes none
/// away, and keeps every special cell that is filled.
pub proof fn lemma_resolve_all_keeps(st: ControllerView, names: Seq<Seq<char>>, slot: Slot)
    ensures
        st.prop_infos.is_prefix_of(resolve_all(st, names).prop_infos),
        st.special_ids.cell(slot) is Some ==> resolve_all(st, names).special_ids.cell(slot)
            == st.special_ids.cell(slot),
        resolve_all(st, names).wanted_player_props == st.wanted_player_props,
    decreases names.len(),
{
    if names.len() > 0 {
        lemma_resolve_all_keeps(st, names.drop_last(), slot);
        let before = resolve_all(st, names.drop_last());
        lemma_records_kept(before, names.last());
        if st.special_ids.cell(slot) is Some {
            lemma_resolve_keeps_cells(before, names.last(), slot);
        }
    }
}

/// A walk changes no record, takes none away, and keeps every special cell
/// that is filled.
pub proof fn lemma_walk_keeps(
    st: ControllerView,
    fields: Seq<FieldView>,
    prefix: Seq<char>,
    slot: Slot,
)
    ensures
        st.prop_infos.is_prefix_of(walk_fields(st, fields, prefix).0.prop_infos),
        st.special_ids.cell(slot) is Some ==> walk_fields(st, fields, prefix).0.special_ids.cell(
            slot,
        ) == st.special_ids.cell(slot),
{
    lemma_walk_resolves_in_order(st, fields, prefix);
    lemma_resolve_all_keeps(st, leaf_names(fields, prefix), slot);
}

/// A walk writes the identifier and the mark of leaves and nothing else:
/// names, nesting and interior nodes are after the walk what they were.
pub proof fn lemma_walk_writes_leaves_only(
    st: ControllerView,
    fields: Seq<FieldView>,
    prefix: Seq<char>,
)
    ensures
        all_unresolved(walk_fields(st, fields, prefix).1) == all_unresolved(fields),
    decreases fields, 1nat,
{
    if fields.len() > 0 {
        let before = walk_fields(st, fields.drop_last(), prefix);
        let last = walk_field(before.0, fields.last(), prefix);
        lemma_walk_writes_leaves_only(st, fields.drop_last(), prefix);
        lemma_visit_writes_leaves_only(before.0, fields.last(), prefix);
        assert(before.1.push(last.1).drop_last() =~= before.1);
        assert(before.1.push(last.1).last() == last.1);
    }
}

/// As `lemma_walk_writes_leaves_only`, for the visit of one field.
pub proof fn lemma_visit_writes_leaves_only(st: ControllerView, f: FieldView, prefix: Seq<char>)
    ensures
        unresolved(walk_field(st, f, prefix).1) == unresolved(f),
    decreases f, 0nat,
{
    match f.serializer {
        Some(ser) => {
            lemma_walk_writes_leaves_only(st, ser.fields, dotted(prefix, ser.name));
        },
        None => {},
    }
}

/// The identifier of a button lies in the range of the buttons.
pub proof fn lemma_button_ids_in_range(wanted: Seq<Seq<char>>, n: nat, i: int)
    requires
        n <= BUTTON_COUNT,
        0 <= i < button_records(wanted, n).len(),
    ensures
        button_records(wanted, n).len() <= n,
        button_records(wanted, n)[i].id == BUTTONS_BASEID + i,
        button_records(wanted, n)[i].prop_type == Some(PropType::Button),
    decreases n,
{
    if n > 0 {
        lemma_button_records_len(wanted, (n - 1) as nat);
        if i < button_records(wanted, (n - 1) as nat).len() {
            lemma_button_ids_in_range(wanted, (n - 1) as nat, i);
        }
    }
}

/// There are no more button records than button names looked at.
pub proof fn lemma_button_records_len(wanted: Seq<Seq<char>>, n: nat)
    ensures
        button_records(wanted, n).len() <= n,
    decreases n,
{
    if n > 0 {
        lemma_button_records_len(wanted, (n - 1) as nat);
    }
}

/// The identifier of a derived record is either one of the nine reserved
/// ones or lies in the range of the buttons.
pub proof fn lemma_custom_ids_in_range(wanted: Seq<Seq<char>>, i: int)
    requires
        0 <= i < custom_records(wanted).len(),
    ensures
        1 <= custom_records(wanted)[i].id <= 9 || BUTTONS_BASEID <= custom_records(wanted)[i].id
            < BUTTONS_BASEID + BUTTON_COUNT,
{
    let buttons = button_records(wanted, BUTTON_COUNT as nat);
    let scalars = scalar_records(wanted);
    lemma_button_records_len(wanted, BUTTON_COUNT as nat);
    if i < buttons.len() {
        lemma_button_ids_in_range(wanted, BUTTON_COUNT as nat, i);
    } else if i < buttons.len() + scalars.len() {
        lemma_scalar_ids_reserved(wanted, i - buttons.len());
    }
}

/// In a new engine every identifier in the index, there being none, was
/// handed out by the counter.
pub proof fn lemma_initial_ids_from_counter(
    wanted: Seq<Seq<char>>,
    wanted_og: Seq<Seq<char>>,
    friendly: Map<Seq<char>, Seq<char>>,
)
    ensures
        ids_from_counter(initial_state(wanted, wanted_og, friendly)),
{
}

/// Resolving a leaf hands out the counter at most.
pub proof fn lemma_resolve_keeps_ids_from_counter(st: ControllerView, full_name: Seq<char>)
    requires
        ids_from_counter(st),
        st.id < u32::MAX,
    ensures
        ids_from_counter(resolve(st, full_name)),
{
    let name = canonical_name(full_name);
    let after = resolve(st, full_name);
    assert forall|other: Seq<char>| #[trigger]
        after.name_to_id.contains_key(other) implies NORMAL_PROP_BASEID
        <= after.name_to_id[other] < after.id by {
        if other != name {
            assert(st.name_to_id.contains_key(other));
        }
    }
}

/// As long as the counter has not reached the range of the buttons, no
/// discovered property has the identifier of a derived one.
pub proof fn lemma_id_ranges_apart(st: ControllerView, name: Seq<char>, i: int)
    requires
        ids_from_counter(st),
        st.id <= BUTTONS_BASEID,
        st.name_to_id.contains_key(name),
        0 <= i < custom_records(st.wanted_player_props).len(),
    ensures
        custom_records(st.wanted_player_props)[i].id != st.name_to_id[name],
{
    lemma_custom_ids_in_range(st.wanted_player_props, i);
}

} // verus!
