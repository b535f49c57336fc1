//! The resolution engine.
//!
//! A `PropController` is made with the names the user asked for. It is then
//! handed the descriptor tree of each entity class. For every leaf it finds
//! the canonical name, gives that name an identifier or reuses the one it
//! has, fills the special cell of the name, decides whether the leaf has to
//! be decoded, and keeps a record of the property if it was asked for.

use crate::canonical::canonicalize;
use crate::collect_data::PropType;
use crate::index::{
    id_names, id_names_empty, id_names_insert, name_ids, name_ids_empty, name_ids_get,
    name_ids_insert, name_names, name_names_get, name_paths, name_paths_empty, path_names,
    path_names_empty,
};
use crate::maps::{button_name, prop_type, BUTTON_COUNT};
use crate::laws::lemma_walk_fields_counter;
use crate::model::{
    annotate, button_records, custom_records, derived_record, discovered_record, fixed_path,
    if_wanted, initial_state, resolve, resolve_canonical, resolved_id, scalar_records,
    walk_field, walk_fields, with_custom_records, ControllerView, PropInfoView, BUTTONS_BASEID,
    NAME_ID, NORMAL_PROP_BASEID, PATH_SLOTS, PITCH_ID, PLAYER_X_ID, PLAYER_Y_ID, PLAYER_Z_ID,
    STEAMID_ID, TICK_ID, WEAPON_NAME_ID, YAW_ID,
};
use crate::policy::{must_parse, should_parse_name};
use crate::sendtables::{
    count_leaves, fields_view, leaf_count, lemma_leaf_count_take, nested_within, within_depth,
    Field, Serializer,
};
use crate::special_ids::SpecialIDs;
use crate::text::{names_contain, names_view};
use ahash::AHashMap;
use vstd::prelude::*;
use vstd::string::StringExecFns;

verus! {

/// Why a tree was not walked.
#[derive(Debug, Clone, Copy, PartialEq, Eq, Structural)]
pub enum ResolveError {
    /// A node of the tree lies deeper than a structural path has slots.
    PathTooLong,
    /// The tree has more leaves than the counter has identifiers left.
    OutOfIds,
}

/// What the output knows of one property.
#[derive(Debug, Clone, PartialEq)]
pub struct PropInfo {
    pub id: u32,
    pub prop_type: Option<PropType>,
    pub prop_name: String,
    pub prop_friendly_name: String,
}

impl View for PropInfo {
    type V = PropInfoView;

    open spec fn view(&self) -> PropInfoView {
        PropInfoView {
            id: self.id,
            prop_type: self.prop_type,
            prop_name: self.prop_name@,
            prop_friendly_name: self.prop_friendly_name@,
        }
    }
}

/// The views of a list of records.
pub open spec fn infos_view(infos: Seq<PropInfo>) -> Seq<PropInfoView> {
    infos.map_values(|p: PropInfo| p@)
}

/// The engine: the names asked for, the counter, and all that resolution
/// has found so far.
#[derive(Clone, Debug)]
pub struct PropController {
    pub id: u32,
    pub wanted_player_props: Vec<String>,
    pub wanted_prop_ids: Vec<u32>,
    pub prop_infos: Vec<PropInfo>,
    pub prop_name_to_path: AHashMap<String, [i32; 7]>,
    pub path_to_prop_name: AHashMap<[i32; 7], String>,
    pub name_to_id: AHashMap<String, u32>,
    pub id_to_name: AHashMap<u32, String>,
    pub special_ids: SpecialIDs,
    pub wanted_player_og_props: Vec<String>,
    pub real_name_to_og_name: AHashMap<String, String>,
    pub name_to_special_id: AHashMap<String, u32>,
}

impl View for PropController {
    type V = ControllerView;

    open spec fn view(&self) -> ControllerView {
        ControllerView {
            id: self.id,
            wanted_player_props: names_view(self.wanted_player_props@),
            wanted_prop_ids: self.wanted_prop_ids@,
            prop_infos: infos_view(self.prop_infos@),
            prop_name_to_path: name_paths(self.prop_name_to_path),
            path_to_prop_name: path_names(self.path_to_prop_name),
            name_to_id: name_ids(self.name_to_id),
            id_to_name: id_names(self.id_to_name),
            special_ids: self.special_ids,
            wanted_player_og_props: names_view(self.wanted_player_og_props@),
            real_name_to_og_name: name_names(self.real_name_to_og_name),
            name_to_special_id: name_ids(self.name_to_special_id),
        }
    }
}

impl PropController {
    /// An engine for the names in `wanted_player_props`. The map gives the
    /// name under which a property is shown, for the properties that are not
    /// shown under their own.
    pub fn new(
        wanted_player_props: Vec<String>,
        wanted_player_props_og_names: Vec<String>,
        real_name_to_og_name: AHashMap<String, String>,
    ) -> (pc: Self)
        ensures
            pc@ == initial_state(
                names_view(wanted_player_props@),
                names_view(wanted_player_props_og_names@),
                name_names(real_name_to_og_name),
            ),
    {
        let pc = PropController {
            id: NORMAL_PROP_BASEID,
            wanted_player_props: wanted_player_props,
            wanted_prop_ids: Vec::new(),
            prop_infos: Vec::new(),
            prop_name_to_path: name_paths_empty(),
            path_to_prop_name: path_names_empty(),
            name_to_id: name_ids_empty(),
            special_ids: SpecialIDs::new(),
            wanted_player_og_props: wanted_player_props_og_names,
            id_to_name: id_names_empty(),
            real_name_to_og_name: real_name_to_og_name,
            name_to_special_id: name_ids_empty(),
        };
        assert(pc@.prop_infos =~= Seq::empty());
        pc
    }

    /// Appends the record of a derived property.
    fn push_derived(&mut self, id: u32, kind: PropType, name: &str)
        ensures
            final(self)@ == (ControllerView {
                prop_infos: old(self)@.prop_infos.push(derived_record(id, kind, name@)),
                ..old(self)@
            }),
    {
        let ghost before = self.prop_infos@;
        let info = PropInfo {
            id,
            prop_type: Some(kind),
            prop_name: name.to_owned(),
            prop_friendly_name: name.to_owned(),
        };
        self.prop_infos.push(info);
        assert(infos_view(self.prop_infos@) =~= infos_view(before).push(info@));
    }

    /// Appends the record of a derived scalar if the user asked for it under
    /// the name `asked`.
    fn push_if_wanted(&mut self, asked: &str, id: u32, name: &str)
        ensures
            final(self)@ == (ControllerView {
                prop_infos: old(self)@.prop_infos + if_wanted(
                    old(self)@.wanted_player_props,
                    asked@,
                    derived_record(id, PropType::Custom, name@),
                ),
                ..old(self)@
            }),
    {
        if names_contain(&self.wanted_player_props, asked) {
            self.push_derived(id, PropType::Custom, name);
            assert(self@.prop_infos =~= old(self)@.prop_infos + seq![
                derived_record(id, PropType::Custom, name@),
            ]);
        } else {
            assert(self@.prop_infos =~= old(self)@.prop_infos + Seq::empty());
        }
    }

    /// Registers the properties that are computed rather than read from a
    /// tree: a record for each button asked for, for each derived scalar
    /// asked for, and for tick, Steam id and display name in every case.
    ///
    /// The records are appended in that order. Buttons get consecutive
    /// identifiers from `BUTTONS_BASEID` on; every other record has the
    /// identifier that is reserved for it.
    pub fn set_custom_propinfos(&mut self)
        ensures
            final(self)@ == with_custom_records(old(self)@),
    {
        let ghost start = self@;
        let ghost wanted = self@.wanted_player_props;
        let mut someid: u32 = BUTTONS_BASEID;
        let mut i: usize = 0;
        while i < BUTTON_COUNT
            invariant
                i <= BUTTON_COUNT,
                wanted == start.wanted_player_props,
                self@ == (ControllerView {
                    prop_infos: start.prop_infos + button_records(wanted, i as nat),
                    ..start
                }),
                button_records(wanted, i as nat).len() <= i,
                someid == BUTTONS_BASEID + button_records(wanted, i as nat).len(),
            decreases BUTTON_COUNT - i,
        {
            let bn = button_name(i);
            if names_contain(&self.wanted_player_props, bn) {
                self.push_derived(someid, PropType::Button, bn);
                someid += 1;
                assert(self@.prop_infos =~= start.prop_infos + button_records(
                    wanted,
                    (i + 1) as nat,
                ));
            }
            i += 1;
        }
        let ghost buttons = button_records(wanted, BUTTON_COUNT as nat);
        self.push_if_wanted("weapon_name", WEAPON_NAME_ID, "active_weapon_name");
        self.push_if_wanted("pitch", PITCH_ID, "pitch");
        self.push_if_wanted("yaw", YAW_ID, "yaw");
        self.push_if_wanted("X", PLAYER_X_ID, "X");
        self.push_if_wanted("Y", PLAYER_Y_ID, "Y");
        self.push_if_wanted("Z", PLAYER_Z_ID, "Z");
        assert(self@.prop_infos =~= start.prop_infos + buttons + scalar_records(wanted));
        self.push_derived(TICK_ID, PropType::Tick, "tick");
        self.push_derived(STEAMID_ID, PropType::Steamid, "steamid");
        self.push_derived(NAME_ID, PropType::Name, "name");
        assert(self@.prop_infos =~= start.prop_infos + custom_records(wanted));
    }

    /// Brings a structural path into its fixed form of seven slots. A
    /// shorter path is filled up with zeros. Of a longer path the first
    /// seven entries are kept and the rest is dropped.
    pub fn vec_to_arr(path: &Vec<i32>) -> (arr: [i32; 7])
        ensures
            arr@ == fixed_path(path@),
    {
        let mut arr: [i32; 7] = [0, 0, 0, 0, 0, 0, 0];
        let mut idx: usize = 0;
        while idx < path.len() && idx < PATH_SLOTS
            invariant
                idx <= PATH_SLOTS,
                idx <= path.len(),
                forall|k: int| 0 <= k < idx ==> arr@[k] == path@[k],
                forall|k: int| idx <= k < PATH_SLOTS ==> arr@[k] == 0,
            decreases PATH_SLOTS - idx,
        {
            arr[idx] = path[idx];
            idx += 1;
        }
        assert(arr@ =~= fixed_path(path@));
        arr
    }

    /// Gives the leaf `f` the identifier of the canonical name `weap_prop`.
    /// A name that has none yet gets the counter, in both directions of the
    /// index.
    fn set_id(&mut self, weap_prop: &str, f: &mut Field)
        ensures
            final(f).prop_id == resolved_id(old(self)@, weap_prop@) as usize,
            final(f).var_name == old(f).var_name,
            final(f).serializer == old(f).serializer,
            final(f).should_parse == old(f).should_parse,
            final(self)@ == (ControllerView {
                name_to_id: resolve_canonical(old(self)@, weap_prop@, false).name_to_id,
                id_to_name: resolve_canonical(old(self)@, weap_prop@, false).id_to_name,
                ..old(self)@
            }),
    {
        match name_ids_get(&self.name_to_id, weap_prop) {
            Some(id) => {
                f.prop_id = id as usize;
            },
            None => {
                name_ids_insert(&mut self.name_to_id, weap_prop, self.id);
                id_names_insert(&mut self.id_to_name, self.id, weap_prop);
                f.prop_id = self.id as usize;
            },
        }
    }

    /// Whether a record is kept of the property `name`.
    fn should_collect(&self, name: &str) -> (r: bool)
        ensures
            r == self@.wanted_player_props.contains(name@),
    {
        names_contain(&self.wanted_player_props, name)
    }

    /// Whether the leaf with canonical name `name` has to be decoded.
    fn should_parse(&self, name: &str) -> (r: bool)
        ensures
            r == must_parse(self@.wanted_player_props, name@),
    {
        should_parse_name(&self.wanted_player_props, name)
    }

    /// Offers the counter to the special cell of `name`, if it has one.
    fn set_special_ids(&mut self, name: &str, is_grenade_or_weapon: bool)
        ensures
            final(self)@ == (ControllerView {
                special_ids: old(self)@.special_ids.recorded(
                    name@,
                    is_grenade_or_weapon,
                    old(self).id,
                ),
                ..old(self)@
            }),
    {
        self.special_ids.record(name, is_grenade_or_weapon, self.id);
    }

    /// Keeps a record of the property `weap_prop` with identifier `id`, if
    /// the property was asked for.
    fn insert_propinfo(&mut self, weap_prop: &str, id: u32)
        ensures
            final(self)@ == (ControllerView {
                prop_infos: if old(self)@.wanted_player_props.contains(weap_prop@) {
                    old(self)@.prop_infos.push(
                        PropInfoView { id, ..discovered_record(old(self)@, weap_prop@) },
                    )
                } else {
                    old(self)@.prop_infos
                },
                ..old(self)@
            }),
    {
        let kind = prop_type(weap_prop);
        if self.should_collect(weap_prop) {
            let friendly = match name_names_get(&self.real_name_to_og_name, weap_prop) {
                Some(shown) => shown,
                None => weap_prop.to_owned(),
            };
            let ghost before = self.prop_infos@;
            let info = PropInfo {
                id,
                prop_type: kind,
                prop_name: weap_prop.to_owned(),
                prop_friendly_name: friendly,
            };
            self.prop_infos.push(info);
            assert(infos_view(self.prop_infos@) =~= infos_view(before).push(info@));
        }
    }

    /// Resolves the leaf `f`, whose dotted name from the entity class down
    /// is `full_name`.
    ///
    /// Afterwards `f` carries the identifier of its canonical name, and is
    /// marked for decoding if the policy asks for it; a mark that it had is
    /// kept. The counter has gone up by one.
    pub fn handle_prop(&mut self, full_name: &str, f: &mut Field)
        requires
            old(self).id < u32::MAX,
        ensures
            final(self)@ == resolve(old(self)@, full_name@),
            final(f)@ == annotate(old(self)@, full_name@, old(f)@),
    {
        let (prop_name, is_grenade_or_weapon) = canonicalize(full_name);
        let prop_already_exists = name_ids_get(&self.name_to_id, prop_name).is_some();
        self.set_special_ids(prop_name, is_grenade_or_weapon);
        self.set_id(prop_name, f);
        if !prop_already_exists {
            let id = self.id;
            self.insert_propinfo(prop_name, id);
        }
        if self.should_parse(prop_name) {
            f.should_parse = true;
        }
        self.id += 1;
    }

    /// Walks through `fields`, which stand below `ser_name`, from first to
    /// last. A leaf is resolved under its dotted name; an interior node is
    /// walked through before the field after it, with the name of its
    /// serializer added to `ser_name`.
    pub fn traverse_fields(&mut self, fields: &mut Vec<Field>, ser_name: String)
        requires
            old(self).id + leaf_count(fields_view(old(fields)@)) <= u32::MAX,
        ensures
            final(self)@ == walk_fields(old(self)@, fields_view(old(fields)@), ser_name@).0,
            fields_view(final(fields)@) == walk_fields(
                old(self)@,
                fields_view(old(fields)@),
                ser_name@,
            ).1,
        decreases fields_view(old(fields)@),
    {
        let ghost st0 = self@;
        let ghost fs0 = fields_view(fields@);
        let n = fields.len();
        let mut i: usize = 0;
        assert(fs0.take(0) =~= Seq::empty());
        while i < n
            invariant
                n == fields.len(),
                n == fs0.len(),
                i <= n,
                fs0 == fields_view(old(fields)@),
                st0.id + leaf_count(fs0) <= u32::MAX,
                self@ == walk_fields(st0, fs0.take(i as int), ser_name@).0,
                fields_view(fields@).take(i as int) == walk_fields(
                    st0,
                    fs0.take(i as int),
                    ser_name@,
                ).1,
                fields_view(fields@).skip(i as int) == fs0.skip(i as int),
            decreases n - i,
        {
            let ghost cur = self@;
            let ghost seen = fields_view(fields@);
            proof {
                lemma_leaf_count_take(fs0, i as int);
                if i > 0 {
                    lemma_leaf_count_take(fs0, i - 1);
                }
                lemma_walk_fields_counter(st0, fs0.take(i as int), ser_name@);
                assert(seen[i as int] == seen.skip(i as int)[0]);
                assert(fs0[i as int] == fs0.skip(i as int)[0]);
            }
            let f = &mut fields[i];
            match &mut f.serializer {
                Some(ser) => {
                    let mut below = ser_name.clone();
                    below.append(".");
                    below.append(ser.name.as_str());
                    self.traverse_fields(&mut ser.fields, below);
                },
                None => {
                    let mut full_name = ser_name.clone();
                    full_name.append(".");
                    full_name.append(f.var_name.as_str());
                    self.handle_prop(full_name.as_str(), f);
                },
            }
            proof {
                let now = fields_view(fields@);
                assert(now[i as int] == walk_field(cur, fs0[i as int], ser_name@).1);
                assert(fs0.take(i + 1).drop_last() =~= fs0.take(i as int));
                assert(fs0.take(i + 1).last() == fs0[i as int]);
                assert(now.take(i + 1) =~= seen.take(i as int).push(now[i as int]));
                assert forall|j: int| i < j < n implies now[j] == fs0[j] by {
                    assert(seen[j] == seen.skip(i as int)[j - i]);
                    assert(fs0[j] == fs0.skip(i as int)[j - i]);
                }
                assert(now.skip(i + 1) =~= fs0.skip(i + 1));
            }
            i += 1;
        }
        proof {
            assert(fs0.take(n as int) =~= fs0);
            assert(fields_view(fields@).take(n as int) =~= fields_view(fields@));
        }
    }

    /// Walks through the tree of the entity class that `ser` describes. The
    /// dotted names of its leaves start with the name of `ser`.
    pub fn find_prop_name_paths(&mut self, ser: &mut Serializer)
        requires
            old(self).id + leaf_count(old(ser)@.fields) <= u32::MAX,
        ensures
            final(self)@ == walk_fields(old(self)@, old(ser)@.fields, old(ser)@.name).0,
            final(ser)@.fields == walk_fields(old(self)@, old(ser)@.fields, old(ser)@.name).1,
            final(ser)@.name == old(ser)@.name,
    {
        self.traverse_fields(&mut ser.fields, ser.name.clone())
    }

    /// Walks through the tree that `ser` describes, as
    /// `find_prop_name_paths` does, after it has made sure that the walk can
    /// be completed. A tree that is nested deeper than a structural path
    /// has slots, or that has more leaves than identifiers are left, is
    /// refused, and then neither the engine nor the tree is touched.
    pub fn try_find_prop_name_paths(&mut self, ser: &mut Serializer) -> (r: Result<
        (),
        ResolveError,
    >)
        ensures
            (r matches Err(ResolveError::PathTooLong)) <==> !nested_within(
                old(ser)@.fields,
                PATH_SLOTS as nat,
            ),
            (r matches Err(ResolveError::OutOfIds)) <==> nested_within(
                old(ser)@.fields,
                PATH_SLOTS as nat,
            ) && old(self).id + leaf_count(old(ser)@.fields) > u32::MAX,
            r is Ok ==> final(self)@ == walk_fields(
                old(self)@,
                old(ser)@.fields,
                old(ser)@.name,
            ).0,
            r is Ok ==> final(ser)@.fields == walk_fields(
                old(self)@,
                old(ser)@.fields,
                old(ser)@.name,
            ).1,
            r is Ok ==> final(ser)@.name == old(ser)@.name,
            r is Err ==> final(self)@ == old(self)@,
            r is Err ==> final(ser)@ == old(ser)@,
    {
        if !within_depth(&ser.fields, PATH_SLOTS) {
            return Err(ResolveError::PathTooLong);
        }
        match count_leaves(&ser.fields, u32::MAX - self.id) {
            Some(_) => {
                self.find_prop_name_paths(ser);
                Ok(())
            },
            None => Err(ResolveError::OutOfIds),
        }
    }
}

} // verus!
