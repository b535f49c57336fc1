//! The descriptor tree of one entity class, as far as name resolution reads
//! and annotates it.

use vstd::prelude::*;

verus! {

/// One node of a descriptor tree.
///
/// A node with a `serializer` is an interior node and stands for the nested
/// fields of that serializer. A node without one is a leaf: a single value
/// in the stream, named `var_name`, that resolution annotates with its
/// identifier and with whether it has to be decoded.
#[derive(Debug)]
pub struct Field {
    pub var_name: String,
    pub serializer: Option<Serializer>,
    pub should_parse: bool,
    pub prop_id: usize,
}

/// A named list of fields, in stream order.
#[derive(Debug)]
pub struct Serializer {
    pub name: String,
    pub fields: Vec<Field>,
}

/// A `Field` as a mathematical value.
pub struct FieldView {
    pub var_name: Seq<char>,
    pub serializer: Option<SerializerView>,
    pub should_parse: bool,
    pub prop_id: usize,
}

/// A `Serializer` as a mathematical value.
pub struct SerializerView {
    pub name: Seq<char>,
    pub fields: Seq<FieldView>,
}

pub open spec fn field_view(f: Field) -> FieldView
    decreases f,
{
    FieldView {
        var_name: f.var_name@,
        serializer: match f.serializer {
            Some(s) => Some(SerializerView { name: s.name@, fields: fields_view(s.fields@) }),
            None => None,
        },
        should_parse: f.should_parse,
        prop_id: f.prop_id,
    }
}

pub open spec fn fields_view(fs: Seq<Field>) -> Seq<FieldView>
    decreases fs,
{
    Seq::new(
        fs.len(),
        |i: int|
            if 0 <= i < fs.len() {
                field_view(fs[i])
            } else {
                arbitrary()
            },
    )
}

impl View for Field {
    type V = FieldView;

    open spec fn view(&self) -> FieldView {
        field_view(*self)
    }
}

impl View for Serializer {
    type V = SerializerView;

    open spec fn view(&self) -> SerializerView {
        SerializerView { name: self.name@, fields: fields_view(self.fields@) }
    }
}

/// Number of leaves below a list of fields.
pub open spec fn leaf_count(fs: Seq<FieldView>) -> nat
    decreases fs,
{
    if fs.len() == 0 {
        0
    } else {
        leaf_count(fs.drop_last()) + leaves_below(fs.last())
    }
}

/// Number of leaves at or below one field.
pub open spec fn leaves_below(f: FieldView) -> nat
    decreases f,
{
    match f.serializer {
        Some(s) => leaf_count(s.fields),
        None => 1,
    }
}

/// `f` without what resolution writes: every leaf at or below it with
/// identifier zero and not marked for decoding. Names, nesting and the
/// interior nodes are as in `f`.
pub open spec fn unresolved(f: FieldView) -> FieldView
    decreases f,
{
    match f.serializer {
        Some(s) => FieldView {
            serializer: Some(SerializerView { name: s.name, fields: all_unresolved(s.fields) }),
            ..f
        },
        None => FieldView { should_parse: false, prop_id: 0, ..f },
    }
}

/// `fields`, each without what resolution writes.
pub open spec fn all_unresolved(fields: Seq<FieldView>) -> Seq<FieldView>
    decreases fields,
{
    if fields.len() == 0 {
        Seq::empty()
    } else {
        all_unresolved(fields.drop_last()).push(unresolved(fields.last()))
    }
}

/// Every node below `fields` can be reached in at most `room` steps, a step
/// being the choice of one field of a list. A list without fields is within
/// any depth.
pub open spec fn nested_within(fields: Seq<FieldView>, room: nat) -> bool
    decreases fields,
{
    fields.len() == 0 || (room > 0 && forall|i: int|
        0 <= i < fields.len() ==> below_within(#[trigger] fields[i], (room - 1) as nat))
}

/// Every node below `f` can be reached from `f` in at most `room` steps.
pub open spec fn below_within(f: FieldView, room: nat) -> bool
    decreases f,
{
    match f.serializer {
        Some(s) => nested_within(s.fields, room),
        None => true,
    }
}

/// The leaves among the first `i + 1` fields are those among the first `i`
/// and those at or below the field at `i`; and no part of a list has more
/// leaves than the list.
pub proof fn lemma_leaf_count_take(fields: Seq<FieldView>, i: int)
    requires
        0 <= i < fields.len(),
    ensures
        leaf_count(fields.take(i + 1)) == leaf_count(fields.take(i)) + leaves_below(fields[i]),
        leaf_count(fields.take(i + 1)) <= leaf_count(fields),
    decreases fields.len() - i,
{
    assert(fields.take(i + 1).drop_last() =~= fields.take(i));
    assert(fields.take(i + 1).last() == fields[i]);
    if i + 1 < fields.len() {
        lemma_leaf_count_take(fields, i + 1);
    } else {
        assert(fields.take(i + 1) =~= fields);
    }
}

/// Tells whether every node below `fields` can be reached in at most `room`
/// steps. It looks no deeper than `room` lists itself.
pub fn within_depth(fields: &Vec<Field>, room: usize) -> (r: bool)
    ensures
        r == nested_within(fields_view(fields@), room as nat),
    decreases room,
{
    if fields.len() == 0 {
        return true;
    }
    if room == 0 {
        return false;
    }
    let ghost fs = fields_view(fields@);
    let mut i: usize = 0;
    while i < fields.len()
        invariant
            i <= fields.len(),
            room > 0,
            fs == fields_view(fields@),
            forall|j: int| 0 <= j < i ==> below_within(#[trigger] fs[j], (room - 1) as nat),
        decreases fields.len() - i,
    {
        match &fields[i].serializer {
            Some(ser) => {
                if !within_depth(&ser.fields, room - 1) {
                    assert(!below_within(fs[i as int], (room - 1) as nat));
                    return false;
                }
            },
            None => {},
        }
        i += 1;
    }
    true
}

/// Counts the leaves below `fields`, as long as there are no more than
/// `limit` of them.
pub fn count_leaves(fields: &Vec<Field>, limit: u32) -> (r: Option<u32>)
    ensures
        match r {
            Some(n) => n == leaf_count(fields_view(fields@)) && n <= limit,
            None => leaf_count(fields_view(fields@)) > limit,
        },
    decreases fields_view(fields@),
{
    let ghost fs = fields_view(fields@);
    let mut total: u32 = 0;
    let mut i: usize = 0;
    assert(fs.take(0) =~= Seq::empty());
    while i < fields.len()
        invariant
            i <= fields.len(),
            fs == fields_view(fields@),
            total == leaf_count(fs.take(i as int)),
            total <= limit,
        decreases fields.len() - i,
    {
        proof {
            lemma_leaf_count_take(fs, i as int);
        }
        let below = match &fields[i].serializer {
            Some(ser) => count_leaves(&ser.fields, limit - total),
            None => if total < limit {
                Some(1)
            } else {
                None
            },
        };
        match below {
            Some(n) => {
                total = total + n;
            },
            None => {
                return None;
            },
        }
        i += 1;
    }
    assert(fs.take(fields.len() as int) =~= fs);
    Some(total)
}

} // verus!
