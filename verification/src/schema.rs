//! The schema tree produced by derivation, and its mathematical view.

use vstd::prelude::*;

verus! {

/// A JSON Typedef schema tree.
///
/// Derivation produces `Enum`, `Properties` and `Discriminator` nodes; the
/// remaining constructs appear as sub-schemas handed in by the caller's
/// registry (`Type` for a primitive, `Ref` for a reference to a schema the
/// registry has already registered, `Empty` for the unconstrained schema).
#[derive(Debug, PartialEq, Eq)]
pub enum Schema {
    /// The empty form: accepts any instance.
    Empty,
    /// A primitive type form, e.g. `float64`.
    Type { name: String },
    /// An enumeration of string values.
    Enum { values: Vec<String> },
    /// An object with required and optional properties.
    Properties {
        required: Vec<(String, Schema)>,
        optional: Vec<(String, Schema)>,
        additional_properties: bool,
    },
    /// A tagged union: the property named `tag` selects the variant schema
    /// from `mapping`.
    Discriminator { tag: String, mapping: Vec<(String, Schema)> },
    /// A reference to a schema registered under another type's identity.
    Ref { target: String },
}

/// The mathematical value of a [`Schema`] tree.
pub enum SchemaV {
    Empty,
    Type { name: Seq<char> },
    Enum { values: Seq<Seq<char>> },
    Properties {
        required: Seq<(Seq<char>, SchemaV)>,
        optional: Seq<(Seq<char>, SchemaV)>,
        additional_properties: bool,
    },
    Discriminator { tag: Seq<char>, mapping: Seq<(Seq<char>, SchemaV)> },
    Ref { target: Seq<char> },
}

/// The view of a sequence of strings, element by element.
pub open spec fn strings_view(values: Seq<String>) -> Seq<Seq<char>>
    decreases values.len(),
{
    if values.len() == 0 {
        Seq::empty()
    } else {
        seq![values[0]@] + strings_view(values.drop_first())
    }
}

/// The view of a sequence of schemas, element by element.
pub open spec fn schemas_view(schemas: Seq<Schema>) -> Seq<SchemaV>
    decreases schemas,
{
    if schemas.len() == 0 {
        Seq::empty()
    } else {
        seq![schema_view(schemas[0])] + schemas_view(schemas.drop_first())
    }
}

/// The view of a name-to-schema entry list, element by element.
pub open spec fn entries_view(entries: Seq<(String, Schema)>) -> Seq<(Seq<char>, SchemaV)>
    decreases entries,
{
    if entries.len() == 0 {
        Seq::empty()
    } else {
        seq![(entries[0].0@, schema_view(entries[0].1))] + entries_view(entries.drop_first())
    }
}

/// The view of a schema tree.
pub open spec fn schema_view(s: Schema) -> SchemaV
    decreases s,
{
    match s {
        Schema::Empty => SchemaV::Empty,
        Schema::Type { name } => SchemaV::Type { name: name@ },
        Schema::Enum { values } => SchemaV::Enum { values: strings_view(values@) },
        Schema::Properties { required, optional, additional_properties } => SchemaV::Properties {
            required: entries_view(required@),
            optional: entries_view(optional@),
            additional_properties,
        },
        Schema::Discriminator { tag, mapping } => SchemaV::Discriminator {
            tag: tag@,
            mapping: entries_view(mapping@),
        },
        Schema::Ref { target } => SchemaV::Ref { target: target@ },
    }
}

impl View for Schema {
    type V = SchemaV;

    open spec fn view(&self) -> SchemaV {
        schema_view(*self)
    }
}

pub proof fn lemma_strings_view(values: Seq<String>)
    ensures
        strings_view(values).len() == values.len(),
        forall|i: int| 0 <= i < values.len() ==> #[trigger] strings_view(values)[i] == values[i]@,
    decreases values.len(),
{
    if values.len() > 0 {
        lemma_strings_view(values.drop_first());
        assert forall|i: int| 0 <= i < values.len() implies #[trigger] strings_view(values)[i]
            == values[i]@ by {
            if i > 0 {
                assert(values.drop_first()[i - 1] == values[i]);
            }
        }
    }
}

pub proof fn lemma_schemas_view(schemas: Seq<Schema>)
    ensures
        schemas_view(schemas).len() == schemas.len(),
        forall|i: int| 0 <= i < schemas.len() ==> #[trigger] schemas_view(schemas)[i]
            == schema_view(schemas[i]),
    decreases schemas.len(),
{
    if schemas.len() > 0 {
        lemma_schemas_view(schemas.drop_first());
        assert forall|i: int| 0 <= i < schemas.len() implies #[trigger] schemas_view(schemas)[i]
            == schema_view(schemas[i]) by {
            if i > 0 {
                assert(schemas.drop_first()[i - 1] == schemas[i]);
            }
        }
    }
}

pub proof fn lemma_entries_view(entries: Seq<(String, Schema)>)
    ensures
        entries_view(entries).len() == entries.len(),
        forall|i: int| 0 <= i < entries.len() ==> #[trigger] entries_view(entries)[i] == (
        entries[i].0@,
        schema_view(entries[i].1),
        ),
    decreases entries.len(),
{
    if entries.len() > 0 {
        lemma_entries_view(entries.drop_first());
        assert forall|i: int| 0 <= i < entries.len() implies #[trigger] entries_view(entries)[i]
            == (entries[i].0@, schema_view(entries[i].1)) by {
            if i > 0 {
                assert(entries.drop_first()[i - 1] == entries[i]);
            }
        }
    }
}

} // verus!
