//! Locating the Query and Mutation root types of a schema.

use vstd::prelude::*;

use crate::schema::{copy_fields, same_fields, Field, FullType, ObjectType, Schema};

verus! {

/// The first object type at or after position `i` named `name`; types of
/// other kinds with that name are passed over.
pub open spec fn object_from(types: Seq<FullType>, name: Seq<char>, i: int) -> Option<ObjectType>
    decreases types.len() - i,
{
    if i < 0 || i >= types.len() {
        None
    } else {
        match types[i] {
            FullType::Object(o) => if o.name@ == name {
                Some(o)
            } else {
                object_from(types, name, i + 1)
            },
            _ => object_from(types, name, i + 1),
        }
    }
}

/// The first object type of the catalogue named `name`, if any.
pub open spec fn root_object(types: Seq<FullType>, name: Seq<char>) -> Option<ObjectType> {
    object_from(types, name, 0)
}

/// Finds the first object type named `name`.
fn find_object<'a>(types: &'a Vec<FullType>, name: &String) -> (r: Option<&'a ObjectType>)
    ensures
        r is None <==> root_object(types@, name@) is None,
        r matches Some(o) ==> root_object(types@, name@) == Some(*o),
{
    let mut i: usize = 0;
    while i < types.len()
        invariant
            i <= types.len(),
            root_object(types@, name@) == object_from(types@, name@, i as int),
        decreases types.len() - i,
    {
        if let FullType::Object(object) = &types[i] {
            if object.name.eq(name) {
                return Some(object);
            }
        }
        i = i + 1;
    }
    None
}

/// The fields of the schema's Query root type.
pub struct QueryType {
    fields: Vec<Field>,
}

impl View for QueryType {
    type V = Seq<Field>;

    closed spec fn view(&self) -> Seq<Field> {
        self.fields@
    }
}

impl QueryType {
    /// Locates the object type that the schema names as its Query root.
    pub fn from_schema(schema: &Schema) -> (r: Result<QueryType, &'static str>)
        ensures
            root_object(schema.types@, schema.query_type@) is None <==> r is Err,
            r matches Ok(q) ==> same_fields(
                q@,
                root_object(schema.types@, schema.query_type@)->0.fields@,
            ),
            r matches Err(e) ==> e@ == "No Query type found"@,
    {
        match find_object(&schema.types, &schema.query_type) {
            Some(object) => Ok(QueryType { fields: copy_fields(object.fields.as_slice()) }),
            None => Err("No Query type found"),
        }
    }

    /// The root fields, in declaration order.
    pub fn fields(&self) -> (r: &[Field])
        ensures
            r@ == self@,
    {
        self.fields.as_slice()
    }
}

/// The fields of the schema's Mutation root type.
pub struct MutationType {
    fields: Vec<Field>,
}

impl View for MutationType {
    type V = Seq<Field>;

    closed spec fn view(&self) -> Seq<Field> {
        self.fields@
    }
}

impl MutationType {
    /// Locates the object type that the schema names as its Mutation root.
    /// A schema that declares no Mutation root has none, which is no error.
    pub fn from_schema(schema: &Schema) -> (r: Result<Option<MutationType>, &'static str>)
        ensures
            schema.mutation_type is None ==> r == Ok::<Option<MutationType>, &'static str>(None),
            schema.mutation_type matches Some(name) ==> {
                &&& root_object(schema.types@, name@) is None <==> r is Err
                &&& r matches Ok(m) ==> m matches Some(m) && same_fields(
                    m@,
                    root_object(schema.types@, name@)->0.fields@,
                )
            },
            r matches Err(e) ==> e@ == "No Mutation type found"@,
    {
        let mutation_name = match &schema.mutation_type {
            Some(name) => name,
            None => return Ok(None),
        };
        match find_object(&schema.types, mutation_name) {
            Some(object) => Ok(Some(MutationType { fields: copy_fields(object.fields.as_slice()) })),
            None => Err("No Mutation type found"),
        }
    }

    /// The root fields, in declaration order.
    pub fn fields(&self) -> (r: &[Field])
        ensures
            r@ == self@,
    {
        self.fields.as_slice()
    }
}

} // verus!
