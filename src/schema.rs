//! The introspection schema: type references, fields, full types.

use vstd::prelude::*;

verus! {

/// A reference to a type as it appears on a field or an argument: a named
/// type, possibly wrapped in non-null and list layers.
pub enum TypeRef {
    Scalar { name: String },
    Object { name: String },
    Interface { name: String },
    Union { name: String },
    Enum { name: String },
    InputObject { name: String },
    NonNull(Box<TypeRef>),
    List(Box<TypeRef>),
}

/// The named type reached by stripping every non-null and list layer.
pub open spec fn leaf_name(t: TypeRef) -> Seq<char>
    decreases t,
{
    match t {
        TypeRef::Scalar { name } => name@,
        TypeRef::Object { name } => name@,
        TypeRef::Interface { name } => name@,
        TypeRef::Union { name } => name@,
        TypeRef::Enum { name } => name@,
        TypeRef::InputObject { name } => name@,
        TypeRef::NonNull(inner) => leaf_name(*inner),
        TypeRef::List(inner) => leaf_name(*inner),
    }
}

/// The wire syntax of a type reference: `!` after a non-null layer, brackets
/// around a list layer.
pub open spec fn rendered(t: TypeRef) -> Seq<char>
    decreases t,
{
    match t {
        TypeRef::Scalar { name } => name@,
        TypeRef::Object { name } => name@,
        TypeRef::Interface { name } => name@,
        TypeRef::Union { name } => name@,
        TypeRef::Enum { name } => name@,
        TypeRef::InputObject { name } => name@,
        TypeRef::NonNull(inner) => rendered(*inner) + seq!['!'],
        TypeRef::List(inner) => seq!['['] + rendered(*inner) + seq![']'],
    }
}

/// Resolves a type reference to the name of its leaf type.
pub fn resolve_type_name(ty: &TypeRef) -> (r: &String)
    ensures
        r@ == leaf_name(*ty),
    decreases ty,
{
    match ty {
        TypeRef::Scalar { name } => name,
        TypeRef::Object { name } => name,
        TypeRef::Interface { name } => name,
        TypeRef::Union { name } => name,
        TypeRef::Enum { name } => name,
        TypeRef::InputObject { name } => name,
        TypeRef::NonNull(inner) => resolve_type_name(&**inner),
        TypeRef::List(inner) => resolve_type_name(&**inner),
    }
}

/// Renders a type reference in GraphQL wire syntax, e.g. `[ID!]!`.
pub fn render_type_name(ty: &TypeRef) -> (r: String)
    ensures
        r@ == rendered(*ty),
    decreases ty,
{
    match ty {
        TypeRef::Scalar { name } => name.clone(),
        TypeRef::Object { name } => name.clone(),
        TypeRef::Interface { name } => name.clone(),
        TypeRef::Union { name } => name.clone(),
        TypeRef::Enum { name } => name.clone(),
        TypeRef::InputObject { name } => name.clone(),
        TypeRef::NonNull(inner) => {
            let mut r = render_type_name(&**inner);
            r.append("!");
            proof {
                reveal_strlit("!");
            }
            r
        },
        TypeRef::List(inner) => {
            let mut r = String::from_str("[");
            let body = render_type_name(&**inner);
            r.append(body.as_str());
            r.append("]");
            proof {
                reveal_strlit("[");
                reveal_strlit("]");
            }
            r
        },
    }
}

/// Copies a type reference, layer by layer.
fn copy_type_ref(t: &TypeRef) -> (r: TypeRef)
    ensures
        r == *t,
    decreases t,
{
    match t {
        TypeRef::Scalar { name } => TypeRef::Scalar { name: name.clone() },
        TypeRef::Object { name } => TypeRef::Object { name: name.clone() },
        TypeRef::Interface { name } => TypeRef::Interface { name: name.clone() },
        TypeRef::Union { name } => TypeRef::Union { name: name.clone() },
        TypeRef::Enum { name } => TypeRef::Enum { name: name.clone() },
        TypeRef::InputObject { name } => TypeRef::InputObject { name: name.clone() },
        TypeRef::NonNull(inner) => TypeRef::NonNull(Box::new(copy_type_ref(&**inner))),
        TypeRef::List(inner) => TypeRef::List(Box::new(copy_type_ref(&**inner))),
    }
}

impl Clone for TypeRef {
    fn clone(&self) -> (r: Self)
        ensures
            r == *self,
    {
        copy_type_ref(self)
    }
}

/// An argument of a field: its name and declared type.
pub struct Argument {
    pub name: String,
    pub ty: TypeRef,
}

impl Clone for Argument {
    fn clone(&self) -> (r: Self)
        ensures
            r == *self,
    {
        Argument { name: self.name.clone(), ty: self.ty.clone() }
    }
}

/// A field of an object type: its name, its ordered arguments, its result type.
pub struct Field {
    pub name: String,
    pub args: Vec<Argument>,
    pub ty: TypeRef,
}

/// Two fields agree on name, arguments and result type.
pub open spec fn same_field(a: Field, b: Field) -> bool {
    &&& a.name == b.name
    &&& a.args@ == b.args@
    &&& a.ty == b.ty
}

/// Two field lists agree position by position.
pub open spec fn same_fields(a: Seq<Field>, b: Seq<Field>) -> bool {
    &&& a.len() == b.len()
    &&& forall|i: int| 0 <= i < a.len() ==> #[trigger] same_field(a[i], b[i])
}

impl Clone for Field {
    fn clone(&self) -> (r: Self)
        ensures
            same_field(r, *self),
    {
        let mut args: Vec<Argument> = Vec::new();
        let mut i: usize = 0;
        while i < self.args.len()
            invariant
                i <= self.args.len(),
                args@ == self.args@.take(i as int),
            decreases self.args.len() - i,
        {
            args.push(self.args[i].clone());
            i = i + 1;
            assert(args@ =~= self.args@.take(i as int));
        }
        assert(args@ =~= self.args@);
        Field { name: self.name.clone(), args, ty: self.ty.clone() }
    }
}

/// Copies a list of fields, keeping their order.
pub fn copy_fields(v: &[Field]) -> (r: Vec<Field>)
    ensures
        same_fields(r@, v@),
{
    let mut r: Vec<Field> = Vec::new();
    let mut i: usize = 0;
    while i < v.len()
        invariant
            i <= v.len(),
            r@.len() == i,
            forall|j: int| 0 <= j < i ==> #[trigger] same_field(r@[j], v@[j]),
        decreases v.len() - i,
    {
        r.push(v[i].clone());
        i = i + 1;
    }
    r
}

/// An object type with its fields in declaration order.
pub struct ObjectType {
    pub name: String,
    pub fields: Vec<Field>,
}

/// A type of the schema's catalogue. Only objects carry fields.
pub enum FullType {
    Scalar { name: String },
    Object(ObjectType),
    Interface { name: String },
    Union { name: String },
    Enum { name: String },
    InputObject { name: String },
}

/// The name under which a type stands in the catalogue.
pub open spec fn catalogue_name(t: FullType) -> Seq<char> {
    match t {
        FullType::Scalar { name } => name@,
        FullType::Object(object) => object.name@,
        FullType::Interface { name } => name@,
        FullType::Union { name } => name@,
        FullType::Enum { name } => name@,
        FullType::InputObject { name } => name@,
    }
}

impl FullType {
    /// The name of this type.
    pub fn name(&self) -> (r: &String)
        ensures
            r@ == catalogue_name(*self),
    {
        match self {
            FullType::Scalar { name } => name,
            FullType::Object(object) => &object.name,
            FullType::Interface { name } => name,
            FullType::Union { name } => name,
            FullType::Enum { name } => name,
            FullType::InputObject { name } => name,
        }
    }
}

/// A loaded introspection schema: the type catalogue and the names of the
/// Query root and, if declared, the Mutation root.
pub struct Schema {
    pub query_type: String,
    pub mutation_type: Option<String>,
    pub types: Vec<FullType>,
}

/// The first type at or after position `i` whose name is `name`.
pub open spec fn find_from(types: Seq<FullType>, name: Seq<char>, i: int) -> Option<FullType>
    decreases types.len() - i,
{
    if i < 0 || i >= types.len() {
        None
    } else if catalogue_name(types[i]) == name {
        Some(types[i])
    } else {
        find_from(types, name, i + 1)
    }
}

/// The first type of the catalogue named `name`, if any.
pub open spec fn lookup(types: Seq<FullType>, name: Seq<char>) -> Option<FullType> {
    find_from(types, name, 0)
}

/// Looks up a type by name in the catalogue; the first match wins.
pub fn find_type<'a>(types: &'a Vec<FullType>, name: &String) -> (r: Option<&'a FullType>)
    ensures
        r is None <==> lookup(types@, name@) is None,
        r matches Some(t) ==> lookup(types@, name@) == Some(*t),
{
    let mut i: usize = 0;
    while i < types.len()
        invariant
            i <= types.len(),
            lookup(types@, name@) == find_from(types@, name@, i as int),
        decreases types.len() - i,
    {
        if types[i].name().eq(name) {
            return Some(&types[i]);
        }
        i = i + 1;
    }
    None
}

} // verus!
