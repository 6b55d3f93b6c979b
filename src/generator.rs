//! Turning the root fields of a schema into operation documents, client
//! methods and the aggregator files.

use vstd::prelude::*;

use crate::names::{
    fragment_name, module_name, operation_name, pascal_case_of, sanitized, snake_case_of,
    variable_name,
};
use crate::roots::{root_object, MutationType, QueryType};
use crate::schema::{
    find_type, leaf_name, lookup, render_type_name, rendered, resolve_type_name, Argument, Field,
    FullType, Schema, TypeRef, same_field,
};

verus! {

/// Whether a root field stands under the Query or the Mutation root.
#[derive(PartialEq, Eq, Structural, Clone, Copy, Debug)]
pub enum OperationKind {
    Query,
    Mutation,
}

/// Why a generation run stops.
#[derive(Debug)]
pub enum GenError {
    /// A declared root type has no object type of that name in the catalogue.
    MissingRootType(String),
    /// A field's or sub-field's leaf type is absent from the catalogue.
    UnknownFieldType(String),
}

/// The message that reports an error, naming the offending type.
pub open spec fn error_message(e: GenError) -> Seq<char> {
    match e {
        GenError::MissingRootType(name) => "No object type found for root type '"@ + name@ + "'"@,
        GenError::UnknownFieldType(name) => "No type found for field type '"@ + name@ + "'"@,
    }
}

impl GenError {
    /// A human-readable message naming the offending type.
    pub fn message(&self) -> (r: String)
        ensures
            r@ == error_message(*self),
    {
        let (mut r, name) = match self {
            GenError::MissingRootType(name) => (
                String::from_str("No object type found for root type '"),
                name,
            ),
            GenError::UnknownFieldType(name) => (
                String::from_str("No type found for field type '"),
                name,
            ),
        };
        r.append(name.as_str());
        r.append("'");
        r
    }
}

/// The keyword that opens an operation of this kind.
pub open spec fn kind_word(kind: OperationKind) -> Seq<char> {
    match kind {
        OperationKind::Query => "query"@,
        OperationKind::Mutation => "mutation"@,
    }
}

/// The parts joined in order with `sep` between neighbours.
pub open spec fn join(parts: Seq<Seq<char>>, sep: Seq<char>) -> Seq<char>
    decreases parts.len(),
{
    if parts.len() == 0 {
        Seq::empty()
    } else if parts.len() == 1 {
        parts[0]
    } else {
        join(parts.drop_last(), sep) + sep + parts.last()
    }
}

/// The views of a list of strings.
pub open spec fn views(v: Seq<String>) -> Seq<Seq<char>> {
    v.map_values(|s: String| s@)
}

/// The variable declared for each argument: `$<snake_case name>: <type>`.
pub open spec fn declared_vars(args: Seq<Argument>) -> Seq<Seq<char>> {
    Seq::new(
        args.len(),
        |i: int| "$"@ + snake_case_of(args[i].name@) + ": "@ + rendered(args[i].ty),
    )
}

/// The argument applied on the field for each argument: `<name>: $<snake_case name>`.
pub open spec fn applied_args(args: Seq<Argument>) -> Seq<Seq<char>> {
    Seq::new(args.len(), |i: int| args[i].name@ + ": $"@ + snake_case_of(args[i].name@))
}

/// A parenthesised, comma-separated list; nothing at all when it is empty.
pub open spec fn clause(items: Seq<Seq<char>>) -> Seq<char> {
    if items.len() == 0 {
        Seq::empty()
    } else {
        "("@ + join(items, ", "@) + ")"@
    }
}

/// The operation document of a root field.
pub open spec fn document(
    kind: OperationKind,
    op: Seq<char>,
    field: Seq<char>,
    args: Seq<Argument>,
    fragment: Seq<char>,
    selected: Seq<Seq<char>>,
) -> Seq<char> {
    kind_word(kind) + " "@ + op + clause(declared_vars(args)) + " {\n    "@ + field + clause(
        applied_args(args),
    ) + " {\n        ..."@ + fragment + "\n    }\n}\n\nfragment "@ + fragment + " on "@ + fragment
        + " {\n    __typename\n    "@ + join(selected, "\n    "@) + "\n}"@
}

/// Whether a catalogue entry is a scalar.
pub open spec fn is_scalar(t: FullType) -> bool {
    t is Scalar
}

/// The names of the first `k` sub-fields whose leaf type is a scalar, in
/// order; or the leaf type name of the first of them that the catalogue lacks.
pub open spec fn scalar_prefix(types: Seq<FullType>, subs: Seq<Field>, k: int) -> Result<
    Seq<Seq<char>>,
    Seq<char>,
>
    decreases k,
{
    if k <= 0 {
        Ok(Seq::empty())
    } else {
        match scalar_prefix(types, subs, k - 1) {
            Err(missing) => Err(missing),
            Ok(prev) => {
                let leaf = leaf_name(subs[k - 1].ty);
                match lookup(types, leaf) {
                    None => Err(leaf),
                    Some(t) => if is_scalar(t) {
                        Ok(prev.push(subs[k - 1].name@))
                    } else {
                        Ok(prev)
                    },
                }
            },
        }
    }
}

/// The fragment's selected fields for a field of type `ty`: the scalar
/// sub-fields of its leaf type when that is an object, none otherwise; or the
/// first leaf type name that the catalogue lacks.
pub open spec fn selection(types: Seq<FullType>, ty: TypeRef) -> Result<Seq<Seq<char>>, Seq<char>> {
    match lookup(types, leaf_name(ty)) {
        None => Err(leaf_name(ty)),
        Some(FullType::Object(o)) => scalar_prefix(types, o.fields@, o.fields@.len() as int),
        Some(_) => Ok(Seq::empty()),
    }
}

/// The document generated for root field `f` given its selected fields.
pub open spec fn field_document(kind: OperationKind, f: Field, selected: Seq<Seq<char>>) -> Seq<
    char,
> {
    document(
        kind,
        pascal_case_of(sanitized(f.name@)),
        f.name@,
        f.args@,
        pascal_case_of(leaf_name(f.ty)),
        selected,
    )
}

/// The client method forwarding to the generic operation primitive.
pub open spec fn client_method(module: Seq<char>, op: Seq<char>) -> Seq<char> {
    "pub async fn "@ + module + "(\n        &self,\n        variables: crate::graphql::"@ + module
        + "::Variables,\n    ) -> Result<crate::graphql::"@ + module
        + "::ResponseData, reqwest::Error> {\n        let response_body = self\n            .post_graphql::<crate::graphql::"@
        + op
        + ">(variables)\n            .await?;\n\n        Ok(response_body.data.expect(\"No data\"))\n    }"@
}

/// What is generated for one root field.
pub struct Operation {
    pub kind: OperationKind,
    /// PascalCase operation name.
    pub name: String,
    /// snake_case module and method name.
    pub module: String,
    /// The GraphQL operation document.
    pub document: String,
    /// The client method's source.
    pub client_method: String,
}

/// `op` is what generation makes of root field `f` of kind `kind`.
pub open spec fn operation_for(op: Operation, types: Seq<FullType>, kind: OperationKind, f: Field) -> bool {
    &&& selection(types, f.ty) is Ok
    &&& op.kind == kind
    &&& op.name@ == pascal_case_of(sanitized(f.name@))
    &&& op.module@ == snake_case_of(sanitized(f.name@))
    &&& op.document@ == field_document(kind, f, selection(types, f.ty)->Ok_0)
    &&& op.client_method@ == client_method(op.module@, op.name@)
}

/// Joins strings with a separator.
pub fn join_strings(parts: &Vec<String>, sep: &str) -> (r: String)
    ensures
        r@ == join(views(parts@), sep@),
{
    let mut out = String::new();
    if parts.len() == 0 {
        return out;
    }
    out.append(parts[0].as_str());
    let mut i: usize = 1;
    assert(views(parts@).take(1) =~= seq![parts@[0]@]);
    while i < parts.len()
        invariant
            1 <= i <= parts.len(),
            out@ == join(views(parts@).take(i as int), sep@),
        decreases parts.len() - i,
    {
        out.append(sep);
        out.append(parts[i].as_str());
        assert(views(parts@).take(i + 1).drop_last() =~= views(parts@).take(i as int));
        i = i + 1;
    }
    assert(views(parts@).take(i as int) =~= views(parts@));
    out
}

/// A parenthesised, comma-separated list, or nothing when it is empty.
fn clause_string(items: &Vec<String>) -> (r: String)
    ensures
        r@ == clause(views(items@)),
{
    if items.len() == 0 {
        return String::new();
    }
    let mut r = String::from_str("(");
    let inner = join_strings(items, ", ");
    r.append(inner.as_str());
    r.append(")");
    r
}

/// The keyword that opens an operation of this kind.
fn kind_keyword(kind: OperationKind) -> (r: &'static str)
    ensures
        r@ == kind_word(kind),
{
    match kind {
        OperationKind::Query => "query",
        OperationKind::Mutation => "mutation",
    }
}

/// The declared variables and the applied arguments of a field.
fn argument_lists(args: &Vec<Argument>) -> (r: (Vec<String>, Vec<String>))
    ensures
        views(r.0@) == declared_vars(args@),
        views(r.1@) == applied_args(args@),
{
    let mut decls: Vec<String> = Vec::new();
    let mut applied: Vec<String> = Vec::new();
    let mut i: usize = 0;
    while i < args.len()
        invariant
            i <= args.len(),
            views(decls@) == declared_vars(args@).take(i as int),
            views(applied@) == applied_args(args@).take(i as int),
        decreases args.len() - i,
    {
        let arg = &args[i];
        let var = variable_name(&arg.name);
        let mut d = String::from_str("$");
        d.append(var.as_str());
        d.append(": ");
        let ty = render_type_name(&arg.ty);
        d.append(ty.as_str());
        let mut a = arg.name.clone();
        a.append(": $");
        a.append(var.as_str());
        assert(d@ == declared_vars(args@)[i as int]);
        assert(a@ == applied_args(args@)[i as int]);
        let ghost old_decls = decls@;
        let ghost old_applied = applied@;
        decls.push(d);
        applied.push(a);
        assert(views(decls@) =~= views(old_decls).push(d@));
        assert(views(applied@) =~= views(old_applied).push(a@));
        i = i + 1;
        assert(views(decls@) =~= declared_vars(args@).take(i as int));
        assert(views(applied@) =~= applied_args(args@).take(i as int));
    }
    assert(declared_vars(args@).take(i as int) =~= declared_vars(args@));
    assert(applied_args(args@).take(i as int) =~= applied_args(args@));
    (decls, applied)
}

/// Once a prefix of the sub-fields meets a missing type, every longer prefix
/// reports that same type.
proof fn lemma_missing_persists(types: Seq<FullType>, subs: Seq<Field>, k: int, n: int)
    requires
        0 <= k <= n,
        scalar_prefix(types, subs, k) is Err,
    ensures
        scalar_prefix(types, subs, n) == scalar_prefix(types, subs, k),
    decreases n - k,
{
    if n > k {
        lemma_missing_persists(types, subs, k, n - 1);
    }
}

/// The names of the scalar sub-fields of the leaf type of `ty`, in order.
fn select_fields(types: &Vec<FullType>, ty: &TypeRef) -> (r: Result<Vec<String>, GenError>)
    ensures
        selection(types@, *ty) matches Ok(sel) ==> (r matches Ok(v) && views(v@) == sel),
        selection(types@, *ty) matches Err(m) ==> (r matches Err(GenError::UnknownFieldType(n))
            && n@ == m),
{
    let leaf = resolve_type_name(ty);
    match find_type(types, leaf) {
        None => Err(GenError::UnknownFieldType(leaf.clone())),
        Some(FullType::Object(object)) => {
            let subs = &object.fields;
            let mut out: Vec<String> = Vec::new();
            let mut i: usize = 0;
            assert(views(out@) =~= Seq::<Seq<char>>::empty());
            while i < subs.len()
                invariant
                    i <= subs.len(),
                    selection(types@, *ty) == scalar_prefix(types@, subs@, subs@.len() as int),
                    scalar_prefix(types@, subs@, i as int) == Ok::<Seq<Seq<char>>, Seq<char>>(
                        views(out@),
                    ),
                decreases subs.len() - i,
            {
                let sub = &subs[i];
                let sub_leaf = resolve_type_name(&sub.ty);
                match find_type(types, sub_leaf) {
                    None => {
                        proof {
                            lemma_missing_persists(types@, subs@, i + 1, subs@.len() as int);
                        }
                        return Err(GenError::UnknownFieldType(sub_leaf.clone()));
                    },
                    Some(t) => {
                        if let FullType::Scalar { .. } = t {
                            let ghost before = out@;
                            out.push(sub.name.clone());
                            assert(views(out@) =~= views(before).push(sub.name@));
                        }
                    },
                }
                i = i + 1;
            }
            Ok(out)
        },
        Some(_) => Ok(Vec::new()),
    }
}

/// Generates the operation of one root field: its names, its document and
/// its client method.
pub fn generate_operation(schema: &Schema, kind: OperationKind, field: &Field) -> (r: Result<
    Operation,
    GenError,
>)
    ensures
        selection(schema.types@, field.ty) is Ok ==> (r matches Ok(op) && operation_for(
            op,
            schema.types@,
            kind,
            *field,
        )),
        selection(schema.types@, field.ty) matches Err(m) ==> (r matches Err(
            GenError::UnknownFieldType(n),
        ) && n@ == m),
{
    let selected = match select_fields(&schema.types, &field.ty) {
        Ok(v) => v,
        Err(e) => return Err(e),
    };
    let name = operation_name(&field.name);
    let module = module_name(&field.name);
    let fragment = fragment_name(resolve_type_name(&field.ty));
    let (decls, applied) = argument_lists(&field.args);

    let mut doc = String::from_str(kind_keyword(kind));
    doc.append(" ");
    doc.append(name.as_str());
    doc.append(clause_string(&decls).as_str());
    doc.append(" {\n    ");
    doc.append(field.name.as_str());
    doc.append(clause_string(&applied).as_str());
    doc.append(" {\n        ...");
    doc.append(fragment.as_str());
    doc.append("\n    }\n}\n\nfragment ");
    doc.append(fragment.as_str());
    doc.append(" on ");
    doc.append(fragment.as_str());
    doc.append(" {\n    __typename\n    ");
    doc.append(join_strings(&selected, "\n    ").as_str());
    doc.append("\n}");

    let mut method = String::from_str("pub async fn ");
    method.append(module.as_str());
    method.append("(\n        &self,\n        variables: crate::graphql::");
    method.append(module.as_str());
    method.append("::Variables,\n    ) -> Result<crate::graphql::");
    method.append(module.as_str());
    method.append(
        "::ResponseData, reqwest::Error> {\n        let response_body = self\n            .post_graphql::<crate::graphql::",
    );
    method.append(name.as_str());
    method.append(
        ">(variables)\n            .await?;\n\n        Ok(response_body.data.expect(\"No data\"))\n    }",
    );

    Ok(Operation { kind, name, module, document: doc, client_method: method })
}

/// Lexicographic order of character sequences, by code point.
pub open spec fn lex_le(a: Seq<char>, b: Seq<char>) -> bool
    decreases a.len(),
{
    if a.len() == 0 {
        true
    } else if b.len() == 0 {
        false
    } else if a[0] != b[0] {
        (a[0] as u32) < (b[0] as u32)
    } else {
        lex_le(a.skip(1), b.skip(1))
    }
}

/// The sequence is in ascending lexicographic order.
pub open spec fn sorted_lex(s: Seq<Seq<char>>) -> bool {
    forall|i: int, j: int| 0 <= i < j < s.len() ==> lex_le(#[trigger] s[i], #[trigger] s[j])
}

/// Relies on `slice::sort_unstable` over `String`: it permutes the strings
/// into ascending order of `Ord for String`, which compares the UTF-8 bytes
/// and therefore orders as the characters' code points do.
#[verifier::external_body]
fn sort_strings(v: &mut Vec<String>)
    ensures
        views(final(v)@).to_multiset() == views(old(v)@).to_multiset(),
        sorted_lex(views(final(v)@)),
{
    v.sort_unstable()
}

/// Each item between a prefix and a suffix.
pub open spec fn wrapped(items: Seq<Seq<char>>, prefix: Seq<char>, suffix: Seq<char>) -> Seq<
    Seq<char>,
> {
    Seq::new(items.len(), |i: int| prefix + items[i] + suffix)
}

/// The module index: one `pub mod` line per module, newline-terminated.
pub open spec fn module_index_text(mods: Seq<Seq<char>>) -> Seq<char> {
    join(wrapped(mods, "pub mod "@, ";"@), "\n"@) + "\n"@
}

/// The re-export surface: the module declarations, then one glob re-export
/// per generated module.
pub open spec fn reexport_text(mods: Seq<Seq<char>>) -> Seq<char> {
    if mods.len() == 0 {
        "mod custom_scalars;\nmod generated;\n\n// Auto-generated:"@
    } else {
        "mod custom_scalars;\nmod generated;\n\n// Auto-generated:"@ + "\n"@ + join(
            wrapped(mods, "pub use generated::"@, "::*;"@),
            "\n"@,
        )
    }
}

/// The client implementation block holding every client method in order.
pub open spec fn client_file_text(methods: Seq<Seq<char>>) -> Seq<char> {
    "impl crate::BlipsClient {\n    "@ + join(methods, "\n\n"@) + "\n}"@
}

/// Each item between a prefix and a suffix.
fn wrap_each(items: &Vec<String>, prefix: &str, suffix: &str) -> (r: Vec<String>)
    ensures
        views(r@) == wrapped(views(items@), prefix@, suffix@),
{
    let mut r: Vec<String> = Vec::new();
    let mut i: usize = 0;
    while i < items.len()
        invariant
            i <= items.len(),
            views(r@) == wrapped(views(items@), prefix@, suffix@).take(i as int),
        decreases items.len() - i,
    {
        let mut line = String::from_str(prefix);
        line.append(items[i].as_str());
        line.append(suffix);
        let ghost before = r@;
        r.push(line);
        assert(views(r@) =~= views(before).push(line@));
        i = i + 1;
        assert(views(r@) =~= wrapped(views(items@), prefix@, suffix@).take(i as int));
    }
    assert(wrapped(views(items@), prefix@, suffix@).take(i as int) =~= wrapped(
        views(items@),
        prefix@,
        suffix@,
    ));
    r
}

/// Builds the module index from the sorted module names.
fn module_index(mods: &Vec<String>) -> (r: String)
    ensures
        r@ == module_index_text(views(mods@)),
{
    let lines = wrap_each(mods, "pub mod ", ";");
    let mut r = join_strings(&lines, "\n");
    r.append("\n");
    r
}

/// Builds the re-export surface from the sorted module names.
fn reexports(mods: &Vec<String>) -> (r: String)
    ensures
        r@ == reexport_text(views(mods@)),
{
    let mut r = String::from_str("mod custom_scalars;\nmod generated;\n\n// Auto-generated:");
    if mods.len() > 0 {
        let lines = wrap_each(mods, "pub use generated::", "::*;");
        r.append("\n");
        r.append(join_strings(&lines, "\n").as_str());
    }
    r
}

/// Builds the client implementation block.
fn client_file(methods: &Vec<String>) -> (r: String)
    ensures
        r@ == client_file_text(views(methods@)),
{
    let mut r = String::from_str("impl crate::BlipsClient {\n    ");
    r.append(join_strings(methods, "\n\n").as_str());
    r.append("\n}");
    r
}

/// Root fields paired with the kind of root they stand under.
pub open spec fn tagged(kind: OperationKind, fields: Seq<Field>) -> Seq<(OperationKind, Field)> {
    fields.map_values(|f: Field| (kind, f))
}

/// The root fields in generation order: the Query root's fields, then the
/// Mutation root's, each in declaration order; none when a declared root has
/// no object type.
pub open spec fn root_fields(schema: Schema) -> Option<Seq<(OperationKind, Field)>> {
    match root_object(schema.types@, schema.query_type@) {
        None => None,
        Some(q) => match schema.mutation_type {
            None => Some(tagged(OperationKind::Query, q.fields@)),
            Some(m) => match root_object(schema.types@, m@) {
                None => None,
                Some(mo) => Some(
                    tagged(OperationKind::Query, q.fields@) + tagged(
                        OperationKind::Mutation,
                        mo.fields@,
                    ),
                ),
            },
        },
    }
}

/// The leaf type name missing for the first root field at or after `i`
/// whose selection fails.
pub open spec fn failure_from(types: Seq<FullType>, fs: Seq<(OperationKind, Field)>, i: int) -> Option<
    Seq<char>,
>
    decreases fs.len() - i,
{
    if i < 0 || i >= fs.len() {
        None
    } else {
        match selection(types, fs[i].1.ty) {
            Err(m) => Some(m),
            Ok(_) => failure_from(types, fs, i + 1),
        }
    }
}

/// The module names of the operations, in operation order.
pub open spec fn op_modules(ops: Seq<Operation>) -> Seq<Seq<char>> {
    ops.map_values(|o: Operation| o.module@)
}

/// The client methods of the operations, in operation order.
pub open spec fn op_methods(ops: Seq<Operation>) -> Seq<Seq<char>> {
    ops.map_values(|o: Operation| o.client_method@)
}

/// Everything one run generates.
pub struct Generation {
    /// One operation per root field, in generation order.
    pub operations: Vec<Operation>,
    /// The operations' module names in ascending order.
    pub modules: Vec<String>,
    /// The module index file.
    pub module_index: String,
    /// The re-export file.
    pub reexports: String,
    /// The client implementation file.
    pub client_impl: String,
}

/// `g` is what a run makes of the root fields `fs`.
pub open spec fn generation_for(g: Generation, types: Seq<FullType>, fs: Seq<(OperationKind, Field)>) -> bool {
    &&& g.operations@.len() == fs.len()
    &&& forall|i: int|
        0 <= i < fs.len() ==> #[trigger] operation_for(g.operations@[i], types, fs[i].0, fs[i].1)
    &&& views(g.modules@).to_multiset() == op_modules(g.operations@).to_multiset()
    &&& sorted_lex(views(g.modules@))
    &&& g.module_index@ == module_index_text(views(g.modules@))
    &&& g.reexports@ == reexport_text(views(g.modules@))
    &&& g.client_impl@ == client_file_text(op_methods(g.operations@))
}

/// Generates the operations of `fields`, all of kind `kind`, onto `ops`.
fn generate_all(
    schema: &Schema,
    kind: OperationKind,
    fields: &[Field],
    ops: &mut Vec<Operation>,
    Ghost(fs): Ghost<Seq<(OperationKind, Field)>>,
    Ghost(start): Ghost<int>,
) -> (r: Result<(), GenError>)
    requires
        start == old(ops)@.len(),
        start + fields@.len() <= fs.len(),
        forall|j: int|
            0 <= j < fields@.len() ==> #[trigger] fs[start + j].0 == kind && same_field(
                fs[start + j].1,
                fields@[j],
            ),
        forall|j: int|
            0 <= j < start ==> #[trigger] operation_for(old(ops)@[j], schema.types@, fs[j].0, fs[j].1),
        failure_from(schema.types@, fs, 0) == failure_from(schema.types@, fs, start),
    ensures
        r is Ok ==> {
            &&& final(ops)@.len() == start + fields@.len()
            &&& forall|j: int|
                0 <= j < final(ops)@.len() ==> #[trigger] operation_for(
                    final(ops)@[j],
                    schema.types@,
                    fs[j].0,
                    fs[j].1,
                )
            &&& failure_from(schema.types@, fs, 0) == failure_from(
                schema.types@,
                fs,
                start + fields@.len(),
            )
        },
        r matches Err(e) ==> (failure_from(schema.types@, fs, 0) matches Some(m) && e matches GenError::UnknownFieldType(n) && n@ == m),
{
    let mut i: usize = 0;
    while i < fields.len()
        invariant
            i <= fields@.len(),
            ops@.len() == start + i,
            start + fields@.len() <= fs.len(),
            forall|j: int|
                0 <= j < fields@.len() ==> #[trigger] fs[start + j].0 == kind && same_field(
                    fs[start + j].1,
                    fields@[j],
                ),
            forall|j: int|
                0 <= j < ops@.len() ==> #[trigger] operation_for(
                    ops@[j],
                    schema.types@,
                    fs[j].0,
                    fs[j].1,
                ),
            failure_from(schema.types@, fs, 0) == failure_from(schema.types@, fs, start + i),
        decreases fields@.len() - i,
    {
        let field = &fields[i];
        assert(fs[start + i].0 == kind && same_field(fs[start + i].1, fields@[i as int]));
        match generate_operation(schema, kind, field) {
            Ok(op) => {
                assert(operation_for(op, schema.types@, fs[start + i].0, fs[start + i].1));
                ops.push(op);
            },
            Err(e) => {
                return Err(e);
            },
        }
        i = i + 1;
    }
    Ok(())
}

/// Runs the generator over a schema: one operation per root field, Query
/// fields first and Mutation fields after, each in declaration order; the
/// module names sorted; and the module index, re-export and client files.
/// The first lookup failure stops the run.
pub fn generate(schema: &Schema) -> (r: Result<Generation, GenError>)
    ensures
        root_object(schema.types@, schema.query_type@) is None ==> (r matches Err(
            GenError::MissingRootType(n),
        ) && n@ == schema.query_type@),
        root_object(schema.types@, schema.query_type@) is Some ==> (schema.mutation_type matches Some(
            m,
        ) ==> (root_object(schema.types@, m@) is None ==> (r matches Err(
            GenError::MissingRootType(n),
        ) && n@ == m@))),
        root_fields(*schema) matches Some(fs) ==> {
            &&& failure_from(schema.types@, fs, 0) matches Some(m) ==> (r matches Err(
                GenError::UnknownFieldType(n),
            ) && n@ == m)
            &&& failure_from(schema.types@, fs, 0) is None ==> (r matches Ok(g) && generation_for(
                g,
                schema.types@,
                fs,
            ))
        },
{
    let query = match QueryType::from_schema(schema) {
        Ok(q) => q,
        Err(_) => return Err(GenError::MissingRootType(schema.query_type.clone())),
    };
    let mutation = match MutationType::from_schema(schema) {
        Ok(m) => m,
        Err(_) => {
            let name = match &schema.mutation_type {
                Some(name) => name.clone(),
                None => String::new(),
            };
            return Err(GenError::MissingRootType(name));
        },
    };
    let ghost fs = root_fields(*schema)->0;
    let ghost q = root_object(schema.types@, schema.query_type@)->0;
    let mut ops: Vec<Operation> = Vec::new();
    let qfields = query.fields();
    assert forall|j: int| 0 <= j < qfields@.len() implies #[trigger] fs[0 + j].0
        == OperationKind::Query && same_field(fs[0 + j].1, qfields@[j]) by {
        assert(same_field(qfields@[j], q.fields@[j]));
    }
    match generate_all(schema, OperationKind::Query, qfields, &mut ops, Ghost(fs), Ghost(0)) {
        Ok(()) => {},
        Err(e) => return Err(e),
    }
    if let Some(m) = &mutation {
        let ghost mo = root_object(schema.types@, schema.mutation_type->0@)->0;
        let mfields = m.fields();
        let ghost start = ops@.len() as int;
        assert forall|j: int| 0 <= j < mfields@.len() implies #[trigger] fs[start + j].0
            == OperationKind::Mutation && same_field(fs[start + j].1, mfields@[j]) by {
            assert(same_field(mfields@[j], mo.fields@[j]));
        }
        match generate_all(
            schema,
            OperationKind::Mutation,
            mfields,
            &mut ops,
            Ghost(fs),
            Ghost(start),
        ) {
            Ok(()) => {},
            Err(e) => return Err(e),
        }
    }
    assert(ops@.len() == fs.len());

    let mut modules: Vec<String> = Vec::new();
    let mut methods: Vec<String> = Vec::new();
    let mut i: usize = 0;
    while i < ops.len()
        invariant
            i <= ops@.len(),
            views(modules@) == op_modules(ops@).take(i as int),
            views(methods@) == op_methods(ops@).take(i as int),
        decreases ops.len() - i,
    {
        let ghost before_modules = modules@;
        let ghost before_methods = methods@;
        modules.push(ops[i].module.clone());
        methods.push(ops[i].client_method.clone());
        assert(views(modules@) =~= views(before_modules).push(ops@[i as int].module@));
        assert(views(methods@) =~= views(before_methods).push(ops@[i as int].client_method@));
        i = i + 1;
        assert(views(modules@) =~= op_modules(ops@).take(i as int));
        assert(views(methods@) =~= op_methods(ops@).take(i as int));
    }
    assert(op_modules(ops@).take(i as int) =~= op_modules(ops@));
    assert(op_methods(ops@).take(i as int) =~= op_methods(ops@));
    sort_strings(&mut modules);
    let module_index = module_index(&modules);
    let reexports = reexports(&modules);
    let client_impl = client_file(&methods);
    Ok(Generation { operations: ops, modules, module_index, reexports, client_impl })
}

} // verus!
