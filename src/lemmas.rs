//! Laws of the generator, stated over the same spec functions as the
//! contracts of `generator`.

use vstd::prelude::*;

use crate::generator::{
    applied_args, clause, declared_vars, field_document, generation_for, is_scalar, join,
    kind_word, lex_le, op_methods, op_modules, operation_for, scalar_prefix, sorted_lex, views,
    Generation, OperationKind,
};
use crate::names::{pascal_case_of, sanitized, snake_case_of};
use crate::schema::{leaf_name, lookup, rendered, Argument, Field, FullType};

verus! {

/// A field with no arguments gets neither a variable-declaration clause nor
/// an applied-argument clause: its document reads
/// `<kind> <Op> {\n    <field> {\n        ...<Fragment>` and so on, with
/// nothing between the names and the braces.
pub proof fn lemma_no_arguments_no_clauses(kind: OperationKind, f: Field, selected: Seq<Seq<char>>)
    requires
        f.args@.len() == 0,
    ensures
        clause(declared_vars(f.args@)) == Seq::<char>::empty(),
        clause(applied_args(f.args@)) == Seq::<char>::empty(),
        field_document(kind, f, selected) == kind_word(kind) + " "@ + pascal_case_of(
            sanitized(f.name@),
        ) + " {\n    "@ + f.name@ + " {\n        ..."@ + pascal_case_of(leaf_name(f.ty))
            + "\n    }\n}\n\nfragment "@ + pascal_case_of(leaf_name(f.ty)) + " on "@
            + pascal_case_of(leaf_name(f.ty)) + " {\n    __typename\n    "@ + join(
            selected,
            "\n    "@,
        ) + "\n}"@,
{
    let op = pascal_case_of(sanitized(f.name@));
    assert(kind_word(kind) + " "@ + op + Seq::<char>::empty() =~= kind_word(kind) + " "@ + op);
    assert(kind_word(kind) + " "@ + op + " {\n    "@ + f.name@ + Seq::<char>::empty()
        =~= kind_word(kind) + " "@ + op + " {\n    "@ + f.name@);
}

/// The declared variables and the applied arguments are aligned with the
/// arguments: the Nth declaration is `$` + snake_case of the Nth argument
/// name + `: ` + its type, and the Nth applied argument binds the Nth
/// argument name to that same variable.
pub proof fn lemma_arguments_aligned(args: Seq<Argument>, n: int)
    requires
        0 <= n < args.len(),
    ensures
        declared_vars(args).len() == args.len(),
        applied_args(args).len() == args.len(),
        declared_vars(args)[n] == "$"@ + snake_case_of(args[n].name@) + ": "@ + rendered(args[n].ty),
        applied_args(args)[n] == args[n].name@ + ": $"@ + snake_case_of(args[n].name@),
{
}

/// A sub-field whose leaf type is a scalar of the catalogue.
pub open spec fn has_scalar_leaf(types: Seq<FullType>, f: Field) -> bool {
    lookup(types, leaf_name(f.ty)) matches Some(t) && is_scalar(t)
}

/// The predicate `has_scalar_leaf` for a fixed catalogue.
pub open spec fn scalar_leaf(types: Seq<FullType>) -> spec_fn(Field) -> bool {
    |f: Field| has_scalar_leaf(types, f)
}

/// The names of a list of fields.
pub open spec fn field_names(fields: Seq<Field>) -> Seq<Seq<char>> {
    fields.map_values(|f: Field| f.name@)
}

proof fn lemma_prefix_is_filter(types: Seq<FullType>, subs: Seq<Field>, k: int)
    requires
        0 <= k <= subs.len(),
        scalar_prefix(types, subs, k) is Ok,
    ensures
        scalar_prefix(types, subs, k)->Ok_0 == field_names(subs.take(k).filter(scalar_leaf(types))),
    decreases k,
{
    reveal(Seq::filter);
    if k == 0 {
        assert(subs.take(0).filter(scalar_leaf(types)) =~= Seq::<Field>::empty());
        assert(field_names(Seq::<Field>::empty()) =~= Seq::<Seq<char>>::empty());
    } else {
        lemma_prefix_is_filter(types, subs, k - 1);
        let t = subs.take(k);
        assert(t.drop_last() =~= subs.take(k - 1));
        assert(t.last() == subs[k - 1]);
        let prev = subs.take(k - 1).filter(scalar_leaf(types));
        assert(field_names(prev.push(subs[k - 1])) =~= field_names(prev).push(subs[k - 1].name@));
    }
}

/// The fragment selects exactly the sub-fields whose leaf type is a scalar,
/// in their declaration order; sub-fields of any other kind are left out.
pub proof fn lemma_selection_keeps_scalars_in_order(types: Seq<FullType>, subs: Seq<Field>)
    requires
        scalar_prefix(types, subs, subs.len() as int) is Ok,
    ensures
        scalar_prefix(types, subs, subs.len() as int)->Ok_0 == field_names(
            subs.filter(scalar_leaf(types)),
        ),
{
    lemma_prefix_is_filter(types, subs, subs.len() as int);
    assert(subs.take(subs.len() as int) =~= subs);
}

/// Two sequences that each precede the other are equal.
proof fn lemma_lex_antisymmetric(a: Seq<char>, b: Seq<char>)
    requires
        lex_le(a, b),
        lex_le(b, a),
    ensures
        a == b,
    decreases a.len(),
{
    if a.len() == 0 {
        assert(a =~= b);
    } else if a[0] == b[0] {
        assert(b.len() > 0);
        lemma_lex_antisymmetric(a.skip(1), b.skip(1));
        assert(a.skip(1).len() == b.skip(1).len());
        assert(a.len() == b.len());
        assert forall|i: int| 0 <= i < a.len() implies a[i] == b[i] by {
            if i > 0 {
                assert(a.skip(1)[i - 1] == b.skip(1)[i - 1]);
            }
        }
        assert(a =~= b);
    }
}

/// Two sorted arrangements of the same multiset are the same sequence.
proof fn lemma_sorted_unique(a: Seq<Seq<char>>, b: Seq<Seq<char>>)
    requires
        sorted_lex(a),
        sorted_lex(b),
        a.to_multiset() == b.to_multiset(),
    ensures
        a == b,
    decreases a.len(),
{
    broadcast use vstd::seq_lib::group_to_multiset_ensures;

    assert(a.len() == a.to_multiset().len());
    assert(b.len() == b.to_multiset().len());
    if a.len() > 0 {
        assert(a.to_multiset().count(a[0]) > 0);
        assert(b.contains(a[0]));
        let k = choose|k: int| 0 <= k < b.len() && b[k] == a[0];
        assert(b.to_multiset().count(b[0]) > 0);
        assert(a.contains(b[0]));
        let l = choose|l: int| 0 <= l < a.len() && a[l] == b[0];
        if k > 0 {
            assert(lex_le(b[0], b[k]));
        }
        if l > 0 {
            assert(lex_le(a[0], a[l]));
        }
        if k > 0 && l > 0 {
            lemma_lex_antisymmetric(a[0], b[0]);
        }
        assert(a[0] == b[0]);
        assert(a.remove(0).to_multiset() == a.to_multiset().remove(a[0]));
        assert(b.remove(0).to_multiset() == b.to_multiset().remove(b[0]));
        assert(a.remove(0) =~= a.skip(1));
        assert(b.remove(0) =~= b.skip(1));
        assert(sorted_lex(a.skip(1)));
        assert(sorted_lex(b.skip(1)));
        lemma_sorted_unique(a.skip(1), b.skip(1));
        assert forall|i: int| 0 <= i < a.len() implies a[i] == b[i] by {
            if i > 0 {
                assert(a.skip(1)[i - 1] == b.skip(1)[i - 1]);
            }
        }
    }
    assert(a =~= b);
}

/// Generation is deterministic: two runs over the same root fields of the
/// same catalogue produce the same documents, module names and aggregator
/// files, character for character.
pub proof fn lemma_generation_deterministic(
    types: Seq<FullType>,
    fs: Seq<(OperationKind, Field)>,
    first: Generation,
    second: Generation,
)
    requires
        generation_for(first, types, fs),
        generation_for(second, types, fs),
    ensures
        first.operations@.len() == second.operations@.len(),
        forall|i: int|
            0 <= i < first.operations@.len() ==> {
                &&& #[trigger] first.operations@[i].document@ == second.operations@[i].document@
                &&& first.operations@[i].name@ == second.operations@[i].name@
                &&& first.operations@[i].module@ == second.operations@[i].module@
                &&& first.operations@[i].client_method@ == second.operations@[i].client_method@
            },
        views(first.modules@) == views(second.modules@),
        first.module_index@ == second.module_index@,
        first.reexports@ == second.reexports@,
        first.client_impl@ == second.client_impl@,
{
    assert forall|i: int| 0 <= i < first.operations@.len() implies {
        &&& #[trigger] first.operations@[i].document@ == second.operations@[i].document@
        &&& first.operations@[i].name@ == second.operations@[i].name@
        &&& first.operations@[i].module@ == second.operations@[i].module@
        &&& first.operations@[i].client_method@ == second.operations@[i].client_method@
    } by {
        assert(operation_for(first.operations@[i], types, fs[i].0, fs[i].1));
        assert(operation_for(second.operations@[i], types, fs[i].0, fs[i].1));
    }
    assert forall|i: int| 0 <= i < first.operations@.len() implies op_modules(first.operations@)[i]
        == op_modules(second.operations@)[i] && op_methods(first.operations@)[i] == op_methods(
        second.operations@,
    )[i] by {
        assert(operation_for(first.operations@[i], types, fs[i].0, fs[i].1));
        assert(operation_for(second.operations@[i], types, fs[i].0, fs[i].1));
    }
    assert(op_modules(first.operations@) =~= op_modules(second.operations@));
    assert(op_methods(first.operations@) =~= op_methods(second.operations@));
    lemma_sorted_unique(views(first.modules@), views(second.modules@));
}

} // verus!
