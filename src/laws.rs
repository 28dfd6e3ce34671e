//! Properties of the rewrite that hold of every function.

use vstd::prelude::*;
use crate::codegen::{
    body_prefix, bound_function, carries_context, context_scan, entry_point_attr, expanded,
    has_context_attr, is_context_attr, sentinel_name, sentinel_param, with_entry_point, ContextScan,
};
use crate::model::{FunctionModel, ParamModel, PatternModel};

verus! {

/// The identifier that a typed parameter binds, if its pattern is one.
pub open spec fn bound_ident(p: ParamModel) -> Option<Seq<char>> {
    match p {
        ParamModel::Typed { pattern: PatternModel::Ident { name: n, .. }, .. } => Some(n),
        _ => None,
    }
}

/// A scan passes over leading parameters that are neither receivers nor
/// context-marked.
proof fn lemma_scan_skip(params: Seq<ParamModel>, k: int)
    requires
        0 <= k <= params.len(),
        forall|j: int| 0 <= j < k ==> !carries_context(#[trigger] params[j]) && !(params[j] is Receiver),
    ensures
        context_scan(params) == context_scan(params.subrange(k, params.len() as int)),
    decreases k,
{
    if k == 0 {
        assert(params.subrange(0, params.len() as int) =~= params);
    } else {
        assert(!carries_context(params[0]) && !(params[0] is Receiver));
        let rest = params.drop_first();
        assert forall|j: int| 0 <= j < k - 1 implies !carries_context(#[trigger] rest[j]) && !(rest[j] is Receiver) by {
            assert(rest[j] == params[j + 1]);
        }
        lemma_scan_skip(rest, k - 1);
        assert(rest.subrange(k - 1, rest.len() as int) =~= params.subrange(k, params.len() as int));
    }
}

/// However many attributes a function had, the entry point marker is the
/// first attribute after injection and after the whole rewrite, and the
/// earlier attributes follow it in their order.
pub proof fn lemma_entry_point_first(f: FunctionModel, rstest_crate: Seq<Seq<char>>, insta_crate: Seq<Seq<char>>)
    ensures
        with_entry_point(f, rstest_crate).attrs[0] == entry_point_attr(rstest_crate),
        with_entry_point(f, rstest_crate).attrs.drop_first() == f.attrs,
        expanded(f, rstest_crate, insta_crate) is Some ==> expanded(f, rstest_crate, insta_crate)->Some_0.attrs
            == with_entry_point(f, rstest_crate).attrs,
{
    assert(with_entry_point(f, rstest_crate).attrs.drop_first() =~= f.attrs);
}

/// A function without a context-marked parameter or a receiver gets exactly
/// one context-marked parameter, first, named by the sentinel; the other
/// parameters follow in their order.
pub proof fn lemma_binding_adds_sentinel(f: FunctionModel)
    requires
        forall|j: int| 0 <= j < f.params.len() ==> !carries_context(#[trigger] f.params[j]) && !(f.params[j] is Receiver),
    ensures
        bound_function(f) is Some,
        bound_function(f)->Some_0.1 == sentinel_name(),
        bound_function(f)->Some_0.0.params[0] == sentinel_param(),
        bound_function(f)->Some_0.0.params.drop_first() == f.params,
        forall|i: int| 0 <= i < bound_function(f)->Some_0.0.params.len() ==>
            (carries_context(#[trigger] bound_function(f)->Some_0.0.params[i]) <==> i == 0),
{
    lemma_scan_skip(f.params, f.params.len() as int);
    assert(context_scan(f.params.subrange(f.params.len() as int, f.params.len() as int)) == ContextScan::Absent);
    let g = bound_function(f)->Some_0.0;
    assert(g.params.drop_first() =~= f.params);
    match sentinel_param() {
        ParamModel::Typed { attrs, .. } => {
            assert(is_context_attr(attrs[0]));
            assert(has_context_attr(attrs));
        },
        _ => {},
    }
    assert forall|i: int| 0 <= i < g.params.len() implies (carries_context(#[trigger] g.params[i]) <==> i == 0) by {
        if i > 0 {
            assert(g.params[i] == f.params[i - 1]);
        }
    }
}

/// A function whose one context-marked parameter binds an identifier, with no
/// receiver before it, is left unchanged, and the binding is that identifier.
pub proof fn lemma_binding_keeps_context(f: FunctionModel, k: int)
    requires
        0 <= k < f.params.len(),
        carries_context(f.params[k]),
        bound_ident(f.params[k]) is Some,
        forall|j: int| 0 <= j < f.params.len() && j != k ==> !carries_context(#[trigger] f.params[j]),
        forall|j: int| 0 <= j < k ==> !(#[trigger] f.params[j] is Receiver),
    ensures
        bound_function(f) == Some((f, bound_ident(f.params[k])->Some_0)),
{
    assert forall|j: int| 0 <= j < k implies !carries_context(#[trigger] f.params[j]) && !(f.params[j] is Receiver) by {
        assert(!(f.params[j] is Receiver));
    }
    lemma_scan_skip(f.params, k);
    let rest = f.params.subrange(k, f.params.len() as int);
    assert(rest[0] == f.params[k]);
}

/// The original body stands, unchanged and in one piece, inside the
/// rewritten body.
pub proof fn lemma_body_contained(f: FunctionModel, rstest_crate: Seq<Seq<char>>, insta_crate: Seq<Seq<char>>)
    requires
        expanded(f, rstest_crate, insta_crate) is Some,
    ensures
        exists|i: int| 0 <= i && i + f.body.len() <= expanded(f, rstest_crate, insta_crate)->Some_0.body.len()
            && #[trigger] expanded(f, rstest_crate, insta_crate)->Some_0.body.subrange(i, i + f.body.len()) == f.body,
{
    let ctx = bound_function(with_entry_point(f, rstest_crate))->Some_0.1;
    let g = bound_function(with_entry_point(f, rstest_crate))->Some_0.0;
    assert(g.body == f.body);
    let i = body_prefix(ctx, insta_crate).len() as int;
    let h = expanded(f, rstest_crate, insta_crate)->Some_0;
    assert(h.body.subrange(i, i + f.body.len()) =~= f.body);
}

/// A function whose first parameter is a method receiver is not rewritten.
pub proof fn lemma_receiver_rejected(f: FunctionModel, rstest_crate: Seq<Seq<char>>, insta_crate: Seq<Seq<char>>)
    requires
        f.params.len() > 0,
        f.params[0] is Receiver,
    ensures
        bound_function(f) is None,
        expanded(f, rstest_crate, insta_crate) is None,
{
    assert(with_entry_point(f, rstest_crate).params == f.params);
}

} // verus!
