//! The three rewrite passes (attribute injection, context binding, body
//! rewriting) and their composition.

use vstd::prelude::*;
use crate::model::{
    attrs_view, params_view, strings_view, Attribute, AttributeModel, ExpandError, FnParam,
    FunctionDef, FunctionModel, ParamModel, Pattern, PatternModel, SymbolPath,
};
use crate::resolve::crate_name;

verus! {

/// Name of the parameterization entry point, under the parameterization crate.
pub open spec fn entry_point_name() -> Seq<char> {
    "rstest"@
}

/// The marker attribute `#[<crate>::rstest]`, placed first on a rewritten
/// function.
pub open spec fn entry_point_attr(rstest_crate: Seq<Seq<char>>) -> AttributeModel {
    AttributeModel {
        leading_colon: true,
        path: rstest_crate.push(entry_point_name()),
        args: Seq::empty(),
    }
}

/// The function with the entry point marker inserted before its attributes.
pub open spec fn with_entry_point(f: FunctionModel, rstest_crate: Seq<Seq<char>>) -> FunctionModel {
    FunctionModel { attrs: seq![entry_point_attr(rstest_crate)] + f.attrs, ..f }
}

/// Whether an attribute is the bare `#[context]` marker.
pub open spec fn is_context_attr(a: AttributeModel) -> bool {
    !a.leading_colon && a.path == seq!["context"@]
}

/// Whether some attribute of the list is the `#[context]` marker.
pub open spec fn has_context_attr(attrs: Seq<AttributeModel>) -> bool {
    exists|i: int| 0 <= i < attrs.len() && is_context_attr(#[trigger] attrs[i])
}

/// Whether a parameter carries the context marker.
pub open spec fn carries_context(p: ParamModel) -> bool {
    match p {
        ParamModel::Typed { attrs, .. } => has_context_attr(attrs),
        ParamModel::Receiver(_) => false,
    }
}

/// What a scan of the parameters in order meets first.
pub enum ContextScan {
    /// A context-marked parameter that binds this identifier.
    Found(Seq<char>),
    /// A method receiver.
    Receiver,
    /// Neither.
    Absent,
}

/// Scans the parameters in order: the first receiver, or the first
/// context-marked parameter that binds an identifier, whichever comes first.
/// A context-marked parameter with another pattern is passed over.
pub open spec fn context_scan(params: Seq<ParamModel>) -> ContextScan
    decreases params.len(),
{
    if params.len() == 0 {
        ContextScan::Absent
    } else {
        match params[0] {
            ParamModel::Receiver(_) => ContextScan::Receiver,
            ParamModel::Typed { attrs, pattern, .. } => {
                if has_context_attr(attrs) && pattern is Ident {
                    ContextScan::Found(pattern->Ident_name)
                } else {
                    context_scan(params.drop_first())
                }
            },
        }
    }
}

/// The binding name of the context parameter that the rewrite adds.
pub open spec fn sentinel_name() -> Seq<char> {
    "__rstest_insta__ctx"@
}

/// The parameter `#[context] __rstest_insta__ctx: Context`.
pub open spec fn sentinel_param() -> ParamModel {
    ParamModel::Typed {
        attrs: seq![AttributeModel { leading_colon: false, path: seq!["context"@], args: Seq::empty() }],
        pattern: PatternModel::Ident { name: sentinel_name(), text: sentinel_name() },
        ty: "Context"@,
    }
}

/// The function after context binding and the binding's name; `None` when a
/// method receiver comes first.
pub open spec fn bound_function(f: FunctionModel) -> Option<(FunctionModel, Seq<char>)> {
    match context_scan(f.params) {
        ContextScan::Found(name) => Some((f, name)),
        ContextScan::Receiver => None,
        ContextScan::Absent => Some(
            (FunctionModel { params: seq![sentinel_param()] + f.params, ..f }, sentinel_name()),
        ),
    }
}

/// `::a::b` for the segments `a`, `b`.
pub open spec fn path_text(segments: Seq<Seq<char>>) -> Seq<char>
    decreases segments.len(),
{
    if segments.len() == 0 {
        Seq::empty()
    } else {
        path_text(segments.drop_last()) + "::"@ + segments.last()
    }
}

/// What the rewritten body holds before the original body.
pub open spec fn body_prefix(ctx: Seq<char>, insta_crate: Seq<Seq<char>>) -> Seq<char> {
    "{ let __rstest_insta__suffix = "@ + ctx
        + ".description.map(|s| s.to_string()).unwrap_or("@ + ctx
        + ".case.unwrap_or(0).to_string()); "@ + path_text(insta_crate)
        + "::with_settings!({snapshot_suffix => __rstest_insta__suffix}, { "@
}

/// What the rewritten body holds after the original body.
pub open spec fn body_suffix() -> Seq<char> {
    " }) }"@
}

/// The new body: compute the snapshot suffix from the context binding, then
/// run the original body under snapshot settings that carry it.
pub open spec fn rewritten_body(ctx: Seq<char>, insta_crate: Seq<Seq<char>>, body: Seq<char>) -> Seq<char> {
    body_prefix(ctx, insta_crate) + body + body_suffix()
}

/// The whole rewrite, for given paths of the two crates.
pub open spec fn expanded(
    f: FunctionModel,
    rstest_crate: Seq<Seq<char>>,
    insta_crate: Seq<Seq<char>>,
) -> Option<FunctionModel> {
    match bound_function(with_entry_point(f, rstest_crate)) {
        Some((g, ctx)) => Some(FunctionModel { body: rewritten_body(ctx, insta_crate, g.body), ..g }),
        None => None,
    }
}

/// Adds `#[<rstest_crate>::rstest]` in front of the function's attributes.
pub fn expand_attribute(input_fn: FunctionDef, rstest_crate: &SymbolPath) -> (r: FunctionDef)
    ensures
        r@ == with_entry_point(input_fn@, rstest_crate@),
{
    let mut path: Vec<String> = Vec::new();
    let mut i: usize = 0;
    while i < rstest_crate.segments.len()
        invariant
            i <= rstest_crate.segments@.len(),
            path@ == rstest_crate.segments@.subrange(0, i as int),
        decreases rstest_crate.segments@.len() - i,
    {
        path.push(rstest_crate.segments[i].clone());
        assert(path@ =~= rstest_crate.segments@.subrange(0, i + 1));
        i += 1;
    }
    path.push(String::from_str("rstest"));
    assert(strings_view(path@) =~= rstest_crate@.push(entry_point_name()));
    let attr = Attribute { leading_colon: true, path, args: String::new() };
    let mut f = input_fn;
    let ghost old_attrs = f.attrs@;
    f.attrs.insert(0, attr);
    assert(attrs_view(f.attrs@) =~= seq![entry_point_attr(rstest_crate@)] + attrs_view(old_attrs));
    f
}

/// Whether `attrs` holds the bare `#[context]` marker.
fn has_context_attr_exec(attrs: &Vec<Attribute>) -> (r: bool)
    ensures
        r == has_context_attr(attrs_view(attrs@)),
{
    let marker = String::from_str("context");
    let mut i: usize = 0;
    while i < attrs.len()
        invariant
            i <= attrs@.len(),
            marker@ == "context"@,
            forall|j: int| 0 <= j < i ==> !is_context_attr(#[trigger] attrs_view(attrs@)[j]),
        decreases attrs@.len() - i,
    {
        let a = &attrs[i];
        assert(attrs_view(attrs@)[i as int] == a@);
        if !a.leading_colon && a.path.len() == 1 && a.path[0] == marker {
            assert(a@.path =~= seq!["context"@]);
            return true;
        }
        assert(!is_context_attr(a@)) by {
            if a.path@.len() == 1 {
                assert(a@.path[0] == a.path@[0]@);
            }
        }
        i += 1;
    }
    false
}

/// Shows that the scan from `i` on starts with parameter `i`.
proof fn lemma_scan_step(params: Seq<ParamModel>, i: int)
    requires
        0 <= i < params.len(),
    ensures
        params.subrange(i, params.len() as int)[0] == params[i],
        params.subrange(i, params.len() as int).drop_first() == params.subrange(i + 1, params.len() as int),
{
    assert(params.subrange(i, params.len() as int).drop_first() =~= params.subrange(i + 1, params.len() as int));
}

/// The binding of the first context-marked parameter that binds an
/// identifier; fails where a method receiver comes before it, since a
/// method cannot be a parameterized test.
pub fn context_var(args: &Vec<FnParam>) -> (r: Result<Option<String>, ExpandError>)
    ensures
        match context_scan(params_view(args@)) {
            ContextScan::Found(name) => r is Ok && r->Ok_0 is Some && r->Ok_0->Some_0@ == name,
            ContextScan::Receiver => r is Err && r->Err_0 is UnsupportedReceiver,
            ContextScan::Absent => r is Ok && r->Ok_0 is None,
        },
{
    let ghost pv = params_view(args@);
    let mut i: usize = 0;
    assert(pv.subrange(0, pv.len() as int) =~= pv);
    while i < args.len()
        invariant
            i <= args@.len(),
            pv == params_view(args@),
            context_scan(pv) == context_scan(pv.subrange(i as int, pv.len() as int)),
        decreases args@.len() - i,
    {
        proof { lemma_scan_step(pv, i as int); }
        assert(pv[i as int] == args@[i as int]@);
        match &args[i] {
            FnParam::Receiver(_) => {
                return Err(ExpandError::UnsupportedReceiver);
            },
            FnParam::Typed { attrs, pattern, .. } => {
                if has_context_attr_exec(attrs) {
                    match pattern {
                        Pattern::Ident { name, .. } => {
                            return Ok(Some(name.clone()));
                        },
                        Pattern::Other(_) => {},
                    }
                }
            },
        }
        i += 1;
    }
    assert(pv.subrange(i as int, pv.len() as int).len() == 0);
    Ok(None)
}

/// Finds the context binding of the function, adding
/// `#[context] __rstest_insta__ctx: Context` as first parameter when there is
/// none; returns the function and the binding's name.
pub fn context_binding(input_fn: FunctionDef) -> (r: Result<(FunctionDef, String), ExpandError>)
    ensures
        match bound_function(input_fn@) {
            Some((g, name)) => r is Ok && r->Ok_0.0@ == g && r->Ok_0.1@ == name,
            None => r is Err && r->Err_0 is UnsupportedReceiver,
        },
{
    match context_var(&input_fn.params) {
        Err(e) => Err(e),
        Ok(Some(ctx_ident)) => Ok((input_fn, ctx_ident)),
        Ok(None) => {
            let mut marker_path: Vec<String> = Vec::new();
            marker_path.push(String::from_str("context"));
            let marker = Attribute { leading_colon: false, path: marker_path, args: String::new() };
            let mut attrs: Vec<Attribute> = Vec::new();
            attrs.push(marker);
            let ctx_arg = FnParam::Typed {
                attrs,
                pattern: Pattern::Ident {
                    name: String::from_str("__rstest_insta__ctx"),
                    text: String::from_str("__rstest_insta__ctx"),
                },
                ty: String::from_str("Context"),
            };
            assert(attrs_view(attrs@) =~= seq![AttributeModel { leading_colon: false, path: seq!["context"@], args: Seq::empty() }]) by {
                assert(strings_view(attrs@[0].path@) =~= seq!["context"@]);
            }
            assert(ctx_arg@ == sentinel_param());
            let mut f = input_fn;
            let ghost old_params = f.params@;
            f.params.insert(0, ctx_arg);
            assert(params_view(f.params@) =~= seq![sentinel_param()] + params_view(old_params));
            Ok((f, String::from_str("__rstest_insta__ctx")))
        },
    }
}

/// Appends `::a::b` for the segments of `path`.
fn push_path_text(out: &mut String, path: &SymbolPath)
    ensures
        final(out)@ == old(out)@ + path_text(path@),
{
    let ghost start = out@;
    let mut i: usize = 0;
    assert(path@.subrange(0, 0) =~= Seq::<Seq<char>>::empty());
    while i < path.segments.len()
        invariant
            i <= path.segments@.len(),
            out@ == start + path_text(path@.subrange(0, i as int)),
        decreases path.segments@.len() - i,
    {
        out.append("::");
        out.append(path.segments[i].as_str());
        assert(path@.subrange(0, i + 1).drop_last() =~= path@.subrange(0, i as int));
        assert(path@.subrange(0, i + 1).last() == path.segments@[i as int]@);
        assert(out@ =~= start + path_text(path@.subrange(0, i + 1)));
        i += 1;
    }
    assert(path@.subrange(0, i as int) =~= path@);
}

/// Replaces the body with one that derives the snapshot suffix from
/// `ctx_binding` and runs the original body under
/// `<insta_crate>::with_settings!` with that suffix.
pub fn expand_body(input_fn: FunctionDef, ctx_binding: &str, insta_crate: &SymbolPath) -> (r: FunctionDef)
    ensures
        r@ == (FunctionModel { body: rewritten_body(ctx_binding@, insta_crate@, input_fn@.body), ..input_fn@ }),
{
    let mut body = String::from_str("{ let __rstest_insta__suffix = ");
    body.append(ctx_binding);
    body.append(".description.map(|s| s.to_string()).unwrap_or(");
    body.append(ctx_binding);
    body.append(".case.unwrap_or(0).to_string()); ");
    push_path_text(&mut body, insta_crate);
    body.append("::with_settings!({snapshot_suffix => __rstest_insta__suffix}, { ");
    body.append(input_fn.body.as_str());
    body.append(" }) }");
    let mut f = input_fn;
    f.body = body;
    f
}

/// The whole rewrite, for given paths of the parameterization and snapshot
/// crates.
pub fn expand_with(input_fn: FunctionDef, rstest_crate: &SymbolPath, insta_crate: &SymbolPath) -> (r: Result<FunctionDef, ExpandError>)
    ensures
        match expanded(input_fn@, rstest_crate@, insta_crate@) {
            Some(h) => r is Ok && r->Ok_0@ == h,
            None => r is Err && r->Err_0 is UnsupportedReceiver,
        },
{
    let f = expand_attribute(input_fn, rstest_crate);
    match context_binding(f) {
        Err(e) => Err(e),
        Ok((g, ctx_binding)) => Ok(expand_body(g, ctx_binding.as_str(), insta_crate)),
    }
}

/// Rewrites a test function: the `rstest` entry point goes first among its
/// attributes, it gets a context parameter when it has none, and its body runs
/// under `insta` snapshot settings whose suffix names the case. Both crates are
/// looked up among the dependencies of the crate being built.
pub fn expand(input_fn: FunctionDef) -> (r: Result<FunctionDef, ExpandError>)
    ensures
        r is Ok ==> exists|rstest_crate: Seq<Seq<char>>, insta_crate: Seq<Seq<char>>|
            rstest_crate.len() == 1 && insta_crate.len() == 1
                && #[trigger] expanded(input_fn@, rstest_crate, insta_crate) == Some(r->Ok_0@),
        r is Err && r->Err_0 is UnsupportedReceiver ==> context_scan(input_fn@.params) is Receiver,
        r is Err && r->Err_0 is MissingDependency ==> r->Err_0->crate_name@ == "rstest"@
            || r->Err_0->crate_name@ == "insta"@,
        context_scan(input_fn@.params) is Receiver ==> r is Err,
{
    let rstest_crate = match crate_name("rstest") {
        Ok(p) => p,
        Err(e) => {
            return Err(e);
        },
    };
    let insta_crate = match crate_name("insta") {
        Ok(p) => p,
        Err(e) => {
            return Err(e);
        },
    };
    let r = expand_with(input_fn, &rstest_crate, &insta_crate);
    assert(with_entry_point(input_fn@, rstest_crate@).params == input_fn@.params);
    r
}

} // verus!
