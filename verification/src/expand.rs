//! The attribute expansion: from a decorated function and its annotations
//! (`test`, optional `tags`, optional `source`) to the factory it stands for,
//! or to one compile-time diagnostic.
//!
//! The expansion works on a first-order picture of the annotation surface:
//! argument shapes, verbatim argument texts, and caller-assigned span
//! handles. Everything it decides — validation, the resolved name, the tag
//! list, the source path, the generated parameter names — is stated exactly.
use vstd::prelude::*;
use vstd::string::StringExecFns;

verus! {

/// One argument in an annotation's parenthesized list.
pub enum ArgKind {
    /// A string literal; the field holds its value.
    StrLit(String),
    /// A literal of any other kind.
    OtherLit,
    /// A path, for instance a bare identifier; the field holds its segments.
    PathMeta(Vec<String>),
    /// Any other argument shape (a nested annotation, name = value, ...).
    OtherMeta,
}

/// One annotation argument: its shape, its verbatim source text (re-emitted
/// where the expansion forwards the argument), and a caller-assigned handle
/// to its source span, carried into diagnostics.
pub struct AttrArg {
    pub kind: ArgKind,
    pub text: String,
    pub span: u32,
}

/// The body of an auxiliary annotation (`tags` or `source`).
pub enum AttrBody {
    /// Given in list form: the arguments between the parentheses.
    List(Vec<AttrArg>),
    /// Given in some other form (a bare word, name = value, ...).
    NotList,
}

/// An auxiliary annotation, with the span of the whole annotation.
pub struct AuxAttr {
    pub body: AttrBody,
    pub span: u32,
}

/// One parameter of the decorated function.
#[derive(Clone, Copy)]
pub struct FnParam {
    /// A receiver parameter is forwarded under its own name rather than
    /// under a generated positional name.
    pub is_receiver: bool,
}

/// Everything the expansion reads from a decorated function: its identifier,
/// its parameters, the arguments of the `test` annotation, and the optional
/// `tags` and `source` annotations.
pub struct TestFnInput {
    pub fn_name: String,
    pub params: Vec<FnParam>,
    pub test_args: Vec<AttrArg>,
    pub tags: Option<AuxAttr>,
    pub source: Option<AuxAttr>,
    /// Span handle of the decorated function itself, used where a diagnostic
    /// has no narrower element to point at.
    pub fn_span: u32,
}

/// A compile-time diagnostic: a message and the span of the offending
/// element. When one is emitted, no code is generated.
pub struct Diagnostic {
    pub message: String,
    pub span: u32,
}

/// The resolved name of the expansion.
#[derive(Debug)]
pub enum NamePlan {
    /// The name is this string, fixed at expansion time.
    Static(String),
    /// The name is derived per row: a format literal, then the verbatim
    /// texts of the annotation's identifier arguments, in order.
    Format(String, Vec<String>),
}

/// What the expansion emits, in first-order form: a factory that yields one
/// simple descriptor when no source is declared, and one descriptor per row
/// of the source's sequence otherwise.
#[derive(Debug)]
pub struct Plan {
    pub name: NamePlan,
    /// The declared tag literals, in order of appearance.
    pub tags: Vec<String>,
    /// The path of the data-source function, if one was declared.
    pub source: Option<Vec<String>>,
    /// The parameter names of the row-destructuring closure, one per
    /// parameter of the decorated function: a receiver is forwarded by name,
    /// any other parameter gets a reserved positional name that cannot
    /// collide with user identifiers.
    pub arg_names: Vec<String>,
}

/// Whether the argument is a string literal.
pub open spec fn is_str_lit(a: AttrArg) -> bool {
    a.kind is StrLit
}

/// Whether the argument is a path.
pub open spec fn is_path(a: AttrArg) -> bool {
    a.kind is PathMeta
}

pub open spec fn msg_expected_string() -> Seq<char> {
    "expected a string literal"@
}

pub open spec fn msg_expected_format_string() -> Seq<char> {
    "expected a format string literal"@
}

pub open spec fn msg_tags_item() -> Seq<char> {
    "expected string literal"@
}

pub open spec fn msg_tags_not_list() -> Seq<char> {
    "tags attribute must be a list"@
}

pub open spec fn msg_source_empty() -> Seq<char> {
    "expected 1 item"@
}

pub open spec fn msg_source_many() -> Seq<char> {
    "expected at most 1 item"@
}

pub open spec fn msg_source_not_path() -> Seq<char> {
    "source value must be a path to a function"@
}

pub open spec fn msg_format_without_source() -> Seq<char> {
    "cannot use format name without data source"@
}

pub open spec fn msg_args_without_source() -> Seq<char> {
    "cannot use arguments without data source"@
}

/// The `test` annotation's argument list is well-formed: empty, or headed by
/// a string literal.
pub open spec fn test_attr_wf(args: Seq<AttrArg>) -> bool {
    args.len() == 0 || is_str_lit(args[0])
}

/// The `test` annotation uses the format-name shape: a literal followed by
/// at least one argument.
pub open spec fn name_is_format(args: Seq<AttrArg>) -> bool {
    args.len() >= 2
}

/// The resolved name `n` is the one the `test` annotation's arguments call
/// for (meaningful when `test_attr_wf` holds).
pub open spec fn name_plan_ok(args: Seq<AttrArg>, fn_name: Seq<char>, n: NamePlan) -> bool {
    if args.len() == 0 {
        n matches NamePlan::Static(s) && s@ == fn_name
    } else if args.len() == 1 {
        args[0].kind matches ArgKind::StrLit(v) && n matches NamePlan::Static(s) && s@ == v@
    } else {
        args[0].kind matches ArgKind::StrLit(v) && n matches NamePlan::Format(f, xs) && f@ == v@
            && xs@.len() == args.len() - 1 && (forall|j: int|
            0 <= j < xs@.len() ==> (#[trigger] xs@[j])@ == args[j + 1].text@)
    }
}

/// The diagnostic a malformed `test` annotation produces.
pub open spec fn test_attr_err(args: Seq<AttrArg>, d: Diagnostic) -> bool {
    if args.len() == 1 {
        d.message@ == msg_expected_string() && d.span == args[0].span
    } else {
        d.message@ == msg_expected_format_string() && d.span == args[0].span
    }
}

/// The `tags` annotation is well-formed: absent, or a list of string
/// literals (zero literals are permitted).
pub open spec fn tags_wf(t: Option<AuxAttr>) -> bool {
    match t {
        Option::None => true,
        Option::Some(a) => match a.body {
            AttrBody::List(items) => forall|i: int|
                0 <= i < items@.len() ==> is_str_lit(#[trigger] items@[i]),
            AttrBody::NotList => false,
        },
    }
}

/// The tag list `v` is the one the `tags` annotation declares.
pub open spec fn tags_ok(t: Option<AuxAttr>, v: Seq<String>) -> bool {
    match t {
        Option::None => v.len() == 0,
        Option::Some(a) => match a.body {
            AttrBody::List(items) => v.len() == items@.len() && (forall|i: int|
                0 <= i < items@.len() ==> ((#[trigger] items@[i]).kind matches ArgKind::StrLit(s)
                    && v[i]@ == s@)),
            AttrBody::NotList => false,
        },
    }
}

/// The diagnostic a malformed `tags` annotation produces: the first item
/// that is not a string literal is named, or the whole annotation when it is
/// not in list form.
pub open spec fn tags_err(t: Option<AuxAttr>, d: Diagnostic) -> bool {
    t matches Option::Some(a) && match a.body {
        AttrBody::List(items) => exists|i: int|
            0 <= i < items@.len() && !is_str_lit(#[trigger] items@[i]) && (forall|j: int|
                0 <= j < i ==> is_str_lit(#[trigger] items@[j])) && d.message@ == msg_tags_item()
                && d.span == items@[i].span,
        AttrBody::NotList => d.message@ == msg_tags_not_list() && d.span == a.span,
    }
}

/// The `source` annotation is well-formed: absent, not in list form (then it
/// declares nothing), or a list holding exactly one path.
pub open spec fn source_wf(s: Option<AuxAttr>) -> bool {
    match s {
        Option::None => true,
        Option::Some(a) => match a.body {
            AttrBody::List(items) => items@.len() == 1 && is_path(items@[0]),
            AttrBody::NotList => true,
        },
    }
}

/// A data source is declared: the `source` annotation is present in list
/// form.
pub open spec fn has_source(s: Option<AuxAttr>) -> bool {
    s matches Option::Some(a) && a.body is List
}

/// The resolved source `o` is the one the `source` annotation declares
/// (meaningful when `source_wf` holds).
pub open spec fn source_ok(s: Option<AuxAttr>, o: Option<Vec<String>>) -> bool {
    match s {
        Option::None => o is None,
        Option::Some(a) => match a.body {
            AttrBody::List(items) => items@[0].kind matches ArgKind::PathMeta(p)
                && o matches Option::Some(path) && path@ == p@,
            AttrBody::NotList => o is None,
        },
    }
}

/// The diagnostic a malformed `source` annotation produces.
pub open spec fn source_err(s: Option<AuxAttr>, d: Diagnostic) -> bool {
    s matches Option::Some(a) && a.body matches AttrBody::List(items) && {
        if items@.len() == 0 {
            d.message@ == msg_source_empty() && d.span == a.span
        } else if items@.len() == 1 {
            !is_path(items@[0]) && d.message@ == msg_source_not_path() && d.span
                == items@[0].span
        } else {
            d.message@ == msg_source_many() && d.span == a.span
        }
    }
}

/// The whole decorated function is well-formed: each annotation is, and the
/// two combination rules hold — a format name needs a data source, and
/// parameters need a data source.
pub open spec fn input_wf(inp: TestFnInput) -> bool {
    &&& test_attr_wf(inp.test_args@)
    &&& tags_wf(inp.tags)
    &&& source_wf(inp.source)
    &&& (name_is_format(inp.test_args@) ==> has_source(inp.source))
    &&& (inp.params@.len() > 0 ==> has_source(inp.source))
}

/// The decimal digits of `n`, most significant first.
pub open spec fn spec_udec(n: nat) -> Seq<char>
    decreases n,
{
    if n < 10 {
        seq![digit_char(n)]
    } else {
        spec_udec(n / 10).push(digit_char(n % 10))
    }
}

/// The character of one decimal digit.
pub open spec fn digit_char(d: nat) -> char
    recommends
        d < 10,
{
    if d == 0 {
        '0'
    } else if d == 1 {
        '1'
    } else if d == 2 {
        '2'
    } else if d == 3 {
        '3'
    } else if d == 4 {
        '4'
    } else if d == 5 {
        '5'
    } else if d == 6 {
        '6'
    } else if d == 7 {
        '7'
    } else if d == 8 {
        '8'
    } else {
        '9'
    }
}

/// The generated name of the parameter at position `i`: a receiver is
/// forwarded verbatim, any other parameter gets the reserved positional
/// name.
pub open spec fn spec_arg_name(p: FnParam, i: nat) -> Seq<char> {
    if p.is_receiver {
        "self"@
    } else {
        "__arg_"@ + spec_udec(i)
    }
}

fn digit_str(d: usize) -> (r: &'static str)
    requires
        d < 10,
    ensures
        r@ == seq![digit_char(d as nat)],
{
    let r: &'static str = if d == 0 {
        "0"
    } else if d == 1 {
        "1"
    } else if d == 2 {
        "2"
    } else if d == 3 {
        "3"
    } else if d == 4 {
        "4"
    } else if d == 5 {
        "5"
    } else if d == 6 {
        "6"
    } else if d == 7 {
        "7"
    } else if d == 8 {
        "8"
    } else {
        "9"
    };
    proof {
        reveal_strlit("0");
        reveal_strlit("1");
        reveal_strlit("2");
        reveal_strlit("3");
        reveal_strlit("4");
        reveal_strlit("5");
        reveal_strlit("6");
        reveal_strlit("7");
        reveal_strlit("8");
        reveal_strlit("9");
        assert(r@ =~= seq![digit_char(d as nat)]);
    }
    r
}

/// Writes `n` in decimal.
pub fn usize_to_string(n: usize) -> (s: String)
    ensures
        s@ == spec_udec(n as nat),
    decreases n,
{
    if n < 10 {
        let s = digit_str(n).to_owned();
        proof {
            assert(s@ =~= spec_udec(n as nat));
        }
        s
    } else {
        let mut s = usize_to_string(n / 10);
        s.append(digit_str(n % 10));
        proof {
            assert(s@ =~= spec_udec(n as nat));
        }
        s
    }
}

/// The generated parameter names of the row-destructuring closure, one per
/// parameter of the decorated function.
pub fn make_arg_names(params: &Vec<FnParam>) -> (r: Vec<String>)
    ensures
        r@.len() == params@.len(),
        forall|i: int|
            0 <= i < params@.len() ==> (#[trigger] r@[i])@ == spec_arg_name(params@[i], i as nat),
{
    let mut r: Vec<String> = Vec::new();
    let mut i: usize = 0;
    while i < params.len()
        invariant
            0 <= i <= params@.len(),
            r@.len() == i,
            forall|j: int|
                0 <= j < i ==> (#[trigger] r@[j])@ == spec_arg_name(params@[j], j as nat),
        decreases params@.len() - i,
    {
        if params[i].is_receiver {
            r.push(String::from_str("self"));
        } else {
            let mut s = String::from_str("__arg_");
            let digits = usize_to_string(i);
            s.append(digits.as_str());
            r.push(s);
        }
        i += 1;
    }
    r
}

/// Whether an annotation of the decorated function is re-emitted on the
/// inner copy: `tags` and `source` are consumed by the expansion and
/// stripped from the forwarded set, everything else is preserved.
pub fn keep_attr(name: &str) -> (r: bool)
    ensures
        r == (name@ != "tags"@ && name@ != "source"@),
{
    let n = name.to_owned();
    let tags_word = String::from_str("tags");
    let source_word = String::from_str("source");
    n != tags_word && n != source_word
}

/// Resolves the `test` annotation's arguments into the name of the
/// expansion: the function's own identifier, a static literal, or a format
/// literal with its identifier arguments.
pub fn parse_test_attr(args: &Vec<AttrArg>, fn_name: &String) -> (r: Result<NamePlan, Diagnostic>)
    ensures
        r is Ok <==> test_attr_wf(args@),
        r matches Ok(n) ==> name_plan_ok(args@, fn_name@, n),
        r matches Err(d) ==> test_attr_err(args@, d),
{
    if args.len() == 0 {
        Ok(NamePlan::Static(fn_name.clone()))
    } else if args.len() == 1 {
        match &args[0].kind {
            ArgKind::StrLit(v) => Ok(NamePlan::Static(v.clone())),
            _ => Err(
                Diagnostic {
                    message: String::from_str("expected a string literal"),
                    span: args[0].span,
                },
            ),
        }
    } else {
        match &args[0].kind {
            ArgKind::StrLit(v) => {
                let mut xs: Vec<String> = Vec::new();
                let mut i: usize = 1;
                while i < args.len()
                    invariant
                        1 <= i <= args@.len(),
                        xs@.len() == i - 1,
                        forall|j: int|
                            0 <= j < i - 1 ==> (#[trigger] xs@[j])@ == args@[j + 1].text@,
                    decreases args@.len() - i,
                {
                    xs.push(args[i].text.clone());
                    i += 1;
                }
                Ok(NamePlan::Format(v.clone(), xs))
            },
            _ => Err(
                Diagnostic {
                    message: String::from_str("expected a format string literal"),
                    span: args[0].span,
                },
            ),
        }
    }
}

/// Resolves the `tags` annotation into the declared tag literals, in order
/// of appearance; an absent annotation declares the empty list.
#[verifier::loop_isolation(false)]
pub fn parse_tags(tags: &Option<AuxAttr>) -> (r: Result<Vec<String>, Diagnostic>)
    ensures
        r is Ok <==> tags_wf(*tags),
        r matches Ok(v) ==> tags_ok(*tags, v@),
        r matches Err(d) ==> tags_err(*tags, d),
{
    match tags {
        Option::None => Ok(Vec::new()),
        Option::Some(a) => match &a.body {
            AttrBody::NotList => Err(
                Diagnostic {
                    message: String::from_str("tags attribute must be a list"),
                    span: a.span,
                },
            ),
            AttrBody::List(items) => {
                let mut v: Vec<String> = Vec::new();
                let mut i: usize = 0;
                while i < items.len()
                    invariant
                        0 <= i <= items@.len(),
                        v@.len() == i,
                        forall|j: int|
                            0 <= j < i ==> ((#[trigger] items@[j]).kind matches ArgKind::StrLit(s)
                                && v@[j]@ == s@),
                    decreases items@.len() - i,
                {
                    match &items[i].kind {
                        ArgKind::StrLit(s) => {
                            v.push(s.clone());
                        },
                        _ => {
                            let d = Diagnostic {
                                message: String::from_str("expected string literal"),
                                span: items[i].span,
                            };
                            proof {
                                let k = i as int;
                                match tags {
                                    Option::Some(aa) => match &aa.body {
                                        AttrBody::List(ii) => {
                                            assert(ii@ == items@);
                                            assert(0 <= k < ii@.len() && !is_str_lit(ii@[k]) && (
                                            forall|j: int|
                                                0 <= j < k ==> is_str_lit(#[trigger] ii@[j]))
                                                && d.message@ == msg_tags_item() && d.span
                                                == ii@[k].span);
                                        },
                                        AttrBody::NotList => {
                                            assert(false);
                                        },
                                    },
                                    Option::None => {
                                        assert(false);
                                    },
                                }
                                assert(tags_err(*tags, d));
                            }
                            return Err(d);
                        },
                    }
                    i += 1;
                }
                Ok(v)
            },
        },
    }
}

/// Resolves the `source` annotation into the path of the data-source
/// function; an annotation not in list form declares none.
pub fn parse_source(source: &Option<AuxAttr>) -> (r: Result<Option<Vec<String>>, Diagnostic>)
    ensures
        r is Ok <==> source_wf(*source),
        r matches Ok(o) ==> source_ok(*source, o) && (o is Some <==> has_source(*source)),
        r matches Err(d) ==> source_err(*source, d),
{
    match source {
        Option::None => Ok(Option::None),
        Option::Some(a) => match &a.body {
            AttrBody::NotList => Ok(Option::None),
            AttrBody::List(items) => {
                if items.len() == 0 {
                    Err(
                        Diagnostic {
                            message: String::from_str("expected 1 item"),
                            span: a.span,
                        },
                    )
                } else if items.len() > 1 {
                    Err(
                        Diagnostic {
                            message: String::from_str("expected at most 1 item"),
                            span: a.span,
                        },
                    )
                } else {
                    match &items[0].kind {
                        ArgKind::PathMeta(p) => {
                            let mut path: Vec<String> = Vec::new();
                            let mut i: usize = 0;
                            while i < p.len()
                                invariant
                                    0 <= i <= p@.len(),
                                    path@.len() == i,
                                    forall|j: int| 0 <= j < i ==> path@[j] == p@[j],
                                decreases p@.len() - i,
                            {
                                path.push(p[i].clone());
                                i += 1;
                            }
                            proof {
                                assert(path@ =~= p@);
                            }
                            Ok(Option::Some(path))
                        },
                        _ => Err(
                            Diagnostic {
                                message: String::from_str(
                                    "source value must be a path to a function",
                                ),
                                span: items[0].span,
                            },
                        ),
                    }
                }
            },
        },
    }
}

/// The emitted plan is the one the well-formed input calls for.
pub open spec fn plan_ok(inp: TestFnInput, p: Plan) -> bool {
    &&& name_plan_ok(inp.test_args@, inp.fn_name@, p.name)
    &&& tags_ok(inp.tags, p.tags@)
    &&& source_ok(inp.source, p.source)
    &&& (p.source is Some <==> has_source(inp.source))
    &&& if has_source(inp.source) {
        p.arg_names@.len() == inp.params@.len() && (forall|i: int|
            0 <= i < inp.params@.len() ==> (#[trigger] p.arg_names@[i])@ == spec_arg_name(
                inp.params@[i],
                i as nat,
            ))
    } else {
        p.arg_names@.len() == 0
    }
}

/// The diagnostic a malformed input produces: the first broken rule speaks,
/// in the order the expansion checks them.
pub open spec fn expand_err(inp: TestFnInput, d: Diagnostic) -> bool {
    if !test_attr_wf(inp.test_args@) {
        test_attr_err(inp.test_args@, d)
    } else if !tags_wf(inp.tags) {
        tags_err(inp.tags, d)
    } else if !source_wf(inp.source) {
        source_err(inp.source, d)
    } else if name_is_format(inp.test_args@) && !has_source(inp.source) {
        d.message@ == msg_format_without_source() && d.span == inp.fn_span
    } else {
        d.message@ == msg_args_without_source() && d.span == inp.fn_span
    }
}

/// The whole expansion: validates the three annotations against the
/// decorated function and produces the factory's plan, or exactly one
/// diagnostic and no plan. Diagnostics are purely additive: a well-formed
/// input yields a plan and no diagnostic; a malformed one yields a
/// diagnostic and no plan.
pub fn expand(input: &TestFnInput) -> (r: Result<Plan, Diagnostic>)
    ensures
        r is Ok <==> input_wf(*input),
        r matches Ok(p) ==> plan_ok(*input, p),
        r matches Err(d) ==> expand_err(*input, d),
{
    let name = match parse_test_attr(&input.test_args, &input.fn_name) {
        Ok(n) => n,
        Err(d) => {
            return Err(d);
        },
    };
    let tags = match parse_tags(&input.tags) {
        Ok(t) => t,
        Err(d) => {
            return Err(d);
        },
    };
    let source = match parse_source(&input.source) {
        Ok(s) => s,
        Err(d) => {
            return Err(d);
        },
    };
    match source {
        Option::None => {
            let is_format = match &name {
                NamePlan::Format(_, _) => true,
                _ => false,
            };
            if is_format {
                return Err(
                    Diagnostic {
                        message: String::from_str("cannot use format name without data source"),
                        span: input.fn_span,
                    },
                );
            }
            if input.params.len() > 0 {
                return Err(
                    Diagnostic {
                        message: String::from_str("cannot use arguments without data source"),
                        span: input.fn_span,
                    },
                );
            }
            Ok(Plan { name, tags, source: Option::None, arg_names: Vec::new() })
        },
        Option::Some(path) => {
            let arg_names = make_arg_names(&input.params);
            Ok(Plan { name, tags, source: Option::Some(path), arg_names })
        },
    }
}

} // verus!
