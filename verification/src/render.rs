//! The canonicalizing renderer: a pure, read-only traversal of the tree that
//! produces exactly the canonical text `spec_render` gives to the tree's
//! model, or fails with the first embedded `Error` placeholder's message. No
//! partial text is ever returned.

use vstd::prelude::*;
use crate::ast::{
    Identifier,
    Integer,
    Float,
    LiteralString,
    Boolean,
    Null,
    Uri,
    SearchNixPath,
    PartRaw,
    Path,
    PartInterpolation,
    NixString,
    IndentedString,
    UnaryOperation,
    BinaryOperation,
    IfThenElse,
    Assert,
    Throw,
    With,
    LetIn,
    List,
    AttrSet,
    PropertyAccess,
    HasAttribute,
    FunctionHeadDestructuredArgument,
    FunctionHeadDestructured,
    FunctionHeadSimple,
    FunctionHead,
    Function,
    FunctionApplication,
    BindingInherit,
    BindingKeyValue,
    Expression,
    deep_views,
    deep_views_seq,
    arg_views,
    arg_views_seq,
    lemma_deep_views_seq,
    lemma_arg_views_seq,
};
use crate::errors::RenderError;
use crate::model::{
    ExprV,
    spec_render,
    spec_render_sep,
    spec_render_args,
    spec_render_arg,
    render_matches,
};

verus! {

/// A render failure found while rendering a prefix of a sequence decides the
/// render of the whole sequence.
proof fn lemma_sep_error_prefix(items: Seq<ExprV>, sep: Seq<char>, j: int)
    requires
        0 <= j <= items.len(),
        spec_render_sep(items.subrange(0, j), sep) is Err,
    ensures
        spec_render_sep(items, sep) == spec_render_sep(items.subrange(0, j), sep),
    decreases items.len(),
{
    if j == items.len() {
        assert(items.subrange(0, j) =~= items);
    } else {
        assert(items.len() >= 1);
        if items.len() == 1 {
            assert(items.subrange(0, 0) =~= Seq::<ExprV>::empty());
            assert(spec_render_sep(items.subrange(0, j), sep) is Ok);
        } else {
            assert(items.drop_last().subrange(0, j) =~= items.subrange(0, j));
            lemma_sep_error_prefix(items.drop_last(), sep, j);
        }
    }
}

/// The same, for destructured-head arguments.
proof fn lemma_args_error_prefix(args: Seq<crate::model::ArgV>, j: int)
    requires
        0 <= j <= args.len(),
        spec_render_args(args.subrange(0, j)) is Err,
    ensures
        spec_render_args(args) == spec_render_args(args.subrange(0, j)),
    decreases args.len(),
{
    if j == args.len() {
        assert(args.subrange(0, j) =~= args);
    } else {
        assert(args.len() >= 1);
        assert(args.drop_last().subrange(0, j) =~= args.subrange(0, j));
        lemma_args_error_prefix(args.drop_last(), j);
    }
}

/// Renders the expressions of `v` left to right, joined by `sep`; the first
/// failure aborts the whole call.
fn render_items(v: &Vec<Expression>, sep: &str) -> (r: Result<String, RenderError>)
    ensures
        render_matches(r, spec_render_sep(deep_views(v), sep@)),
    decreases v,
{
    let ghost views = deep_views(v);
    proof {
        lemma_deep_views_seq(v@);
    }
    let mut out = String::new();
    let mut i: usize = 0;
    while i < v.len()
        invariant
            0 <= i <= v@.len(),
            views == deep_views_seq(v@),
            views.len() == v@.len(),
            forall|k: int| 0 <= k < v@.len() ==> views[k] == v@[k].deep_view(),
            spec_render_sep(views.subrange(0, i as int), sep@) == Ok::<Seq<char>, Seq<char>>(out@),
        decreases v@.len() - i,
    {
        let ghost pre = views.subrange(0, i as int);
        let ghost cur = views.subrange(0, i + 1int);
        let ghost out0 = out@;
        proof {
            assert(cur.drop_last() =~= pre);
            assert(cur.last() == v@[i as int].deep_view());
        }
        if i > 0 {
            out.append(sep);
        }
        let item = &v[i];
        match item.render() {
            Ok(text) => {
                out.append(text.as_str());
                proof {
                    if i == 0 {
                        assert(spec_render_sep(cur, sep@) == spec_render(cur[0]));
                        assert(out@ =~= text@);
                    } else {
                        assert(spec_render_sep(cur.drop_last(), sep@) == spec_render_sep(
                            pre,
                            sep@,
                        ));
                        assert(spec_render_sep(cur, sep@) == Ok::<Seq<char>, Seq<char>>(
                            out0 + sep@ + text@,
                        ));
                        assert(out@ =~= out0 + sep@ + text@);
                    }
                }
            },
            Err(e) => {
                proof {
                    assert(spec_render_sep(cur.drop_last(), sep@) == spec_render_sep(pre, sep@));
                    assert(spec_render_sep(cur, sep@) is Err);
                    lemma_sep_error_prefix(views, sep@, i + 1int);
                    assert(views.subrange(0, views.len() as int) =~= views);
                }
                return Err(e);
            },
        }
        i = i + 1;
    }
    proof {
        assert(views.subrange(0, views.len() as int) =~= views);
    }
    Ok(out)
}

/// Renders the arguments of a destructured head left to right, concatenated;
/// the first failure aborts the whole call.
fn render_arg_items(v: &Vec<FunctionHeadDestructuredArgument>) -> (r: Result<String, RenderError>)
    ensures
        render_matches(r, spec_render_args(arg_views(v))),
    decreases v,
{
    let ghost views = arg_views(v);
    proof {
        lemma_arg_views_seq(v@);
    }
    let mut out = String::new();
    let mut i: usize = 0;
    while i < v.len()
        invariant
            0 <= i <= v@.len(),
            views == arg_views_seq(v@),
            views.len() == v@.len(),
            forall|k: int| 0 <= k < v@.len() ==> views[k] == v@[k].deep_view(),
            spec_render_args(views.subrange(0, i as int)) == Ok::<Seq<char>, Seq<char>>(out@),
        decreases v@.len() - i,
    {
        let ghost pre = views.subrange(0, i as int);
        let ghost cur = views.subrange(0, i + 1int);
        let ghost out0 = out@;
        proof {
            assert(cur.drop_last() =~= pre);
            assert(cur.last() == v@[i as int].deep_view());
        }
        let item = &v[i];
        match item.render() {
            Ok(text) => {
                out.append(text.as_str());
                proof {
                    assert(spec_render_args(cur.drop_last()) == spec_render_args(pre));
                    assert(spec_render_args(cur) == Ok::<Seq<char>, Seq<char>>(out0 + text@));
                    assert(out@ =~= out0 + text@);
                }
            },
            Err(e) => {
                proof {
                    assert(spec_render_args(cur.drop_last()) == spec_render_args(pre));
                    assert(spec_render_args(cur) is Err);
                    lemma_args_error_prefix(views, i + 1int);
                    assert(views.subrange(0, views.len() as int) =~= views);
                }
                return Err(e);
            },
        }
        i = i + 1;
    }
    proof {
        assert(views.subrange(0, views.len() as int) =~= views);
    }
    Ok(out)
}

// ==================== Leaf renders ====================

impl Identifier {
    pub fn render(&self) -> (r: String)
        ensures
            r@ == self.id@,
    {
        self.id.clone()
    }
}

impl Integer {
    pub fn render(&self) -> (r: String)
        ensures
            r@ == self.value@,
    {
        self.value.clone()
    }
}

impl Float {
    pub fn render(&self) -> (r: String)
        ensures
            r@ == self.value@,
    {
        self.value.clone()
    }
}

impl LiteralString {
    pub fn render(&self) -> (r: String)
        ensures
            r@ == self.value@,
    {
        self.value.clone()
    }
}

impl Boolean {
    pub fn render(&self) -> (r: String)
        ensures
            r@ == (if self.value {
                "true"@
            } else {
                "false"@
            }),
    {
        let mut out = String::new();
        if self.value {
            out.append("true");
        } else {
            out.append("false");
        }
        out
    }
}

impl Null {
    pub fn render(&self) -> (r: String)
        ensures
            r@ == "null"@,
    {
        let mut out = String::new();
        out.append("null");
        out
    }
}

impl Uri {
    pub fn render(&self) -> (r: String)
        ensures
            r@ == self.uri@,
    {
        self.uri.clone()
    }
}

impl SearchNixPath {
    pub fn render(&self) -> (r: String)
        ensures
            r@ == "<"@ + self.path@ + ">"@,
    {
        let mut out = String::new();
        out.append("<");
        out.append(self.path.as_str());
        out.append(">");
        proof {
            assert(out@ =~= "<"@ + self.path@ + ">"@);
        }
        out
    }
}

impl PartRaw {
    pub fn render(&self) -> (r: String)
        ensures
            r@ == self.content@,
    {
        self.content.clone()
    }
}

impl FunctionHeadSimple {
    pub fn render(&self) -> (r: String)
        ensures
            r@ == self.identifier.id@,
    {
        self.identifier.render()
    }
}

// ==================== Composite renders ====================

impl Path {
    pub fn render(&self) -> (r: Result<String, RenderError>)
        ensures
            render_matches(r, spec_render(ExprV::Path(deep_views(&self.parts)))),
        decreases self,
    {
        render_items(&self.parts, "/")
    }
}

impl PartInterpolation {
    pub fn render(&self) -> (r: Result<String, RenderError>)
        ensures
            render_matches(
                r,
                spec_render(ExprV::PartInterpolation(Box::new((*self.expression).deep_view()))),
            ),
        decreases self,
    {
        let inner = match self.expression.render() {
            Ok(t) => t,
            Err(e) => {
                return Err(e);
            },
        };
        let mut out = String::new();
        out.append("${");
        out.append(inner.as_str());
        out.append("}");
        proof {
            assert(out@ =~= "${"@ + inner@ + "}"@);
        }
        Ok(out)
    }
}

impl NixString {
    pub fn render(&self) -> (r: Result<String, RenderError>)
        ensures
            render_matches(r, spec_render(ExprV::NixString(deep_views(&self.parts)))),
        decreases self,
    {
        let r = render_items(&self.parts, "");
        proof {
            reveal_strlit("");
            assert(""@ =~= Seq::<char>::empty());
        }
        r
    }
}

impl IndentedString {
    pub fn render(&self) -> (r: Result<String, RenderError>)
        ensures
            render_matches(r, spec_render(ExprV::IndentedString(deep_views(&self.parts)))),
        decreases self,
    {
        let r = render_items(&self.parts, "");
        proof {
            reveal_strlit("");
            assert(""@ =~= Seq::<char>::empty());
        }
        r
    }
}

impl UnaryOperation {
    pub fn render(&self) -> (r: Result<String, RenderError>)
        ensures
            render_matches(
                r,
                spec_render(
                    ExprV::UnaryOperation(self.operator, Box::new((*self.operand).deep_view())),
                ),
            ),
        decreases self,
    {
        let operand = match self.operand.render() {
            Ok(t) => t,
            Err(e) => {
                return Err(e);
            },
        };
        let mut out = String::new();
        out.append("(");
        let op = self.operator.render();
        out.append(op.as_str());
        out.append(operand.as_str());
        out.append(")");
        proof {
            assert(out@ =~= "("@ + op@ + operand@ + ")"@);
        }
        Ok(out)
    }
}

impl BinaryOperation {
    pub fn render(&self) -> (r: Result<String, RenderError>)
        ensures
            render_matches(
                r,
                spec_render(
                    ExprV::BinaryOperation(
                        Box::new((*self.left).deep_view()),
                        self.operator,
                        Box::new((*self.right).deep_view()),
                    ),
                ),
            ),
        decreases self,
    {
        let left = match self.left.render() {
            Ok(t) => t,
            Err(e) => {
                return Err(e);
            },
        };
        let right = match self.right.render() {
            Ok(t) => t,
            Err(e) => {
                return Err(e);
            },
        };
        let mut out = String::new();
        out.append("(");
        out.append(left.as_str());
        out.append(" ");
        let op = self.operator.render();
        out.append(op.as_str());
        out.append(" ");
        out.append(right.as_str());
        out.append(")");
        proof {
            assert(out@ =~= "("@ + left@ + " "@ + op@ + " "@ + right@ + ")"@);
        }
        Ok(out)
    }
}

impl IfThenElse {
    pub fn render(&self) -> (r: Result<String, RenderError>)
        ensures
            render_matches(
                r,
                spec_render(
                    ExprV::IfThenElse(
                        Box::new((*self.predicate).deep_view()),
                        Box::new((*self.then_).deep_view()),
                        Box::new((*self.else_).deep_view()),
                    ),
                ),
            ),
        decreases self,
    {
        let predicate = match self.predicate.render() {
            Ok(t) => t,
            Err(e) => {
                return Err(e);
            },
        };
        let then_text = match self.then_.render() {
            Ok(t) => t,
            Err(e) => {
                return Err(e);
            },
        };
        let else_text = match self.else_.render() {
            Ok(t) => t,
            Err(e) => {
                return Err(e);
            },
        };
        let mut out = String::new();
        out.append("if ");
        out.append(predicate.as_str());
        out.append(" then ");
        out.append(then_text.as_str());
        out.append(" else ");
        out.append(else_text.as_str());
        proof {
            assert(out@ =~= "if "@ + predicate@ + " then "@ + then_text@ + " else "@
                + else_text@);
        }
        Ok(out)
    }
}

impl Assert {
    pub fn render(&self) -> (r: Result<String, RenderError>)
        ensures
            render_matches(
                r,
                spec_render(
                    ExprV::Assert(
                        Box::new((*self.condition).deep_view()),
                        match &self.message {
                            Some(m) => Some(Box::new((**m).deep_view())),
                            None => None,
                        },
                    ),
                ),
            ),
        decreases self,
    {
        let condition = match self.condition.render() {
            Ok(t) => t,
            Err(e) => {
                return Err(e);
            },
        };
        let mut out = String::new();
        out.append("assert ");
        out.append(condition.as_str());
        match &self.message {
            Some(m) => {
                let message = match m.render() {
                    Ok(t) => t,
                    Err(e) => {
                        return Err(e);
                    },
                };
                out.append(" with message ");
                out.append(message.as_str());
                proof {
                    assert(out@ =~= "assert "@ + condition@ + " with message "@ + message@);
                }
                Ok(out)
            },
            None => {
                proof {
                    assert(out@ =~= "assert "@ + condition@);
                }
                Ok(out)
            },
        }
    }
}

impl Throw {
    pub fn render(&self) -> (r: Result<String, RenderError>)
        ensures
            render_matches(r, spec_render(ExprV::Throw(Box::new((*self.message).deep_view())))),
        decreases self,
    {
        let message = match self.message.render() {
            Ok(t) => t,
            Err(e) => {
                return Err(e);
            },
        };
        let mut out = String::new();
        out.append("throw ");
        out.append(message.as_str());
        proof {
            assert(out@ =~= "throw "@ + message@);
        }
        Ok(out)
    }
}

impl With {
    pub fn render(&self) -> (r: Result<String, RenderError>)
        ensures
            render_matches(
                r,
                spec_render(
                    ExprV::With(
                        Box::new((*self.scope).deep_view()),
                        Box::new((*self.body).deep_view()),
                    ),
                ),
            ),
        decreases self,
    {
        let scope = match self.scope.render() {
            Ok(t) => t,
            Err(e) => {
                return Err(e);
            },
        };
        let body = match self.body.render() {
            Ok(t) => t,
            Err(e) => {
                return Err(e);
            },
        };
        let mut out = String::new();
        out.append("with ");
        out.append(scope.as_str());
        out.append("; ");
        out.append(body.as_str());
        proof {
            assert(out@ =~= "with "@ + scope@ + "; "@ + body@);
        }
        Ok(out)
    }
}

impl LetIn {
    pub fn render(&self) -> (r: Result<String, RenderError>)
        ensures
            render_matches(
                r,
                spec_render(
                    ExprV::LetIn(deep_views(&self.bindings), Box::new((*self.target).deep_view())),
                ),
            ),
        decreases self,
    {
        let bindings = match render_items(&self.bindings, " ") {
            Ok(t) => t,
            Err(e) => {
                return Err(e);
            },
        };
        let target = match self.target.render() {
            Ok(t) => t,
            Err(e) => {
                return Err(e);
            },
        };
        let mut out = String::new();
        out.append("let ");
        out.append(bindings.as_str());
        out.append(" in ");
        out.append(target.as_str());
        proof {
            assert(out@ =~= "let "@ + bindings@ + " in "@ + target@);
        }
        Ok(out)
    }
}

impl List {
    pub fn render(&self) -> (r: Result<String, RenderError>)
        ensures
            render_matches(r, spec_render(ExprV::List(deep_views(&self.elements)))),
        decreases self,
    {
        let elements = match render_items(&self.elements, ", ") {
            Ok(t) => t,
            Err(e) => {
                return Err(e);
            },
        };
        let mut out = String::new();
        out.append("[");
        out.append(elements.as_str());
        out.append("]");
        proof {
            assert(out@ =~= "["@ + elements@ + "]"@);
        }
        Ok(out)
    }
}

impl AttrSet {
    pub fn render(&self) -> (r: Result<String, RenderError>)
        ensures
            render_matches(
                r,
                spec_render(ExprV::AttrSet(self.recursive, deep_views(&self.bindings))),
            ),
        decreases self,
    {
        let bindings = match render_items(&self.bindings, ", ") {
            Ok(t) => t,
            Err(e) => {
                return Err(e);
            },
        };
        let mut out = String::new();
        if self.recursive {
            out.append("rec { ");
        } else {
            out.append("{ ");
        }
        out.append(bindings.as_str());
        out.append(" }");
        proof {
            if self.recursive {
                assert(out@ =~= "rec { "@ + bindings@ + " }"@);
            } else {
                assert(out@ =~= "{ "@ + bindings@ + " }"@);
            }
        }
        Ok(out)
    }
}

impl PropertyAccess {
    pub fn render(&self) -> (r: Result<String, RenderError>)
        ensures
            render_matches(
                r,
                spec_render(
                    ExprV::PropertyAccess(
                        Box::new((*self.expression).deep_view()),
                        deep_views(&self.attribute_path),
                        match &self.default {
                            Some(d) => Some(Box::new((**d).deep_view())),
                            None => None,
                        },
                    ),
                ),
            ),
        decreases self,
    {
        let path = match render_items(&self.attribute_path, ".") {
            Ok(t) => t,
            Err(e) => {
                return Err(e);
            },
        };
        let expression = match self.expression.render() {
            Ok(t) => t,
            Err(e) => {
                return Err(e);
            },
        };
        match &self.default {
            Some(d) => {
                let default = match d.render() {
                    Ok(t) => t,
                    Err(e) => {
                        return Err(e);
                    },
                };
                let mut out = String::new();
                out.append(expression.as_str());
                out.append(".?");
                out.append(path.as_str());
                out.append(".or(");
                out.append(default.as_str());
                out.append(")");
                proof {
                    assert(out@ =~= expression@ + ".?"@ + path@ + ".or("@ + default@ + ")"@);
                }
                Ok(out)
            },
            None => {
                let mut out = String::new();
                out.append(expression.as_str());
                out.append(".");
                out.append(path.as_str());
                proof {
                    assert(out@ =~= expression@ + "."@ + path@);
                }
                Ok(out)
            },
        }
    }
}

impl HasAttribute {
    pub fn render(&self) -> (r: Result<String, RenderError>)
        ensures
            render_matches(
                r,
                spec_render(
                    ExprV::HasAttribute(
                        Box::new((*self.expression).deep_view()),
                        deep_views(&self.attribute_path),
                    ),
                ),
            ),
        decreases self,
    {
        let expression = match self.expression.render() {
            Ok(t) => t,
            Err(e) => {
                return Err(e);
            },
        };
        let path = match render_items(&self.attribute_path, ".") {
            Ok(t) => t,
            Err(e) => {
                return Err(e);
            },
        };
        let mut out = String::new();
        out.append(expression.as_str());
        out.append(".");
        out.append(path.as_str());
        proof {
            assert(out@ =~= expression@ + "."@ + path@);
        }
        Ok(out)
    }
}

impl FunctionHeadDestructuredArgument {
    pub fn render(&self) -> (r: Result<String, RenderError>)
        ensures
            render_matches(r, spec_render_arg(self.deep_view())),
        decreases self,
    {
        match &self.default {
            Some(expr) => {
                let rendered = match expr.render() {
                    Ok(t) => t,
                    Err(e) => {
                        return Err(e);
                    },
                };
                let mut out = String::new();
                out.append(self.identifier.as_str());
                out.append(" ? ");
                out.append(rendered.as_str());
                proof {
                    assert(out@ =~= self.identifier@ + " ? "@ + rendered@);
                }
                Ok(out)
            },
            None => Ok(self.identifier.clone()),
        }
    }
}

impl FunctionHeadDestructured {
    pub fn render(&self) -> (r: Result<String, RenderError>)
        ensures
            render_matches(
                r,
                spec_render(
                    ExprV::FunctionHeadDestructured(
                        self.ellipsis,
                        self.identifier.id@,
                        arg_views(&self.arguments),
                    ),
                ),
            ),
        decreases self,
    {
        render_arg_items(&self.arguments)
    }
}

impl FunctionHead {
    pub fn render(&self) -> (r: Result<String, RenderError>)
        ensures
            render_matches(r, spec_render(self.deep_view())),
    {
        match self {
            FunctionHead::FunctionHeadSimple(f) => Ok(f.render()),
            FunctionHead::FunctionHeadDestructured(f) => f.render(),
        }
    }
}

impl Function {
    pub fn render(&self) -> (r: Result<String, RenderError>)
        ensures
            render_matches(
                r,
                spec_render(
                    ExprV::Function(
                        Box::new((*self.head).deep_view()),
                        Box::new((*self.body).deep_view()),
                    ),
                ),
            ),
        decreases self,
    {
        let head = match self.head.render() {
            Ok(t) => t,
            Err(e) => {
                return Err(e);
            },
        };
        let body = match self.body.render() {
            Ok(t) => t,
            Err(e) => {
                return Err(e);
            },
        };
        let mut out = String::new();
        out.append(head.as_str());
        out.append(": ");
        out.append(body.as_str());
        proof {
            assert(out@ =~= head@ + ": "@ + body@);
        }
        Ok(out)
    }
}

impl FunctionApplication {
    pub fn render(&self) -> (r: Result<String, RenderError>)
        ensures
            render_matches(
                r,
                spec_render(
                    ExprV::FunctionApplication(
                        Box::new((*self.function).deep_view()),
                        deep_views(&self.arguments),
                    ),
                ),
            ),
        decreases self,
    {
        let arguments = match render_items(&self.arguments, " ") {
            Ok(t) => t,
            Err(e) => {
                return Err(e);
            },
        };
        let function = match self.function.render() {
            Ok(t) => t,
            Err(e) => {
                return Err(e);
            },
        };
        let mut out = String::new();
        out.append(function.as_str());
        out.append(" ");
        out.append(arguments.as_str());
        proof {
            assert(out@ =~= function@ + " "@ + arguments@);
        }
        Ok(out)
    }
}

impl BindingInherit {
    pub fn render(&self) -> (r: Result<String, RenderError>)
        ensures
            render_matches(
                r,
                spec_render(
                    ExprV::BindingInherit(
                        match &self.from_ {
                            Some(f) => Some(Box::new((**f).deep_view())),
                            None => None,
                        },
                        Box::new((*self.attributes).deep_view()),
                    ),
                ),
            ),
        decreases self,
    {
        match &self.from_ {
            Some(from_expr) => {
                let from_text = match from_expr.render() {
                    Ok(t) => t,
                    Err(e) => {
                        return Err(e);
                    },
                };
                let attributes = match self.attributes.render() {
                    Ok(t) => t,
                    Err(e) => {
                        return Err(e);
                    },
                };
                let mut out = String::new();
                out.append("inherit (");
                out.append(from_text.as_str());
                out.append(") ");
                out.append(attributes.as_str());
                proof {
                    assert(out@ =~= "inherit ("@ + from_text@ + ") "@ + attributes@);
                }
                Ok(out)
            },
            None => {
                let attributes = match self.attributes.render() {
                    Ok(t) => t,
                    Err(e) => {
                        return Err(e);
                    },
                };
                let mut out = String::new();
                out.append("inherit ");
                out.append(attributes.as_str());
                proof {
                    assert(out@ =~= "inherit "@ + attributes@);
                }
                Ok(out)
            },
        }
    }
}

impl BindingKeyValue {
    pub fn render(&self) -> (r: Result<String, RenderError>)
        ensures
            render_matches(
                r,
                spec_render(
                    ExprV::BindingKeyValue(
                        Box::new((*self.from_).deep_view()),
                        Box::new((*self.to).deep_view()),
                    ),
                ),
            ),
        decreases self,
    {
        let key = match self.from_.render() {
            Ok(t) => t,
            Err(e) => {
                return Err(e);
            },
        };
        let value = match self.to.render() {
            Ok(t) => t,
            Err(e) => {
                return Err(e);
            },
        };
        let mut out = String::new();
        out.append(key.as_str());
        out.append(" = ");
        out.append(value.as_str());
        out.append(";");
        proof {
            assert(out@ =~= key@ + " = "@ + value@ + ";"@);
        }
        Ok(out)
    }
}

impl Expression {
    /// The entry point of the renderer: the canonical text of this tree, or
    /// the first embedded `Error` placeholder's message as an `InvalidAst`
    /// failure.
    pub fn render(&self) -> (r: Result<String, RenderError>)
        ensures
            render_matches(r, spec_render(self.deep_view())),
        decreases self,
    {
        match self {
            Expression::Integer(x) => Ok(x.render()),
            Expression::Float(x) => Ok(x.render()),
            Expression::Identifier(x) => Ok(x.render()),
            Expression::LiteralString(x) => Ok(x.render()),
            Expression::Boolean(x) => Ok(x.render()),
            Expression::Null(x) => Ok(x.render()),
            Expression::Path(x) => x.render(),
            Expression::Uri(x) => Ok(x.render()),
            Expression::SearchNixPath(x) => Ok(x.render()),
            Expression::Error(e) => Err(RenderError::InvalidAst(e.message.clone())),
            Expression::UnaryOperation(x) => x.render(),
            Expression::BinaryOperation(x) => x.render(),
            Expression::IfThenElse(x) => x.render(),
            Expression::Assert(x) => x.render(),
            Expression::Throw(x) => x.render(),
            Expression::With(x) => x.render(),
            Expression::LetIn(x) => x.render(),
            Expression::List(x) => x.render(),
            Expression::AttrSet(x) => x.render(),
            Expression::NixString(x) => x.render(),
            Expression::IndentedString(x) => x.render(),
            Expression::PartRaw(x) => Ok(x.render()),
            Expression::PartInterpolation(x) => x.render(),
            Expression::PropertyAccess(x) => x.render(),
            Expression::HasAttribute(x) => x.render(),
            Expression::Function(x) => x.render(),
            Expression::FunctionApplication(x) => x.render(),
            Expression::FunctionHeadSimple(x) => Ok(x.render()),
            Expression::FunctionHeadDestructured(x) => x.render(),
            Expression::BindingInherit(x) => x.render(),
            Expression::BindingKeyValue(x) => x.render(),
        }
    }
}

} // verus!
