//! Structural descriptions of nodes, for diagnostics. Unlike rendering,
//! describing a node never fails: an `Error` placeholder describes itself.
//! `spec_debug` is the one description each tree model has, and every
//! `debug` method is proved to produce exactly it.

use vstd::prelude::*;
use crate::ast::{
    Identifier,
    Integer,
    Float,
    LiteralString,
    Boolean,
    Null,
    Uri,
    SearchNixPath,
    PartRaw,
    Path,
    PartInterpolation,
    NixString,
    IndentedString,
    UnaryOperation,
    BinaryOperation,
    IfThenElse,
    Assert,
    With,
    List,
    AttrSet,
    PropertyAccess,
    HasAttribute,
    FunctionHeadDestructuredArgument,
    FunctionHeadDestructured,
    FunctionHeadSimple,
    FunctionHead,
    Function,
    FunctionApplication,
    BindingInherit,
    BindingKeyValue,
    Error,
    Expression,
    deep_views,
    deep_views_seq,
    lemma_deep_views_seq,
};
use crate::model::ExprV;
use crate::operators::op_name;

verus! {

/// The words `true` and `false`.
pub open spec fn bool_text(b: bool) -> Seq<char> {
    if b {
        "true"@
    } else {
        "false"@
    }
}

/// The description of a tree model: the node kind, its scalar fields, and
/// its children's descriptions.
pub open spec fn spec_debug(m: ExprV) -> Seq<char>
    decreases m,
{
    match m {
        ExprV::Integer(value) => "Integer('"@ + value + "')"@,
        ExprV::Float(value) => "Float('"@ + value + "')"@,
        ExprV::Identifier(id) => id,
        ExprV::LiteralString(value) => "LiteralString('"@ + value + "')"@,
        ExprV::Boolean(value) => "Boolean('"@ + bool_text(value) + "')"@,
        ExprV::Null => "Null"@,
        ExprV::Path(parts) => "Path("@ + spec_debug_sep(parts) + ")"@,
        ExprV::Uri(uri) => "Uri('"@ + uri + "')"@,
        ExprV::SearchNixPath(path) => "SearchNixPath('"@ + path + "')"@,
        ExprV::Error(message) => "Error('"@ + message + "')"@,
        ExprV::UnaryOperation(op, operand) => "UnaryOperation("@ + op_name(op) + ", "@
            + spec_debug(*operand) + ")"@,
        ExprV::BinaryOperation(left, op, right) => "BinaryOperation("@ + spec_debug(*left) + ", "@
            + op_name(op) + ", "@ + spec_debug(*right) + ")"@,
        ExprV::IfThenElse(predicate, then_part, else_part) => "IfThenElse("@ + spec_debug(
            *predicate,
        ) + ", "@ + spec_debug(*then_part) + ", "@ + spec_debug(*else_part) + ")"@,
        ExprV::Assert(condition, message) => match message {
            Some(msg) => "Assert("@ + spec_debug(*condition) + ", "@ + spec_debug(*msg) + ")"@,
            None => "Assert("@ + spec_debug(*condition) + ")"@,
        },
        ExprV::Throw(message) => "Throw("@ + spec_debug(*message) + ")"@,
        ExprV::With(scope, _body) => "With("@ + spec_debug(*scope) + ")"@,
        ExprV::LetIn(bindings, target) => "LetIn("@ + spec_debug_sep(bindings) + ", "@
            + spec_debug(*target) + ")"@,
        ExprV::List(elements) => "List("@ + spec_debug_sep(elements) + ")"@,
        ExprV::AttrSet(recursive, bindings) => "AttrSet(recursive="@ + bool_text(recursive)
            + ", "@ + spec_debug_sep(bindings) + ")"@,
        ExprV::NixString(parts) => "String("@ + spec_debug_sep(parts) + ")"@,
        ExprV::IndentedString(parts) => "IndentedString("@ + spec_debug_sep(parts) + ")"@,
        ExprV::PartRaw(content) => "PartRaw('"@ + content + "')"@,
        ExprV::PartInterpolation(expression) => "PartInterpolation("@ + spec_debug(*expression)
            + ")"@,
        ExprV::PropertyAccess(expression, attribute_path, default) => match default {
            Some(d) => "PropertyAccess("@ + spec_debug(*expression) + ", "@ + spec_debug_sep(
                attribute_path,
            ) + ", "@ + spec_debug(*d) + ")"@,
            None => "PropertyAccess("@ + spec_debug(*expression) + ", "@ + spec_debug_sep(
                attribute_path,
            ) + ")"@,
        },
        ExprV::HasAttribute(_expression, attribute_path) => "HasAttribute("@ + spec_debug_sep(
            attribute_path,
        ) + ")"@,
        ExprV::Function(head, body) => "Function("@ + spec_debug(*head) + ", "@ + spec_debug(
            *body,
        ) + ")"@,
        ExprV::FunctionApplication(function, arguments) => "FunctionApplication(function="@
            + spec_debug(*function) + ", arguments="@ + spec_debug_sep(arguments) + ")"@,
        ExprV::FunctionHeadSimple(id) => "FunctionHeadSimple(identifier="@ + id + ")"@,
        ExprV::FunctionHeadDestructured(ellipsis, _id, _args) => "FunctionHeadDestructured(ellipsis="@
            + bool_text(ellipsis) + ")"@,
        ExprV::BindingInherit(from, _attributes) => "BindingInherit(from="@ + bool_text(
            from is Some,
        ) + ")"@,
        ExprV::BindingKeyValue(key, _value) => "KeyValue("@ + spec_debug(*key) + ")"@,
    }
}

/// The descriptions of a sequence of models, joined by `, `.
pub open spec fn spec_debug_sep(items: Seq<ExprV>) -> Seq<char>
    decreases items,
{
    if items.len() == 0 {
        Seq::<char>::empty()
    } else if items.len() == 1 {
        spec_debug(items[0])
    } else {
        spec_debug_sep(items.drop_last()) + ", "@ + spec_debug(items.last())
    }
}

/// Describes the expressions of `v` left to right, joined by `, `.
fn debug_items(v: &Vec<Expression>) -> (r: String)
    ensures
        r@ == spec_debug_sep(deep_views(v)),
    decreases v,
{
    let ghost views = deep_views(v);
    proof {
        lemma_deep_views_seq(v@);
    }
    let mut out = String::new();
    let mut i: usize = 0;
    while i < v.len()
        invariant
            0 <= i <= v@.len(),
            views == deep_views_seq(v@),
            views.len() == v@.len(),
            forall|k: int| 0 <= k < v@.len() ==> views[k] == v@[k].deep_view(),
            out@ == spec_debug_sep(views.subrange(0, i as int)),
        decreases v@.len() - i,
    {
        let ghost pre = views.subrange(0, i as int);
        let ghost cur = views.subrange(0, i + 1int);
        let ghost out0 = out@;
        proof {
            assert(cur.drop_last() =~= pre);
            assert(cur.last() == v@[i as int].deep_view());
        }
        if i > 0 {
            out.append(", ");
        }
        let text = expr_debug(&v[i]);
        out.append(text.as_str());
        proof {
            if i == 0 {
                assert(spec_debug_sep(cur) == spec_debug(cur[0]));
                assert(out@ =~= text@);
            } else {
                assert(spec_debug_sep(cur.drop_last()) == spec_debug_sep(pre));
                assert(spec_debug_sep(cur) == out0 + ", "@ + text@);
                assert(out@ =~= out0 + ", "@ + text@);
            }
        }
        i = i + 1;
    }
    proof {
        assert(views.subrange(0, views.len() as int) =~= views);
    }
    out
}

/// The description of any expression.
fn expr_debug(e: &Expression) -> (r: String)
    ensures
        r@ == spec_debug(e.deep_view()),
    decreases e,
{
    match e {
        Expression::Integer(x) => x.debug(),
        Expression::Float(x) => x.debug(),
        Expression::Identifier(x) => x.debug(),
        Expression::LiteralString(x) => x.debug(),
        Expression::Boolean(x) => x.debug(),
        Expression::Null(x) => x.debug(),
        Expression::Path(x) => x.debug(),
        Expression::Uri(x) => x.debug(),
        Expression::SearchNixPath(x) => x.debug(),
        Expression::Error(x) => x.debug(),
        Expression::UnaryOperation(x) => x.debug(),
        Expression::BinaryOperation(x) => x.debug(),
        Expression::IfThenElse(x) => x.debug(),
        Expression::Assert(x) => x.debug(),
        Expression::Throw(x) => {
            let mut out = String::new();
            out.append("Throw(");
            let inner = expr_debug(&x.message);
            out.append(inner.as_str());
            out.append(")");
            proof {
                assert(out@ =~= "Throw("@ + inner@ + ")"@);
            }
            out
        },
        Expression::With(x) => x.debug(),
        Expression::LetIn(x) => {
            let mut out = String::new();
            out.append("LetIn(");
            let bindings = debug_items(&x.bindings);
            out.append(bindings.as_str());
            out.append(", ");
            let target = expr_debug(&x.target);
            out.append(target.as_str());
            out.append(")");
            proof {
                assert(out@ =~= "LetIn("@ + bindings@ + ", "@ + target@ + ")"@);
            }
            out
        },
        Expression::List(x) => x.debug(),
        Expression::AttrSet(x) => x.debug(),
        Expression::NixString(x) => x.debug(),
        Expression::IndentedString(x) => x.debug(),
        Expression::PartRaw(x) => x.debug(),
        Expression::PartInterpolation(x) => x.debug(),
        Expression::PropertyAccess(x) => x.debug(),
        Expression::HasAttribute(x) => x.debug(),
        Expression::Function(x) => x.debug(),
        Expression::FunctionApplication(x) => x.debug(),
        Expression::FunctionHeadSimple(x) => x.debug(),
        Expression::FunctionHeadDestructured(x) => x.debug(),
        Expression::BindingInherit(x) => x.debug(),
        Expression::BindingKeyValue(x) => x.debug(),
    }
}

impl Identifier {
    pub fn debug(&self) -> (r: String)
        ensures
            r@ == self.id@,
    {
        self.id.clone()
    }
}

impl Integer {
    pub fn debug(&self) -> (r: String)
        ensures
            r@ == "Integer('"@ + self.value@ + "')"@,
    {
        let mut out = String::new();
        out.append("Integer('");
        out.append(self.value.as_str());
        out.append("')");
        proof {
            assert(out@ =~= "Integer('"@ + self.value@ + "')"@);
        }
        out
    }
}

impl Float {
    pub fn debug(&self) -> (r: String)
        ensures
            r@ == "Float('"@ + self.value@ + "')"@,
    {
        let mut out = String::new();
        out.append("Float('");
        out.append(self.value.as_str());
        out.append("')");
        proof {
            assert(out@ =~= "Float('"@ + self.value@ + "')"@);
        }
        out
    }
}

impl LiteralString {
    pub fn debug(&self) -> (r: String)
        ensures
            r@ == "LiteralString('"@ + self.value@ + "')"@,
    {
        let mut out = String::new();
        out.append("LiteralString('");
        out.append(self.value.as_str());
        out.append("')");
        proof {
            assert(out@ =~= "LiteralString('"@ + self.value@ + "')"@);
        }
        out
    }
}

impl Boolean {
    pub fn debug(&self) -> (r: String)
        ensures
            r@ == "Boolean('"@ + bool_text(self.value) + "')"@,
    {
        let mut out = String::new();
        out.append("Boolean('");
        if self.value {
            out.append("true");
        } else {
            out.append("false");
        }
        out.append("')");
        proof {
            assert(out@ =~= "Boolean('"@ + bool_text(self.value) + "')"@);
        }
        out
    }
}

impl Null {
    pub fn debug(&self) -> (r: String)
        ensures
            r@ == "Null"@,
    {
        let mut out = String::new();
        out.append("Null");
        out
    }
}

impl Uri {
    pub fn debug(&self) -> (r: String)
        ensures
            r@ == "Uri('"@ + self.uri@ + "')"@,
    {
        let mut out = String::new();
        out.append("Uri('");
        out.append(self.uri.as_str());
        out.append("')");
        proof {
            assert(out@ =~= "Uri('"@ + self.uri@ + "')"@);
        }
        out
    }
}

impl SearchNixPath {
    pub fn debug(&self) -> (r: String)
        ensures
            r@ == "SearchNixPath('"@ + self.path@ + "')"@,
    {
        let mut out = String::new();
        out.append("SearchNixPath('");
        out.append(self.path.as_str());
        out.append("')");
        proof {
            assert(out@ =~= "SearchNixPath('"@ + self.path@ + "')"@);
        }
        out
    }
}

impl Error {
    pub fn debug(&self) -> (r: String)
        ensures
            r@ == "Error('"@ + self.message@ + "')"@,
    {
        let mut out = String::new();
        out.append("Error('");
        out.append(self.message.as_str());
        out.append("')");
        proof {
            assert(out@ =~= "Error('"@ + self.message@ + "')"@);
        }
        out
    }
}

impl PartRaw {
    pub fn debug(&self) -> (r: String)
        ensures
            r@ == "PartRaw('"@ + self.content@ + "')"@,
    {
        let mut out = String::new();
        out.append("PartRaw('");
        out.append(self.content.as_str());
        out.append("')");
        proof {
            assert(out@ =~= "PartRaw('"@ + self.content@ + "')"@);
        }
        out
    }
}

impl Path {
    pub fn debug(&self) -> (r: String)
        ensures
            r@ == spec_debug(ExprV::Path(deep_views(&self.parts))),
        decreases self,
    {
        let mut out = String::new();
        out.append("Path(");
        let parts = debug_items(&self.parts);
        out.append(parts.as_str());
        out.append(")");
        proof {
            assert(out@ =~= "Path("@ + parts@ + ")"@);
        }
        out
    }
}

impl UnaryOperation {
    pub fn debug(&self) -> (r: String)
        ensures
            r@ == spec_debug(
                ExprV::UnaryOperation(self.operator, Box::new((*self.operand).deep_view())),
            ),
        decreases self,
    {
        let mut out = String::new();
        out.append("UnaryOperation(");
        let op = self.operator.debug();
        out.append(op.as_str());
        out.append(", ");
        let operand = expr_debug(&self.operand);
        out.append(operand.as_str());
        out.append(")");
        proof {
            assert(out@ =~= "UnaryOperation("@ + op@ + ", "@ + operand@ + ")"@);
        }
        out
    }
}

impl BinaryOperation {
    pub fn debug(&self) -> (r: String)
        ensures
            r@ == spec_debug(
                ExprV::BinaryOperation(
                    Box::new((*self.left).deep_view()),
                    self.operator,
                    Box::new((*self.right).deep_view()),
                ),
            ),
        decreases self,
    {
        let mut out = String::new();
        out.append("BinaryOperation(");
        let left = expr_debug(&self.left);
        out.append(left.as_str());
        out.append(", ");
        let op = self.operator.debug();
        out.append(op.as_str());
        out.append(", ");
        let right = expr_debug(&self.right);
        out.append(right.as_str());
        out.append(")");
        proof {
            assert(out@ =~= "BinaryOperation("@ + left@ + ", "@ + op@ + ", "@ + right@ + ")"@);
        }
        out
    }
}

impl IfThenElse {
    pub fn debug(&self) -> (r: String)
        ensures
            r@ == spec_debug(
                ExprV::IfThenElse(
                    Box::new((*self.predicate).deep_view()),
                    Box::new((*self.then_).deep_view()),
                    Box::new((*self.else_).deep_view()),
                ),
            ),
        decreases self,
    {
        let mut out = String::new();
        out.append("IfThenElse(");
        let predicate = expr_debug(&self.predicate);
        out.append(predicate.as_str());
        out.append(", ");
        let then_text = expr_debug(&self.then_);
        out.append(then_text.as_str());
        out.append(", ");
        let else_text = expr_debug(&self.else_);
        out.append(else_text.as_str());
        out.append(")");
        proof {
            assert(out@ =~= "IfThenElse("@ + predicate@ + ", "@ + then_text@ + ", "@ + else_text@
                + ")"@);
        }
        out
    }
}

impl Assert {
    pub fn debug(&self) -> (r: String)
        ensures
            r@ == spec_debug(
                ExprV::Assert(
                    Box::new((*self.condition).deep_view()),
                    match &self.message {
                        Some(m) => Some(Box::new((**m).deep_view())),
                        None => None,
                    },
                ),
            ),
        decreases self,
    {
        let mut out = String::new();
        out.append("Assert(");
        let condition = expr_debug(&self.condition);
        out.append(condition.as_str());
        match &self.message {
            Some(m) => {
                out.append(", ");
                let message = expr_debug(m);
                out.append(message.as_str());
                out.append(")");
                proof {
                    assert(out@ =~= "Assert("@ + condition@ + ", "@ + message@ + ")"@);
                }
                out
            },
            None => {
                out.append(")");
                proof {
                    assert(out@ =~= "Assert("@ + condition@ + ")"@);
                }
                out
            },
        }
    }
}

impl With {
    pub fn debug(&self) -> (r: String)
        ensures
            r@ == spec_debug(
                ExprV::With(
                    Box::new((*self.scope).deep_view()),
                    Box::new((*self.body).deep_view()),
                ),
            ),
        decreases self,
    {
        let mut out = String::new();
        out.append("With(");
        let scope = expr_debug(&self.scope);
        out.append(scope.as_str());
        out.append(")");
        proof {
            assert(out@ =~= "With("@ + scope@ + ")"@);
        }
        out
    }
}

impl List {
    pub fn debug(&self) -> (r: String)
        ensures
            r@ == spec_debug(ExprV::List(deep_views(&self.elements))),
        decreases self,
    {
        let mut out = String::new();
        out.append("List(");
        let elements = debug_items(&self.elements);
        out.append(elements.as_str());
        out.append(")");
        proof {
            assert(out@ =~= "List("@ + elements@ + ")"@);
        }
        out
    }
}

impl AttrSet {
    pub fn debug(&self) -> (r: String)
        ensures
            r@ == spec_debug(ExprV::AttrSet(self.recursive, deep_views(&self.bindings))),
        decreases self,
    {
        let mut out = String::new();
        out.append("AttrSet(recursive=");
        if self.recursive {
            out.append("true");
        } else {
            out.append("false");
        }
        out.append(", ");
        let bindings = debug_items(&self.bindings);
        out.append(bindings.as_str());
        out.append(")");
        proof {
            assert(out@ =~= "AttrSet(recursive="@ + bool_text(self.recursive) + ", "@ + bindings@
                + ")"@);
        }
        out
    }
}

impl NixString {
    pub fn debug(&self) -> (r: String)
        ensures
            r@ == spec_debug(ExprV::NixString(deep_views(&self.parts))),
        decreases self,
    {
        let mut out = String::new();
        out.append("String(");
        let parts = debug_items(&self.parts);
        out.append(parts.as_str());
        out.append(")");
        proof {
            assert(out@ =~= "String("@ + parts@ + ")"@);
        }
        out
    }
}

impl IndentedString {
    pub fn debug(&self) -> (r: String)
        ensures
            r@ == spec_debug(ExprV::IndentedString(deep_views(&self.parts))),
        decreases self,
    {
        let mut out = String::new();
        out.append("IndentedString(");
        let parts = debug_items(&self.parts);
        out.append(parts.as_str());
        out.append(")");
        proof {
            assert(out@ =~= "IndentedString("@ + parts@ + ")"@);
        }
        out
    }
}

impl PartInterpolation {
    pub fn debug(&self) -> (r: String)
        ensures
            r@ == spec_debug(
                ExprV::PartInterpolation(Box::new((*self.expression).deep_view())),
            ),
        decreases self,
    {
        let mut out = String::new();
        out.append("PartInterpolation(");
        let inner = expr_debug(&self.expression);
        out.append(inner.as_str());
        out.append(")");
        proof {
            assert(out@ =~= "PartInterpolation("@ + inner@ + ")"@);
        }
        out
    }
}

impl PropertyAccess {
    pub fn debug(&self) -> (r: String)
        ensures
            r@ == spec_debug(
                ExprV::PropertyAccess(
                    Box::new((*self.expression).deep_view()),
                    deep_views(&self.attribute_path),
                    match &self.default {
                        Some(d) => Some(Box::new((**d).deep_view())),
                        None => None,
                    },
                ),
            ),
        decreases self,
    {
        let mut out = String::new();
        out.append("PropertyAccess(");
        let expression = expr_debug(&self.expression);
        out.append(expression.as_str());
        out.append(", ");
        let path = debug_items(&self.attribute_path);
        out.append(path.as_str());
        match &self.default {
            Some(d) => {
                out.append(", ");
                let default = expr_debug(d);
                out.append(default.as_str());
                out.append(")");
                proof {
                    assert(out@ =~= "PropertyAccess("@ + expression@ + ", "@ + path@ + ", "@
                        + default@ + ")"@);
                }
                out
            },
            None => {
                out.append(")");
                proof {
                    assert(out@ =~= "PropertyAccess("@ + expression@ + ", "@ + path@ + ")"@);
                }
                out
            },
        }
    }
}

impl HasAttribute {
    pub fn debug(&self) -> (r: String)
        ensures
            r@ == spec_debug(
                ExprV::HasAttribute(
                    Box::new((*self.expression).deep_view()),
                    deep_views(&self.attribute_path),
                ),
            ),
        decreases self,
    {
        let mut out = String::new();
        out.append("HasAttribute(");
        let path = debug_items(&self.attribute_path);
        out.append(path.as_str());
        out.append(")");
        proof {
            assert(out@ =~= "HasAttribute("@ + path@ + ")"@);
        }
        out
    }
}

impl Function {
    pub fn debug(&self) -> (r: String)
        ensures
            r@ == spec_debug(
                ExprV::Function(
                    Box::new((*self.head).deep_view()),
                    Box::new((*self.body).deep_view()),
                ),
            ),
        decreases self,
    {
        let mut out = String::new();
        out.append("Function(");
        let head = expr_debug(&self.head);
        out.append(head.as_str());
        out.append(", ");
        let body = expr_debug(&self.body);
        out.append(body.as_str());
        out.append(")");
        proof {
            assert(out@ =~= "Function("@ + head@ + ", "@ + body@ + ")"@);
        }
        out
    }
}

impl FunctionApplication {
    pub fn debug(&self) -> (r: String)
        ensures
            r@ == spec_debug(
                ExprV::FunctionApplication(
                    Box::new((*self.function).deep_view()),
                    deep_views(&self.arguments),
                ),
            ),
        decreases self,
    {
        let mut out = String::new();
        out.append("FunctionApplication(function=");
        let function = expr_debug(&self.function);
        out.append(function.as_str());
        out.append(", arguments=");
        let arguments = debug_items(&self.arguments);
        out.append(arguments.as_str());
        out.append(")");
        proof {
            assert(out@ =~= "FunctionApplication(function="@ + function@ + ", arguments="@
                + arguments@ + ")"@);
        }
        out
    }
}

impl FunctionHeadSimple {
    pub fn debug(&self) -> (r: String)
        ensures
            r@ == spec_debug(ExprV::FunctionHeadSimple(self.identifier.id@)),
    {
        let mut out = String::new();
        out.append("FunctionHeadSimple(identifier=");
        out.append(self.identifier.id.as_str());
        out.append(")");
        proof {
            assert(out@ =~= "FunctionHeadSimple(identifier="@ + self.identifier.id@ + ")"@);
        }
        out
    }
}

impl FunctionHeadDestructured {
    pub fn debug(&self) -> (r: String)
        ensures
            r@ == "FunctionHeadDestructured(ellipsis="@ + bool_text(self.ellipsis) + ")"@,
    {
        let mut out = String::new();
        out.append("FunctionHeadDestructured(ellipsis=");
        if self.ellipsis {
            out.append("true");
        } else {
            out.append("false");
        }
        out.append(")");
        proof {
            assert(out@ =~= "FunctionHeadDestructured(ellipsis="@ + bool_text(self.ellipsis)
                + ")"@);
        }
        out
    }
}

impl FunctionHead {
    pub fn debug(&self) -> (r: String)
        ensures
            r@ == spec_debug(self.deep_view()),
    {
        match self {
            FunctionHead::FunctionHeadSimple(x) => x.debug(),
            FunctionHead::FunctionHeadDestructured(x) => x.debug(),
        }
    }
}

impl FunctionHeadDestructuredArgument {
    pub fn debug(&self) -> (r: String)
        ensures
            (self.default is None ==> r@ == "FunctionHeadDestructuredArgument(identifier='"@
                + self.identifier@ + "', default=None)"@),
            (self.default matches Some(d) ==> r@
                == "FunctionHeadDestructuredArgument(identifier='"@ + self.identifier@
                + "', default="@ + spec_debug(d.deep_view()) + ")"@),
        decreases self,
    {
        let mut out = String::new();
        out.append("FunctionHeadDestructuredArgument(identifier='");
        out.append(self.identifier.as_str());
        out.append("', default=");
        match &self.default {
            Some(d) => {
                let inner = expr_debug(d);
                out.append(inner.as_str());
                out.append(")");
                proof {
                    assert(out@ =~= "FunctionHeadDestructuredArgument(identifier='"@
                        + self.identifier@ + "', default="@ + inner@ + ")"@);
                }
                out
            },
            None => {
                out.append("None)");
                proof {
                    reveal_strlit("', default=");
                    reveal_strlit("None)");
                    reveal_strlit("', default=None)");
                    assert(out@ =~= "FunctionHeadDestructuredArgument(identifier='"@
                        + self.identifier@ + "', default=None)"@);
                }
                out
            },
        }
    }
}

impl BindingInherit {
    pub fn debug(&self) -> (r: String)
        ensures
            r@ == "BindingInherit(from="@ + bool_text(self.from_ is Some) + ")"@,
    {
        let mut out = String::new();
        out.append("BindingInherit(from=");
        if self.from_.is_some() {
            out.append("true");
        } else {
            out.append("false");
        }
        out.append(")");
        proof {
            assert(out@ =~= "BindingInherit(from="@ + bool_text(self.from_ is Some) + ")"@);
        }
        out
    }
}

impl BindingKeyValue {
    pub fn debug(&self) -> (r: String)
        ensures
            r@ == spec_debug(
                ExprV::BindingKeyValue(
                    Box::new((*self.from_).deep_view()),
                    Box::new((*self.to).deep_view()),
                ),
            ),
        decreases self,
    {
        let mut out = String::new();
        out.append("KeyValue(");
        let key = expr_debug(&self.from_);
        out.append(key.as_str());
        out.append(")");
        proof {
            assert(out@ =~= "KeyValue("@ + key@ + ")"@);
        }
        out
    }
}

} // verus!
