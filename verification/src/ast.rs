//! The typed syntax tree: an immutable, owned tree of nodes carrying source
//! spans. `Expression` is the single recursive sum type; every node kind is a
//! variant of it. Each node abstracts to the span-free model of
//! [`crate::model`] through `deep_view`, and every contract speaks of that
//! model.

use vstd::prelude::*;
use crate::position::{Position, Span, spec_unit_span};
use crate::operators::{Operator, op_is_unary, op_is_binary, op_name};
use crate::errors::SyntaxError;
use crate::model::{ExprV, ArgV};

verus! {

// ==================== Leaf nodes ====================

/// A name plus its span.
#[derive(Clone, Debug, PartialEq)]
pub struct Identifier {
    pub id: String,
    pub span: Span,
}

/// A placeholder for a recovered error deliberately embedded in place of a
/// subtree; it renders as a failure, never as text.
#[derive(Clone, Debug, PartialEq)]
pub struct Error {
    pub message: String,
    pub span: Span,
}

/// An integer literal, stored as its original source text.
#[derive(Clone, Debug, PartialEq)]
pub struct Integer {
    pub value: String,
    pub span: Span,
}

/// A float literal, stored as its original source text.
#[derive(Clone, Debug, PartialEq)]
pub struct Float {
    pub value: String,
    pub span: Span,
}

/// A plain string literal, stored as its original source text.
#[derive(Clone, Debug, PartialEq)]
pub struct LiteralString {
    pub value: String,
    pub span: Span,
}

/// A boolean literal.
#[derive(Clone, Debug, PartialEq)]
pub struct Boolean {
    pub value: bool,
    pub span: Span,
}

/// The null literal.
#[derive(Clone, Debug, PartialEq)]
pub struct Null {
    pub span: Span,
}

/// A URI literal, stored verbatim.
#[derive(Clone, Debug, PartialEq)]
pub struct Uri {
    pub uri: String,
    pub span: Span,
}

/// An angle-bracket search path.
#[derive(Clone, Debug, PartialEq)]
pub struct SearchNixPath {
    pub path: String,
    pub span: Span,
}

/// A raw text segment of a string literal.
#[derive(Clone, Debug, PartialEq)]
pub struct PartRaw {
    pub content: String,
    pub span: Span,
}

// ==================== Composite nodes ====================

/// A slash-separated path whose segments are themselves expressions, so that
/// segments may interpolate.
#[derive(Debug, PartialEq)]
pub struct Path {
    pub parts: Vec<Expression>,
    pub span: Span,
}

/// A `${...}` splice inside a string literal.
#[derive(Debug, PartialEq)]
pub struct PartInterpolation {
    pub expression: Box<Expression>,
    pub span: Span,
}

/// A double-quoted string: an ordered sequence of raw and interpolated parts.
#[derive(Debug, PartialEq)]
pub struct NixString {
    pub parts: Vec<Expression>,
    pub span: Span,
}

/// An indented string: an ordered sequence of raw and interpolated parts.
#[derive(Debug, PartialEq)]
pub struct IndentedString {
    pub parts: Vec<Expression>,
    pub span: Span,
}

/// An operator applied to one operand. Construction fails unless the operator
/// is unary.
#[derive(Debug, PartialEq)]
pub struct UnaryOperation {
    pub operator: Operator,
    pub operand: Box<Expression>,
    pub span: Span,
}

/// An operator applied to two operands. Construction fails unless the
/// operator is binary.
#[derive(Debug, PartialEq)]
pub struct BinaryOperation {
    pub left: Box<Expression>,
    pub operator: Operator,
    pub right: Box<Expression>,
    pub span: Span,
}

/// `if ... then ... else ...`.
#[derive(Debug, PartialEq)]
pub struct IfThenElse {
    pub predicate: Box<Expression>,
    pub then_: Box<Expression>,
    pub else_: Box<Expression>,
    pub span: Span,
}

/// `assert ...`, optionally with a message.
#[derive(Debug, PartialEq)]
pub struct Assert {
    pub condition: Box<Expression>,
    pub message: Option<Box<Expression>>,
    pub span: Span,
}

/// `throw ...`.
#[derive(Debug, PartialEq)]
pub struct Throw {
    pub message: Box<Expression>,
    pub span: Span,
}

/// `with <scope>; <body>`.
#[derive(Debug, PartialEq)]
pub struct With {
    pub scope: Box<Expression>,
    pub body: Box<Expression>,
    pub span: Span,
}

/// `let <bindings> in <target>`. The bindings are binding-kind nodes only;
/// the parser enforces that separation.
#[derive(Debug, PartialEq)]
pub struct LetIn {
    pub bindings: Vec<Expression>,
    pub target: Box<Expression>,
    pub span: Span,
}

/// An ordered list of elements.
#[derive(Debug, PartialEq)]
pub struct List {
    pub elements: Vec<Expression>,
    pub span: Span,
}

/// An attribute set. `recursive` is a first-class flag set by which grammar
/// rule matched, never inferred from content, and controls the rendered
/// prefix.
#[derive(Debug, PartialEq)]
pub struct AttrSet {
    pub recursive: bool,
    pub bindings: Vec<Expression>,
    pub span: Span,
}

/// Property access with an optional existence-tested default.
#[derive(Debug, PartialEq)]
pub struct PropertyAccess {
    pub expression: Box<Expression>,
    pub attribute_path: Vec<Expression>,
    pub default: Option<Box<Expression>>,
    pub span: Span,
}

/// An attribute-existence test.
#[derive(Debug, PartialEq)]
pub struct HasAttribute {
    pub expression: Box<Expression>,
    pub attribute_path: Vec<Expression>,
    pub span: Span,
}

/// One argument of a destructured function head: a bound name with an
/// optional default expression.
#[derive(Debug, PartialEq)]
pub struct FunctionHeadDestructuredArgument {
    pub identifier: String,
    pub default: Option<Expression>,
}

/// A destructured-record function head, with an ellipsis flag for "accept
/// extra fields" and a bound name for the whole record.
#[derive(Debug, PartialEq)]
pub struct FunctionHeadDestructured {
    pub ellipsis: bool,
    pub identifier: Identifier,
    pub arguments: Vec<FunctionHeadDestructuredArgument>,
    pub span: Span,
}

/// A function head that binds a single name.
#[derive(Clone, Debug, PartialEq)]
pub struct FunctionHeadSimple {
    pub identifier: Identifier,
    pub span: Span,
}

/// Either kind of function head.
#[derive(Debug, PartialEq)]
pub enum FunctionHead {
    FunctionHeadSimple(FunctionHeadSimple),
    FunctionHeadDestructured(FunctionHeadDestructured),
}

/// `<head>: <body>`.
#[derive(Debug, PartialEq)]
pub struct Function {
    pub head: Box<Expression>,
    pub body: Box<Expression>,
    pub span: Span,
}

/// Function application by juxtaposition.
#[derive(Debug, PartialEq)]
pub struct FunctionApplication {
    pub function: Box<Expression>,
    pub arguments: Vec<Expression>,
    pub span: Span,
}

/// An `inherit` binding for one attribute, optionally from a source
/// expression. `inherit a b c;` yields one such binding per name.
#[derive(Debug, PartialEq)]
pub struct BindingInherit {
    pub from_: Option<Box<Expression>>,
    pub attributes: Box<Expression>,
    pub span: Span,
}

/// A `key = value;` binding.
#[derive(Debug, PartialEq)]
pub struct BindingKeyValue {
    pub from_: Box<Expression>,
    pub to: Box<Expression>,
}

/// The single recursive sum type of the syntax tree.
#[derive(Debug, PartialEq)]
pub enum Expression {
    Integer(Integer),
    Float(Float),
    Identifier(Identifier),
    LiteralString(LiteralString),
    Boolean(Boolean),
    Null(Null),
    Path(Path),
    Uri(Uri),
    SearchNixPath(SearchNixPath),
    Error(Error),
    UnaryOperation(UnaryOperation),
    BinaryOperation(BinaryOperation),
    IfThenElse(IfThenElse),
    Assert(Assert),
    Throw(Throw),
    With(With),
    LetIn(LetIn),
    List(List),
    AttrSet(AttrSet),
    NixString(NixString),
    IndentedString(IndentedString),
    PartRaw(PartRaw),
    PartInterpolation(PartInterpolation),
    PropertyAccess(PropertyAccess),
    HasAttribute(HasAttribute),
    Function(Function),
    FunctionApplication(FunctionApplication),
    FunctionHeadSimple(FunctionHeadSimple),
    FunctionHeadDestructured(FunctionHeadDestructured),
    BindingInherit(BindingInherit),
    BindingKeyValue(BindingKeyValue),
}

// ==================== Views into the model ====================

/// The models of the expressions a vector holds, in order.
pub open spec fn deep_views(v: &Vec<Expression>) -> Seq<ExprV>
    decreases v,
{
    deep_views_seq(v@)
}

/// The models of a sequence of expressions, in order.
pub open spec fn deep_views_seq(s: Seq<Expression>) -> Seq<ExprV>
    decreases s,
{
    if s.len() == 0 {
        Seq::<ExprV>::empty()
    } else {
        deep_views_seq(s.drop_last()).push(s.last().deep_view())
    }
}

/// The models of the destructured-head arguments a vector holds, in order.
pub open spec fn arg_views(v: &Vec<FunctionHeadDestructuredArgument>) -> Seq<ArgV>
    decreases v,
{
    arg_views_seq(v@)
}

/// The models of a sequence of destructured-head arguments, in order.
pub open spec fn arg_views_seq(s: Seq<FunctionHeadDestructuredArgument>) -> Seq<ArgV>
    decreases s,
{
    if s.len() == 0 {
        Seq::<ArgV>::empty()
    } else {
        arg_views_seq(s.drop_last()).push(s.last().deep_view())
    }
}

pub proof fn lemma_deep_views_seq(s: Seq<Expression>)
    ensures
        deep_views_seq(s).len() == s.len(),
        forall|k: int| 0 <= k < s.len() ==> deep_views_seq(s)[k] == s[k].deep_view(),
    decreases s.len(),
{
    if s.len() > 0 {
        lemma_deep_views_seq(s.drop_last());
        assert(deep_views_seq(s) == deep_views_seq(s.drop_last()).push(s.last().deep_view()));
        assert(deep_views_seq(s).len() == s.len());
        assert forall|k: int| 0 <= k < s.len() implies deep_views_seq(s)[k] == s[k].deep_view() by {
            if k < s.len() - 1 {
                assert(deep_views_seq(s)[k] == deep_views_seq(s.drop_last())[k]);
                assert(s.drop_last()[k] == s[k]);
            } else {
                assert(deep_views_seq(s)[k] == s.last().deep_view());
            }
        }
    }
}

pub proof fn lemma_arg_views_seq(s: Seq<FunctionHeadDestructuredArgument>)
    ensures
        arg_views_seq(s).len() == s.len(),
        forall|k: int| 0 <= k < s.len() ==> arg_views_seq(s)[k] == s[k].deep_view(),
    decreases s.len(),
{
    if s.len() > 0 {
        lemma_arg_views_seq(s.drop_last());
        assert(arg_views_seq(s) == arg_views_seq(s.drop_last()).push(s.last().deep_view()));
        assert(arg_views_seq(s).len() == s.len());
        assert forall|k: int| 0 <= k < s.len() implies arg_views_seq(s)[k] == s[k].deep_view() by {
            if k < s.len() - 1 {
                assert(arg_views_seq(s)[k] == arg_views_seq(s.drop_last())[k]);
                assert(s.drop_last()[k] == s[k]);
            } else {
                assert(arg_views_seq(s)[k] == s.last().deep_view());
            }
        }
    }
}

impl DeepView for FunctionHeadDestructuredArgument {
    type V = ArgV;

    open spec fn deep_view(&self) -> ArgV
        decreases self,
    {
        ArgV {
            identifier: self.identifier@,
            default: match &self.default {
                Some(d) => Some(Box::new(d.deep_view())),
                None => None,
            },
        }
    }
}

impl DeepView for FunctionHead {
    type V = ExprV;

    open spec fn deep_view(&self) -> ExprV {
        match self {
            FunctionHead::FunctionHeadSimple(h) => ExprV::FunctionHeadSimple(h.identifier.id@),
            FunctionHead::FunctionHeadDestructured(h) => ExprV::FunctionHeadDestructured(
                h.ellipsis,
                h.identifier.id@,
                arg_views(&h.arguments),
            ),
        }
    }
}

impl DeepView for Expression {
    type V = ExprV;

    open spec fn deep_view(&self) -> ExprV
        decreases self,
    {
        match self {
            Expression::Integer(x) => ExprV::Integer(x.value@),
            Expression::Float(x) => ExprV::Float(x.value@),
            Expression::Identifier(x) => ExprV::Identifier(x.id@),
            Expression::LiteralString(x) => ExprV::LiteralString(x.value@),
            Expression::Boolean(x) => ExprV::Boolean(x.value),
            Expression::Null(_) => ExprV::Null,
            Expression::Path(x) => ExprV::Path(deep_views(&x.parts)),
            Expression::Uri(x) => ExprV::Uri(x.uri@),
            Expression::SearchNixPath(x) => ExprV::SearchNixPath(x.path@),
            Expression::Error(x) => ExprV::Error(x.message@),
            Expression::UnaryOperation(x) => ExprV::UnaryOperation(
                x.operator,
                Box::new((*x.operand).deep_view()),
            ),
            Expression::BinaryOperation(x) => ExprV::BinaryOperation(
                Box::new((*x.left).deep_view()),
                x.operator,
                Box::new((*x.right).deep_view()),
            ),
            Expression::IfThenElse(x) => ExprV::IfThenElse(
                Box::new((*x.predicate).deep_view()),
                Box::new((*x.then_).deep_view()),
                Box::new((*x.else_).deep_view()),
            ),
            Expression::Assert(x) => ExprV::Assert(
                Box::new((*x.condition).deep_view()),
                match &x.message {
                    Some(m) => Some(Box::new((**m).deep_view())),
                    None => None,
                },
            ),
            Expression::Throw(x) => ExprV::Throw(Box::new((*x.message).deep_view())),
            Expression::With(x) => ExprV::With(
                Box::new((*x.scope).deep_view()),
                Box::new((*x.body).deep_view()),
            ),
            Expression::LetIn(x) => ExprV::LetIn(
                deep_views(&x.bindings),
                Box::new((*x.target).deep_view()),
            ),
            Expression::List(x) => ExprV::List(deep_views(&x.elements)),
            Expression::AttrSet(x) => ExprV::AttrSet(x.recursive, deep_views(&x.bindings)),
            Expression::NixString(x) => ExprV::NixString(deep_views(&x.parts)),
            Expression::IndentedString(x) => ExprV::IndentedString(deep_views(&x.parts)),
            Expression::PartRaw(x) => ExprV::PartRaw(x.content@),
            Expression::PartInterpolation(x) => ExprV::PartInterpolation(
                Box::new((*x.expression).deep_view()),
            ),
            Expression::PropertyAccess(x) => ExprV::PropertyAccess(
                Box::new((*x.expression).deep_view()),
                deep_views(&x.attribute_path),
                match &x.default {
                    Some(d) => Some(Box::new((**d).deep_view())),
                    None => None,
                },
            ),
            Expression::HasAttribute(x) => ExprV::HasAttribute(
                Box::new((*x.expression).deep_view()),
                deep_views(&x.attribute_path),
            ),
            Expression::Function(x) => ExprV::Function(
                Box::new((*x.head).deep_view()),
                Box::new((*x.body).deep_view()),
            ),
            Expression::FunctionApplication(x) => ExprV::FunctionApplication(
                Box::new((*x.function).deep_view()),
                deep_views(&x.arguments),
            ),
            Expression::FunctionHeadSimple(x) => ExprV::FunctionHeadSimple(x.identifier.id@),
            Expression::FunctionHeadDestructured(x) => ExprV::FunctionHeadDestructured(
                x.ellipsis,
                x.identifier.id@,
                arg_views(&x.arguments),
            ),
            Expression::BindingInherit(x) => ExprV::BindingInherit(
                match &x.from_ {
                    Some(f) => Some(Box::new((**f).deep_view())),
                    None => None,
                },
                Box::new((*x.attributes).deep_view()),
            ),
            Expression::BindingKeyValue(x) => ExprV::BindingKeyValue(
                Box::new((*x.from_).deep_view()),
                Box::new((*x.to).deep_view()),
            ),
        }
    }
}

// ==================== Constructors ====================

impl Identifier {
    pub fn new_span(id: String, span: Span) -> (r: Self)
        ensures
            r.id == id,
            r.span == span,
    {
        Self { id, span }
    }

    pub fn new(id: String) -> (r: Self)
        ensures
            r.id == id,
            r.span == spec_unit_span(),
    {
        Self { id, span: Span::unit() }
    }
}

impl Error {
    pub fn new_span(message: String, span: Span) -> (r: Self)
        ensures
            r.message == message,
            r.span == span,
    {
        Self { message, span }
    }

    pub fn new(message: String) -> (r: Self)
        ensures
            r.message == message,
            r.span == spec_unit_span(),
    {
        Self { message, span: Span::unit() }
    }
}

impl Integer {
    pub fn new_span(value: String, span: Span) -> (r: Self)
        ensures
            r.value == value,
            r.span == span,
    {
        Self { value, span }
    }

    pub fn new(value: String) -> (r: Self)
        ensures
            r.value == value,
            r.span == spec_unit_span(),
    {
        Self { value, span: Span::unit() }
    }
}

impl Float {
    pub fn new_span(value: String, span: Span) -> (r: Self)
        ensures
            r.value == value,
            r.span == span,
    {
        Self { value, span }
    }

    pub fn new(value: String) -> (r: Self)
        ensures
            r.value == value,
            r.span == spec_unit_span(),
    {
        Self { value, span: Span::unit() }
    }
}

impl LiteralString {
    pub fn new_span(value: String, span: Span) -> (r: Self)
        ensures
            r.value == value,
            r.span == span,
    {
        Self { value, span }
    }

    pub fn new(value: String) -> (r: Self)
        ensures
            r.value == value,
            r.span == spec_unit_span(),
    {
        Self { value, span: Span::unit() }
    }
}

impl Boolean {
    pub fn new_span(value: bool, span: Span) -> (r: Self)
        ensures
            r.value == value,
            r.span == span,
    {
        Self { value, span }
    }

    pub fn new(value: bool) -> (r: Self)
        ensures
            r.value == value,
            r.span == spec_unit_span(),
    {
        Self { value, span: Span::unit() }
    }
}

impl Null {
    pub fn new_span(span: Span) -> (r: Self)
        ensures
            r.span == span,
    {
        Self { span }
    }

    pub fn new() -> (r: Self)
        ensures
            r.span == spec_unit_span(),
    {
        Self { span: Span::unit() }
    }
}

impl Uri {
    pub fn new_span(uri: String, span: Span) -> (r: Self)
        ensures
            r.uri == uri,
            r.span == span,
    {
        Self { uri, span }
    }

    pub fn new(uri: String) -> (r: Self)
        ensures
            r.uri == uri,
            r.span == spec_unit_span(),
    {
        Self { uri, span: Span::unit() }
    }
}

impl SearchNixPath {
    pub fn new_span(path: String, span: Span) -> (r: Self)
        ensures
            r.path == path,
            r.span == span,
    {
        Self { path, span }
    }

    pub fn new(path: String) -> (r: Self)
        ensures
            r.path == path,
            r.span == spec_unit_span(),
    {
        Self { path, span: Span::unit() }
    }
}

impl PartRaw {
    pub fn new_span(content: String, span: Span) -> (r: Self)
        ensures
            r.content == content,
            r.span == span,
    {
        Self { content, span }
    }

    pub fn new(content: String) -> (r: Self)
        ensures
            r.content == content,
            r.span == spec_unit_span(),
    {
        Self { content, span: Span::unit() }
    }
}

impl Path {
    pub fn new_span(parts: Vec<Expression>, span: Span) -> (r: Self)
        ensures
            r.parts == parts,
            r.span == span,
    {
        Self { parts, span }
    }

    pub fn new(parts: Vec<Expression>) -> (r: Self)
        ensures
            r.parts == parts,
            r.span == spec_unit_span(),
    {
        Self { parts, span: Span::unit() }
    }
}

impl PartInterpolation {
    pub fn new_span(expression: Expression, span: Span) -> (r: Self)
        ensures
            *r.expression == expression,
            r.span == span,
    {
        Self { expression: Box::new(expression), span }
    }

    pub fn new(expression: Expression, _span: Span) -> (r: Self)
        ensures
            *r.expression == expression,
            r.span == spec_unit_span(),
    {
        Self { expression: Box::new(expression), span: Span::unit() }
    }
}

impl NixString {
    pub fn new_span(parts: Vec<Expression>, span: Span) -> (r: Self)
        ensures
            r.parts == parts,
            r.span == span,
    {
        Self { parts, span }
    }

    pub fn new(parts: Vec<Expression>) -> (r: Self)
        ensures
            r.parts == parts,
            r.span == spec_unit_span(),
    {
        Self { parts, span: Span::unit() }
    }
}

impl IndentedString {
    pub fn new_span(parts: Vec<Expression>, span: Span) -> (r: Self)
        ensures
            r.parts == parts,
            r.span == span,
    {
        Self { parts, span }
    }

    pub fn new(parts: Vec<Expression>) -> (r: Self)
        ensures
            r.parts == parts,
            r.span == spec_unit_span(),
    {
        Self { parts, span: Span::unit() }
    }
}

impl UnaryOperation {
    /// Construction enforces arity: only a unary operator may head a unary
    /// operation; a binary-only operator is rejected, never panicked on.
    pub fn new_span(operator: Operator, operand: Expression, span: Span) -> (r: Result<
        Self,
        SyntaxError,
    >)
        ensures
            op_is_unary(operator) ==> (r matches Ok(u) && u.operator == operator && *u.operand
                == operand && u.span == span),
            !op_is_unary(operator) ==> (r matches Err(e) && e.message@
                == "cannot build a unary operation from the binary operator "@ + op_name(operator)),
    {
        if operator.is_unary() {
            Ok(Self { operator, operand: Box::new(operand), span })
        } else {
            let mut message = String::new();
            message.append("cannot build a unary operation from the binary operator ");
            let name = operator.debug();
            message.append(name.as_str());
            Err(SyntaxError { message })
        }
    }

    pub fn new(operator: Operator, operand: Expression) -> (r: Result<Self, SyntaxError>)
        ensures
            op_is_unary(operator) ==> (r matches Ok(u) && u.operator == operator && *u.operand
                == operand && u.span == spec_unit_span()),
            !op_is_unary(operator) ==> (r matches Err(e) && e.message@
                == "cannot build a unary operation from the binary operator "@ + op_name(operator)),
    {
        Self::new_span(operator, operand, Span::unit())
    }
}

impl BinaryOperation {
    /// Construction enforces arity: only a binary operator may join two
    /// operands; a unary-only operator is rejected, never panicked on.
    pub fn new_span(left: Expression, operator: Operator, right: Expression, span: Span) -> (r:
        Result<Self, SyntaxError>)
        ensures
            op_is_binary(operator) ==> (r matches Ok(b) && *b.left == left && b.operator
                == operator && *b.right == right && b.span == span),
            !op_is_binary(operator) ==> (r matches Err(e) && e.message@
                == "cannot build a binary operation from the unary operator "@ + op_name(operator)),
    {
        if operator.is_binary() {
            Ok(Self { left: Box::new(left), operator, right: Box::new(right), span })
        } else {
            let mut message = String::new();
            message.append("cannot build a binary operation from the unary operator ");
            let name = operator.debug();
            message.append(name.as_str());
            Err(SyntaxError { message })
        }
    }

    pub fn new(left: Expression, operator: Operator, right: Expression) -> (r: Result<
        Self,
        SyntaxError,
    >)
        ensures
            op_is_binary(operator) ==> (r matches Ok(b) && *b.left == left && b.operator
                == operator && *b.right == right && b.span == spec_unit_span()),
            !op_is_binary(operator) ==> (r matches Err(e) && e.message@
                == "cannot build a binary operation from the unary operator "@ + op_name(operator)),
    {
        Self::new_span(left, operator, right, Span::unit())
    }
}

impl IfThenElse {
    pub fn new_span(predicate: Expression, then_: Expression, else_: Expression, span: Span) -> (r:
        Self)
        ensures
            *r.predicate == predicate,
            *r.then_ == then_,
            *r.else_ == else_,
            r.span == span,
    {
        Self {
            predicate: Box::new(predicate),
            then_: Box::new(then_),
            else_: Box::new(else_),
            span,
        }
    }

    pub fn new(predicate: Expression, then_: Expression, else_: Expression) -> (r: Self)
        ensures
            *r.predicate == predicate,
            *r.then_ == then_,
            *r.else_ == else_,
            r.span == spec_unit_span(),
    {
        Self::new_span(predicate, then_, else_, Span::unit())
    }
}

impl Assert {
    pub fn new_span(condition: Expression, message: Option<Expression>, span: Span) -> (r: Self)
        ensures
            *r.condition == condition,
            message matches Some(m) ==> (r.message matches Some(b) && *b == m),
            message is None ==> r.message is None,
            r.span == span,
    {
        Self {
            condition: Box::new(condition),
            message: match message {
                Some(m) => Some(Box::new(m)),
                None => None,
            },
            span,
        }
    }

    pub fn new(condition: Expression, message: Option<Expression>) -> (r: Self)
        ensures
            *r.condition == condition,
            message matches Some(m) ==> (r.message matches Some(b) && *b == m),
            message is None ==> r.message is None,
            r.span == spec_unit_span(),
    {
        Self::new_span(condition, message, Span::unit())
    }
}

impl Throw {
    pub fn new_span(message: Expression, span: Span) -> (r: Self)
        ensures
            *r.message == message,
            r.span == span,
    {
        Self { message: Box::new(message), span }
    }

    pub fn new(message: Expression) -> (r: Self)
        ensures
            *r.message == message,
            r.span == spec_unit_span(),
    {
        Self::new_span(message, Span::unit())
    }
}

impl With {
    pub fn new_span(scope: Expression, body: Expression, span: Span) -> (r: Self)
        ensures
            *r.scope == scope,
            *r.body == body,
            r.span == span,
    {
        Self { scope: Box::new(scope), body: Box::new(body), span }
    }

    pub fn new(scope: Expression, body: Expression) -> (r: Self)
        ensures
            *r.scope == scope,
            *r.body == body,
            r.span == spec_unit_span(),
    {
        Self::new_span(scope, body, Span::unit())
    }
}

impl LetIn {
    pub fn new_span(bindings: Vec<Expression>, target: Expression, span: Span) -> (r: Self)
        ensures
            r.bindings == bindings,
            *r.target == target,
            r.span == span,
    {
        Self { bindings, target: Box::new(target), span }
    }

    pub fn new(bindings: Vec<Expression>, target: Expression) -> (r: Self)
        ensures
            r.bindings == bindings,
            *r.target == target,
            r.span == spec_unit_span(),
    {
        Self::new_span(bindings, target, Span::unit())
    }
}

impl List {
    pub fn new_span(elements: Vec<Expression>, span: Span) -> (r: Self)
        ensures
            r.elements == elements,
            r.span == span,
    {
        Self { elements, span }
    }

    pub fn new(elements: Vec<Expression>) -> (r: Self)
        ensures
            r.elements == elements,
            r.span == spec_unit_span(),
    {
        Self::new_span(elements, Span::unit())
    }
}

impl AttrSet {
    pub fn new_span(recursive: bool, bindings: Vec<Expression>, span: Span) -> (r: Self)
        ensures
            r.recursive == recursive,
            r.bindings == bindings,
            r.span == span,
    {
        Self { recursive, bindings, span }
    }

    pub fn new(recursive: bool, bindings: Vec<Expression>) -> (r: Self)
        ensures
            r.recursive == recursive,
            r.bindings == bindings,
            r.span == spec_unit_span(),
    {
        Self::new_span(recursive, bindings, Span::unit())
    }
}

impl PropertyAccess {
    pub fn new_span(
        expression: Expression,
        attribute_path: Vec<Expression>,
        default: Option<Expression>,
        span: Span,
    ) -> (r: Self)
        ensures
            *r.expression == expression,
            r.attribute_path == attribute_path,
            default matches Some(d) ==> (r.default matches Some(b) && *b == d),
            default is None ==> r.default is None,
            r.span == span,
    {
        Self {
            expression: Box::new(expression),
            attribute_path,
            default: match default {
                Some(d) => Some(Box::new(d)),
                None => None,
            },
            span,
        }
    }

    pub fn new(
        expression: Expression,
        attribute_path: Vec<Expression>,
        default: Option<Expression>,
    ) -> (r: Self)
        ensures
            *r.expression == expression,
            r.attribute_path == attribute_path,
            default matches Some(d) ==> (r.default matches Some(b) && *b == d),
            default is None ==> r.default is None,
            r.span == spec_unit_span(),
    {
        Self::new_span(expression, attribute_path, default, Span::unit())
    }
}

impl HasAttribute {
    pub fn new_span(expression: Expression, attribute_path: Vec<Expression>, span: Span) -> (r:
        Self)
        ensures
            *r.expression == expression,
            r.attribute_path == attribute_path,
            r.span == span,
    {
        Self { expression: Box::new(expression), attribute_path, span }
    }

    pub fn new(expression: Expression, attribute_path: Vec<Expression>) -> (r: Self)
        ensures
            *r.expression == expression,
            r.attribute_path == attribute_path,
            r.span == spec_unit_span(),
    {
        Self::new_span(expression, attribute_path, Span::unit())
    }
}

impl FunctionHeadDestructuredArgument {
    pub fn new(identifier: String, default: Option<Expression>) -> (r: Self)
        ensures
            r.identifier == identifier,
            r.default == default,
    {
        Self { identifier, default }
    }
}

impl FunctionHeadDestructured {
    pub fn new_span(
        ellipsis: bool,
        identifier: Identifier,
        arguments: Vec<FunctionHeadDestructuredArgument>,
        span: Span,
    ) -> (r: Self)
        ensures
            r.ellipsis == ellipsis,
            r.identifier == identifier,
            r.arguments == arguments,
            r.span == span,
    {
        Self { ellipsis, identifier, arguments, span }
    }

    pub fn new(
        ellipsis: bool,
        identifier: Identifier,
        arguments: Vec<FunctionHeadDestructuredArgument>,
    ) -> (r: Self)
        ensures
            r.ellipsis == ellipsis,
            r.identifier == identifier,
            r.arguments == arguments,
            r.span == spec_unit_span(),
    {
        Self::new_span(ellipsis, identifier, arguments, Span::unit())
    }
}

impl FunctionHeadSimple {
    pub fn new_span(identifier: Identifier, span: Span) -> (r: Self)
        ensures
            r.identifier == identifier,
            r.span == span,
    {
        Self { identifier, span }
    }

    pub fn new(identifier: Identifier) -> (r: Self)
        ensures
            r.identifier == identifier,
            r.span == spec_unit_span(),
    {
        Self::new_span(identifier, Span::unit())
    }
}

impl Function {
    pub fn new_span(head: Expression, body: Expression, span: Span) -> (r: Self)
        ensures
            *r.head == head,
            *r.body == body,
            r.span == span,
    {
        Self { head: Box::new(head), body: Box::new(body), span }
    }

    pub fn new(head: Expression, body: Expression) -> (r: Self)
        ensures
            *r.head == head,
            *r.body == body,
            r.span == spec_unit_span(),
    {
        Self::new_span(head, body, Span::unit())
    }
}

impl FunctionApplication {
    pub fn new_span(function: Expression, arguments: Vec<Expression>, span: Span) -> (r: Self)
        ensures
            *r.function == function,
            r.arguments == arguments,
            r.span == span,
    {
        Self { function: Box::new(function), arguments, span }
    }

    pub fn new(function: Expression, arguments: Vec<Expression>) -> (r: Self)
        ensures
            *r.function == function,
            r.arguments == arguments,
            r.span == spec_unit_span(),
    {
        Self::new_span(function, arguments, Span::unit())
    }
}

impl BindingInherit {
    pub fn new_span(from_: Option<Expression>, attributes: Expression, span: Span) -> (r: Self)
        ensures
            from_ matches Some(f) ==> (r.from_ matches Some(b) && *b == f),
            from_ is None ==> r.from_ is None,
            *r.attributes == attributes,
            r.span == span,
    {
        Self {
            from_: match from_ {
                Some(f) => Some(Box::new(f)),
                None => None,
            },
            attributes: Box::new(attributes),
            span,
        }
    }

    pub fn new(from_: Option<Expression>, attributes: Expression) -> (r: Self)
        ensures
            from_ matches Some(f) ==> (r.from_ matches Some(b) && *b == f),
            from_ is None ==> r.from_ is None,
            *r.attributes == attributes,
            r.span == spec_unit_span(),
    {
        Self::new_span(from_, attributes, Span::unit())
    }
}

impl BindingKeyValue {
    pub fn new_span(from_: Expression, to: Expression) -> (r: Self)
        ensures
            *r.from_ == from_,
            *r.to == to,
    {
        Self { from_: Box::new(from_), to: Box::new(to) }
    }

    pub fn new(from_: Expression, to: Expression) -> (r: Self)
        ensures
            *r.from_ == from_,
            *r.to == to,
    {
        Self::new_span(from_, to)
    }
}

// ==================== View lemmas used by the parser ====================

pub proof fn lemma_views_cons(e: Expression, rest: Seq<Expression>)
    ensures
        deep_views_seq(seq![e] + rest) == seq![e.deep_view()] + deep_views_seq(rest),
{
    lemma_deep_views_seq(seq![e] + rest);
    lemma_deep_views_seq(rest);
    assert(deep_views_seq(seq![e] + rest) =~= seq![e.deep_view()] + deep_views_seq(rest));
}

pub proof fn lemma_views_concat(a: Seq<Expression>, b: Seq<Expression>)
    ensures
        deep_views_seq(a + b) == deep_views_seq(a) + deep_views_seq(b),
{
    lemma_deep_views_seq(a + b);
    lemma_deep_views_seq(a);
    lemma_deep_views_seq(b);
    assert(deep_views_seq(a + b) =~= deep_views_seq(a) + deep_views_seq(b));
}

pub proof fn lemma_arg_views_cons(a: FunctionHeadDestructuredArgument, rest: Seq<
    FunctionHeadDestructuredArgument,
>)
    ensures
        arg_views_seq(seq![a] + rest) == seq![a.deep_view()] + arg_views_seq(rest),
{
    lemma_arg_views_seq(seq![a] + rest);
    lemma_arg_views_seq(rest);
    assert(arg_views_seq(seq![a] + rest) =~= seq![a.deep_view()] + arg_views_seq(rest));
}

// ==================== Deep copies ====================

/// Copies of the expressions a vector holds, equal to the originals under the
/// model.
fn clone_exprs(v: &Vec<Expression>) -> (r: Vec<Expression>)
    ensures
        r@.len() == v@.len(),
        forall|k: int| 0 <= k < v@.len() ==> r@[k].deep_view() == v@[k].deep_view(),
    decreases v,
{
    let mut out: Vec<Expression> = Vec::new();
    let mut i: usize = 0;
    while i < v.len()
        invariant
            0 <= i <= v@.len(),
            out@.len() == i,
            forall|k: int| 0 <= k < i ==> out@[k].deep_view() == v@[k].deep_view(),
        decreases v@.len() - i,
    {
        let c = v[i].clone();
        out.push(c);
        i = i + 1;
    }
    out
}

/// Copies of the destructured-head arguments a vector holds.
fn clone_args(v: &Vec<FunctionHeadDestructuredArgument>) -> (r: Vec<
    FunctionHeadDestructuredArgument,
>)
    ensures
        r@.len() == v@.len(),
        forall|k: int| 0 <= k < v@.len() ==> r@[k].deep_view() == v@[k].deep_view(),
    decreases v,
{
    let mut out: Vec<FunctionHeadDestructuredArgument> = Vec::new();
    let mut i: usize = 0;
    while i < v.len()
        invariant
            0 <= i <= v@.len(),
            out@.len() == i,
            forall|k: int| 0 <= k < i ==> out@[k].deep_view() == v@[k].deep_view(),
        decreases v@.len() - i,
    {
        let c = v[i].clone();
        out.push(c);
        i = i + 1;
    }
    out
}

impl Clone for FunctionHeadDestructuredArgument {
    /// A copy equal to the original under the model.
    fn clone(&self) -> (r: Self)
        ensures
            r.deep_view() == self.deep_view(),
        decreases self,
    {
        FunctionHeadDestructuredArgument {
            identifier: self.identifier.clone(),
            default: match &self.default {
                Some(d) => Some(d.clone()),
                None => None,
            },
        }
    }
}

impl Clone for Expression {
    /// A copy equal to the original under the model: same structure, same
    /// stored text, spans copied along.
    fn clone(&self) -> (r: Self)
        ensures
            r.deep_view() == self.deep_view(),
        decreases self,
    {
        match self {
            Expression::Integer(x) => Expression::Integer(
                Integer { value: x.value.clone(), span: x.span.clone() },
            ),
            Expression::Float(x) => Expression::Float(
                Float { value: x.value.clone(), span: x.span.clone() },
            ),
            Expression::Identifier(x) => Expression::Identifier(
                Identifier { id: x.id.clone(), span: x.span.clone() },
            ),
            Expression::LiteralString(x) => Expression::LiteralString(
                LiteralString { value: x.value.clone(), span: x.span.clone() },
            ),
            Expression::Boolean(x) => Expression::Boolean(
                Boolean { value: x.value, span: x.span.clone() },
            ),
            Expression::Null(x) => Expression::Null(Null { span: x.span.clone() }),
            Expression::Path(x) => {
                let parts = clone_exprs(&x.parts);
                proof {
                    lemma_deep_views_seq(parts@);
                    lemma_deep_views_seq(x.parts@);
                    assert(deep_views(&parts) =~= deep_views(&x.parts));
                }
                Expression::Path(Path { parts, span: x.span.clone() })
            },
            Expression::Uri(x) => Expression::Uri(Uri { uri: x.uri.clone(), span: x.span.clone() }),
            Expression::SearchNixPath(x) => Expression::SearchNixPath(
                SearchNixPath { path: x.path.clone(), span: x.span.clone() },
            ),
            Expression::Error(x) => Expression::Error(
                Error { message: x.message.clone(), span: x.span.clone() },
            ),
            Expression::UnaryOperation(x) => Expression::UnaryOperation(
                UnaryOperation {
                    operator: x.operator,
                    operand: Box::new((*x.operand).clone()),
                    span: x.span.clone(),
                },
            ),
            Expression::BinaryOperation(x) => Expression::BinaryOperation(
                BinaryOperation {
                    left: Box::new((*x.left).clone()),
                    operator: x.operator,
                    right: Box::new((*x.right).clone()),
                    span: x.span.clone(),
                },
            ),
            Expression::IfThenElse(x) => Expression::IfThenElse(
                IfThenElse {
                    predicate: Box::new((*x.predicate).clone()),
                    then_: Box::new((*x.then_).clone()),
                    else_: Box::new((*x.else_).clone()),
                    span: x.span.clone(),
                },
            ),
            Expression::Assert(x) => Expression::Assert(
                Assert {
                    condition: Box::new((*x.condition).clone()),
                    message: match &x.message {
                        Some(m) => Some(Box::new((**m).clone())),
                        None => None,
                    },
                    span: x.span.clone(),
                },
            ),
            Expression::Throw(x) => Expression::Throw(
                Throw { message: Box::new((*x.message).clone()), span: x.span.clone() },
            ),
            Expression::With(x) => Expression::With(
                With {
                    scope: Box::new((*x.scope).clone()),
                    body: Box::new((*x.body).clone()),
                    span: x.span.clone(),
                },
            ),
            Expression::LetIn(x) => {
                let bindings = clone_exprs(&x.bindings);
                proof {
                    lemma_deep_views_seq(bindings@);
                    lemma_deep_views_seq(x.bindings@);
                    assert(deep_views(&bindings) =~= deep_views(&x.bindings));
                }
                Expression::LetIn(
                    LetIn { bindings, target: Box::new((*x.target).clone()), span: x.span.clone() },
                )
            },
            Expression::List(x) => {
                let elements = clone_exprs(&x.elements);
                proof {
                    lemma_deep_views_seq(elements@);
                    lemma_deep_views_seq(x.elements@);
                    assert(deep_views(&elements) =~= deep_views(&x.elements));
                }
                Expression::List(List { elements, span: x.span.clone() })
            },
            Expression::AttrSet(x) => {
                let bindings = clone_exprs(&x.bindings);
                proof {
                    lemma_deep_views_seq(bindings@);
                    lemma_deep_views_seq(x.bindings@);
                    assert(deep_views(&bindings) =~= deep_views(&x.bindings));
                }
                Expression::AttrSet(
                    AttrSet { recursive: x.recursive, bindings, span: x.span.clone() },
                )
            },
            Expression::NixString(x) => {
                let parts = clone_exprs(&x.parts);
                proof {
                    lemma_deep_views_seq(parts@);
                    lemma_deep_views_seq(x.parts@);
                    assert(deep_views(&parts) =~= deep_views(&x.parts));
                }
                Expression::NixString(NixString { parts, span: x.span.clone() })
            },
            Expression::IndentedString(x) => {
                let parts = clone_exprs(&x.parts);
                proof {
                    lemma_deep_views_seq(parts@);
                    lemma_deep_views_seq(x.parts@);
                    assert(deep_views(&parts) =~= deep_views(&x.parts));
                }
                Expression::IndentedString(IndentedString { parts, span: x.span.clone() })
            },
            Expression::PartRaw(x) => Expression::PartRaw(
                PartRaw { content: x.content.clone(), span: x.span.clone() },
            ),
            Expression::PartInterpolation(x) => Expression::PartInterpolation(
                PartInterpolation {
                    expression: Box::new((*x.expression).clone()),
                    span: x.span.clone(),
                },
            ),
            Expression::PropertyAccess(x) => {
                let attribute_path = clone_exprs(&x.attribute_path);
                proof {
                    lemma_deep_views_seq(attribute_path@);
                    lemma_deep_views_seq(x.attribute_path@);
                    assert(deep_views(&attribute_path) =~= deep_views(&x.attribute_path));
                }
                Expression::PropertyAccess(
                    PropertyAccess {
                        expression: Box::new((*x.expression).clone()),
                        attribute_path,
                        default: match &x.default {
                            Some(d) => Some(Box::new((**d).clone())),
                            None => None,
                        },
                        span: x.span.clone(),
                    },
                )
            },
            Expression::HasAttribute(x) => {
                let attribute_path = clone_exprs(&x.attribute_path);
                proof {
                    lemma_deep_views_seq(attribute_path@);
                    lemma_deep_views_seq(x.attribute_path@);
                    assert(deep_views(&attribute_path) =~= deep_views(&x.attribute_path));
                }
                Expression::HasAttribute(
                    HasAttribute {
                        expression: Box::new((*x.expression).clone()),
                        attribute_path,
                        span: x.span.clone(),
                    },
                )
            },
            Expression::Function(x) => Expression::Function(
                Function {
                    head: Box::new((*x.head).clone()),
                    body: Box::new((*x.body).clone()),
                    span: x.span.clone(),
                },
            ),
            Expression::FunctionApplication(x) => {
                let arguments = clone_exprs(&x.arguments);
                proof {
                    lemma_deep_views_seq(arguments@);
                    lemma_deep_views_seq(x.arguments@);
                    assert(deep_views(&arguments) =~= deep_views(&x.arguments));
                }
                Expression::FunctionApplication(
                    FunctionApplication {
                        function: Box::new((*x.function).clone()),
                        arguments,
                        span: x.span.clone(),
                    },
                )
            },
            Expression::FunctionHeadSimple(x) => Expression::FunctionHeadSimple(
                FunctionHeadSimple {
                    identifier: Identifier {
                        id: x.identifier.id.clone(),
                        span: x.identifier.span.clone(),
                    },
                    span: x.span.clone(),
                },
            ),
            Expression::FunctionHeadDestructured(x) => {
                let arguments = clone_args(&x.arguments);
                proof {
                    lemma_arg_views_seq(arguments@);
                    lemma_arg_views_seq(x.arguments@);
                    assert(arg_views(&arguments) =~= arg_views(&x.arguments));
                }
                Expression::FunctionHeadDestructured(
                    FunctionHeadDestructured {
                        ellipsis: x.ellipsis,
                        identifier: Identifier {
                            id: x.identifier.id.clone(),
                            span: x.identifier.span.clone(),
                        },
                        arguments,
                        span: x.span.clone(),
                    },
                )
            },
            Expression::BindingInherit(x) => Expression::BindingInherit(
                BindingInherit {
                    from_: match &x.from_ {
                        Some(f) => Some(Box::new((**f).clone())),
                        None => None,
                    },
                    attributes: Box::new((*x.attributes).clone()),
                    span: x.span.clone(),
                },
            ),
            Expression::BindingKeyValue(x) => Expression::BindingKeyValue(
                BindingKeyValue {
                    from_: Box::new((*x.from_).clone()),
                    to: Box::new((*x.to).clone()),
                },
            ),
        }
    }
}


// ==================== Span-free copies ====================


/// The expressions of a vector with every span reset to the placeholder.
fn strip_exprs(v: &Vec<Expression>) -> (r: Vec<Expression>)
    ensures
        r@.len() == v@.len(),
        forall|k: int| 0 <= k < v@.len() ==> r@[k].deep_view() == v@[k].deep_view(),
    decreases v,
{
    let mut out: Vec<Expression> = Vec::new();
    let mut i: usize = 0;
    while i < v.len()
        invariant
            0 <= i <= v@.len(),
            out@.len() == i,
            forall|k: int| 0 <= k < i ==> out@[k].deep_view() == v@[k].deep_view(),
        decreases v@.len() - i,
    {
        let c = v[i].with_unit_spans();
        out.push(c);
        i = i + 1;
    }
    out
}

/// The destructured-head arguments of a vector with every span reset.
fn strip_args(v: &Vec<FunctionHeadDestructuredArgument>) -> (r: Vec<
    FunctionHeadDestructuredArgument,
>)
    ensures
        r@.len() == v@.len(),
        forall|k: int| 0 <= k < v@.len() ==> r@[k].deep_view() == v@[k].deep_view(),
    decreases v,
{
    let mut out: Vec<FunctionHeadDestructuredArgument> = Vec::new();
    let mut i: usize = 0;
    while i < v.len()
        invariant
            0 <= i <= v@.len(),
            out@.len() == i,
            forall|k: int| 0 <= k < i ==> out@[k].deep_view() == v@[k].deep_view(),
        decreases v@.len() - i,
    {
        let c = v[i].with_unit_spans();
        out.push(c);
        i = i + 1;
    }
    out
}

impl FunctionHeadDestructuredArgument {
    /// The same argument with every span in its default reset to the
    /// placeholder.
    pub fn with_unit_spans(&self) -> (r: Self)
        ensures
            r.deep_view() == self.deep_view(),
        decreases self,
    {
        FunctionHeadDestructuredArgument {
            identifier: self.identifier.clone(),
            default: match &self.default {
                Some(d) => Some(d.with_unit_spans()),
                None => None,
            },
        }
    }
}

impl Expression {
    /// The same tree with every span reset to the placeholder: the
    /// structural content alone, for comparisons that ignore positions.
    pub fn with_unit_spans(&self) -> (r: Self)
        ensures
            r.deep_view() == self.deep_view(),
        decreases self,
    {
        match self {
            Expression::Integer(x) => Expression::Integer(
                Integer { value: x.value.clone(), span: Span::unit() },
            ),
            Expression::Float(x) => Expression::Float(
                Float { value: x.value.clone(), span: Span::unit() },
            ),
            Expression::Identifier(x) => Expression::Identifier(
                Identifier { id: x.id.clone(), span: Span::unit() },
            ),
            Expression::LiteralString(x) => Expression::LiteralString(
                LiteralString { value: x.value.clone(), span: Span::unit() },
            ),
            Expression::Boolean(x) => Expression::Boolean(
                Boolean { value: x.value, span: Span::unit() },
            ),
            Expression::Null(x) => Expression::Null(Null { span: Span::unit() }),
            Expression::Path(x) => {
                let parts = strip_exprs(&x.parts);
                proof {
                    lemma_deep_views_seq(parts@);
                    lemma_deep_views_seq(x.parts@);
                    assert(deep_views(&parts) =~= deep_views(&x.parts));
                }
                Expression::Path(Path { parts, span: Span::unit() })
            },
            Expression::Uri(x) => Expression::Uri(Uri { uri: x.uri.clone(), span: Span::unit() }),
            Expression::SearchNixPath(x) => Expression::SearchNixPath(
                SearchNixPath { path: x.path.clone(), span: Span::unit() },
            ),
            Expression::Error(x) => Expression::Error(
                Error { message: x.message.clone(), span: Span::unit() },
            ),
            Expression::UnaryOperation(x) => Expression::UnaryOperation(
                UnaryOperation {
                    operator: x.operator,
                    operand: Box::new((*x.operand).with_unit_spans()),
                    span: Span::unit(),
                },
            ),
            Expression::BinaryOperation(x) => Expression::BinaryOperation(
                BinaryOperation {
                    left: Box::new((*x.left).with_unit_spans()),
                    operator: x.operator,
                    right: Box::new((*x.right).with_unit_spans()),
                    span: Span::unit(),
                },
            ),
            Expression::IfThenElse(x) => Expression::IfThenElse(
                IfThenElse {
                    predicate: Box::new((*x.predicate).with_unit_spans()),
                    then_: Box::new((*x.then_).with_unit_spans()),
                    else_: Box::new((*x.else_).with_unit_spans()),
                    span: Span::unit(),
                },
            ),
            Expression::Assert(x) => Expression::Assert(
                Assert {
                    condition: Box::new((*x.condition).with_unit_spans()),
                    message: match &x.message {
                        Some(m) => Some(Box::new((**m).with_unit_spans())),
                        None => None,
                    },
                    span: Span::unit(),
                },
            ),
            Expression::Throw(x) => Expression::Throw(
                Throw { message: Box::new((*x.message).with_unit_spans()), span: Span::unit() },
            ),
            Expression::With(x) => Expression::With(
                With {
                    scope: Box::new((*x.scope).with_unit_spans()),
                    body: Box::new((*x.body).with_unit_spans()),
                    span: Span::unit(),
                },
            ),
            Expression::LetIn(x) => {
                let bindings = strip_exprs(&x.bindings);
                proof {
                    lemma_deep_views_seq(bindings@);
                    lemma_deep_views_seq(x.bindings@);
                    assert(deep_views(&bindings) =~= deep_views(&x.bindings));
                }
                Expression::LetIn(
                    LetIn { bindings, target: Box::new((*x.target).with_unit_spans()), span: Span::unit() },
                )
            },
            Expression::List(x) => {
                let elements = strip_exprs(&x.elements);
                proof {
                    lemma_deep_views_seq(elements@);
                    lemma_deep_views_seq(x.elements@);
                    assert(deep_views(&elements) =~= deep_views(&x.elements));
                }
                Expression::List(List { elements, span: Span::unit() })
            },
            Expression::AttrSet(x) => {
                let bindings = strip_exprs(&x.bindings);
                proof {
                    lemma_deep_views_seq(bindings@);
                    lemma_deep_views_seq(x.bindings@);
                    assert(deep_views(&bindings) =~= deep_views(&x.bindings));
                }
                Expression::AttrSet(
                    AttrSet { recursive: x.recursive, bindings, span: Span::unit() },
                )
            },
            Expression::NixString(x) => {
                let parts = strip_exprs(&x.parts);
                proof {
                    lemma_deep_views_seq(parts@);
                    lemma_deep_views_seq(x.parts@);
                    assert(deep_views(&parts) =~= deep_views(&x.parts));
                }
                Expression::NixString(NixString { parts, span: Span::unit() })
            },
            Expression::IndentedString(x) => {
                let parts = strip_exprs(&x.parts);
                proof {
                    lemma_deep_views_seq(parts@);
                    lemma_deep_views_seq(x.parts@);
                    assert(deep_views(&parts) =~= deep_views(&x.parts));
                }
                Expression::IndentedString(IndentedString { parts, span: Span::unit() })
            },
            Expression::PartRaw(x) => Expression::PartRaw(
                PartRaw { content: x.content.clone(), span: Span::unit() },
            ),
            Expression::PartInterpolation(x) => Expression::PartInterpolation(
                PartInterpolation {
                    expression: Box::new((*x.expression).with_unit_spans()),
                    span: Span::unit(),
                },
            ),
            Expression::PropertyAccess(x) => {
                let attribute_path = strip_exprs(&x.attribute_path);
                proof {
                    lemma_deep_views_seq(attribute_path@);
                    lemma_deep_views_seq(x.attribute_path@);
                    assert(deep_views(&attribute_path) =~= deep_views(&x.attribute_path));
                }
                Expression::PropertyAccess(
                    PropertyAccess {
                        expression: Box::new((*x.expression).with_unit_spans()),
                        attribute_path,
                        default: match &x.default {
                            Some(d) => Some(Box::new((**d).with_unit_spans())),
                            None => None,
                        },
                        span: Span::unit(),
                    },
                )
            },
            Expression::HasAttribute(x) => {
                let attribute_path = strip_exprs(&x.attribute_path);
                proof {
                    lemma_deep_views_seq(attribute_path@);
                    lemma_deep_views_seq(x.attribute_path@);
                    assert(deep_views(&attribute_path) =~= deep_views(&x.attribute_path));
                }
                Expression::HasAttribute(
                    HasAttribute {
                        expression: Box::new((*x.expression).with_unit_spans()),
                        attribute_path,
                        span: Span::unit(),
                    },
                )
            },
            Expression::Function(x) => Expression::Function(
                Function {
                    head: Box::new((*x.head).with_unit_spans()),
                    body: Box::new((*x.body).with_unit_spans()),
                    span: Span::unit(),
                },
            ),
            Expression::FunctionApplication(x) => {
                let arguments = strip_exprs(&x.arguments);
                proof {
                    lemma_deep_views_seq(arguments@);
                    lemma_deep_views_seq(x.arguments@);
                    assert(deep_views(&arguments) =~= deep_views(&x.arguments));
                }
                Expression::FunctionApplication(
                    FunctionApplication {
                        function: Box::new((*x.function).with_unit_spans()),
                        arguments,
                        span: Span::unit(),
                    },
                )
            },
            Expression::FunctionHeadSimple(x) => Expression::FunctionHeadSimple(
                FunctionHeadSimple {
                    identifier: Identifier {
                        id: x.identifier.id.clone(),
                        span: Span::unit(),
                    },
                    span: Span::unit(),
                },
            ),
            Expression::FunctionHeadDestructured(x) => {
                let arguments = strip_args(&x.arguments);
                proof {
                    lemma_arg_views_seq(arguments@);
                    lemma_arg_views_seq(x.arguments@);
                    assert(arg_views(&arguments) =~= arg_views(&x.arguments));
                }
                Expression::FunctionHeadDestructured(
                    FunctionHeadDestructured {
                        ellipsis: x.ellipsis,
                        identifier: Identifier {
                            id: x.identifier.id.clone(),
                            span: Span::unit(),
                        },
                        arguments,
                        span: Span::unit(),
                    },
                )
            },
            Expression::BindingInherit(x) => Expression::BindingInherit(
                BindingInherit {
                    from_: match &x.from_ {
                        Some(f) => Some(Box::new((**f).with_unit_spans())),
                        None => None,
                    },
                    attributes: Box::new((*x.attributes).with_unit_spans()),
                    span: Span::unit(),
                },
            ),
            Expression::BindingKeyValue(x) => Expression::BindingKeyValue(
                BindingKeyValue {
                    from_: Box::new((*x.from_).with_unit_spans()),
                    to: Box::new((*x.to).with_unit_spans()),
                },
            ),
        }
    }
}

} // verus!