//! The mathematical model of the syntax tree.
//!
//! `ExprV` is the span-free abstraction of an `Expression`: strings become
//! `Seq<char>`, vectors become `Seq`, and source spans are dropped, since the
//! renderer never consults them. Every contract of the library speaks of this
//! model, and `spec_render` is the one canonical text form of a tree: the
//! renderer is proved to produce exactly `spec_render` of its input's model.

use vstd::prelude::*;
use crate::operators::{Operator, op_text};

verus! {

/// One destructured-head argument: a bound name and an optional default.
pub struct ArgV {
    pub identifier: Seq<char>,
    pub default: Option<Box<ExprV>>,
}

/// The span-free model of an expression node.
pub enum ExprV {
    Integer(Seq<char>),
    Float(Seq<char>),
    Identifier(Seq<char>),
    LiteralString(Seq<char>),
    Boolean(bool),
    Null,
    Path(Seq<ExprV>),
    Uri(Seq<char>),
    SearchNixPath(Seq<char>),
    Error(Seq<char>),
    UnaryOperation(Operator, Box<ExprV>),
    BinaryOperation(Box<ExprV>, Operator, Box<ExprV>),
    IfThenElse(Box<ExprV>, Box<ExprV>, Box<ExprV>),
    Assert(Box<ExprV>, Option<Box<ExprV>>),
    Throw(Box<ExprV>),
    With(Box<ExprV>, Box<ExprV>),
    LetIn(Seq<ExprV>, Box<ExprV>),
    List(Seq<ExprV>),
    AttrSet(bool, Seq<ExprV>),
    NixString(Seq<ExprV>),
    IndentedString(Seq<ExprV>),
    PartRaw(Seq<char>),
    PartInterpolation(Box<ExprV>),
    PropertyAccess(Box<ExprV>, Seq<ExprV>, Option<Box<ExprV>>),
    HasAttribute(Box<ExprV>, Seq<ExprV>),
    Function(Box<ExprV>, Box<ExprV>),
    FunctionApplication(Box<ExprV>, Seq<ExprV>),
    FunctionHeadSimple(Seq<char>),
    FunctionHeadDestructured(bool, Seq<char>, Seq<ArgV>),
    BindingInherit(Option<Box<ExprV>>, Box<ExprV>),
    BindingKeyValue(Box<ExprV>, Box<ExprV>),
}

/// The canonical text of a tree, or the message of the first `Error`
/// placeholder met in rendering order. Rendering is all-or-nothing: an error
/// anywhere is the result of the whole render.
pub open spec fn spec_render(m: ExprV) -> Result<Seq<char>, Seq<char>>
    decreases m,
{
    match m {
        ExprV::Integer(value) => Ok(value),
        ExprV::Float(value) => Ok(value),
        ExprV::Identifier(id) => Ok(id),
        ExprV::LiteralString(value) => Ok(value),
        ExprV::Boolean(value) => Ok(if value { "true"@ } else { "false"@ }),
        ExprV::Null => Ok("null"@),
        ExprV::Path(parts) => spec_render_sep(parts, "/"@),
        ExprV::Uri(uri) => Ok(uri),
        ExprV::SearchNixPath(path) => Ok("<"@ + path + ">"@),
        ExprV::Error(message) => Err(message),
        ExprV::UnaryOperation(op, operand) => match spec_render(*operand) {
            Ok(t) => Ok("("@ + op_text(op) + t + ")"@),
            Err(e) => Err(e),
        },
        ExprV::BinaryOperation(left, op, right) => match spec_render(*left) {
            Ok(l) => match spec_render(*right) {
                Ok(r) => Ok("("@ + l + " "@ + op_text(op) + " "@ + r + ")"@),
                Err(e) => Err(e),
            },
            Err(e) => Err(e),
        },
        ExprV::IfThenElse(predicate, then_part, else_part) => match spec_render(*predicate) {
            Ok(p) => match spec_render(*then_part) {
                Ok(t) => match spec_render(*else_part) {
                    Ok(e) => Ok("if "@ + p + " then "@ + t + " else "@ + e),
                    Err(err) => Err(err),
                },
                Err(err) => Err(err),
            },
            Err(err) => Err(err),
        },
        ExprV::Assert(condition, message) => match spec_render(*condition) {
            Ok(c) => match message {
                Some(msg) => match spec_render(*msg) {
                    Ok(t) => Ok("assert "@ + c + " with message "@ + t),
                    Err(e) => Err(e),
                },
                None => Ok("assert "@ + c),
            },
            Err(e) => Err(e),
        },
        ExprV::Throw(message) => match spec_render(*message) {
            Ok(t) => Ok("throw "@ + t),
            Err(e) => Err(e),
        },
        ExprV::With(scope, body) => match spec_render(*scope) {
            Ok(s) => match spec_render(*body) {
                Ok(b) => Ok("with "@ + s + "; "@ + b),
                Err(e) => Err(e),
            },
            Err(e) => Err(e),
        },
        ExprV::LetIn(bindings, target) => match spec_render_sep(bindings, " "@) {
            Ok(b) => match spec_render(*target) {
                Ok(t) => Ok("let "@ + b + " in "@ + t),
                Err(e) => Err(e),
            },
            Err(e) => Err(e),
        },
        ExprV::List(elements) => match spec_render_sep(elements, ", "@) {
            Ok(t) => Ok("["@ + t + "]"@),
            Err(e) => Err(e),
        },
        ExprV::AttrSet(recursive, bindings) => match spec_render_sep(bindings, ", "@) {
            Ok(t) => Ok(
                if recursive {
                    "rec { "@ + t + " }"@
                } else {
                    "{ "@ + t + " }"@
                },
            ),
            Err(e) => Err(e),
        },
        ExprV::NixString(parts) => spec_render_sep(parts, Seq::<char>::empty()),
        ExprV::IndentedString(parts) => spec_render_sep(parts, Seq::<char>::empty()),
        ExprV::PartRaw(content) => Ok(content),
        ExprV::PartInterpolation(expression) => match spec_render(*expression) {
            Ok(t) => Ok("${"@ + t + "}"@),
            Err(e) => Err(e),
        },
        ExprV::PropertyAccess(expression, attribute_path, default) => match spec_render_sep(
            attribute_path,
            "."@,
        ) {
            Ok(path) => match spec_render(*expression) {
                Ok(x) => match default {
                    Some(d) => match spec_render(*d) {
                        Ok(t) => Ok(x + ".?"@ + path + ".or("@ + t + ")"@),
                        Err(e) => Err(e),
                    },
                    None => Ok(x + "."@ + path),
                },
                Err(e) => Err(e),
            },
            Err(e) => Err(e),
        },
        ExprV::HasAttribute(expression, attribute_path) => match spec_render(*expression) {
            Ok(x) => match spec_render_sep(attribute_path, "."@) {
                Ok(path) => Ok(x + "."@ + path),
                Err(e) => Err(e),
            },
            Err(e) => Err(e),
        },
        ExprV::Function(head, body) => match spec_render(*head) {
            Ok(h) => match spec_render(*body) {
                Ok(b) => Ok(h + ": "@ + b),
                Err(e) => Err(e),
            },
            Err(e) => Err(e),
        },
        ExprV::FunctionApplication(function, arguments) => match spec_render_sep(
            arguments,
            " "@,
        ) {
            Ok(a) => match spec_render(*function) {
                Ok(f) => Ok(f + " "@ + a),
                Err(e) => Err(e),
            },
            Err(e) => Err(e),
        },
        ExprV::FunctionHeadSimple(id) => Ok(id),
        ExprV::FunctionHeadDestructured(_ellipsis, _id, arguments) => spec_render_args(arguments),
        ExprV::BindingInherit(from, attributes) => match from {
            Some(f) => match spec_render(*f) {
                Ok(ft) => match spec_render(*attributes) {
                    Ok(at) => Ok("inherit ("@ + ft + ") "@ + at),
                    Err(e) => Err(e),
                },
                Err(e) => Err(e),
            },
            None => match spec_render(*attributes) {
                Ok(at) => Ok("inherit "@ + at),
                Err(e) => Err(e),
            },
        },
        ExprV::BindingKeyValue(key, value) => match spec_render(*key) {
            Ok(k) => match spec_render(*value) {
                Ok(v) => Ok(k + " = "@ + v + ";"@),
                Err(e) => Err(e),
            },
            Err(e) => Err(e),
        },
    }
}

/// The items of a sequence rendered left to right and joined by `sep`; the
/// first failing item decides the error.
pub open spec fn spec_render_sep(items: Seq<ExprV>, sep: Seq<char>) -> Result<
    Seq<char>,
    Seq<char>,
>
    decreases items,
{
    if items.len() == 0 {
        Ok(Seq::<char>::empty())
    } else if items.len() == 1 {
        spec_render(items[0])
    } else {
        match spec_render_sep(items.drop_last(), sep) {
            Ok(front) => match spec_render(items.last()) {
                Ok(last) => Ok(front + sep + last),
                Err(e) => Err(e),
            },
            Err(e) => Err(e),
        }
    }
}

/// The arguments of a destructured head rendered left to right and
/// concatenated, each as its name or `name ? default`.
pub open spec fn spec_render_args(args: Seq<ArgV>) -> Result<Seq<char>, Seq<char>>
    decreases args,
{
    if args.len() == 0 {
        Ok(Seq::<char>::empty())
    } else {
        match spec_render_args(args.drop_last()) {
            Ok(front) => match spec_render_arg(args.last()) {
                Ok(last) => Ok(front + last),
                Err(e) => Err(e),
            },
            Err(e) => Err(e),
        }
    }
}

/// One destructured-head argument: its name, or `name ? default`.
pub open spec fn spec_render_arg(arg: ArgV) -> Result<Seq<char>, Seq<char>>
    decreases arg,
{
    match arg.default {
        Some(d) => match spec_render(*d) {
            Ok(t) => Ok(arg.identifier + " ? "@ + t),
            Err(e) => Err(e),
        },
        None => Ok(arg.identifier),
    }
}

/// How an executable render result relates to the model's render result: the
/// same text on success, and an `InvalidAst` carrying the model's message on
/// failure.
pub open spec fn render_matches(r: Result<String, crate::errors::RenderError>, s: Result<
    Seq<char>,
    Seq<char>,
>) -> bool {
    match r {
        Ok(text) => s matches Ok(t) && text@ == t,
        Err(err) => s matches Err(m) && err matches crate::errors::RenderError::InvalidAst(
            message,
        ) && message@ == m,
    }
}

} // verus!
