//! The grammar, written down as specification functions.
//!
//! Each rule is a total spec function from the source text (a `Seq<char>`)
//! and a start position to `None` (no match) or `Some((model, end))`: the
//! model of the matched node and the position just past it. Choice is
//! ordered, as in a parsing expression grammar, so the functions define one
//! deterministic language. The executable parser of [`crate::parser`] is
//! proved to return exactly what these functions say.
//!
//! Each rule checks that the positions its sub-rules return move strictly
//! forward and stay inside the text before it reads on. The checks always
//! hold — the executable parser proves as much of every sub-parse — but they
//! make the termination of this mutually recursive definition evident.

use vstd::prelude::*;
use crate::operators::Operator;
use crate::model::{ExprV, ArgV};

verus! {

// ==================== Character classes ====================

pub open spec fn is_space(c: char) -> bool {
    c == ' ' || c == '\n' || c == '\t' || c == '\r'
}

pub open spec fn is_digit(c: char) -> bool {
    48 <= c as u32 <= 57
}

pub open spec fn is_ident_start(c: char) -> bool {
    (97 <= c as u32 <= 122) || (65 <= c as u32 <= 90) || c == '_'
}

pub open spec fn is_ident_char(c: char) -> bool {
    is_ident_start(c) || is_digit(c)
}

pub open spec fn is_search_char(c: char) -> bool {
    is_ident_char(c) || c == '/' || c == '.' || c == '-'
}

/// A character of one slash-free path segment.
pub open spec fn is_path_char(c: char) -> bool {
    is_ident_char(c) || c == '.' || c == '-' || c == '+'
}

/// A character of the body of a URI literal. Separators that end an
/// enclosing form (commas, semicolons, brackets, quotes, whitespace) are
/// excluded so a URI never swallows them.
pub open spec fn is_uri_char(c: char) -> bool {
    is_ident_char(c) || c == ':' || c == '/' || c == '.' || c == '-' || c == '+' || c == '%'
        || c == '?' || c == '&' || c == '=' || c == '~' || c == '#' || c == '@' || c == '!'
        || c == '$' || c == '*'
}

/// A position where a path segment may begin: a segment character or an
/// interpolation.
pub open spec fn is_segment_start(s: Seq<char>, i: int) -> bool {
    (0 <= i < s.len() && is_path_char(s[i])) || at2(s, i, '$', '{')
}

/// The reserved words: never identifiers.
pub open spec fn is_keyword(w: Seq<char>) -> bool {
    w == "let"@ || w == "in"@ || w == "with"@ || w == "if"@ || w == "then"@ || w == "else"@
        || w == "assert"@ || w == "rec"@ || w == "true"@ || w == "false"@ || w == "null"@
        || w == "inherit"@ || w == "or"@ || w == "throw"@
}

// ==================== Scanners ====================

/// The first position at or after `i` holding no whitespace.
pub open spec fn ws_end(s: Seq<char>, i: int) -> int
    decreases s.len() - i,
{
    if 0 <= i < s.len() && is_space(s[i]) {
        ws_end(s, i + 1)
    } else {
        i
    }
}

/// The end of the identifier run starting at `i`.
pub open spec fn ident_end(s: Seq<char>, i: int) -> int
    decreases s.len() - i,
{
    if 0 <= i < s.len() && is_ident_char(s[i]) {
        ident_end(s, i + 1)
    } else {
        i
    }
}

/// The end of the digit run starting at `i`.
pub open spec fn digits_end(s: Seq<char>, i: int) -> int
    decreases s.len() - i,
{
    if 0 <= i < s.len() && is_digit(s[i]) {
        digits_end(s, i + 1)
    } else {
        i
    }
}

/// The end of a raw string segment: text up to the closing quote or the next
/// interpolation, a backslash always taking the following character with it.
pub open spec fn raw_end(s: Seq<char>, i: int) -> int
    decreases s.len() - i,
{
    if !(0 <= i < s.len()) {
        i
    } else if s[i] == '"' {
        i
    } else if s[i] == '$' && i + 1 < s.len() && s[i + 1] == '{' {
        i
    } else if s[i] == '\\' && i + 1 < s.len() {
        raw_end(s, i + 2)
    } else {
        raw_end(s, i + 1)
    }
}

/// The end of the search-path body starting at `i`.
pub open spec fn search_end(s: Seq<char>, i: int) -> int
    decreases s.len() - i,
{
    if 0 <= i < s.len() && is_search_char(s[i]) {
        search_end(s, i + 1)
    } else {
        i
    }
}

/// The end of the path-segment run starting at `i`.
pub open spec fn path_end(s: Seq<char>, i: int) -> int
    decreases s.len() - i,
{
    if 0 <= i < s.len() && is_path_char(s[i]) {
        path_end(s, i + 1)
    } else {
        i
    }
}

/// The end of the URI body starting at `i`.
pub open spec fn uri_end(s: Seq<char>, i: int) -> int
    decreases s.len() - i,
{
    if 0 <= i < s.len() && is_uri_char(s[i]) {
        uri_end(s, i + 1)
    } else {
        i
    }
}

/// The end of a raw segment of an indented string: text up to the closing
/// quote pair or the next interpolation.
pub open spec fn iraw_end(s: Seq<char>, i: int) -> int
    decreases s.len() - i,
{
    if !(0 <= i < s.len()) {
        i
    } else if at2(s, i, '\'', '\'') {
        i
    } else if s[i] == '$' && i + 1 < s.len() && s[i + 1] == '{' {
        i
    } else {
        iraw_end(s, i + 1)
    }
}

// ==================== Small helpers ====================

/// The character at `i` is `c`.
pub open spec fn at(s: Seq<char>, i: int, c: char) -> bool {
    0 <= i < s.len() && s[i] == c
}

/// The two characters at `i` are `c0` and `c1`.
pub open spec fn at2(s: Seq<char>, i: int, c0: char, c1: char) -> bool {
    0 <= i && i + 1 < s.len() && s[i] == c0 && s[i + 1] == c1
}

/// The three characters at `i` are `c0`, `c1` and `c2`.
pub open spec fn at3(s: Seq<char>, i: int, c0: char, c1: char, c2: char) -> bool {
    0 <= i && i + 2 < s.len() && s[i] == c0 && s[i + 1] == c1 && s[i + 2] == c2
}

/// A scanner moved from `i` to `j` without leaving the text.
pub open spec fn bounded(s: Seq<char>, i: int, j: int) -> bool {
    i <= j <= s.len()
}

/// A sub-parse moved strictly forward without leaving the text.
pub open spec fn advanced(s: Seq<char>, i: int, j: int) -> bool {
    i < j <= s.len()
}

/// The binary operator token at `i`, longest match first.
pub open spec fn spec_operator(s: Seq<char>, i: int) -> Option<(Operator, int)> {
    if at2(s, i, '=', '=') {
        Some((Operator::EqualTo, i + 2))
    } else if at2(s, i, '=', '>') {
        Some((Operator::Implication, i + 2))
    } else if at2(s, i, '!', '=') {
        Some((Operator::NotEqualTo, i + 2))
    } else if at2(s, i, '>', '=') {
        Some((Operator::GreaterThanOrEqualTo, i + 2))
    } else if at2(s, i, '<', '=') {
        Some((Operator::LessThanOrEqualTo, i + 2))
    } else if at2(s, i, '&', '&') {
        Some((Operator::LogicalAnd, i + 2))
    } else if at2(s, i, '|', '|') {
        Some((Operator::LogicalOr, i + 2))
    } else if at2(s, i, '+', '+') {
        Some((Operator::Concatenation, i + 2))
    } else if at2(s, i, ':', '=') {
        Some((Operator::Update, i + 2))
    } else if at(s, i, '+') {
        Some((Operator::Addition, i + 1))
    } else if at(s, i, '-') {
        Some((Operator::Subtraction, i + 1))
    } else if at(s, i, '*') {
        Some((Operator::Multiplication, i + 1))
    } else if at(s, i, '/') {
        Some((Operator::Division, i + 1))
    } else if at(s, i, '>') {
        Some((Operator::GreaterThan, i + 1))
    } else if at(s, i, '<') {
        Some((Operator::LessThan, i + 1))
    } else {
        None
    }
}

/// One `inherit` binding per named attribute, all sharing the same source.
pub open spec fn inherit_bindings(from: Option<ExprV>, names: Seq<Seq<char>>) -> Seq<ExprV> {
    Seq::new(
        names.len(),
        |k: int|
            ExprV::BindingInherit(
                match from {
                    Some(f) => Some(Box::new(f)),
                    None => None,
                },
                Box::new(ExprV::Identifier(names[k])),
            ),
    )
}

// ==================== The rules ====================

/// An expression: a keyword statement, a function literal, or an operator
/// chain.
pub open spec fn spec_expr(s: Seq<char>, i: int) -> Option<(ExprV, int)>
    decreases s.len() - i, 9int,
{
    let j = ws_end(s, i);
    if !bounded(s, i, j) {
        None
    } else if j < s.len() && is_ident_start(s[j]) {
        let end = ident_end(s, j);
        if !advanced(s, j, end) {
            None
        } else {
            let word = s.subrange(j, end);
            if word == "with"@ {
                spec_with_tail(s, end)
            } else if word == "let"@ {
                spec_let_tail(s, end)
            } else if word == "if"@ {
                spec_if_tail(s, end)
            } else if word == "assert"@ {
                spec_assert_tail(s, end)
            } else if word == "throw"@ {
                spec_throw_tail(s, end)
            } else {
                match spec_function(s, j) {
                    Some(r) => Some(r),
                    None => spec_binary(s, j),
                }
            }
        }
    } else {
        match spec_function(s, j) {
            Some(r) => Some(r),
            None => spec_binary(s, j),
        }
    }
}

/// `with <scope>; <body>`, from the position after the keyword.
pub open spec fn spec_with_tail(s: Seq<char>, i: int) -> Option<(ExprV, int)>
    decreases s.len() - i, 11int,
{
    match spec_expr(s, i) {
        None => None,
        Some((scope, j)) => if !advanced(s, i, j) {
            None
        } else {
            let k = ws_end(s, j);
            if !bounded(s, j, k) {
                None
            } else if at(s, k, ';') {
                match spec_expr(s, k + 1) {
                    None => None,
                    Some((body, j2)) => if !advanced(s, k, j2) {
                        None
                    } else {
                        Some((ExprV::With(Box::new(scope), Box::new(body)), j2))
                    },
                }
            } else {
                None
            }
        },
    }
}

/// `let <bindings> in <target>`, from the position after the keyword.
pub open spec fn spec_let_tail(s: Seq<char>, i: int) -> Option<(ExprV, int)>
    decreases s.len() - i, 11int,
{
    match spec_let_bindings(s, i) {
        None => None,
        Some((bindings, k)) => if !bounded(s, i, k) || bindings.len() == 0 {
            None
        } else if k < s.len() && is_ident_start(s[k]) {
            let end = ident_end(s, k);
            if !advanced(s, k, end) || s.subrange(k, end) != "in"@ {
                None
            } else {
                match spec_expr(s, end) {
                    None => None,
                    Some((target, j2)) => if !advanced(s, end, j2) {
                        None
                    } else {
                        Some((ExprV::LetIn(bindings, Box::new(target)), j2))
                    },
                }
            }
        } else {
            None
        },
    }
}

/// `if <predicate> then <consequent> else <alternative>`, from the position
/// after the keyword.
pub open spec fn spec_if_tail(s: Seq<char>, i: int) -> Option<(ExprV, int)>
    decreases s.len() - i, 11int,
{
    match spec_expr(s, i) {
        None => None,
        Some((predicate, j)) => if !advanced(s, i, j) {
            None
        } else {
            let k = ws_end(s, j);
            if !bounded(s, j, k) || !(k < s.len() && is_ident_start(s[k])) {
                None
            } else {
                let end = ident_end(s, k);
                if !advanced(s, k, end) || s.subrange(k, end) != "then"@ {
                    None
                } else {
                    match spec_expr(s, end) {
                        None => None,
                        Some((consequent, j2)) => if !advanced(s, end, j2) {
                            None
                        } else {
                            let k2 = ws_end(s, j2);
                            if !bounded(s, j2, k2) || !(k2 < s.len() && is_ident_start(s[k2])) {
                                None
                            } else {
                                let end2 = ident_end(s, k2);
                                if !advanced(s, k2, end2) || s.subrange(k2, end2) != "else"@ {
                                    None
                                } else {
                                    match spec_expr(s, end2) {
                                        None => None,
                                        Some((alternative, j3)) => if !advanced(s, end2, j3) {
                                            None
                                        } else {
                                            Some(
                                                (
                                                    ExprV::IfThenElse(
                                                        Box::new(predicate),
                                                        Box::new(consequent),
                                                        Box::new(alternative),
                                                    ),
                                                    j3,
                                                ),
                                            )
                                        },
                                    }
                                }
                            }
                        },
                    }
                }
            }
        },
    }
}

/// `assert <condition>; <message>`, from the position after the keyword.
pub open spec fn spec_assert_tail(s: Seq<char>, i: int) -> Option<(ExprV, int)>
    decreases s.len() - i, 11int,
{
    match spec_expr(s, i) {
        None => None,
        Some((condition, j)) => if !advanced(s, i, j) {
            None
        } else {
            let k = ws_end(s, j);
            if !bounded(s, j, k) || !at(s, k, ';') {
                None
            } else {
                match spec_expr(s, k + 1) {
                    None => None,
                    Some((message, j2)) => if !advanced(s, k, j2) {
                        None
                    } else {
                        Some(
                            (ExprV::Assert(Box::new(condition), Some(Box::new(message))), j2),
                        )
                    },
                }
            }
        },
    }
}

/// `throw <message>`, from the position after the keyword.
pub open spec fn spec_throw_tail(s: Seq<char>, i: int) -> Option<(ExprV, int)>
    decreases s.len() - i, 11int,
{
    match spec_expr(s, i) {
        None => None,
        Some((message, j)) => if !advanced(s, i, j) {
            None
        } else {
            Some((ExprV::Throw(Box::new(message)), j))
        },
    }
}

/// A function literal: a simple bound name or a destructured record head,
/// a colon, and the body.
pub open spec fn spec_function(s: Seq<char>, i: int) -> Option<(ExprV, int)>
    decreases s.len() - i, 8int,
{
    if 0 <= i < s.len() && is_ident_start(s[i]) {
        let end = ident_end(s, i);
        if !advanced(s, i, end) {
            None
        } else {
            let word = s.subrange(i, end);
            if is_keyword(word) {
                None
            } else {
                let j = ws_end(s, end);
                if !bounded(s, end, j) || !at(s, j, ':') || at2(s, j, ':', '=') || (j == end && j
                    + 1 < s.len() && is_uri_char(s[j + 1])) {
                    None
                } else {
                    match spec_expr(s, j + 1) {
                        None => None,
                        Some((body, j2)) => if !advanced(s, j, j2) {
                            None
                        } else {
                            Some(
                                (
                                    ExprV::Function(
                                        Box::new(ExprV::FunctionHeadSimple(word)),
                                        Box::new(body),
                                    ),
                                    j2,
                                ),
                            )
                        },
                    }
                }
            }
        }
    } else if at(s, i, '{') {
        match spec_fn_args(s, i + 1) {
            None => None,
            Some(((ellipsis, args), j)) => if !advanced(s, i, j) {
                None
            } else {
                let k = ws_end(s, j);
                if !bounded(s, j, k) || !at(s, k, ':') || at2(s, k, ':', '=') {
                    None
                } else {
                    match spec_expr(s, k + 1) {
                        None => None,
                        Some((body, j2)) => if !advanced(s, k, j2) {
                            None
                        } else {
                            Some(
                                (
                                    ExprV::Function(
                                        Box::new(
                                            ExprV::FunctionHeadDestructured(
                                                ellipsis,
                                                Seq::<char>::empty(),
                                                args,
                                            ),
                                        ),
                                        Box::new(body),
                                    ),
                                    j2,
                                ),
                            )
                        },
                    }
                }
            },
        }
    } else {
        None
    }
}

/// The arguments of a destructured head, from the position after `{` up to
/// and past the closing `}`.
pub open spec fn spec_fn_args(s: Seq<char>, i: int) -> Option<((bool, Seq<ArgV>), int)>
    decreases s.len() - i, 10int,
{
    let j = ws_end(s, i);
    if !bounded(s, i, j) {
        None
    } else if at3(s, j, '.', '.', '.') {
        let k = ws_end(s, j + 3);
        if !bounded(s, j, k) {
            None
        } else if at(s, k, '}') {
            Some(((true, Seq::<ArgV>::empty()), k + 1))
        } else {
            None
        }
    } else if at(s, j, '}') {
        Some(((false, Seq::<ArgV>::empty()), j + 1))
    } else if j < s.len() && is_ident_start(s[j]) {
        let end = ident_end(s, j);
        if !advanced(s, j, end) {
            None
        } else {
            let word = s.subrange(j, end);
            if is_keyword(word) {
                None
            } else {
                let k = ws_end(s, end);
                if !bounded(s, end, k) {
                    None
                } else if at(s, k, '?') {
                    match spec_expr(s, k + 1) {
                        None => None,
                        Some((dflt, k2)) => if !advanced(s, k, k2) {
                            None
                        } else {
                            let k3 = ws_end(s, k2);
                            if !bounded(s, k2, k3) {
                                None
                            } else {
                                spec_fn_args_more(
                                    s,
                                    ArgV { identifier: word, default: Some(Box::new(dflt)) },
                                    k3,
                                )
                            }
                        },
                    }
                } else {
                    spec_fn_args_more(s, ArgV { identifier: word, default: None }, k)
                }
            }
        }
    } else {
        None
    }
}

/// After one destructured argument: a comma and more arguments, or the
/// closing brace.
pub open spec fn spec_fn_args_more(s: Seq<char>, arg: ArgV, p: int) -> Option<
    ((bool, Seq<ArgV>), int),
>
    decreases s.len() - p, 11int,
{
    if at(s, p, ',') {
        match spec_fn_args(s, p + 1) {
            None => None,
            Some(((ellipsis, args), q)) => if !advanced(s, p, q) {
                None
            } else {
                Some(((ellipsis, seq![arg] + args), q))
            },
        }
    } else if at(s, p, '}') {
        Some(((false, seq![arg]), p + 1))
    } else {
        None
    }
}

/// A left-associative chain of binary operations.
pub open spec fn spec_binary(s: Seq<char>, i: int) -> Option<(ExprV, int)>
    decreases s.len() - i, 8int,
{
    match spec_unary(s, i) {
        None => None,
        Some((first, j)) => if !advanced(s, i, j) {
            None
        } else {
            spec_binary_more(s, first, j)
        },
    }
}

/// The rest of an operator chain, folding onto `acc` from the left.
pub open spec fn spec_binary_more(s: Seq<char>, acc: ExprV, i: int) -> Option<(ExprV, int)>
    decreases s.len() - i, 8int,
{
    let j = ws_end(s, i);
    if !bounded(s, i, j) {
        None
    } else {
        match spec_operator(s, j) {
            None => Some((acc, i)),
            Some((op, k)) => if !advanced(s, j, k) {
                None
            } else {
                match spec_unary(s, k) {
                    None => None,
                    Some((rhs, j2)) => if !advanced(s, k, j2) {
                        None
                    } else {
                        spec_binary_more(
                            s,
                            ExprV::BinaryOperation(Box::new(acc), op, Box::new(rhs)),
                            j2,
                        )
                    },
                }
            },
        }
    }
}

/// A unary operation, or the operand it would apply to.
pub open spec fn spec_unary(s: Seq<char>, i: int) -> Option<(ExprV, int)>
    decreases s.len() - i, 7int,
{
    let j = ws_end(s, i);
    if !bounded(s, i, j) {
        None
    } else if at(s, j, '!') {
        match spec_unary(s, j + 1) {
            None => None,
            Some((operand, k)) => if !advanced(s, j, k) {
                None
            } else {
                Some((ExprV::UnaryOperation(Operator::Not, Box::new(operand)), k))
            },
        }
    } else if at(s, j, '-') {
        match spec_unary(s, j + 1) {
            None => None,
            Some((operand, k)) => if !advanced(s, j, k) {
                None
            } else {
                Some((ExprV::UnaryOperation(Operator::Negate, Box::new(operand)), k))
            },
        }
    } else {
        spec_app(s, j)
    }
}

/// Function application by juxtaposition, or a single postfix expression.
pub open spec fn spec_app(s: Seq<char>, i: int) -> Option<(ExprV, int)>
    decreases s.len() - i, 6int,
{
    match spec_postfix(s, i) {
        None => None,
        Some((f, j)) => if !advanced(s, i, j) {
            None
        } else {
            match spec_app_args(s, j) {
                None => None,
                Some((args, j2)) => if !bounded(s, j, j2) {
                    None
                } else if args.len() == 0 {
                    Some((f, j))
                } else {
                    Some((ExprV::FunctionApplication(Box::new(f), args), j2))
                },
            }
        },
    }
}

/// The juxtaposed arguments following a function expression; possibly none.
pub open spec fn spec_app_args(s: Seq<char>, i: int) -> Option<(Seq<ExprV>, int)>
    decreases s.len() - i, 6int,
{
    let j = ws_end(s, i);
    if !bounded(s, i, j) {
        None
    } else {
        match spec_postfix(s, j) {
            None => Some((Seq::<ExprV>::empty(), i)),
            Some((a, k)) => if !advanced(s, j, k) {
                None
            } else {
                match spec_app_args(s, k) {
                    None => None,
                    Some((rest, q)) => if !bounded(s, k, q) {
                        None
                    } else {
                        Some((seq![a] + rest, if rest.len() == 0 { k } else { q }))
                    },
                }
            },
        }
    }
}

/// An atom with any property-access suffix, optionally with an `or` default.
pub open spec fn spec_postfix(s: Seq<char>, i: int) -> Option<(ExprV, int)>
    decreases s.len() - i, 5int,
{
    match spec_atom(s, i) {
        None => None,
        Some((e, j)) => if !advanced(s, i, j) {
            None
        } else {
            match spec_path_more(s, j) {
                None => None,
                Some((path, j2)) => if !bounded(s, j, j2) {
                    None
                } else if path.len() == 0 {
                    Some((e, j))
                } else {
                    let k = ws_end(s, j2);
                    if !bounded(s, j2, k) {
                        None
                    } else if k < s.len() && is_ident_start(s[k]) && s.subrange(k, ident_end(s, k))
                        == "or"@ && advanced(s, k, ident_end(s, k)) {
                        match spec_expr(s, ident_end(s, k)) {
                            None => None,
                            Some((dflt, j3)) => if !advanced(s, k, j3) {
                                None
                            } else {
                                Some(
                                    (
                                        ExprV::PropertyAccess(
                                            Box::new(e),
                                            path,
                                            Some(Box::new(dflt)),
                                        ),
                                        j3,
                                    ),
                                )
                            },
                        }
                    } else {
                        Some((ExprV::PropertyAccess(Box::new(e), path, None), j2))
                    }
                },
            }
        },
    }
}

/// A dotted attribute path following an expression; possibly empty.
pub open spec fn spec_path_more(s: Seq<char>, i: int) -> Option<(Seq<ExprV>, int)>
    decreases s.len() - i, 5int,
{
    let j = ws_end(s, i);
    if !bounded(s, i, j) {
        None
    } else if at(s, j, '.') {
        let k = ws_end(s, j + 1);
        if !bounded(s, j, k) {
            None
        } else if k < s.len() && is_ident_start(s[k]) {
            let end = ident_end(s, k);
            if !advanced(s, k, end) {
                None
            } else {
                let word = s.subrange(k, end);
                if is_keyword(word) {
                    Some((Seq::<ExprV>::empty(), i))
                } else {
                    match spec_path_more(s, end) {
                        None => None,
                        Some((rest, q)) => if !bounded(s, end, q) {
                            None
                        } else {
                            Some(
                                (
                                    seq![ExprV::Identifier(word)] + rest,
                                    if rest.len() == 0 { end } else { q },
                                ),
                            )
                        },
                    }
                }
            }
        } else {
            Some((Seq::<ExprV>::empty(), i))
        }
    } else {
        Some((Seq::<ExprV>::empty(), i))
    }
}

/// A literal, an identifier, a collection, a string, a search path, or a
/// parenthesized expression.
pub open spec fn spec_atom(s: Seq<char>, i: int) -> Option<(ExprV, int)>
    decreases s.len() - i, 4int,
{
    if !(0 <= i < s.len()) {
        None
    } else if is_digit(s[i]) {
        let end = digits_end(s, i);
        if !advanced(s, i, end) {
            None
        } else if at(s, end, '.') && end + 1 < s.len() && is_digit(s[end + 1]) {
            let end2 = digits_end(s, end + 1);
            if !advanced(s, end + 1, end2) {
                None
            } else {
                Some((ExprV::Float(s.subrange(i, end2)), end2))
            }
        } else {
            Some((ExprV::Integer(s.subrange(i, end)), end))
        }
    } else if s[i] == '"' {
        match spec_string_parts(s, i + 1) {
            None => None,
            Some((parts, j)) => if !advanced(s, i, j) {
                None
            } else {
                Some((ExprV::NixString(parts), j))
            },
        }
    } else if s[i] == '[' {
        match spec_list_items(s, i + 1) {
            None => None,
            Some((elements, j)) => if !advanced(s, i, j) {
                None
            } else {
                Some((ExprV::List(elements), j))
            },
        }
    } else if s[i] == '{' {
        match spec_bindings(s, i + 1) {
            None => None,
            Some((bindings, j)) => if !advanced(s, i, j) {
                None
            } else {
                Some((ExprV::AttrSet(false, bindings), j))
            },
        }
    } else if s[i] == '(' {
        match spec_expr(s, i + 1) {
            None => None,
            Some((e, j)) => if !advanced(s, i, j) {
                None
            } else {
                let k = ws_end(s, j);
                if !bounded(s, j, k) {
                    None
                } else if at(s, k, ')') {
                    Some((e, k + 1))
                } else {
                    None
                }
            },
        }
    } else if s[i] == '<' {
        let end = search_end(s, i + 1);
        if !(i + 1 < end <= s.len()) {
            None
        } else if at(s, end, '>') {
            Some((ExprV::SearchNixPath(s.subrange(i + 1, end)), end + 1))
        } else {
            None
        }
    } else if at2(s, i, '\'', '\'') {
        match spec_istring_parts(s, i + 2) {
            None => None,
            Some((parts, j)) => if !advanced(s, i, j) {
                None
            } else {
                Some((ExprV::IndentedString(parts), j))
            },
        }
    } else if s[i] == '/' {
        if !is_segment_start(s, i + 1) {
            None
        } else {
            match spec_path_segments(s, i + 1) {
                None => None,
                Some((segments, j)) => if !advanced(s, i, j) {
                    None
                } else {
                    Some((ExprV::Path(seq![ExprV::PartRaw(Seq::<char>::empty())] + segments), j))
                },
            }
        }
    } else if at3(s, i, '.', '.', '/') {
        if !is_segment_start(s, i + 3) {
            None
        } else {
            match spec_path_segments(s, i + 3) {
                None => None,
                Some((segments, j)) => if !advanced(s, i, j) {
                    None
                } else {
                    Some((ExprV::Path(seq![ExprV::PartRaw(".."@)] + segments), j))
                },
            }
        }
    } else if at2(s, i, '.', '/') {
        if !is_segment_start(s, i + 2) {
            None
        } else {
            match spec_path_segments(s, i + 2) {
                None => None,
                Some((segments, j)) => if !advanced(s, i, j) {
                    None
                } else {
                    Some((ExprV::Path(seq![ExprV::PartRaw("."@)] + segments), j))
                },
            }
        }
    } else if is_ident_start(s[i]) {
        let end = ident_end(s, i);
        if !advanced(s, i, end) {
            None
        } else if at(s, end, ':') && end + 1 < s.len() && is_uri_char(s[end + 1]) {
            let uend = uri_end(s, end + 1);
            if !(end + 1 < uend <= s.len()) {
                None
            } else {
                Some((ExprV::Uri(s.subrange(i, uend)), uend))
            }
        } else {
            let word = s.subrange(i, end);
            if word == "rec"@ {
                let j = ws_end(s, end);
                if !bounded(s, end, j) || !at(s, j, '{') {
                    None
                } else {
                    match spec_bindings(s, j + 1) {
                        None => None,
                        Some((bindings, k)) => if !advanced(s, j, k) {
                            None
                        } else {
                            Some((ExprV::AttrSet(true, bindings), k))
                        },
                    }
                }
            } else if word == "true"@ {
                Some((ExprV::Boolean(true), end))
            } else if word == "false"@ {
                Some((ExprV::Boolean(false), end))
            } else if word == "null"@ {
                Some((ExprV::Null, end))
            } else if is_keyword(word) {
                None
            } else {
                Some((ExprV::Identifier(word), end))
            }
        }
    } else {
        None
    }
}

/// The items of a list, from the position after `[` up to and past `]`,
/// separated by commas.
pub open spec fn spec_list_items(s: Seq<char>, i: int) -> Option<(Seq<ExprV>, int)>
    decreases s.len() - i, 10int,
{
    let j = ws_end(s, i);
    if !bounded(s, i, j) {
        None
    } else if at(s, j, ']') {
        Some((Seq::<ExprV>::empty(), j + 1))
    } else {
        match spec_expr(s, j) {
            None => None,
            Some((e, k)) => if !advanced(s, j, k) {
                None
            } else {
                let k2 = ws_end(s, k);
                if !bounded(s, k, k2) {
                    None
                } else if at(s, k2, ',') {
                    match spec_list_items(s, k2 + 1) {
                        None => None,
                        Some((rest, q)) => if !advanced(s, k2, q) {
                            None
                        } else {
                            Some((seq![e] + rest, q))
                        },
                    }
                } else if at(s, k2, ']') {
                    Some((seq![e], k2 + 1))
                } else {
                    None
                }
            },
        }
    }
}

/// The bindings of an attribute set, from the position after `{` up to and
/// past `}`. Bindings may be separated by optional commas.
pub open spec fn spec_bindings(s: Seq<char>, i: int) -> Option<(Seq<ExprV>, int)>
    decreases s.len() - i, 10int,
{
    let j = ws_end(s, i);
    if !bounded(s, i, j) {
        None
    } else if at(s, j, '}') {
        Some((Seq::<ExprV>::empty(), j + 1))
    } else {
        match spec_binding(s, j) {
            None => None,
            Some((bs, k)) => if !advanced(s, j, k) {
                None
            } else {
                let k2 = ws_end(s, k);
                if !bounded(s, k, k2) {
                    None
                } else if at(s, k2, ',') {
                    match spec_bindings(s, k2 + 1) {
                        None => None,
                        Some((rest, q)) => if !advanced(s, k2, q) {
                            None
                        } else {
                            Some((bs + rest, q))
                        },
                    }
                } else {
                    match spec_bindings(s, k2) {
                        None => None,
                        Some((rest, q)) => if !bounded(s, k2, q) {
                            None
                        } else {
                            Some((bs + rest, q))
                        },
                    }
                }
            },
        }
    }
}

/// The bindings of a `let`, stopping before the `in` keyword. The returned
/// position is at `in`.
pub open spec fn spec_let_bindings(s: Seq<char>, i: int) -> Option<(Seq<ExprV>, int)>
    decreases s.len() - i, 10int,
{
    let j = ws_end(s, i);
    if !bounded(s, i, j) {
        None
    } else if j < s.len() && is_ident_start(s[j]) && s.subrange(j, ident_end(s, j)) == "in"@ {
        Some((Seq::<ExprV>::empty(), j))
    } else {
        match spec_binding(s, j) {
            None => None,
            Some((bs, k)) => if !advanced(s, j, k) {
                None
            } else {
                let k2 = ws_end(s, k);
                if !bounded(s, k, k2) {
                    None
                } else if at(s, k2, ',') {
                    match spec_let_bindings(s, k2 + 1) {
                        None => None,
                        Some((rest, q)) => if !bounded(s, k2, q) {
                            None
                        } else {
                            Some((bs + rest, q))
                        },
                    }
                } else {
                    match spec_let_bindings(s, k2) {
                        None => None,
                        Some((rest, q)) => if !bounded(s, k2, q) {
                            None
                        } else {
                            Some((bs + rest, q))
                        },
                    }
                }
            },
        }
    }
}

/// One binding: `key = value;`, or an `inherit` clause, which yields one
/// binding per inherited name.
pub open spec fn spec_binding(s: Seq<char>, i: int) -> Option<(Seq<ExprV>, int)>
    decreases s.len() - i, 9int,
{
    if !(0 <= i < s.len() && is_ident_start(s[i])) {
        None
    } else {
        let end = ident_end(s, i);
        if !advanced(s, i, end) {
            None
        } else {
            let word = s.subrange(i, end);
            if word == "inherit"@ {
                spec_inherit_tail(s, end)
            } else if is_keyword(word) {
                None
            } else {
                let j = ws_end(s, end);
                if !bounded(s, end, j) || !at(s, j, '=') || at2(s, j, '=', '=') || at2(
                    s,
                    j,
                    '=',
                    '>',
                ) {
                    None
                } else {
                    match spec_expr(s, j + 1) {
                        None => None,
                        Some((value, k)) => if !advanced(s, j, k) {
                            None
                        } else {
                            let k2 = ws_end(s, k);
                            if !bounded(s, k, k2) || !at(s, k2, ';') {
                                None
                            } else {
                                Some(
                                    (
                                        seq![
                                            ExprV::BindingKeyValue(
                                                Box::new(ExprV::Identifier(word)),
                                                Box::new(value),
                                            ),
                                        ],
                                        k2 + 1,
                                    ),
                                )
                            }
                        },
                    }
                }
            }
        }
    }
}

/// The rest of an `inherit` clause, from the position after the keyword: an
/// optional parenthesized source, one or more names, and an optional
/// semicolon.
pub open spec fn spec_inherit_tail(s: Seq<char>, i: int) -> Option<(Seq<ExprV>, int)>
    decreases s.len() - i, 10int,
{
    let j = ws_end(s, i);
    if !bounded(s, i, j) {
        None
    } else if at(s, j, '(') {
        match spec_expr(s, j + 1) {
            None => None,
            Some((f, k)) => if !advanced(s, j, k) {
                None
            } else {
                let k2 = ws_end(s, k);
                if !bounded(s, k, k2) || !at(s, k2, ')') {
                    None
                } else {
                    spec_inherit_names_tail(s, Some(f), k2 + 1)
                }
            },
        }
    } else {
        spec_inherit_names_tail(s, None, j)
    }
}

/// The names of an `inherit` clause and its optional closing semicolon.
pub open spec fn spec_inherit_names_tail(s: Seq<char>, from: Option<ExprV>, i: int) -> Option<
    (Seq<ExprV>, int),
>
    decreases s.len() - i, 10int,
{
    match spec_inherit_names(s, i) {
        None => None,
        Some((names, q)) => if !bounded(s, i, q) || names.len() == 0 {
            None
        } else {
            let q2 = ws_end(s, q);
            if !bounded(s, q, q2) {
                None
            } else if at(s, q2, ';') {
                Some((inherit_bindings(from, names), q2 + 1))
            } else {
                Some((inherit_bindings(from, names), q))
            }
        },
    }
}

/// A run of inherited names; possibly empty. Stops before any keyword.
pub open spec fn spec_inherit_names(s: Seq<char>, i: int) -> Option<(Seq<Seq<char>>, int)>
    decreases s.len() - i, 9int,
{
    let j = ws_end(s, i);
    if !bounded(s, i, j) {
        None
    } else if j < s.len() && is_ident_start(s[j]) {
        let end = ident_end(s, j);
        if !advanced(s, j, end) {
            None
        } else {
            let word = s.subrange(j, end);
            if is_keyword(word) {
                Some((Seq::<Seq<char>>::empty(), i))
            } else {
                match spec_inherit_names(s, end) {
                    None => None,
                    Some((rest, q)) => if !bounded(s, end, q) {
                        None
                    } else {
                        Some((seq![word] + rest, if rest.len() == 0 { end } else { q }))
                    },
                }
            }
        }
    } else {
        Some((Seq::<Seq<char>>::empty(), i))
    }
}

/// The parts of a double-quoted string, from the position after the opening
/// quote up to and past the closing quote. An unterminated string is a
/// mismatch, never a panic.
pub open spec fn spec_string_parts(s: Seq<char>, i: int) -> Option<(Seq<ExprV>, int)>
    decreases s.len() - i, 10int,
{
    if !(0 <= i < s.len()) {
        None
    } else if s[i] == '"' {
        Some((Seq::<ExprV>::empty(), i + 1))
    } else if at2(s, i, '$', '{') {
        match spec_expr(s, i + 2) {
            None => None,
            Some((e, j)) => if !(i + 2 <= j <= s.len()) {
                None
            } else {
                let k = ws_end(s, j);
                if !bounded(s, j, k) || !at(s, k, '}') {
                    None
                } else {
                    match spec_string_parts(s, k + 1) {
                        None => None,
                        Some((rest, q)) => if !advanced(s, k, q) {
                            None
                        } else {
                            Some((seq![ExprV::PartInterpolation(Box::new(e))] + rest, q))
                        },
                    }
                }
            },
        }
    } else {
        let end = raw_end(s, i);
        if !advanced(s, i, end) {
            None
        } else {
            match spec_string_parts(s, end) {
                None => None,
                Some((rest, q)) => if !advanced(s, end, q) {
                    None
                } else {
                    Some((seq![ExprV::PartRaw(s.subrange(i, end))] + rest, q))
                },
            }
        }
    }
}

/// The parts of an indented string, from the position after the opening
/// quote pair up to and past the closing pair. An unterminated indented
/// string is a mismatch, never a panic.
pub open spec fn spec_istring_parts(s: Seq<char>, i: int) -> Option<(Seq<ExprV>, int)>
    decreases s.len() - i, 10int,
{
    if !(0 <= i < s.len()) {
        None
    } else if at2(s, i, '\'', '\'') {
        Some((Seq::<ExprV>::empty(), i + 2))
    } else if at2(s, i, '$', '{') {
        match spec_expr(s, i + 2) {
            None => None,
            Some((e, j)) => if !(i + 2 <= j <= s.len()) {
                None
            } else {
                let k = ws_end(s, j);
                if !bounded(s, j, k) || !at(s, k, '}') {
                    None
                } else {
                    match spec_istring_parts(s, k + 1) {
                        None => None,
                        Some((rest, q)) => if !advanced(s, k, q) {
                            None
                        } else {
                            Some((seq![ExprV::PartInterpolation(Box::new(e))] + rest, q))
                        },
                    }
                }
            },
        }
    } else {
        let end = iraw_end(s, i);
        if !advanced(s, i, end) {
            None
        } else {
            match spec_istring_parts(s, end) {
                None => None,
                Some((rest, q)) => if !advanced(s, end, q) {
                    None
                } else {
                    Some((seq![ExprV::PartRaw(s.subrange(i, end))] + rest, q))
                },
            }
        }
    }
}

/// One or more slash-separated path segments, each a raw run or an
/// interpolation.
pub open spec fn spec_path_segments(s: Seq<char>, i: int) -> Option<(Seq<ExprV>, int)>
    decreases s.len() - i, 10int,
{
    let seg = if at2(s, i, '$', '{') {
        match spec_expr(s, i + 2) {
            None => None,
            Some((e, j)) => if !(i + 2 <= j <= s.len()) {
                None
            } else {
                let k = ws_end(s, j);
                if !bounded(s, j, k) || !at(s, k, '}') {
                    None
                } else {
                    Some((ExprV::PartInterpolation(Box::new(e)), k + 1))
                }
            },
        }
    } else if 0 <= i < s.len() && is_path_char(s[i]) {
        let end = path_end(s, i);
        if !advanced(s, i, end) {
            None
        } else {
            Some((ExprV::PartRaw(s.subrange(i, end)), end))
        }
    } else {
        None
    };
    match seg {
        None => None,
        Some((part, p)) => if !advanced(s, i, p) {
            None
        } else if at(s, p, '/') && is_segment_start(s, p + 1) {
            match spec_path_segments(s, p + 1) {
                None => None,
                Some((rest, q)) => if !advanced(s, p, q) {
                    None
                } else {
                    Some((seq![part] + rest, q))
                },
            }
        } else {
            Some((seq![part], p))
        },
    }
}

/// The whole-text rule: one expression, then only whitespace to the end.
pub open spec fn spec_parse(s: Seq<char>) -> Option<ExprV> {
    match spec_expr(s, 0) {
        None => None,
        Some((e, j)) => if 0 <= j <= s.len() && ws_end(s, j) == s.len() {
            Some(e)
        } else {
            None
        },
    }
}

} // verus!
