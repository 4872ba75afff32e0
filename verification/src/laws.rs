//! Statements of the renderer's shape guarantees, proved once and for all
//! over the model.

use vstd::prelude::*;
use crate::model::{ArgV, ExprV, spec_render, spec_render_sep, spec_render_args, spec_render_arg};
use crate::grammar::{
    spec_expr,
    spec_with_tail,
    spec_let_tail,
    spec_if_tail,
    spec_assert_tail,
    spec_throw_tail,
    spec_function,
    spec_fn_args,
    spec_fn_args_more,
    spec_binary,
    spec_binary_more,
    spec_unary,
    spec_app,
    spec_app_args,
    spec_postfix,
    spec_path_more,
    spec_atom,
    spec_list_items,
    spec_bindings,
    spec_let_bindings,
    spec_binding,
    spec_inherit_tail,
    spec_inherit_names_tail,
    spec_inherit_names,
    spec_string_parts,
    spec_istring_parts,
    spec_path_segments,
    spec_parse,
    spec_operator,
    inherit_bindings,
    ws_end,
    ident_end,
    raw_end,
    iraw_end,
    path_end,
    is_path_char,
    is_segment_start,
    is_uri_char,
    uri_end,
    bounded,
    advanced,
    at,
    at2,
    at3,
    is_ident_start,
    is_ident_char,
    is_digit,
    is_space,
    digits_end,
    is_keyword,
};

verus! {

/// An attribute set's canonical text begins with `rec {` exactly when the
/// set is recursive, and with `{` otherwise.
pub proof fn lemma_attrset_render_prefix(recursive: bool, bindings: Seq<ExprV>)
    requires
        spec_render(ExprV::AttrSet(recursive, bindings)) is Ok,
    ensures
        ({
            let t = spec_render(ExprV::AttrSet(recursive, bindings))->Ok_0;
            &&& (recursive ==> t.len() >= 5 && t.subrange(0, 5) == "rec {"@)
            &&& (!recursive ==> t.len() >= 1 && t[0] == '{')
            &&& (!recursive ==> !(t.len() >= 5 && t.subrange(0, 5) == "rec {"@))
        }),
{
    reveal_strlit("rec {");
    reveal_strlit("rec { ");
    reveal_strlit("{ ");
    reveal_strlit(" }");
    let inner = spec_render_sep(bindings, ", "@)->Ok_0;
    let t = spec_render(ExprV::AttrSet(recursive, bindings))->Ok_0;
    if recursive {
        assert(t == "rec { "@ + inner + " }"@);
        assert(t.subrange(0, 5) =~= "rec {"@);
    } else {
        assert(t == "{ "@ + inner + " }"@);
        assert(t[0] == '{');
        if t.len() >= 5 {
            assert(t.subrange(0, 5)[0] == '{');
            assert("rec {"@[0] == 'r');
            assert(t.subrange(0, 5) != "rec {"@);
        }
    }
}

/// A property access renders as `<expr>.<path>` when it carries no default,
/// and as `<expr>.?<path>.or(<default>)` when it carries one.
pub proof fn lemma_property_access_render(
    expression: ExprV,
    attribute_path: Seq<ExprV>,
    default: Option<ExprV>,
    x: Seq<char>,
    p: Seq<char>,
)
    requires
        spec_render(expression) == Ok::<Seq<char>, Seq<char>>(x),
        spec_render_sep(attribute_path, "."@) == Ok::<Seq<char>, Seq<char>>(p),
    ensures
        default is None ==> spec_render(
            ExprV::PropertyAccess(Box::new(expression), attribute_path, None),
        ) == Ok::<Seq<char>, Seq<char>>(x + "."@ + p),
        (match default {
            Some(d) => spec_render(d) is Ok ==> spec_render(
                ExprV::PropertyAccess(Box::new(expression), attribute_path, Some(Box::new(d))),
            ) == Ok::<Seq<char>, Seq<char>>(
                x + ".?"@ + p + ".or("@ + spec_render(d)->Ok_0 + ")"@,
            ),
            None => true,
        }),
{
}


/// Whether a tree model holds an `Error` placeholder anywhere.
pub open spec fn has_error(m: ExprV) -> bool
    decreases m,
{
    match m {
        ExprV::Integer(_) => false,
        ExprV::Float(_) => false,
        ExprV::Identifier(_) => false,
        ExprV::LiteralString(_) => false,
        ExprV::Boolean(_) => false,
        ExprV::Null => false,
        ExprV::Path(parts) => seq_has_error(parts),
        ExprV::Uri(_) => false,
        ExprV::SearchNixPath(_) => false,
        ExprV::Error(_) => true,
        ExprV::UnaryOperation(_, operand) => has_error(*operand),
        ExprV::BinaryOperation(left, _, right) => has_error(*left) || has_error(*right),
        ExprV::IfThenElse(p, t, e) => has_error(*p) || has_error(*t) || has_error(*e),
        ExprV::Assert(condition, message) => has_error(*condition) || (match message {
            Some(msg) => has_error(*msg),
            None => false,
        }),
        ExprV::Throw(message) => has_error(*message),
        ExprV::With(scope, body) => has_error(*scope) || has_error(*body),
        ExprV::LetIn(bindings, target) => seq_has_error(bindings) || has_error(*target),
        ExprV::List(elements) => seq_has_error(elements),
        ExprV::AttrSet(_, bindings) => seq_has_error(bindings),
        ExprV::NixString(parts) => seq_has_error(parts),
        ExprV::IndentedString(parts) => seq_has_error(parts),
        ExprV::PartRaw(_) => false,
        ExprV::PartInterpolation(expression) => has_error(*expression),
        ExprV::PropertyAccess(expression, path, default) => has_error(*expression)
            || seq_has_error(path) || (match default {
            Some(d) => has_error(*d),
            None => false,
        }),
        ExprV::HasAttribute(expression, path) => has_error(*expression) || seq_has_error(path),
        ExprV::Function(head, body) => has_error(*head) || has_error(*body),
        ExprV::FunctionApplication(function, arguments) => has_error(*function) || seq_has_error(
            arguments,
        ),
        ExprV::FunctionHeadSimple(_) => false,
        ExprV::FunctionHeadDestructured(_, _, args) => args_have_error(args),
        ExprV::BindingInherit(from, attributes) => (match from {
            Some(f) => has_error(*f),
            None => false,
        }) || has_error(*attributes),
        ExprV::BindingKeyValue(key, value) => has_error(*key) || has_error(*value),
    }
}

/// Whether any model of a sequence holds an `Error` placeholder.
pub open spec fn seq_has_error(items: Seq<ExprV>) -> bool
    decreases items,
{
    if items.len() == 0 {
        false
    } else {
        seq_has_error(items.drop_last()) || has_error(items.last())
    }
}

/// Whether any destructured-head default holds an `Error` placeholder.
pub open spec fn args_have_error(args: Seq<crate::model::ArgV>) -> bool
    decreases args,
{
    if args.len() == 0 {
        false
    } else {
        args_have_error(args.drop_last()) || (match args.last().default {
            Some(d) => has_error(*d),
            None => false,
        })
    }
}

/// A render fails exactly when the tree deliberately holds an `Error`
/// placeholder; on every other tree it succeeds.
pub proof fn lemma_render_fails_iff_error(m: ExprV)
    ensures
        spec_render(m) is Err <==> has_error(m),
    decreases m, 1int,
{
    match m {
        ExprV::Path(parts) => lemma_render_sep_fails_iff_error(parts, "/"@),
        ExprV::UnaryOperation(_, operand) => lemma_render_fails_iff_error(*operand),
        ExprV::BinaryOperation(left, _, right) => {
            lemma_render_fails_iff_error(*left);
            lemma_render_fails_iff_error(*right);
        },
        ExprV::IfThenElse(p, t, e) => {
            lemma_render_fails_iff_error(*p);
            lemma_render_fails_iff_error(*t);
            lemma_render_fails_iff_error(*e);
        },
        ExprV::Assert(condition, message) => {
            lemma_render_fails_iff_error(*condition);
            match message {
                Some(msg) => lemma_render_fails_iff_error(*msg),
                None => {},
            }
        },
        ExprV::Throw(message) => lemma_render_fails_iff_error(*message),
        ExprV::With(scope, body) => {
            lemma_render_fails_iff_error(*scope);
            lemma_render_fails_iff_error(*body);
        },
        ExprV::LetIn(bindings, target) => {
            lemma_render_sep_fails_iff_error(bindings, " "@);
            lemma_render_fails_iff_error(*target);
        },
        ExprV::List(elements) => lemma_render_sep_fails_iff_error(elements, ", "@),
        ExprV::AttrSet(_, bindings) => lemma_render_sep_fails_iff_error(bindings, ", "@),
        ExprV::NixString(parts) => lemma_render_sep_fails_iff_error(parts, Seq::<char>::empty()),
        ExprV::IndentedString(parts) => lemma_render_sep_fails_iff_error(
            parts,
            Seq::<char>::empty(),
        ),
        ExprV::PartInterpolation(expression) => lemma_render_fails_iff_error(*expression),
        ExprV::PropertyAccess(expression, path, default) => {
            lemma_render_fails_iff_error(*expression);
            lemma_render_sep_fails_iff_error(path, "."@);
            match default {
                Some(d) => lemma_render_fails_iff_error(*d),
                None => {},
            }
        },
        ExprV::HasAttribute(expression, path) => {
            lemma_render_fails_iff_error(*expression);
            lemma_render_sep_fails_iff_error(path, "."@);
        },
        ExprV::Function(head, body) => {
            lemma_render_fails_iff_error(*head);
            lemma_render_fails_iff_error(*body);
        },
        ExprV::FunctionApplication(function, arguments) => {
            lemma_render_fails_iff_error(*function);
            lemma_render_sep_fails_iff_error(arguments, " "@);
        },
        ExprV::FunctionHeadDestructured(_, _, args) => lemma_render_args_fails_iff_error(args),
        ExprV::BindingInherit(from, attributes) => {
            match from {
                Some(f) => lemma_render_fails_iff_error(*f),
                None => {},
            }
            lemma_render_fails_iff_error(*attributes);
        },
        ExprV::BindingKeyValue(key, value) => {
            lemma_render_fails_iff_error(*key);
            lemma_render_fails_iff_error(*value);
        },
        _ => {},
    }
}

/// The same for a rendered sequence, whatever the separator.
pub proof fn lemma_render_sep_fails_iff_error(items: Seq<ExprV>, sep: Seq<char>)
    ensures
        spec_render_sep(items, sep) is Err <==> seq_has_error(items),
    decreases items, 0int,
{
    if items.len() == 0 {
    } else if items.len() == 1 {
        lemma_render_fails_iff_error(items[0]);
        assert(items.drop_last() =~= Seq::<ExprV>::empty());
        assert(items.last() == items[0]);
        assert(!seq_has_error(Seq::<ExprV>::empty()));
        assert(seq_has_error(items) == (seq_has_error(items.drop_last()) || has_error(
            items.last(),
        )));
        assert(seq_has_error(items) == has_error(items[0]));
        assert(spec_render_sep(items, sep) == spec_render(items[0]));
    } else {
        lemma_render_sep_fails_iff_error(items.drop_last(), sep);
        lemma_render_fails_iff_error(items.last());
        assert(spec_render_sep(items, sep) is Err <==> (spec_render_sep(items.drop_last(), sep)
            is Err || spec_render(items.last()) is Err));
    }
}

/// The same for a destructured head's arguments.
pub proof fn lemma_render_args_fails_iff_error(args: Seq<crate::model::ArgV>)
    ensures
        spec_render_args(args) is Err <==> args_have_error(args),
    decreases args, 0int,
{
    if args.len() > 0 {
        lemma_render_args_fails_iff_error(args.drop_last());
        match args.last().default {
            Some(d) => lemma_render_fails_iff_error(*d),
            None => {},
        }
        assert(spec_render_arg(args.last()) is Err <==> (match args.last().default {
            Some(d) => has_error(*d),
            None => false,
        }));
        assert(spec_render_args(args) is Err <==> (spec_render_args(args.drop_last()) is Err
            || spec_render_arg(args.last()) is Err));
    }
}


// ==================== Parsed trees always render ====================
//
// The parser builds `Error` placeholders never: every rule of the grammar
// yields an error-free model, so a parsed tree always renders. The lemmas
// below walk the rules by the same induction that defines them.

/// Whether one destructured-head argument's default holds an `Error`.
pub open spec fn arg_error(a: ArgV) -> bool {
    match a.default {
        Some(d) => has_error(*d),
        None => false,
    }
}

/// A sequence holds an error exactly when one of its items does.
pub proof fn lemma_seq_error_pointwise(items: Seq<ExprV>)
    ensures
        seq_has_error(items) <==> (exists|k: int| 0 <= k < items.len() && has_error(items[k])),
    decreases items.len(),
{
    if items.len() > 0 {
        lemma_seq_error_pointwise(items.drop_last());
        if seq_has_error(items.drop_last()) {
            let k = choose|k: int| 0 <= k < items.drop_last().len() && has_error(
                items.drop_last()[k],
            );
            assert(has_error(items[k]));
        }
        if has_error(items.last()) {
            assert(has_error(items[items.len() - 1]));
        }
        if exists|k: int| 0 <= k < items.len() && has_error(items[k]) {
            let k = choose|k: int| 0 <= k < items.len() && has_error(items[k]);
            if k < items.len() - 1 {
                assert(has_error(items.drop_last()[k]));
            }
        }
    }
}

/// The same for destructured-head arguments.
pub proof fn lemma_args_error_pointwise(args: Seq<ArgV>)
    ensures
        args_have_error(args) <==> (exists|k: int| 0 <= k < args.len() && arg_error(args[k])),
    decreases args.len(),
{
    if args.len() > 0 {
        lemma_args_error_pointwise(args.drop_last());
        if args_have_error(args.drop_last()) {
            let k = choose|k: int| 0 <= k < args.drop_last().len() && arg_error(
                args.drop_last()[k],
            );
            assert(arg_error(args[k]));
        }
        if arg_error(args.last()) {
            assert(arg_error(args[args.len() - 1]));
        }
        if exists|k: int| 0 <= k < args.len() && arg_error(args[k]) {
            let k = choose|k: int| 0 <= k < args.len() && arg_error(args[k]);
            if k < args.len() - 1 {
                assert(arg_error(args.drop_last()[k]));
            }
        }
    }
}

pub proof fn lemma_expr_no_error(s: Seq<char>, i: int)
    ensures
        spec_expr(s, i) matches Some(p) ==> !has_error(p.0),
    decreases s.len() - i, 9int,
{
    let j = ws_end(s, i);
    if bounded(s, i, j) {
        if j < s.len() && is_ident_start(s[j]) {
            let end = ident_end(s, j);
            if advanced(s, j, end) {
                let word = s.subrange(j, end);
                if word == "with"@ {
                    lemma_with_tail_no_error(s, end);
                } else if word == "let"@ {
                    lemma_let_tail_no_error(s, end);
                } else if word == "if"@ {
                    lemma_if_tail_no_error(s, end);
                } else if word == "assert"@ {
                    lemma_assert_tail_no_error(s, end);
                } else if word == "throw"@ {
                    lemma_throw_tail_no_error(s, end);
                } else {
                    lemma_function_no_error(s, j);
                    lemma_binary_no_error(s, j);
                }
            }
        } else {
            lemma_function_no_error(s, j);
            lemma_binary_no_error(s, j);
        }
    }
}

proof fn lemma_with_tail_no_error(s: Seq<char>, i: int)
    ensures
        spec_with_tail(s, i) matches Some(p) ==> !has_error(p.0),
    decreases s.len() - i, 11int,
{
    lemma_expr_no_error(s, i);
    if let Some((scope, j)) = spec_expr(s, i) {
        if advanced(s, i, j) {
            let k = ws_end(s, j);
            if bounded(s, j, k) && at(s, k, ';') {
                lemma_expr_no_error(s, k + 1);
            }
        }
    }
}

proof fn lemma_let_tail_no_error(s: Seq<char>, i: int)
    ensures
        spec_let_tail(s, i) matches Some(p) ==> !has_error(p.0),
    decreases s.len() - i, 11int,
{
    lemma_let_bindings_no_error(s, i);
    if let Some((bindings, k)) = spec_let_bindings(s, i) {
        if bounded(s, i, k) && bindings.len() > 0 && k < s.len() && is_ident_start(s[k]) {
            let end = ident_end(s, k);
            if advanced(s, k, end) && s.subrange(k, end) == "in"@ {
                lemma_expr_no_error(s, end);
                lemma_seq_error_pointwise(bindings);
            }
        }
    }
}

proof fn lemma_if_tail_no_error(s: Seq<char>, i: int)
    ensures
        spec_if_tail(s, i) matches Some(p) ==> !has_error(p.0),
    decreases s.len() - i, 11int,
{
    lemma_expr_no_error(s, i);
    if let Some((predicate, j)) = spec_expr(s, i) {
        if advanced(s, i, j) {
            let k = ws_end(s, j);
            if bounded(s, j, k) && k < s.len() && is_ident_start(s[k]) {
                let end = ident_end(s, k);
                if advanced(s, k, end) && s.subrange(k, end) == "then"@ {
                    lemma_expr_no_error(s, end);
                    if let Some((consequent, j2)) = spec_expr(s, end) {
                        if advanced(s, end, j2) {
                            let k2 = ws_end(s, j2);
                            if bounded(s, j2, k2) && k2 < s.len() && is_ident_start(s[k2]) {
                                let end2 = ident_end(s, k2);
                                if advanced(s, k2, end2) && s.subrange(k2, end2) == "else"@ {
                                    lemma_expr_no_error(s, end2);
                                }
                            }
                        }
                    }
                }
            }
        }
    }
}

proof fn lemma_assert_tail_no_error(s: Seq<char>, i: int)
    ensures
        spec_assert_tail(s, i) matches Some(p) ==> !has_error(p.0),
    decreases s.len() - i, 11int,
{
    lemma_expr_no_error(s, i);
    if let Some((condition, j)) = spec_expr(s, i) {
        if advanced(s, i, j) {
            let k = ws_end(s, j);
            if bounded(s, j, k) && at(s, k, ';') {
                lemma_expr_no_error(s, k + 1);
            }
        }
    }
}

proof fn lemma_throw_tail_no_error(s: Seq<char>, i: int)
    ensures
        spec_throw_tail(s, i) matches Some(p) ==> !has_error(p.0),
    decreases s.len() - i, 11int,
{
    lemma_expr_no_error(s, i);
}

proof fn lemma_function_no_error(s: Seq<char>, i: int)
    ensures
        spec_function(s, i) matches Some(p) ==> !has_error(p.0),
    decreases s.len() - i, 8int,
{
    if 0 <= i < s.len() && is_ident_start(s[i]) {
        let end = ident_end(s, i);
        if advanced(s, i, end) && !is_keyword(s.subrange(i, end)) {
            let j = ws_end(s, end);
            if bounded(s, end, j) && at(s, j, ':') && !at2(s, j, ':', '=') {
                lemma_expr_no_error(s, j + 1);
                assert(!has_error(ExprV::FunctionHeadSimple(s.subrange(i, end))));
            }
        }
    } else if at(s, i, '{') {
        lemma_fn_args_no_error(s, i + 1);
        if let Some((head, j)) = spec_fn_args(s, i + 1) {
            if advanced(s, i, j) {
                let k = ws_end(s, j);
                if bounded(s, j, k) && at(s, k, ':') && !at2(s, k, ':', '=') {
                    lemma_expr_no_error(s, k + 1);
                    lemma_args_error_pointwise(head.1);
                    assert(!has_error(
                        ExprV::FunctionHeadDestructured(head.0, Seq::<char>::empty(), head.1),
                    ));
                }
            }
        }
    }
}

proof fn lemma_fn_args_no_error(s: Seq<char>, i: int)
    ensures
        spec_fn_args(s, i) matches Some(p) ==> forall|k: int|
            0 <= k < p.0.1.len() ==> !arg_error(#[trigger] p.0.1[k]),
    decreases s.len() - i, 10int,
{
    let j = ws_end(s, i);
    if bounded(s, i, j) {
        if !at3(s, j, '.', '.', '.') && !at(s, j, '}') && j < s.len() && is_ident_start(s[j]) {
            let end = ident_end(s, j);
            if advanced(s, j, end) && !is_keyword(s.subrange(j, end)) {
                let word = s.subrange(j, end);
                let k = ws_end(s, end);
                if bounded(s, end, k) {
                    if at(s, k, '?') {
                        lemma_expr_no_error(s, k + 1);
                        if let Some((dflt, k2)) = spec_expr(s, k + 1) {
                            if advanced(s, k, k2) {
                                let k3 = ws_end(s, k2);
                                if bounded(s, k2, k3) {
                                    lemma_fn_args_more_no_error(
                                        s,
                                        ArgV { identifier: word, default: Some(Box::new(dflt)) },
                                        k3,
                                    );
                                }
                            }
                        }
                    } else {
                        lemma_fn_args_more_no_error(
                            s,
                            ArgV { identifier: word, default: None },
                            k,
                        );
                    }
                }
            }
        }
    }
}

proof fn lemma_fn_args_more_no_error(s: Seq<char>, arg: ArgV, p: int)
    requires
        !arg_error(arg),
    ensures
        spec_fn_args_more(s, arg, p) matches Some(q) ==> forall|k: int|
            0 <= k < q.0.1.len() ==> !arg_error(#[trigger] q.0.1[k]),
    decreases s.len() - p, 11int,
{
    if at(s, p, ',') {
        lemma_fn_args_no_error(s, p + 1);
    }
}

proof fn lemma_binary_no_error(s: Seq<char>, i: int)
    ensures
        spec_binary(s, i) matches Some(p) ==> !has_error(p.0),
    decreases s.len() - i, 8int,
{
    lemma_unary_no_error(s, i);
    if let Some((first, j)) = spec_unary(s, i) {
        if advanced(s, i, j) {
            lemma_binary_more_no_error(s, first, j);
        }
    }
}

proof fn lemma_binary_more_no_error(s: Seq<char>, acc: ExprV, i: int)
    requires
        !has_error(acc),
    ensures
        spec_binary_more(s, acc, i) matches Some(p) ==> !has_error(p.0),
    decreases s.len() - i, 8int,
{
    let j = ws_end(s, i);
    if bounded(s, i, j) {
        if let Some((op, k)) = spec_operator(s, j) {
            if advanced(s, j, k) {
                lemma_unary_no_error(s, k);
                if let Some((rhs, j2)) = spec_unary(s, k) {
                    if advanced(s, k, j2) {
                        lemma_binary_more_no_error(
                            s,
                            ExprV::BinaryOperation(Box::new(acc), op, Box::new(rhs)),
                            j2,
                        );
                    }
                }
            }
        }
    }
}

proof fn lemma_unary_no_error(s: Seq<char>, i: int)
    ensures
        spec_unary(s, i) matches Some(p) ==> !has_error(p.0),
    decreases s.len() - i, 7int,
{
    let j = ws_end(s, i);
    if bounded(s, i, j) {
        if at(s, j, '!') || at(s, j, '-') {
            lemma_unary_no_error(s, j + 1);
        } else {
            lemma_app_no_error(s, j);
        }
    }
}

proof fn lemma_app_no_error(s: Seq<char>, i: int)
    ensures
        spec_app(s, i) matches Some(p) ==> !has_error(p.0),
    decreases s.len() - i, 6int,
{
    lemma_postfix_no_error(s, i);
    if let Some((f, j)) = spec_postfix(s, i) {
        if advanced(s, i, j) {
            lemma_app_args_no_error(s, j);
            if let Some((args, _j2)) = spec_app_args(s, j) {
                lemma_seq_error_pointwise(args);
            }
        }
    }
}

proof fn lemma_app_args_no_error(s: Seq<char>, i: int)
    ensures
        spec_app_args(s, i) matches Some(p) ==> forall|k: int|
            0 <= k < p.0.len() ==> !has_error(#[trigger] p.0[k]),
    decreases s.len() - i, 6int,
{
    let j = ws_end(s, i);
    if bounded(s, i, j) {
        lemma_postfix_no_error(s, j);
        if let Some((_a, k)) = spec_postfix(s, j) {
            if advanced(s, j, k) {
                lemma_app_args_no_error(s, k);
            }
        }
    }
}

proof fn lemma_postfix_no_error(s: Seq<char>, i: int)
    ensures
        spec_postfix(s, i) matches Some(p) ==> !has_error(p.0),
    decreases s.len() - i, 5int,
{
    lemma_atom_no_error(s, i);
    if let Some((_e, j)) = spec_atom(s, i) {
        if advanced(s, i, j) {
            lemma_path_more_no_error(s, j);
            if let Some((path, j2)) = spec_path_more(s, j) {
                lemma_seq_error_pointwise(path);
                if bounded(s, j, j2) && path.len() > 0 {
                    let k = ws_end(s, j2);
                    if bounded(s, j2, k) && k < s.len() && is_ident_start(s[k]) && s.subrange(
                        k,
                        ident_end(s, k),
                    ) == "or"@ && advanced(s, k, ident_end(s, k)) {
                        lemma_expr_no_error(s, ident_end(s, k));
                    }
                }
            }
        }
    }
}

proof fn lemma_path_more_no_error(s: Seq<char>, i: int)
    ensures
        spec_path_more(s, i) matches Some(p) ==> forall|k: int|
            0 <= k < p.0.len() ==> !has_error(#[trigger] p.0[k]),
    decreases s.len() - i, 5int,
{
    let j = ws_end(s, i);
    if bounded(s, i, j) && at(s, j, '.') {
        let k = ws_end(s, j + 1);
        if bounded(s, j, k) && k < s.len() && is_ident_start(s[k]) {
            let end = ident_end(s, k);
            if advanced(s, k, end) && !is_keyword(s.subrange(k, end)) {
                lemma_path_more_no_error(s, end);
            }
        }
    }
}

proof fn lemma_atom_no_error(s: Seq<char>, i: int)
    ensures
        spec_atom(s, i) matches Some(p) ==> !has_error(p.0),
    decreases s.len() - i, 4int,
{
    if 0 <= i < s.len() {
        if at2(s, i, '\'', '\'') && s[i] != '"' && !is_digit(s[i]) {
            lemma_istring_parts_no_error(s, i + 2);
            if let Some((parts, _j)) = spec_istring_parts(s, i + 2) {
                lemma_seq_error_pointwise(parts);
            }
        }
        if s[i] == '/' && is_segment_start(s, i + 1) {
            lemma_path_segments_no_error(s, i + 1);
            if let Some((segments, _j)) = spec_path_segments(s, i + 1) {
                let parts = seq![ExprV::PartRaw(Seq::<char>::empty())] + segments;
                assert(!has_error(parts[0]));
                assert(forall|k: int| 1 <= k < parts.len() ==> !has_error(#[trigger] parts[k]));
                lemma_seq_error_pointwise(parts);
            }
        }
        if at3(s, i, '.', '.', '/') && is_segment_start(s, i + 3) {
            lemma_path_segments_no_error(s, i + 3);
            if let Some((segments, _j)) = spec_path_segments(s, i + 3) {
                let parts = seq![ExprV::PartRaw(".."@)] + segments;
                assert(!has_error(parts[0]));
                assert(forall|k: int| 1 <= k < parts.len() ==> !has_error(#[trigger] parts[k]));
                lemma_seq_error_pointwise(parts);
            }
        }
        if at2(s, i, '.', '/') && is_segment_start(s, i + 2) {
            lemma_path_segments_no_error(s, i + 2);
            if let Some((segments, _j)) = spec_path_segments(s, i + 2) {
                let parts = seq![ExprV::PartRaw("."@)] + segments;
                assert(!has_error(parts[0]));
                assert(forall|k: int| 1 <= k < parts.len() ==> !has_error(#[trigger] parts[k]));
                lemma_seq_error_pointwise(parts);
            }
        }
        if s[i] == '"' {
            lemma_string_parts_no_error(s, i + 1);
            if let Some((parts, _j)) = spec_string_parts(s, i + 1) {
                lemma_seq_error_pointwise(parts);
            }
        } else if s[i] == '[' {
            lemma_list_items_no_error(s, i + 1);
            if let Some((elements, _j)) = spec_list_items(s, i + 1) {
                lemma_seq_error_pointwise(elements);
            }
        } else if s[i] == '{' {
            lemma_bindings_no_error(s, i + 1);
            if let Some((bindings, _j)) = spec_bindings(s, i + 1) {
                lemma_seq_error_pointwise(bindings);
            }
        } else if s[i] == '(' {
            lemma_expr_no_error(s, i + 1);
        } else if is_ident_start(s[i]) {
            let end = ident_end(s, i);
            if advanced(s, i, end) && s.subrange(i, end) == "rec"@ {
                let j = ws_end(s, end);
                if bounded(s, end, j) && at(s, j, '{') {
                    lemma_bindings_no_error(s, j + 1);
                    if let Some((bindings, _k)) = spec_bindings(s, j + 1) {
                        lemma_seq_error_pointwise(bindings);
                    }
                }
            }
        }
    }
}

proof fn lemma_list_items_no_error(s: Seq<char>, i: int)
    ensures
        spec_list_items(s, i) matches Some(p) ==> forall|k: int|
            0 <= k < p.0.len() ==> !has_error(#[trigger] p.0[k]),
    decreases s.len() - i, 10int,
{
    let j = ws_end(s, i);
    if bounded(s, i, j) && !at(s, j, ']') {
        lemma_expr_no_error(s, j);
        if let Some((_e, k)) = spec_expr(s, j) {
            if advanced(s, j, k) {
                let k2 = ws_end(s, k);
                if bounded(s, k, k2) && at(s, k2, ',') {
                    lemma_list_items_no_error(s, k2 + 1);
                }
            }
        }
    }
}

proof fn lemma_bindings_no_error(s: Seq<char>, i: int)
    ensures
        spec_bindings(s, i) matches Some(p) ==> forall|k: int|
            0 <= k < p.0.len() ==> !has_error(#[trigger] p.0[k]),
    decreases s.len() - i, 10int,
{
    let j = ws_end(s, i);
    if bounded(s, i, j) && !at(s, j, '}') {
        lemma_binding_no_error(s, j);
        if let Some((_bs, k)) = spec_binding(s, j) {
            if advanced(s, j, k) {
                let k2 = ws_end(s, k);
                if bounded(s, k, k2) {
                    if at(s, k2, ',') {
                        lemma_bindings_no_error(s, k2 + 1);
                    } else {
                        lemma_bindings_no_error(s, k2);
                    }
                }
            }
        }
    }
}

proof fn lemma_let_bindings_no_error(s: Seq<char>, i: int)
    ensures
        spec_let_bindings(s, i) matches Some(p) ==> forall|k: int|
            0 <= k < p.0.len() ==> !has_error(#[trigger] p.0[k]),
    decreases s.len() - i, 10int,
{
    let j = ws_end(s, i);
    if bounded(s, i, j) {
        if !(j < s.len() && is_ident_start(s[j]) && s.subrange(j, ident_end(s, j)) == "in"@) {
            lemma_binding_no_error(s, j);
            if let Some((_bs, k)) = spec_binding(s, j) {
                if advanced(s, j, k) {
                    let k2 = ws_end(s, k);
                    if bounded(s, k, k2) {
                        if at(s, k2, ',') {
                            lemma_let_bindings_no_error(s, k2 + 1);
                        } else {
                            lemma_let_bindings_no_error(s, k2);
                        }
                    }
                }
            }
        }
    }
}

proof fn lemma_binding_no_error(s: Seq<char>, i: int)
    ensures
        spec_binding(s, i) matches Some(p) ==> forall|k: int|
            0 <= k < p.0.len() ==> !has_error(#[trigger] p.0[k]),
    decreases s.len() - i, 9int,
{
    if 0 <= i < s.len() && is_ident_start(s[i]) {
        let end = ident_end(s, i);
        if advanced(s, i, end) {
            let word = s.subrange(i, end);
            if word == "inherit"@ {
                lemma_inherit_tail_no_error(s, end);
            } else if !is_keyword(word) {
                let j = ws_end(s, end);
                if bounded(s, end, j) && at(s, j, '=') && !at2(s, j, '=', '=') && !at2(
                    s,
                    j,
                    '=',
                    '>',
                ) {
                    lemma_expr_no_error(s, j + 1);
                    assert(!has_error(ExprV::Identifier(word)));
                }
            }
        }
    }
}

proof fn lemma_inherit_tail_no_error(s: Seq<char>, i: int)
    ensures
        spec_inherit_tail(s, i) matches Some(p) ==> forall|k: int|
            0 <= k < p.0.len() ==> !has_error(#[trigger] p.0[k]),
    decreases s.len() - i, 10int,
{
    let j = ws_end(s, i);
    if bounded(s, i, j) {
        if at(s, j, '(') {
            lemma_expr_no_error(s, j + 1);
            if let Some((f, k)) = spec_expr(s, j + 1) {
                if advanced(s, j, k) {
                    let k2 = ws_end(s, k);
                    if bounded(s, k, k2) && at(s, k2, ')') {
                        lemma_inherit_names_tail_no_error(s, Some(f), k2 + 1);
                    }
                }
            }
        } else {
            lemma_inherit_names_tail_no_error(s, None, j);
        }
    }
}

proof fn lemma_inherit_names_tail_no_error(s: Seq<char>, from: Option<ExprV>, i: int)
    requires
        from matches Some(f) ==> !has_error(f),
    ensures
        spec_inherit_names_tail(s, from, i) matches Some(p) ==> forall|k: int|
            0 <= k < p.0.len() ==> !has_error(#[trigger] p.0[k]),
    decreases s.len() - i, 10int,
{
    if let Some((bs, _q)) = spec_inherit_names_tail(s, from, i) {
        if let Some((names, _q0)) = spec_inherit_names(s, i) {
            assert forall|k: int| 0 <= k < bs.len() implies !has_error(#[trigger] bs[k]) by {
                if 0 <= k < inherit_bindings(from, names).len() {
                    assert(inherit_bindings(from, names)[k] == ExprV::BindingInherit(
                        match from {
                            Some(f) => Some(Box::new(f)),
                            None => None,
                        },
                        Box::new(ExprV::Identifier(names[k])),
                    ));
                    assert(!has_error(ExprV::Identifier(names[k])));
                }
            }
        }
    }
}

proof fn lemma_istring_parts_no_error(s: Seq<char>, i: int)
    ensures
        spec_istring_parts(s, i) matches Some(p) ==> forall|k: int|
            0 <= k < p.0.len() ==> !has_error(#[trigger] p.0[k]),
    decreases s.len() - i, 10int,
{
    if 0 <= i < s.len() {
        if at2(s, i, '\'', '\'') {
        } else if at2(s, i, '$', '{') {
            lemma_expr_no_error(s, i + 2);
            if let Some((e, j)) = spec_expr(s, i + 2) {
                if i + 2 <= j <= s.len() {
                    let k = ws_end(s, j);
                    if bounded(s, j, k) && at(s, k, '}') {
                        assert(!has_error(ExprV::PartInterpolation(Box::new(e))));
                        lemma_istring_parts_no_error(s, k + 1);
                    }
                }
            }
        } else {
            let end = iraw_end(s, i);
            if advanced(s, i, end) {
                lemma_istring_parts_no_error(s, end);
            }
        }
    }
}

proof fn lemma_path_segments_no_error(s: Seq<char>, i: int)
    ensures
        spec_path_segments(s, i) matches Some(p) ==> forall|k: int|
            0 <= k < p.0.len() ==> !has_error(#[trigger] p.0[k]),
    decreases s.len() - i, 10int,
{
    if at2(s, i, '$', '{') {
        lemma_expr_no_error(s, i + 2);
        if let Some((e, j)) = spec_expr(s, i + 2) {
            if i + 2 <= j <= s.len() {
                let k = ws_end(s, j);
                if bounded(s, j, k) && at(s, k, '}') {
                    assert(!has_error(ExprV::PartInterpolation(Box::new(e))));
                    if advanced(s, i, k + 1) && at(s, k + 1, '/') && is_segment_start(s, k + 2) {
                        lemma_path_segments_no_error(s, k + 2);
                    }
                }
            }
        }
    } else if 0 <= i < s.len() && is_path_char(s[i]) {
        let end = path_end(s, i);
        if advanced(s, i, end) {
            assert(!has_error(ExprV::PartRaw(s.subrange(i, end))));
            if at(s, end, '/') && is_segment_start(s, end + 1) {
                lemma_path_segments_no_error(s, end + 1);
            }
        }
    }
}

proof fn lemma_string_parts_no_error(s: Seq<char>, i: int)
    ensures
        spec_string_parts(s, i) matches Some(p) ==> forall|k: int|
            0 <= k < p.0.len() ==> !has_error(#[trigger] p.0[k]),
    decreases s.len() - i, 10int,
{
    if 0 <= i < s.len() {
        if s[i] == '"' {
        } else if at2(s, i, '$', '{') {
            lemma_expr_no_error(s, i + 2);
            if let Some((_e, j)) = spec_expr(s, i + 2) {
                if i + 2 <= j <= s.len() {
                    let k = ws_end(s, j);
                    if bounded(s, j, k) && at(s, k, '}') {
                        lemma_string_parts_no_error(s, k + 1);
                    }
                }
            }
        } else {
            let end = raw_end(s, i);
            if advanced(s, i, end) {
                lemma_string_parts_no_error(s, end);
            }
        }
    }
}

/// A tree the parser accepts always renders: parsing builds no `Error`
/// placeholder, and only an `Error` placeholder makes a render fail.
pub proof fn lemma_parsed_trees_render(s: Seq<char>)
    ensures
        spec_parse(s) matches Some(m) ==> spec_render(m) is Ok,
{
    lemma_expr_no_error(s, 0);
    if let Some(m) = spec_parse(s) {
        lemma_render_fails_iff_error(m);
    }
}


// ==================== Round trips on the literal fragments ====================

/// A run of identifier characters scans to the end of the text.
proof fn lemma_ident_scan_to_end(s: Seq<char>, i: int)
    requires
        0 <= i <= s.len(),
        forall|k: int| i <= k < s.len() ==> is_ident_char(#[trigger] s[k]),
    ensures
        ident_end(s, i) == s.len(),
    decreases s.len() - i,
{
    if i < s.len() {
        lemma_ident_scan_to_end(s, i + 1);
    }
}

/// A run of digits scans to the end of the text.
proof fn lemma_digit_scan_to_end(s: Seq<char>, i: int)
    requires
        0 <= i <= s.len(),
        forall|k: int| i <= k < s.len() ==> is_digit(#[trigger] s[k]),
    ensures
        digits_end(s, i) == s.len(),
    decreases s.len() - i,
{
    if i < s.len() {
        lemma_digit_scan_to_end(s, i + 1);
    }
}

/// Rendering an identifier and parsing the result gives the identifier back:
/// the round trip of the idempotence property, on the identifier fragment.
pub proof fn lemma_identifier_round_trip(w: Seq<char>)
    requires
        w.len() > 0,
        is_ident_start(w[0]),
        forall|k: int| 0 <= k < w.len() ==> is_ident_char(#[trigger] w[k]),
        !is_keyword(w),
    ensures
        spec_render(ExprV::Identifier(w)) == Ok::<Seq<char>, Seq<char>>(w),
        spec_parse(w) == Some(ExprV::Identifier(w)),
{
    let n = w.len() as int;
    lemma_ident_scan_to_end(w, 0);
    assert(ws_end(w, 0) == 0);
    assert(ws_end(w, n) == n);
    assert(w.subrange(0, n) =~= w);
    assert(spec_atom(w, 0) == Some((ExprV::Identifier(w), n)));
    assert(spec_path_more(w, n) == Some((Seq::<ExprV>::empty(), n)));
    assert(spec_postfix(w, 0) == Some((ExprV::Identifier(w), n)));
    assert(spec_atom(w, n) is None);
    assert(spec_postfix(w, n) is None);
    assert(spec_app_args(w, n) == Some((Seq::<ExprV>::empty(), n)));
    assert(spec_app(w, 0) == Some((ExprV::Identifier(w), n)));
    assert(spec_unary(w, 0) == Some((ExprV::Identifier(w), n)));
    assert(spec_operator(w, n) is None);
    assert(spec_binary_more(w, ExprV::Identifier(w), n) == Some((ExprV::Identifier(w), n)));
    assert(spec_binary(w, 0) == Some((ExprV::Identifier(w), n)));
    assert(spec_function(w, 0) is None);
    assert(spec_expr(w, 0) == Some((ExprV::Identifier(w), n)));
}

/// Rendering an integer literal and parsing the result gives the literal
/// back: the round trip of the idempotence property, on the integer fragment.
pub proof fn lemma_integer_round_trip(v: Seq<char>)
    requires
        v.len() > 0,
        forall|k: int| 0 <= k < v.len() ==> is_digit(#[trigger] v[k]),
    ensures
        spec_render(ExprV::Integer(v)) == Ok::<Seq<char>, Seq<char>>(v),
        spec_parse(v) == Some(ExprV::Integer(v)),
{
    let n = v.len() as int;
    lemma_digit_scan_to_end(v, 0);
    assert(ws_end(v, 0) == 0);
    assert(ws_end(v, n) == n);
    assert(v.subrange(0, n) =~= v);
    assert(spec_atom(v, 0) == Some((ExprV::Integer(v), n)));
    assert(spec_path_more(v, n) == Some((Seq::<ExprV>::empty(), n)));
    assert(spec_postfix(v, 0) == Some((ExprV::Integer(v), n)));
    assert(spec_atom(v, n) is None);
    assert(spec_postfix(v, n) is None);
    assert(spec_app_args(v, n) == Some((Seq::<ExprV>::empty(), n)));
    assert(spec_app(v, 0) == Some((ExprV::Integer(v), n)));
    assert(spec_unary(v, 0) == Some((ExprV::Integer(v), n)));
    assert(spec_operator(v, n) is None);
    assert(spec_binary_more(v, ExprV::Integer(v), n) == Some((ExprV::Integer(v), n)));
    assert(spec_binary(v, 0) == Some((ExprV::Integer(v), n)));
    assert(spec_function(v, 0) is None);
    assert(spec_expr(v, 0) == Some((ExprV::Integer(v), n)));
}


// ==================== Unterminated strings ====================

/// String parts never finish without a closing quote: if no double quote
/// appears at or after `i`, the string-part rule fails.
proof fn lemma_string_parts_unterminated(s: Seq<char>, i: int)
    requires
        0 <= i <= s.len(),
        forall|k: int| i <= k < s.len() ==> s[k] != '"',
    ensures
        spec_string_parts(s, i) is None,
    decreases s.len() - i, 10int,
{
    if 0 <= i < s.len() {
        if at2(s, i, '$', '{') {
            if let Some((_e, j)) = spec_expr(s, i + 2) {
                if i + 2 <= j <= s.len() {
                    let k = ws_end(s, j);
                    if bounded(s, j, k) && at(s, k, '}') {
                        lemma_string_parts_unterminated(s, k + 1);
                    }
                }
            }
        } else {
            let end = raw_end(s, i);
            if advanced(s, i, end) {
                lemma_string_parts_unterminated(s, end);
            }
        }
    }
}

/// An unterminated string literal is a syntax error: when the text's first
/// token opens a double-quoted string and no closing quote follows anywhere,
/// the grammar derives nothing, so `parse` returns its error and no partial
/// tree.
pub proof fn lemma_unterminated_string_fails(s: Seq<char>)
    requires
        ({
            let j = ws_end(s, 0);
            &&& 0 <= j < s.len()
            &&& s[j] == '"'
            &&& forall|k: int| j < k < s.len() ==> s[k] != '"'
        }),
    ensures
        spec_parse(s) is None,
{
    let j = ws_end(s, 0);
    lemma_string_parts_unterminated(s, j + 1);
    assert(spec_atom(s, j) is None);
    assert(spec_postfix(s, j) is None);
    assert(spec_app(s, j) is None);
    assert(ws_end(s, j) == j);
    assert(spec_unary(s, j) is None);
    assert(spec_binary(s, j) is None);
    assert(spec_function(s, j) is None);
    assert(spec_expr(s, 0) is None);
}


/// A whole text consisting of one identifier-shaped word whose atom rule
/// yields `m` parses to exactly `m`.
proof fn lemma_whole_text_atom(w: Seq<char>, m: ExprV)
    requires
        w.len() > 0,
        is_ident_start(w[0]),
        forall|k: int| 0 <= k < w.len() ==> is_ident_char(#[trigger] w[k]),
        w != "with"@,
        w != "let"@,
        w != "if"@,
        w != "assert"@,
        w != "throw"@,
        spec_atom(w, 0) == Some((m, w.len() as int)),
    ensures
        spec_parse(w) == Some(m),
{
    let n = w.len() as int;
    lemma_ident_scan_to_end(w, 0);
    assert(ws_end(w, 0) == 0);
    assert(ws_end(w, n) == n);
    assert(w.subrange(0, n) =~= w);
    assert(spec_path_more(w, n) == Some((Seq::<ExprV>::empty(), n)));
    assert(spec_postfix(w, 0) == Some((m, n)));
    assert(spec_atom(w, n) is None);
    assert(spec_postfix(w, n) is None);
    assert(spec_app_args(w, n) == Some((Seq::<ExprV>::empty(), n)));
    assert(spec_app(w, 0) == Some((m, n)));
    assert(spec_unary(w, 0) == Some((m, n)));
    assert(spec_operator(w, n) is None);
    assert(spec_binary_more(w, m, n) == Some((m, n)));
    assert(spec_binary(w, 0) == Some((m, n)));
    assert(spec_function(w, 0) is None);
    assert(spec_expr(w, 0) == Some((m, n)));
}

/// Rendering a boolean and parsing the result gives the boolean back: the
/// round trip of the idempotence property, on the boolean fragment.
pub proof fn lemma_boolean_round_trip(value: bool)
    ensures
        spec_render(ExprV::Boolean(value)) == Ok::<Seq<char>, Seq<char>>(
            if value {
                "true"@
            } else {
                "false"@
            },
        ),
        spec_parse(if value {
            "true"@
        } else {
            "false"@
        }) == Some(ExprV::Boolean(value)),
{
    if value {
        lemma_true_parses();
    } else {
        lemma_false_parses();
    }
}

#[verifier::rlimit(100)]
proof fn lemma_true_parses()
    ensures
        spec_parse("true"@) == Some(ExprV::Boolean(true)),
{
    reveal_strlit("true");
    reveal_strlit("with");
    reveal_strlit("let");
    reveal_strlit("if");
    reveal_strlit("assert");
    reveal_strlit("throw");
    reveal_strlit("rec");
    let w = "true"@;
    lemma_ident_scan_to_end(w, 0);
    assert(!is_digit(w[0]) && !is_space(w[0]) && is_ident_start(w[0]));
    assert(w.subrange(0, 4) =~= w);
    assert(spec_atom(w, 0) == Some((ExprV::Boolean(true), 4int)));
    lemma_whole_text_atom(w, ExprV::Boolean(true));
}

#[verifier::rlimit(100)]
proof fn lemma_false_parses()
    ensures
        spec_parse("false"@) == Some(ExprV::Boolean(false)),
{
    reveal_strlit("true");
    reveal_strlit("false");
    reveal_strlit("with");
    reveal_strlit("let");
    reveal_strlit("if");
    reveal_strlit("assert");
    reveal_strlit("throw");
    reveal_strlit("rec");
    let w = "false"@;
    lemma_ident_scan_to_end(w, 0);
    assert(!is_digit(w[0]) && !is_space(w[0]) && is_ident_start(w[0]));
    assert(w.subrange(0, 5) =~= w);
    assert(spec_atom(w, 0) == Some((ExprV::Boolean(false), 5int)));
    lemma_whole_text_atom(w, ExprV::Boolean(false));
}

/// Rendering the null literal and parsing the result gives it back: the
/// round trip of the idempotence property, on the null fragment.
#[verifier::rlimit(100)]
pub proof fn lemma_null_round_trip()
    ensures
        spec_render(ExprV::Null) == Ok::<Seq<char>, Seq<char>>("null"@),
        spec_parse("null"@) == Some(ExprV::Null),
{
    reveal_strlit("true");
    reveal_strlit("false");
    reveal_strlit("with");
    reveal_strlit("let");
    reveal_strlit("if");
    reveal_strlit("assert");
    reveal_strlit("throw");
    reveal_strlit("rec");
    reveal_strlit("null");
    let w = "null"@;
    lemma_ident_scan_to_end(w, 0);
    assert(!is_digit(w[0]) && !is_space(w[0]) && is_ident_start(w[0]));
    assert(w.subrange(0, 4) =~= w);
    assert(spec_atom(w, 0) == Some((ExprV::Null, 4int)));
    lemma_whole_text_atom(w, ExprV::Null);
}

} // verus!
