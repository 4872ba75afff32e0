//! The parser: a recursive-descent reading of the grammar of
//! [`crate::grammar`], proved to return exactly what the grammar's rules say.
//! It fails atomically: any mismatch yields one `SyntaxError` and no partial
//! tree.

use vstd::prelude::*;
use crate::grammar::{
    is_space,
    is_digit,
    is_ident_start,
    is_ident_char,
    is_search_char,
    is_path_char,
    is_uri_char,
    is_segment_start,
    is_keyword,
    ws_end,
    ident_end,
    digits_end,
    raw_end,
    search_end,
    path_end,
    uri_end,
    iraw_end,
    at,
    at2,
    at3,
    spec_operator,
    inherit_bindings,
    spec_expr,
    spec_with_tail,
    spec_let_tail,
    spec_if_tail,
    spec_assert_tail,
    spec_throw_tail,
    spec_function,
    spec_fn_args,
    spec_fn_args_more,
    spec_binary,
    spec_binary_more,
    spec_unary,
    spec_app,
    spec_app_args,
    spec_postfix,
    spec_path_more,
    spec_atom,
    spec_list_items,
    spec_bindings,
    spec_let_bindings,
    spec_binding,
    spec_inherit_tail,
    spec_inherit_names_tail,
    spec_inherit_names,
    spec_string_parts,
    spec_istring_parts,
    spec_path_segments,
    spec_parse,
};
use crate::operators::{Operator, op_is_binary};
use crate::model::{ExprV, ArgV};
use crate::ast::{
    Identifier,
    Integer,
    Float,
    Boolean,
    Null,
    Uri,
    Path,
    SearchNixPath,
    PartRaw,
    PartInterpolation,
    NixString,
    IndentedString,
    UnaryOperation,
    BinaryOperation,
    IfThenElse,
    Assert,
    Throw,
    With,
    LetIn,
    List,
    AttrSet,
    PropertyAccess,
    FunctionHeadDestructuredArgument,
    FunctionHeadDestructured,
    FunctionHeadSimple,
    Function,
    FunctionApplication,
    BindingInherit,
    BindingKeyValue,
    Expression,
    deep_views,
    deep_views_seq,
    arg_views,
    arg_views_seq,
    lemma_deep_views_seq,
    lemma_arg_views_seq,
    lemma_views_cons,
    lemma_views_concat,
    lemma_arg_views_cons,
};
use crate::errors::SyntaxError;
use crate::position::{span_at, position_at, spec_line, spec_column, saturated};
use crate::numeral::{dec_int, i64_to_decimal};

verus! {

// ==================== Character tests ====================

fn space_at(s: &str, j: usize) -> (b: bool)
    requires
        j <= s@.len(),
    ensures
        b == (j < s@.len() && is_space(s@[j as int])),
{
    if j < s.unicode_len() {
        let c = s.get_char(j);
        c == ' ' || c == '\n' || c == '\t' || c == '\r'
    } else {
        false
    }
}

fn digit_at(s: &str, j: usize) -> (b: bool)
    requires
        j <= s@.len(),
    ensures
        b == (j < s@.len() && is_digit(s@[j as int])),
{
    if j < s.unicode_len() {
        let c = s.get_char(j);
        let u = c as u32;
        48 <= u && u <= 57
    } else {
        false
    }
}

fn ident_start_at(s: &str, j: usize) -> (b: bool)
    requires
        j <= s@.len(),
    ensures
        b == (j < s@.len() && is_ident_start(s@[j as int])),
{
    if j < s.unicode_len() {
        let c = s.get_char(j);
        let u = c as u32;
        (97 <= u && u <= 122) || (65 <= u && u <= 90) || c == '_'
    } else {
        false
    }
}

fn ident_char_at(s: &str, j: usize) -> (b: bool)
    requires
        j <= s@.len(),
    ensures
        b == (j < s@.len() && is_ident_char(s@[j as int])),
{
    if j < s.unicode_len() {
        let c = s.get_char(j);
        let u = c as u32;
        (97 <= u && u <= 122) || (65 <= u && u <= 90) || c == '_' || (48 <= u && u <= 57)
    } else {
        false
    }
}

fn search_char_at(s: &str, j: usize) -> (b: bool)
    requires
        j <= s@.len(),
    ensures
        b == (j < s@.len() && is_search_char(s@[j as int])),
{
    if j < s.unicode_len() {
        let c = s.get_char(j);
        let u = c as u32;
        (97 <= u && u <= 122) || (65 <= u && u <= 90) || c == '_' || (48 <= u && u <= 57) || c
            == '/' || c == '.' || c == '-'
    } else {
        false
    }
}

fn char_at(s: &str, j: usize, c: char) -> (b: bool)
    requires
        j <= s@.len(),
    ensures
        b == at(s@, j as int, c),
{
    j < s.unicode_len() && s.get_char(j) == c
}

fn chars2_at(s: &str, j: usize, c0: char, c1: char) -> (b: bool)
    requires
        j <= s@.len(),
    ensures
        b == at2(s@, j as int, c0, c1),
{
    let n = s.unicode_len();
    j < n && n - j > 1 && s.get_char(j) == c0 && s.get_char(j + 1) == c1
}

fn chars3_at(s: &str, j: usize, c0: char, c1: char, c2: char) -> (b: bool)
    requires
        j <= s@.len(),
    ensures
        b == at3(s@, j as int, c0, c1, c2),
{
    let n = s.unicode_len();
    j < n && n - j > 2 && s.get_char(j) == c0 && s.get_char(j + 1) == c1 && s.get_char(j + 2)
        == c2
}

// ==================== Scanners ====================

fn scan_ws(s: &str, i: usize) -> (j: usize)
    requires
        i <= s@.len(),
    ensures
        j as int == ws_end(s@, i as int),
        i <= j <= s@.len(),
{
    let n = s.unicode_len();
    let mut j = i;
    while space_at(s, j)
        invariant
            n == s@.len(),
            i <= j <= s@.len(),
            ws_end(s@, i as int) == ws_end(s@, j as int),
        decreases s@.len() - j,
    {
        j = j + 1;
    }
    j
}

fn scan_ident(s: &str, i: usize) -> (j: usize)
    requires
        i <= s@.len(),
    ensures
        j as int == ident_end(s@, i as int),
        i <= j <= s@.len(),
{
    let n = s.unicode_len();
    let mut j = i;
    while ident_char_at(s, j)
        invariant
            n == s@.len(),
            i <= j <= s@.len(),
            ident_end(s@, i as int) == ident_end(s@, j as int),
        decreases s@.len() - j,
    {
        j = j + 1;
    }
    j
}

fn scan_digits(s: &str, i: usize) -> (j: usize)
    requires
        i <= s@.len(),
    ensures
        j as int == digits_end(s@, i as int),
        i <= j <= s@.len(),
{
    let n = s.unicode_len();
    let mut j = i;
    while digit_at(s, j)
        invariant
            n == s@.len(),
            i <= j <= s@.len(),
            digits_end(s@, i as int) == digits_end(s@, j as int),
        decreases s@.len() - j,
    {
        j = j + 1;
    }
    j
}

fn scan_search(s: &str, i: usize) -> (j: usize)
    requires
        i <= s@.len(),
    ensures
        j as int == search_end(s@, i as int),
        i <= j <= s@.len(),
{
    let n = s.unicode_len();
    let mut j = i;
    while search_char_at(s, j)
        invariant
            n == s@.len(),
            i <= j <= s@.len(),
            search_end(s@, i as int) == search_end(s@, j as int),
        decreases s@.len() - j,
    {
        j = j + 1;
    }
    j
}

fn raw_continues(s: &str, j: usize) -> (b: bool)
    requires
        j <= s@.len(),
    ensures
        b == (j < s@.len() && s@[j as int] != '"' && !(s@[j as int] == '$' && j + 1 < s@.len()
            && s@[j + 1] == '{')),
{
    let n = s.unicode_len();
    if j < n {
        let c = s.get_char(j);
        if c == '"' {
            false
        } else if c == '$' && n - j > 1 && s.get_char(j + 1) == '{' {
            false
        } else {
            true
        }
    } else {
        false
    }
}

fn scan_raw(s: &str, i: usize) -> (j: usize)
    requires
        i <= s@.len(),
    ensures
        j as int == raw_end(s@, i as int),
        i <= j <= s@.len(),
{
    let n = s.unicode_len();
    let mut j = i;
    while raw_continues(s, j)
        invariant
            n == s@.len(),
            i <= j <= s@.len(),
            raw_end(s@, i as int) == raw_end(s@, j as int),
        decreases s@.len() - j,
    {
        if s.get_char(j) == '\\' && n - j > 1 {
            j = j + 2;
        } else {
            j = j + 1;
        }
    }
    j
}

fn path_char_at(s: &str, j: usize) -> (b: bool)
    requires
        j <= s@.len(),
    ensures
        b == (j < s@.len() && is_path_char(s@[j as int])),
{
    if j < s.unicode_len() {
        let c = s.get_char(j);
        let u = c as u32;
        (97 <= u && u <= 122) || (65 <= u && u <= 90) || c == '_' || (48 <= u && u <= 57) || c
            == '.' || c == '-' || c == '+'
    } else {
        false
    }
}

fn uri_char_at(s: &str, j: usize) -> (b: bool)
    requires
        j <= s@.len(),
    ensures
        b == (j < s@.len() && is_uri_char(s@[j as int])),
{
    if j < s.unicode_len() {
        let c = s.get_char(j);
        let u = c as u32;
        (97 <= u && u <= 122) || (65 <= u && u <= 90) || c == '_' || (48 <= u && u <= 57) || c
            == ':' || c == '/' || c == '.' || c == '-' || c == '+' || c == '%' || c == '?' || c
            == '&' || c == '=' || c == '~' || c == '#' || c == '@' || c == '!' || c == '$' || c
            == '*'
    } else {
        false
    }
}

fn segment_start_at(s: &str, j: usize) -> (b: bool)
    requires
        j <= s@.len(),
    ensures
        b == is_segment_start(s@, j as int),
{
    path_char_at(s, j) || chars2_at(s, j, '$', '{')
}

fn scan_path(s: &str, i: usize) -> (j: usize)
    requires
        i <= s@.len(),
    ensures
        j as int == path_end(s@, i as int),
        i <= j <= s@.len(),
{
    let n = s.unicode_len();
    let mut j = i;
    while path_char_at(s, j)
        invariant
            n == s@.len(),
            i <= j <= s@.len(),
            path_end(s@, i as int) == path_end(s@, j as int),
        decreases s@.len() - j,
    {
        j = j + 1;
    }
    j
}

fn scan_uri(s: &str, i: usize) -> (j: usize)
    requires
        i <= s@.len(),
    ensures
        j as int == uri_end(s@, i as int),
        i <= j <= s@.len(),
{
    let n = s.unicode_len();
    let mut j = i;
    while uri_char_at(s, j)
        invariant
            n == s@.len(),
            i <= j <= s@.len(),
            uri_end(s@, i as int) == uri_end(s@, j as int),
        decreases s@.len() - j,
    {
        j = j + 1;
    }
    j
}

fn iraw_continues(s: &str, j: usize) -> (b: bool)
    requires
        j <= s@.len(),
    ensures
        b == (j < s@.len() && !(s@[j as int] == '\'' && j + 1 < s@.len() && s@[j + 1] == '\'')
            && !(s@[j as int] == '$' && j + 1 < s@.len() && s@[j + 1] == '{')),
{
    let n = s.unicode_len();
    if j < n {
        let c = s.get_char(j);
        if c == '\'' && n - j > 1 && s.get_char(j + 1) == '\'' {
            false
        } else if c == '$' && n - j > 1 && s.get_char(j + 1) == '{' {
            false
        } else {
            true
        }
    } else {
        false
    }
}

fn scan_iraw(s: &str, i: usize) -> (j: usize)
    requires
        i <= s@.len(),
    ensures
        j as int == iraw_end(s@, i as int),
        i <= j <= s@.len(),
{
    let n = s.unicode_len();
    let mut j = i;
    while iraw_continues(s, j)
        invariant
            n == s@.len(),
            i <= j <= s@.len(),
            iraw_end(s@, i as int) == iraw_end(s@, j as int),
        decreases s@.len() - j,
    {
        j = j + 1;
    }
    j
}

// ==================== Words ====================

/// Whether the text between `i` and `end` is exactly `lit`.
fn word_is(s: &str, i: usize, end: usize, lit: &str) -> (b: bool)
    requires
        i <= end <= s@.len(),
    ensures
        b == (s@.subrange(i as int, end as int) == lit@),
{
    let m = lit.unicode_len();
    if end - i != m {
        proof {
            assert(s@.subrange(i as int, end as int).len() != lit@.len());
        }
        return false;
    }
    let mut j: usize = 0;
    while j < m
        invariant
            0 <= j <= m,
            m == lit@.len(),
            i + m == end <= s@.len(),
            forall|k: int| 0 <= k < j ==> s@[i + k] == lit@[k],
        decreases m - j,
    {
        if s.get_char(i + j) != lit.get_char(j) {
            proof {
                assert(s@.subrange(i as int, end as int)[j as int] != lit@[j as int]);
            }
            return false;
        }
        j = j + 1;
    }
    proof {
        assert(s@.subrange(i as int, end as int) =~= lit@);
    }
    true
}

/// Whether the text between `i` and `end` is a reserved word.
fn keyword_between(s: &str, i: usize, end: usize) -> (b: bool)
    requires
        i <= end <= s@.len(),
    ensures
        b == is_keyword(s@.subrange(i as int, end as int)),
{
    word_is(s, i, end, "let") || word_is(s, i, end, "in") || word_is(s, i, end, "with") || word_is(
        s,
        i,
        end,
        "if",
    ) || word_is(s, i, end, "then") || word_is(s, i, end, "else") || word_is(s, i, end, "assert")
        || word_is(s, i, end, "rec") || word_is(s, i, end, "true") || word_is(s, i, end, "false")
        || word_is(s, i, end, "null") || word_is(s, i, end, "inherit") || word_is(s, i, end, "or")
        || word_is(s, i, end, "throw")
}

/// The text between `i` and `end` as an owned string.
fn take_word(s: &str, i: usize, end: usize) -> (r: String)
    requires
        i <= end <= s@.len(),
    ensures
        r@ == s@.subrange(i as int, end as int),
{
    let sub = s.substring_char(i, end);
    sub.to_owned()
}

// ==================== Operators ====================

fn parse_operator(s: &str, i: usize) -> (r: Option<(Operator, usize)>)
    requires
        i <= s@.len(),
    ensures
        (r matches Some(p) ==> (i < p.1 <= s@.len() && spec_operator(s@, i as int) == Some(
            (p.0, p.1 as int),
        ) && op_is_binary(p.0))),
        r is None ==> spec_operator(s@, i as int) is None,
{
    let n = s.unicode_len();
    if chars2_at(s, i, '=', '=') {
        Some((Operator::EqualTo, i + 2))
    } else if chars2_at(s, i, '=', '>') {
        Some((Operator::Implication, i + 2))
    } else if chars2_at(s, i, '!', '=') {
        Some((Operator::NotEqualTo, i + 2))
    } else if chars2_at(s, i, '>', '=') {
        Some((Operator::GreaterThanOrEqualTo, i + 2))
    } else if chars2_at(s, i, '<', '=') {
        Some((Operator::LessThanOrEqualTo, i + 2))
    } else if chars2_at(s, i, '&', '&') {
        Some((Operator::LogicalAnd, i + 2))
    } else if chars2_at(s, i, '|', '|') {
        Some((Operator::LogicalOr, i + 2))
    } else if chars2_at(s, i, '+', '+') {
        Some((Operator::Concatenation, i + 2))
    } else if chars2_at(s, i, ':', '=') {
        Some((Operator::Update, i + 2))
    } else if char_at(s, i, '+') {
        Some((Operator::Addition, i + 1))
    } else if char_at(s, i, '-') {
        Some((Operator::Subtraction, i + 1))
    } else if char_at(s, i, '*') {
        Some((Operator::Multiplication, i + 1))
    } else if char_at(s, i, '/') {
        Some((Operator::Division, i + 1))
    } else if char_at(s, i, '>') {
        Some((Operator::GreaterThan, i + 1))
    } else if char_at(s, i, '<') {
        Some((Operator::LessThan, i + 1))
    } else {
        None
    }
}


// ==================== Result correspondence ====================

/// How an executable rule's result relates to its grammar rule: the same
/// verdict, the same end position, and a tree whose model is the rule's.
pub open spec fn rule_matches(
    r: Option<(Expression, usize)>,
    m: Option<(ExprV, int)>,
    s: Seq<char>,
    i: int,
) -> bool {
    match r {
        Some((e, j)) => i < j <= s.len() && m == Some((e.deep_view(), j as int)),
        None => m is None,
    }
}

/// The same for rules that yield a sequence of nodes; `strict` says whether
/// the rule always consumes at least one character.
pub open spec fn items_rule_matches(
    r: Option<(Vec<Expression>, usize)>,
    m: Option<(Seq<ExprV>, int)>,
    s: Seq<char>,
    i: int,
    strict: bool,
) -> bool {
    match r {
        Some((v, j)) => (if strict {
            i < j
        } else {
            i <= j
        }) && j <= s.len() && m == Some((deep_views_seq(v@), j as int)),
        None => m is None,
    }
}

/// The same for the destructured-head argument rule.
pub open spec fn args_rule_matches(
    r: Option<((bool, Vec<FunctionHeadDestructuredArgument>), usize)>,
    m: Option<((bool, Seq<ArgV>), int)>,
    s: Seq<char>,
    i: int,
) -> bool {
    match r {
        Some((p, j)) => i < j <= s.len() && m == Some(((p.0, arg_views_seq(p.1@)), j as int)),
        None => m is None,
    }
}

/// The models of a run of inherited names.
pub open spec fn name_views(v: Seq<String>) -> Seq<Seq<char>> {
    Seq::new(v.len(), |k: int| v[k]@)
}

/// The same for the inherited-name rule.
pub open spec fn names_rule_matches(
    r: Option<(Vec<String>, usize)>,
    m: Option<(Seq<Seq<char>>, int)>,
    s: Seq<char>,
    i: int,
) -> bool {
    match r {
        Some((v, j)) => i <= j <= s.len() && m == Some((name_views(v@), j as int)),
        None => m is None,
    }
}

/// The model of an optional source expression.
pub open spec fn opt_expr_view(o: Option<Expression>) -> Option<ExprV> {
    match o {
        Some(e) => Some(e.deep_view()),
        None => None,
    }
}

// ==================== The rules, executably ====================

/// One expression starting at `i`, by the rule `spec_expr`.
#[verifier::rlimit(100)]
pub fn parse_expr(s: &str, i: usize) -> (r: Option<(Expression, usize)>)
    requires
        i <= s@.len(),
    ensures
        rule_matches(r, spec_expr(s@, i as int), s@, i as int),
    decreases s@.len() - i, 9int,
{
    let n = s.unicode_len();
    let j = scan_ws(s, i);
    if ident_start_at(s, j) {
        let end = scan_ident(s, j);
        if end <= j {
            return None;
        }
        if word_is(s, j, end, "with") {
            parse_with_tail(s, j, end)
        } else if word_is(s, j, end, "let") {
            parse_let_tail(s, j, end)
        } else if word_is(s, j, end, "if") {
            parse_if_tail(s, j, end)
        } else if word_is(s, j, end, "assert") {
            parse_assert_tail(s, j, end)
        } else if word_is(s, j, end, "throw") {
            parse_throw_tail(s, j, end)
        } else {
            match parse_function(s, j) {
                Some(p) => Some(p),
                None => parse_binary(s, j),
            }
        }
    } else {
        match parse_function(s, j) {
            Some(p) => Some(p),
            None => parse_binary(s, j),
        }
    }
}

fn parse_with_tail(s: &str, start: usize, i: usize) -> (r: Option<(Expression, usize)>)
    requires
        start <= s@.len(),
        i <= s@.len(),
    ensures
        rule_matches(r, spec_with_tail(s@, i as int), s@, i as int),
    decreases s@.len() - i, 11int,
{
    let n = s.unicode_len();
    match parse_expr(s, i) {
        None => None,
        Some((scope, j)) => {
            let k = scan_ws(s, j);
            if char_at(s, k, ';') {
                match parse_expr(s, k + 1) {
                    None => None,
                    Some((body, j2)) => {
                        let w = With::new_span(scope, body, span_at(s, start, j2));
                        Some((Expression::With(w), j2))
                    },
                }
            } else {
                None
            }
        },
    }
}

#[verifier::rlimit(100)]
fn parse_let_tail(s: &str, start: usize, i: usize) -> (r: Option<(Expression, usize)>)
    requires
        start <= s@.len(),
        i <= s@.len(),
    ensures
        rule_matches(r, spec_let_tail(s@, i as int), s@, i as int),
    decreases s@.len() - i, 11int,
{
    let n = s.unicode_len();
    match parse_let_bindings(s, i) {
        None => None,
        Some((bindings, k)) => {
            proof {
                lemma_deep_views_seq(bindings@);
            }
            if bindings.len() == 0 {
                return None;
            }
            if !ident_start_at(s, k) {
                return None;
            }
            let end = scan_ident(s, k);
            if end <= k {
                return None;
            }
            if !word_is(s, k, end, "in") {
                return None;
            }
            match parse_expr(s, end) {
                None => None,
                Some((target, j2)) => {
                    let l = LetIn::new_span(bindings, target, span_at(s, start, j2));
                    proof {
                        assert(deep_views(&l.bindings) == deep_views_seq(l.bindings@));
                    }
                    Some((Expression::LetIn(l), j2))
                },
            }
        },
    }
}

fn parse_if_tail(s: &str, start: usize, i: usize) -> (r: Option<(Expression, usize)>)
    requires
        start <= s@.len(),
        i <= s@.len(),
    ensures
        rule_matches(r, spec_if_tail(s@, i as int), s@, i as int),
    decreases s@.len() - i, 11int,
{
    let n = s.unicode_len();
    match parse_expr(s, i) {
        None => None,
        Some((predicate, j)) => {
            let k = scan_ws(s, j);
            if !ident_start_at(s, k) {
                return None;
            }
            let end = scan_ident(s, k);
            if end <= k {
                return None;
            }
            if !word_is(s, k, end, "then") {
                return None;
            }
            match parse_expr(s, end) {
                None => None,
                Some((consequent, j2)) => {
                    let k2 = scan_ws(s, j2);
                    if !ident_start_at(s, k2) {
                        return None;
                    }
                    let end2 = scan_ident(s, k2);
                    if end2 <= k2 {
                        return None;
                    }
                    if !word_is(s, k2, end2, "else") {
                        return None;
                    }
                    match parse_expr(s, end2) {
                        None => None,
                        Some((alternative, j3)) => {
                            let ite = IfThenElse::new_span(
                                predicate,
                                consequent,
                                alternative,
                                span_at(s, start, j3),
                            );
                            Some((Expression::IfThenElse(ite), j3))
                        },
                    }
                },
            }
        },
    }
}

fn parse_assert_tail(s: &str, start: usize, i: usize) -> (r: Option<(Expression, usize)>)
    requires
        start <= s@.len(),
        i <= s@.len(),
    ensures
        rule_matches(r, spec_assert_tail(s@, i as int), s@, i as int),
    decreases s@.len() - i, 11int,
{
    let n = s.unicode_len();
    match parse_expr(s, i) {
        None => None,
        Some((condition, j)) => {
            let k = scan_ws(s, j);
            if char_at(s, k, ';') {
                match parse_expr(s, k + 1) {
                    None => None,
                    Some((message, j2)) => {
                        let a = Assert::new_span(
                            condition,
                            Some(message),
                            span_at(s, start, j2),
                        );
                        Some((Expression::Assert(a), j2))
                    },
                }
            } else {
                None
            }
        },
    }
}

fn parse_throw_tail(s: &str, start: usize, i: usize) -> (r: Option<(Expression, usize)>)
    requires
        start <= s@.len(),
        i <= s@.len(),
    ensures
        rule_matches(r, spec_throw_tail(s@, i as int), s@, i as int),
    decreases s@.len() - i, 11int,
{
    match parse_expr(s, i) {
        None => None,
        Some((message, j)) => {
            let t = Throw::new_span(message, span_at(s, start, j));
            Some((Expression::Throw(t), j))
        },
    }
}

#[verifier::rlimit(100)]
fn parse_function(s: &str, i: usize) -> (r: Option<(Expression, usize)>)
    requires
        i <= s@.len(),
    ensures
        rule_matches(r, spec_function(s@, i as int), s@, i as int),
    decreases s@.len() - i, 8int,
{
    let n = s.unicode_len();
    if ident_start_at(s, i) {
        let end = scan_ident(s, i);
        if end <= i {
            return None;
        }
        if keyword_between(s, i, end) {
            return None;
        }
        let j = scan_ws(s, end);
        if char_at(s, j, ':') && !chars2_at(s, j, ':', '=') && !(j == end && uri_char_at(
            s,
            j + 1,
        )) {
            match parse_expr(s, j + 1) {
                None => None,
                Some((body, j2)) => {
                    let word = take_word(s, i, end);
                    let ghost wv = word@;
                    let fhs = FunctionHeadSimple::new_span(
                        Identifier::new_span(word, span_at(s, i, end)),
                        span_at(s, i, end),
                    );
                    proof {
                        assert(fhs.identifier.id@ == wv);
                    }
                    let head = Expression::FunctionHeadSimple(fhs);
                    proof {
                        assert(head.deep_view() == ExprV::FunctionHeadSimple(wv));
                    }
                    let f = Function::new_span(head, body, span_at(s, i, j2));
                    Some((Expression::Function(f), j2))
                },
            }
        } else {
            None
        }
    } else if char_at(s, i, '{') {
        match parse_fn_args(s, i + 1) {
            None => None,
            Some((head_parts, j)) => {
                let (ellipsis, args) = head_parts;
                let k = scan_ws(s, j);
                if char_at(s, k, ':') && !chars2_at(s, k, ':', '=') {
                    match parse_expr(s, k + 1) {
                        None => None,
                        Some((body, j2)) => {
                            let ghost avs = arg_views_seq(args@);
                            let h = FunctionHeadDestructured::new_span(
                                ellipsis,
                                Identifier::new(String::new()),
                                args,
                                span_at(s, i, j),
                            );
                            proof {
                                assert(arg_views(&h.arguments) == arg_views_seq(h.arguments@));
                                assert(h.identifier.id@ =~= Seq::<char>::empty());
                            }
                            let head = Expression::FunctionHeadDestructured(h);
                            proof {
                                assert(head.deep_view() == ExprV::FunctionHeadDestructured(
                                    ellipsis,
                                    Seq::<char>::empty(),
                                    avs,
                                ));
                            }
                            let ghost bv = body.deep_view();
                            let f = Function::new_span(head, body, span_at(s, i, j2));
                            proof {
                                assert(f.head.deep_view() == ExprV::FunctionHeadDestructured(
                                    ellipsis,
                                    Seq::<char>::empty(),
                                    avs,
                                ));
                                assert(Expression::Function(f).deep_view() == ExprV::Function(
                                    Box::new(
                                        ExprV::FunctionHeadDestructured(
                                            ellipsis,
                                            Seq::<char>::empty(),
                                            avs,
                                        ),
                                    ),
                                    Box::new(bv),
                                ));
                            }
                            Some((Expression::Function(f), j2))
                        },
                    }
                } else {
                    None
                }
            },
        }
    } else {
        None
    }
}

fn parse_fn_args(s: &str, i: usize) -> (r: Option<
    ((bool, Vec<FunctionHeadDestructuredArgument>), usize),
>)
    requires
        i <= s@.len(),
    ensures
        args_rule_matches(r, spec_fn_args(s@, i as int), s@, i as int),
    decreases s@.len() - i, 10int,
{
    let n = s.unicode_len();
    let j = scan_ws(s, i);
    if chars3_at(s, j, '.', '.', '.') {
        let k = scan_ws(s, j + 3);
        if char_at(s, k, '}') {
            let empty: Vec<FunctionHeadDestructuredArgument> = Vec::new();
            proof {
                lemma_arg_views_seq(empty@);
                assert(arg_views_seq(empty@) =~= Seq::<ArgV>::empty());
            }
            Some(((true, empty), k + 1))
        } else {
            None
        }
    } else if char_at(s, j, '}') {
        let empty: Vec<FunctionHeadDestructuredArgument> = Vec::new();
        proof {
            lemma_arg_views_seq(empty@);
            assert(arg_views_seq(empty@) =~= Seq::<ArgV>::empty());
        }
        Some(((false, empty), j + 1))
    } else if ident_start_at(s, j) {
        let end = scan_ident(s, j);
        if end <= j {
            return None;
        }
        if keyword_between(s, j, end) {
            return None;
        }
        let word = take_word(s, j, end);
        let k = scan_ws(s, end);
        if char_at(s, k, '?') {
            match parse_expr(s, k + 1) {
                None => None,
                Some((dflt, k2)) => {
                    let k3 = scan_ws(s, k2);
                    let arg = FunctionHeadDestructuredArgument::new(word, Some(dflt));
                    parse_fn_args_more(s, arg, k3)
                },
            }
        } else {
            let arg = FunctionHeadDestructuredArgument::new(word, None);
            parse_fn_args_more(s, arg, k)
        }
    } else {
        None
    }
}

fn parse_fn_args_more(s: &str, arg: FunctionHeadDestructuredArgument, p: usize) -> (r: Option<
    ((bool, Vec<FunctionHeadDestructuredArgument>), usize),
>)
    requires
        p <= s@.len(),
    ensures
        args_rule_matches(r, spec_fn_args_more(s@, arg.deep_view(), p as int), s@, p as int),
    decreases s@.len() - p, 11int,
{
    let n = s.unicode_len();
    if char_at(s, p, ',') {
        match parse_fn_args(s, p + 1) {
            None => None,
            Some((rest_parts, q)) => {
                let (ellipsis, mut args) = rest_parts;
                let ghost a0 = arg;
                let ghost r0 = args@;
                args.insert(0, arg);
                proof {
                    assert(args@ =~= seq![a0] + r0);
                    lemma_arg_views_cons(a0, r0);
                }
                Some(((ellipsis, args), q))
            },
        }
    } else if char_at(s, p, '}') {
        let ghost a0 = arg;
        let mut v: Vec<FunctionHeadDestructuredArgument> = Vec::new();
        v.push(arg);
        proof {
            assert(v@ =~= seq![a0] + Seq::<FunctionHeadDestructuredArgument>::empty());
            lemma_arg_views_cons(a0, Seq::<FunctionHeadDestructuredArgument>::empty());
            lemma_arg_views_seq(Seq::<FunctionHeadDestructuredArgument>::empty());
            assert(arg_views_seq(v@) =~= seq![a0.deep_view()]);
        }
        Some(((false, v), p + 1))
    } else {
        None
    }
}

fn parse_binary(s: &str, i: usize) -> (r: Option<(Expression, usize)>)
    requires
        i <= s@.len(),
    ensures
        rule_matches(r, spec_binary(s@, i as int), s@, i as int),
    decreases s@.len() - i, 8int,
{
    match parse_unary(s, i) {
        None => None,
        Some((first, j)) => parse_binary_more(s, first, i, j),
    }
}

fn parse_binary_more(s: &str, acc: Expression, start: usize, i: usize) -> (r: Option<
    (Expression, usize),
>)
    requires
        start <= s@.len(),
        i <= s@.len(),
    ensures
        (r matches Some(p) ==> (i <= p.1 <= s@.len() && spec_binary_more(
            s@,
            acc.deep_view(),
            i as int,
        ) == Some((p.0.deep_view(), p.1 as int)))),
        r is None ==> spec_binary_more(s@, acc.deep_view(), i as int) is None,
    decreases s@.len() - i, 8int,
{
    let n = s.unicode_len();
    let j = scan_ws(s, i);
    match parse_operator(s, j) {
        None => Some((acc, i)),
        Some((op, k)) => match parse_unary(s, k) {
            None => None,
            Some((rhs, j2)) => {
                let b = match BinaryOperation::new_span(acc, op, rhs, span_at(s, start, j2)) {
                    Ok(b) => b,
                    Err(_) => {
                        proof {
                            assert(false);
                        }
                        unreached()
                    },
                };
                parse_binary_more(s, Expression::BinaryOperation(b), start, j2)
            },
        },
    }
}

fn parse_unary(s: &str, i: usize) -> (r: Option<(Expression, usize)>)
    requires
        i <= s@.len(),
    ensures
        rule_matches(r, spec_unary(s@, i as int), s@, i as int),
    decreases s@.len() - i, 7int,
{
    let n = s.unicode_len();
    let j = scan_ws(s, i);
    if char_at(s, j, '!') {
        match parse_unary(s, j + 1) {
            None => None,
            Some((operand, k)) => {
                let u = match UnaryOperation::new_span(Operator::Not, operand, span_at(s, j, k)) {
                    Ok(u) => u,
                    Err(_) => {
                        proof {
                            assert(false);
                        }
                        unreached()
                    },
                };
                Some((Expression::UnaryOperation(u), k))
            },
        }
    } else if char_at(s, j, '-') {
        match parse_unary(s, j + 1) {
            None => None,
            Some((operand, k)) => {
                let u = match UnaryOperation::new_span(
                    Operator::Negate,
                    operand,
                    span_at(s, j, k),
                ) {
                    Ok(u) => u,
                    Err(_) => {
                        proof {
                            assert(false);
                        }
                        unreached()
                    },
                };
                Some((Expression::UnaryOperation(u), k))
            },
        }
    } else {
        parse_app(s, j)
    }
}

#[verifier::rlimit(100)]
fn parse_app(s: &str, i: usize) -> (r: Option<(Expression, usize)>)
    requires
        i <= s@.len(),
    ensures
        rule_matches(r, spec_app(s@, i as int), s@, i as int),
    decreases s@.len() - i, 6int,
{
    match parse_postfix(s, i) {
        None => None,
        Some((f, j)) => match parse_app_args(s, j) {
            None => None,
            Some((args, j2)) => {
                proof {
                    lemma_deep_views_seq(args@);
                }
                if args.len() == 0 {
                    Some((f, j))
                } else {
                    let fa = FunctionApplication::new_span(f, args, span_at(s, i, j2));
                    proof {
                        assert(deep_views(&fa.arguments) == deep_views_seq(fa.arguments@));
                    }
                    Some((Expression::FunctionApplication(fa), j2))
                }
            },
        },
    }
}

fn parse_app_args(s: &str, i: usize) -> (r: Option<(Vec<Expression>, usize)>)
    requires
        i <= s@.len(),
    ensures
        items_rule_matches(r, spec_app_args(s@, i as int), s@, i as int, false),
    decreases s@.len() - i, 6int,
{
    let n = s.unicode_len();
    let j = scan_ws(s, i);
    match parse_postfix(s, j) {
        None => {
            let empty: Vec<Expression> = Vec::new();
            proof {
                lemma_deep_views_seq(empty@);
                assert(deep_views_seq(empty@) =~= Seq::<ExprV>::empty());
            }
            Some((empty, i))
        },
        Some((a, k)) => match parse_app_args(s, k) {
            None => None,
            Some((rest, q)) => {
                proof {
                    lemma_deep_views_seq(rest@);
                }
                let pos = if rest.len() == 0 {
                    k
                } else {
                    q
                };
                let ghost a0 = a;
                let ghost r0 = rest@;
                let mut out = rest;
                out.insert(0, a);
                proof {
                    assert(out@ =~= seq![a0] + r0);
                    lemma_views_cons(a0, r0);
                }
                Some((out, pos))
            },
        },
    }
}

#[verifier::rlimit(100)]
fn parse_postfix(s: &str, i: usize) -> (r: Option<(Expression, usize)>)
    requires
        i <= s@.len(),
    ensures
        rule_matches(r, spec_postfix(s@, i as int), s@, i as int),
    decreases s@.len() - i, 5int,
{
    let n = s.unicode_len();
    match parse_atom(s, i) {
        None => None,
        Some((e, j)) => match parse_path_more(s, j) {
            None => None,
            Some((path, j2)) => {
                proof {
                    lemma_deep_views_seq(path@);
                }
                if path.len() == 0 {
                    Some((e, j))
                } else {
                    let k = scan_ws(s, j2);
                    let mut has_or = false;
                    let mut or_end: usize = k;
                    if ident_start_at(s, k) {
                        let end2 = scan_ident(s, k);
                        if end2 > k && word_is(s, k, end2, "or") {
                            has_or = true;
                            or_end = end2;
                        }
                    }
                    if has_or {
                        match parse_expr(s, or_end) {
                            None => None,
                            Some((dflt, j3)) => {
                                let pa = PropertyAccess::new_span(
                                    e,
                                    path,
                                    Some(dflt),
                                    span_at(s, i, j3),
                                );
                                proof {
                                    assert(deep_views(&pa.attribute_path) == deep_views_seq(
                                        pa.attribute_path@,
                                    ));
                                }
                                Some((Expression::PropertyAccess(pa), j3))
                            },
                        }
                    } else {
                        let pa = PropertyAccess::new_span(e, path, None, span_at(s, i, j2));
                        proof {
                            assert(deep_views(&pa.attribute_path) == deep_views_seq(
                                pa.attribute_path@,
                            ));
                        }
                        Some((Expression::PropertyAccess(pa), j2))
                    }
                }
            },
        },
    }
}

fn parse_path_more(s: &str, i: usize) -> (r: Option<(Vec<Expression>, usize)>)
    requires
        i <= s@.len(),
    ensures
        items_rule_matches(r, spec_path_more(s@, i as int), s@, i as int, false),
    decreases s@.len() - i, 5int,
{
    let n = s.unicode_len();
    let j = scan_ws(s, i);
    if char_at(s, j, '.') {
        let k = scan_ws(s, j + 1);
        if ident_start_at(s, k) {
            let end = scan_ident(s, k);
            if end <= k {
                return None;
            }
            if keyword_between(s, k, end) {
                let empty: Vec<Expression> = Vec::new();
                proof {
                    lemma_deep_views_seq(empty@);
                    assert(deep_views_seq(empty@) =~= Seq::<ExprV>::empty());
                }
                return Some((empty, i));
            }
            let word = take_word(s, k, end);
            match parse_path_more(s, end) {
                None => None,
                Some((rest, q)) => {
                    proof {
                        lemma_deep_views_seq(rest@);
                    }
                    let pos = if rest.len() == 0 {
                        end
                    } else {
                        q
                    };
                    let seg = Expression::Identifier(
                        Identifier::new_span(word, span_at(s, k, end)),
                    );
                    let ghost a0 = seg;
                    let ghost r0 = rest@;
                    let mut out = rest;
                    out.insert(0, seg);
                    proof {
                        assert(out@ =~= seq![a0] + r0);
                        lemma_views_cons(a0, r0);
                    }
                    Some((out, pos))
                },
            }
        } else {
            let empty: Vec<Expression> = Vec::new();
            proof {
                lemma_deep_views_seq(empty@);
                assert(deep_views_seq(empty@) =~= Seq::<ExprV>::empty());
            }
            Some((empty, i))
        }
    } else {
        let empty: Vec<Expression> = Vec::new();
        proof {
            lemma_deep_views_seq(empty@);
            assert(deep_views_seq(empty@) =~= Seq::<ExprV>::empty());
        }
        Some((empty, i))
    }
}

#[verifier::rlimit(100)]
fn parse_atom(s: &str, i: usize) -> (r: Option<(Expression, usize)>)
    requires
        i <= s@.len(),
    ensures
        rule_matches(r, spec_atom(s@, i as int), s@, i as int),
    decreases s@.len() - i, 4int,
{
    let n = s.unicode_len();
    if i >= n {
        return None;
    }
    let c = s.get_char(i);
    if digit_at(s, i) {
        let end = scan_digits(s, i);
        if end <= i {
            return None;
        }
        if char_at(s, end, '.') && digit_at(s, end + 1) {
            let end2 = scan_digits(s, end + 1);
            if end2 <= end + 1 {
                return None;
            }
            let f = Float::new_span(take_word(s, i, end2), span_at(s, i, end2));
            Some((Expression::Float(f), end2))
        } else {
            let v = Integer::new_span(take_word(s, i, end), span_at(s, i, end));
            Some((Expression::Integer(v), end))
        }
    } else if c == '"' {
        match parse_string_parts(s, i + 1) {
            None => None,
            Some((parts, j)) => {
                let ns = NixString::new_span(parts, span_at(s, i, j));
                proof {
                    assert(deep_views(&ns.parts) == deep_views_seq(ns.parts@));
                }
                Some((Expression::NixString(ns), j))
            },
        }
    } else if c == '[' {
        match parse_list_items(s, i + 1) {
            None => None,
            Some((elements, j)) => {
                let l = List::new_span(elements, span_at(s, i, j));
                proof {
                    assert(deep_views(&l.elements) == deep_views_seq(l.elements@));
                }
                Some((Expression::List(l), j))
            },
        }
    } else if c == '{' {
        match parse_bindings(s, i + 1) {
            None => None,
            Some((bindings, j)) => {
                let a = AttrSet::new_span(false, bindings, span_at(s, i, j));
                proof {
                    assert(deep_views(&a.bindings) == deep_views_seq(a.bindings@));
                }
                Some((Expression::AttrSet(a), j))
            },
        }
    } else if c == '(' {
        match parse_expr(s, i + 1) {
            None => None,
            Some((e, j)) => {
                let k = scan_ws(s, j);
                if char_at(s, k, ')') {
                    Some((e, k + 1))
                } else {
                    None
                }
            },
        }
    } else if c == '<' {
        let end = scan_search(s, i + 1);
        if end > i + 1 && char_at(s, end, '>') {
            let p = SearchNixPath::new_span(take_word(s, i + 1, end), span_at(s, i, end + 1));
            Some((Expression::SearchNixPath(p), end + 1))
        } else {
            None
        }
    } else if chars2_at(s, i, '\'', '\'') {
        match parse_istring_parts(s, i + 2) {
            None => None,
            Some((parts, j)) => {
                let istr = IndentedString::new_span(parts, span_at(s, i, j));
                proof {
                    assert(deep_views(&istr.parts) == deep_views_seq(istr.parts@));
                }
                Some((Expression::IndentedString(istr), j))
            },
        }
    } else if c == '/' {
        if !segment_start_at(s, i + 1) {
            return None;
        }
        match parse_path_segments(s, i + 1) {
            None => None,
            Some((segments, j)) => {
                let lead = Expression::PartRaw(
                    PartRaw::new_span(String::new(), span_at(s, i, i)),
                );
                let ghost a0 = lead;
                let ghost r0 = segments@;
                let mut parts = segments;
                parts.insert(0, lead);
                proof {
                    assert(parts@ =~= seq![a0] + r0);
                    lemma_views_cons(a0, r0);
                    assert(a0.deep_view() == ExprV::PartRaw(Seq::<char>::empty()));
                }
                let node = Path::new_span(parts, span_at(s, i, j));
                proof {
                    assert(deep_views(&node.parts) == deep_views_seq(node.parts@));
                }
                Some((Expression::Path(node), j))
            },
        }
    } else if chars3_at(s, i, '.', '.', '/') {
        if !segment_start_at(s, i + 3) {
            return None;
        }
        match parse_path_segments(s, i + 3) {
            None => None,
            Some((segments, j)) => {
                let mut dots = String::new();
                dots.append("..");
                let lead = Expression::PartRaw(PartRaw::new_span(dots, span_at(s, i, i + 2)));
                let ghost a0 = lead;
                let ghost r0 = segments@;
                let mut parts = segments;
                parts.insert(0, lead);
                proof {
                    assert(parts@ =~= seq![a0] + r0);
                    lemma_views_cons(a0, r0);
                    assert(a0.deep_view() == ExprV::PartRaw(".."@));
                }
                let node = Path::new_span(parts, span_at(s, i, j));
                proof {
                    assert(deep_views(&node.parts) == deep_views_seq(node.parts@));
                }
                Some((Expression::Path(node), j))
            },
        }
    } else if chars2_at(s, i, '.', '/') {
        if !segment_start_at(s, i + 2) {
            return None;
        }
        match parse_path_segments(s, i + 2) {
            None => None,
            Some((segments, j)) => {
                let mut dot = String::new();
                dot.append(".");
                let lead = Expression::PartRaw(PartRaw::new_span(dot, span_at(s, i, i + 1)));
                let ghost a0 = lead;
                let ghost r0 = segments@;
                let mut parts = segments;
                parts.insert(0, lead);
                proof {
                    assert(parts@ =~= seq![a0] + r0);
                    lemma_views_cons(a0, r0);
                    assert(a0.deep_view() == ExprV::PartRaw("."@));
                }
                let node = Path::new_span(parts, span_at(s, i, j));
                proof {
                    assert(deep_views(&node.parts) == deep_views_seq(node.parts@));
                }
                Some((Expression::Path(node), j))
            },
        }
    } else if ident_start_at(s, i) {
        let end = scan_ident(s, i);
        if end <= i {
            return None;
        }
        if char_at(s, end, ':') && uri_char_at(s, end + 1) {
            let uend = scan_uri(s, end + 1);
            if uend <= end + 1 {
                return None;
            }
            let u = Uri::new_span(take_word(s, i, uend), span_at(s, i, uend));
            Some((Expression::Uri(u), uend))
        } else if word_is(s, i, end, "rec") {
            let j = scan_ws(s, end);
            if char_at(s, j, '{') {
                match parse_bindings(s, j + 1) {
                    None => None,
                    Some((bindings, k)) => {
                        let a = AttrSet::new_span(true, bindings, span_at(s, i, k));
                        proof {
                            assert(deep_views(&a.bindings) == deep_views_seq(a.bindings@));
                        }
                        Some((Expression::AttrSet(a), k))
                    },
                }
            } else {
                None
            }
        } else if word_is(s, i, end, "true") {
            Some((Expression::Boolean(Boolean::new_span(true, span_at(s, i, end))), end))
        } else if word_is(s, i, end, "false") {
            Some((Expression::Boolean(Boolean::new_span(false, span_at(s, i, end))), end))
        } else if word_is(s, i, end, "null") {
            Some((Expression::Null(Null::new_span(span_at(s, i, end))), end))
        } else if keyword_between(s, i, end) {
            None
        } else {
            let id = Identifier::new_span(take_word(s, i, end), span_at(s, i, end));
            Some((Expression::Identifier(id), end))
        }
    } else {
        None
    }
}

fn parse_list_items(s: &str, i: usize) -> (r: Option<(Vec<Expression>, usize)>)
    requires
        i <= s@.len(),
    ensures
        items_rule_matches(r, spec_list_items(s@, i as int), s@, i as int, true),
    decreases s@.len() - i, 10int,
{
    let n = s.unicode_len();
    let j = scan_ws(s, i);
    if char_at(s, j, ']') {
        let empty: Vec<Expression> = Vec::new();
        proof {
            lemma_deep_views_seq(empty@);
            assert(deep_views_seq(empty@) =~= Seq::<ExprV>::empty());
        }
        Some((empty, j + 1))
    } else {
        match parse_expr(s, j) {
            None => None,
            Some((e, k)) => {
                let k2 = scan_ws(s, k);
                if char_at(s, k2, ',') {
                    match parse_list_items(s, k2 + 1) {
                        None => None,
                        Some((rest, q)) => {
                            let ghost a0 = e;
                            let ghost r0 = rest@;
                            let mut out = rest;
                            out.insert(0, e);
                            proof {
                                assert(out@ =~= seq![a0] + r0);
                                lemma_views_cons(a0, r0);
                            }
                            Some((out, q))
                        },
                    }
                } else if char_at(s, k2, ']') {
                    let ghost a0 = e;
                    let mut v: Vec<Expression> = Vec::new();
                    v.push(e);
                    proof {
                        assert(v@ =~= seq![a0] + Seq::<Expression>::empty());
                        lemma_views_cons(a0, Seq::<Expression>::empty());
                        lemma_deep_views_seq(Seq::<Expression>::empty());
                        assert(deep_views_seq(v@) =~= seq![a0.deep_view()]);
                    }
                    Some((v, k2 + 1))
                } else {
                    None
                }
            },
        }
    }
}

fn parse_bindings(s: &str, i: usize) -> (r: Option<(Vec<Expression>, usize)>)
    requires
        i <= s@.len(),
    ensures
        items_rule_matches(r, spec_bindings(s@, i as int), s@, i as int, true),
    decreases s@.len() - i, 10int,
{
    let n = s.unicode_len();
    let j = scan_ws(s, i);
    if char_at(s, j, '}') {
        let empty: Vec<Expression> = Vec::new();
        proof {
            lemma_deep_views_seq(empty@);
            assert(deep_views_seq(empty@) =~= Seq::<ExprV>::empty());
        }
        Some((empty, j + 1))
    } else {
        match parse_binding(s, j) {
            None => None,
            Some((bs, k)) => {
                let k2 = scan_ws(s, k);
                if char_at(s, k2, ',') {
                    match parse_bindings(s, k2 + 1) {
                        None => None,
                        Some((rest, q)) => {
                            let ghost b0 = bs@;
                            let ghost r0 = rest@;
                            let mut out = bs;
                            let mut tail = rest;
                            out.append(&mut tail);
                            proof {
                                lemma_views_concat(b0, r0);
                            }
                            Some((out, q))
                        },
                    }
                } else {
                    match parse_bindings(s, k2) {
                        None => None,
                        Some((rest, q)) => {
                            let ghost b0 = bs@;
                            let ghost r0 = rest@;
                            let mut out = bs;
                            let mut tail = rest;
                            out.append(&mut tail);
                            proof {
                                lemma_views_concat(b0, r0);
                            }
                            Some((out, q))
                        },
                    }
                }
            },
        }
    }
}

fn parse_let_bindings(s: &str, i: usize) -> (r: Option<(Vec<Expression>, usize)>)
    requires
        i <= s@.len(),
    ensures
        items_rule_matches(r, spec_let_bindings(s@, i as int), s@, i as int, false),
    decreases s@.len() - i, 10int,
{
    let n = s.unicode_len();
    let j = scan_ws(s, i);
    if ident_start_at(s, j) {
        let end = scan_ident(s, j);
        if word_is(s, j, end, "in") {
            let empty: Vec<Expression> = Vec::new();
            proof {
                lemma_deep_views_seq(empty@);
                assert(deep_views_seq(empty@) =~= Seq::<ExprV>::empty());
            }
            return Some((empty, j));
        }
    }
    match parse_binding(s, j) {
        None => None,
        Some((bs, k)) => {
            let k2 = scan_ws(s, k);
            if char_at(s, k2, ',') {
                match parse_let_bindings(s, k2 + 1) {
                    None => None,
                    Some((rest, q)) => {
                        let ghost b0 = bs@;
                        let ghost r0 = rest@;
                        let mut out = bs;
                        let mut tail = rest;
                        out.append(&mut tail);
                        proof {
                            lemma_views_concat(b0, r0);
                        }
                        Some((out, q))
                    },
                }
            } else {
                match parse_let_bindings(s, k2) {
                    None => None,
                    Some((rest, q)) => {
                        let ghost b0 = bs@;
                        let ghost r0 = rest@;
                        let mut out = bs;
                        let mut tail = rest;
                        out.append(&mut tail);
                        proof {
                            lemma_views_concat(b0, r0);
                        }
                        Some((out, q))
                    },
                }
            }
        },
    }
}

#[verifier::rlimit(100)]
fn parse_binding(s: &str, i: usize) -> (r: Option<(Vec<Expression>, usize)>)
    requires
        i <= s@.len(),
    ensures
        items_rule_matches(r, spec_binding(s@, i as int), s@, i as int, true),
    decreases s@.len() - i, 9int,
{
    let n = s.unicode_len();
    if !ident_start_at(s, i) {
        return None;
    }
    let end = scan_ident(s, i);
    if end <= i {
        return None;
    }
    if word_is(s, i, end, "inherit") {
        return parse_inherit_tail(s, i, end);
    }
    if keyword_between(s, i, end) {
        return None;
    }
    let j = scan_ws(s, end);
    if char_at(s, j, '=') && !chars2_at(s, j, '=', '=') && !chars2_at(s, j, '=', '>') {
        match parse_expr(s, j + 1) {
            None => None,
            Some((value, k)) => {
                let k2 = scan_ws(s, k);
                if char_at(s, k2, ';') {
                    let word = take_word(s, i, end);
                    let ghost wv = word@;
                    let key = Expression::Identifier(
                        Identifier::new_span(word, span_at(s, i, end)),
                    );
                    proof {
                        assert(key.deep_view() == ExprV::Identifier(wv));
                    }
                    let ghost vv = value.deep_view();
                    let kv = Expression::BindingKeyValue(BindingKeyValue::new(key, value));
                    proof {
                        assert(kv.deep_view() == ExprV::BindingKeyValue(
                            Box::new(ExprV::Identifier(wv)),
                            Box::new(vv),
                        ));
                    }
                    let ghost a0 = kv;
                    let mut v: Vec<Expression> = Vec::new();
                    v.push(kv);
                    proof {
                        assert(v@ =~= seq![a0] + Seq::<Expression>::empty());
                        lemma_views_cons(a0, Seq::<Expression>::empty());
                        lemma_deep_views_seq(Seq::<Expression>::empty());
                        assert(deep_views_seq(v@) =~= seq![a0.deep_view()]);
                    }
                    Some((v, k2 + 1))
                } else {
                    None
                }
            },
        }
    } else {
        None
    }
}

fn parse_inherit_tail(s: &str, start: usize, i: usize) -> (r: Option<(Vec<Expression>, usize)>)
    requires
        start <= s@.len(),
        i <= s@.len(),
    ensures
        items_rule_matches(r, spec_inherit_tail(s@, i as int), s@, i as int, true),
    decreases s@.len() - i, 10int,
{
    let n = s.unicode_len();
    let j = scan_ws(s, i);
    if char_at(s, j, '(') {
        match parse_expr(s, j + 1) {
            None => None,
            Some((f, k)) => {
                let k2 = scan_ws(s, k);
                if char_at(s, k2, ')') {
                    parse_inherit_names_tail(s, Some(f), start, k2 + 1)
                } else {
                    None
                }
            },
        }
    } else {
        parse_inherit_names_tail(s, None, start, j)
    }
}

#[verifier::rlimit(100)]
fn parse_inherit_names_tail(s: &str, from: Option<Expression>, start: usize, i: usize) -> (r:
    Option<(Vec<Expression>, usize)>)
    requires
        start <= s@.len(),
        i <= s@.len(),
    ensures
        items_rule_matches(
            r,
            spec_inherit_names_tail(s@, opt_expr_view(from), i as int),
            s@,
            i as int,
            true,
        ),
    decreases s@.len() - i, 10int,
{
    let n = s.unicode_len();
    let ghost fv = opt_expr_view(from);
    match parse_inherit_names(s, i) {
        None => None,
        Some((names, q)) => {
            if names.len() == 0 {
                return None;
            }
            let q2 = scan_ws(s, q);
            let has_semicolon = char_at(s, q2, ';');
            let pos = if has_semicolon {
                q2 + 1
            } else {
                q
            };
            let mut out: Vec<Expression> = Vec::new();
            let mut t: usize = 0;
            while t < names.len()
                invariant
                    0 <= t <= names@.len(),
                    out@.len() == t,
                    start <= s@.len(),
                    pos <= s@.len(),
                    fv == opt_expr_view(from),
                    forall|u: int|
                        0 <= u < t ==> out@[u].deep_view() == inherit_bindings(
                            fv,
                            name_views(names@),
                        )[u],
                decreases names@.len() - t,
            {
                let source = match &from {
                    Some(f) => Some(f.clone()),
                    None => None,
                };
                proof {
                    assert(opt_expr_view(source) == fv);
                }
                let name = names[t].clone();
                let ghost nv = name@;
                let attr = Expression::Identifier(
                    Identifier::new_span(name, span_at(s, start, pos)),
                );
                proof {
                    assert(nv == names@[t as int]@);
                    assert(attr.deep_view() == ExprV::Identifier(nv));
                }
                let b = Expression::BindingInherit(
                    BindingInherit::new_span(source, attr, span_at(s, start, pos)),
                );
                proof {
                    assert(inherit_bindings(fv, name_views(names@))[t as int]
                        == ExprV::BindingInherit(
                        match fv {
                            Some(f) => Some(Box::new(f)),
                            None => None,
                        },
                        Box::new(ExprV::Identifier(name_views(names@)[t as int])),
                    ));
                    assert(b.deep_view() == ExprV::BindingInherit(
                        match fv {
                            Some(f) => Some(Box::new(f)),
                            None => None,
                        },
                        Box::new(ExprV::Identifier(nv)),
                    ));
                    assert(b.deep_view() == inherit_bindings(fv, name_views(names@))[t as int]);
                }
                out.push(b);
                t = t + 1;
            }
            proof {
                lemma_deep_views_seq(out@);
                assert(deep_views_seq(out@) =~= inherit_bindings(fv, name_views(names@)));
            }
            Some((out, pos))
        },
    }
}

fn parse_inherit_names(s: &str, i: usize) -> (r: Option<(Vec<String>, usize)>)
    requires
        i <= s@.len(),
    ensures
        names_rule_matches(r, spec_inherit_names(s@, i as int), s@, i as int),
    decreases s@.len() - i, 9int,
{
    let n = s.unicode_len();
    let j = scan_ws(s, i);
    if ident_start_at(s, j) {
        let end = scan_ident(s, j);
        if end <= j {
            return None;
        }
        if keyword_between(s, j, end) {
            let empty: Vec<String> = Vec::new();
            proof {
                assert(name_views(empty@) =~= Seq::<Seq<char>>::empty());
            }
            return Some((empty, i));
        }
        let word = take_word(s, j, end);
        match parse_inherit_names(s, end) {
            None => None,
            Some((rest, q)) => {
                let pos = if rest.len() == 0 {
                    end
                } else {
                    q
                };
                let ghost w0 = word@;
                let ghost r0 = rest@;
                let mut out = rest;
                out.insert(0, word);
                proof {
                    assert(out@ =~= seq![out@[0]] + r0);
                    assert(name_views(out@) =~= seq![w0] + name_views(r0));
                }
                Some((out, pos))
            },
        }
    } else {
        let empty: Vec<String> = Vec::new();
        proof {
            assert(name_views(empty@) =~= Seq::<Seq<char>>::empty());
        }
        Some((empty, i))
    }
}

fn parse_string_parts(s: &str, i: usize) -> (r: Option<(Vec<Expression>, usize)>)
    requires
        i <= s@.len(),
    ensures
        items_rule_matches(r, spec_string_parts(s@, i as int), s@, i as int, true),
    decreases s@.len() - i, 10int,
{
    let n = s.unicode_len();
    if i >= n {
        return None;
    }
    let c = s.get_char(i);
    if c == '"' {
        let empty: Vec<Expression> = Vec::new();
        proof {
            lemma_deep_views_seq(empty@);
            assert(deep_views_seq(empty@) =~= Seq::<ExprV>::empty());
        }
        Some((empty, i + 1))
    } else if chars2_at(s, i, '$', '{') {
        match parse_expr(s, i + 2) {
            None => None,
            Some((e, j)) => {
                let k = scan_ws(s, j);
                if char_at(s, k, '}') {
                    match parse_string_parts(s, k + 1) {
                        None => None,
                        Some((rest, q)) => {
                            let part = Expression::PartInterpolation(
                                PartInterpolation::new_span(e, span_at(s, i, k + 1)),
                            );
                            let ghost a0 = part;
                            let ghost r0 = rest@;
                            let mut out = rest;
                            out.insert(0, part);
                            proof {
                                assert(out@ =~= seq![a0] + r0);
                                lemma_views_cons(a0, r0);
                            }
                            Some((out, q))
                        },
                    }
                } else {
                    None
                }
            },
        }
    } else {
        let end = scan_raw(s, i);
        if end <= i {
            return None;
        }
        match parse_string_parts(s, end) {
            None => None,
            Some((rest, q)) => {
                let part = Expression::PartRaw(
                    PartRaw::new_span(take_word(s, i, end), span_at(s, i, end)),
                );
                let ghost a0 = part;
                let ghost r0 = rest@;
                let mut out = rest;
                out.insert(0, part);
                proof {
                    assert(out@ =~= seq![a0] + r0);
                    lemma_views_cons(a0, r0);
                }
                Some((out, q))
            },
        }
    }
}

/// The parts of an indented string, by the rule `spec_istring_parts`.
fn parse_istring_parts(s: &str, i: usize) -> (r: Option<(Vec<Expression>, usize)>)
    requires
        i <= s@.len(),
    ensures
        items_rule_matches(r, spec_istring_parts(s@, i as int), s@, i as int, true),
    decreases s@.len() - i, 10int,
{
    let n = s.unicode_len();
    if i >= n {
        return None;
    }
    if chars2_at(s, i, '\'', '\'') {
        let empty: Vec<Expression> = Vec::new();
        proof {
            lemma_deep_views_seq(empty@);
            assert(deep_views_seq(empty@) =~= Seq::<ExprV>::empty());
        }
        Some((empty, i + 2))
    } else if chars2_at(s, i, '$', '{') {
        match parse_expr(s, i + 2) {
            None => None,
            Some((e, j)) => {
                let k = scan_ws(s, j);
                if char_at(s, k, '}') {
                    match parse_istring_parts(s, k + 1) {
                        None => None,
                        Some((rest, q)) => {
                            let part = Expression::PartInterpolation(
                                PartInterpolation::new_span(e, span_at(s, i, k + 1)),
                            );
                            let ghost a0 = part;
                            let ghost r0 = rest@;
                            let mut out = rest;
                            out.insert(0, part);
                            proof {
                                assert(out@ =~= seq![a0] + r0);
                                lemma_views_cons(a0, r0);
                            }
                            Some((out, q))
                        },
                    }
                } else {
                    None
                }
            },
        }
    } else {
        let end = scan_iraw(s, i);
        if end <= i {
            return None;
        }
        match parse_istring_parts(s, end) {
            None => None,
            Some((rest, q)) => {
                let part = Expression::PartRaw(
                    PartRaw::new_span(take_word(s, i, end), span_at(s, i, end)),
                );
                let ghost a0 = part;
                let ghost r0 = rest@;
                let mut out = rest;
                out.insert(0, part);
                proof {
                    assert(out@ =~= seq![a0] + r0);
                    lemma_views_cons(a0, r0);
                }
                Some((out, q))
            },
        }
    }
}

/// Slash-separated path segments, by the rule `spec_path_segments`.
fn parse_path_segments(s: &str, i: usize) -> (r: Option<(Vec<Expression>, usize)>)
    requires
        i <= s@.len(),
    ensures
        items_rule_matches(r, spec_path_segments(s@, i as int), s@, i as int, true),
    decreases s@.len() - i, 10int,
{
    let n = s.unicode_len();
    let seg: Option<(Expression, usize)> = if chars2_at(s, i, '$', '{') {
        match parse_expr(s, i + 2) {
            None => None,
            Some((e, j)) => {
                let k = scan_ws(s, j);
                if char_at(s, k, '}') {
                    Some(
                        (
                            Expression::PartInterpolation(
                                PartInterpolation::new_span(e, span_at(s, i, k + 1)),
                            ),
                            k + 1,
                        ),
                    )
                } else {
                    None
                }
            },
        }
    } else if path_char_at(s, i) {
        let end = scan_path(s, i);
        if end <= i {
            None
        } else {
            Some(
                (
                    Expression::PartRaw(
                        PartRaw::new_span(take_word(s, i, end), span_at(s, i, end)),
                    ),
                    end,
                ),
            )
        }
    } else {
        None
    };
    match seg {
        None => None,
        Some((part, p)) => {
            if char_at(s, p, '/') && segment_start_at(s, p + 1) {
                match parse_path_segments(s, p + 1) {
                    None => None,
                    Some((rest, q)) => {
                        let ghost a0 = part;
                        let ghost r0 = rest@;
                        let mut out = rest;
                        out.insert(0, part);
                        proof {
                            assert(out@ =~= seq![a0] + r0);
                            lemma_views_cons(a0, r0);
                        }
                        Some((out, q))
                    },
                }
            } else {
                let ghost a0 = part;
                let mut v: Vec<Expression> = Vec::new();
                v.push(part);
                proof {
                    assert(v@ =~= seq![a0] + Seq::<Expression>::empty());
                    lemma_views_cons(a0, Seq::<Expression>::empty());
                    lemma_deep_views_seq(Seq::<Expression>::empty());
                    assert(deep_views_seq(v@) =~= seq![a0.deep_view()]);
                }
                Some((v, p))
            }
        },
    }
}

/// The entry point of the parser: the whole text as one expression.
///
/// Succeeds exactly when the grammar derives the text, returning the tree the
/// grammar's rules give it; any mismatch yields one `SyntaxError` naming the
/// line and column of the mismatch, and no partial tree.
pub fn parse(input: &str) -> (r: Result<Expression, SyntaxError>)
    ensures
        (r matches Ok(e) ==> spec_parse(input@) == Some(e.deep_view())),
        r is Err ==> spec_parse(input@) is None,
        (match r {
            Ok(_) => true,
            Err(e) => match spec_expr(input@, 0) {
                None => e.message@ == "expected an expression at line "@ + dec_int(
                    saturated(spec_line(input@, ws_end(input@, 0))),
                ) + ", column "@ + dec_int(saturated(spec_column(input@, ws_end(input@, 0)))),
                Some((_m, j)) => e.message@ == "unexpected text after the expression at line "@
                    + dec_int(saturated(spec_line(input@, ws_end(input@, j)))) + ", column "@
                    + dec_int(saturated(spec_column(input@, ws_end(input@, j)))),
            },
        }),
{
    let n = input.unicode_len();
    match parse_expr(input, 0) {
        None => {
            let p = scan_ws(input, 0);
            let place = position_at(input, p);
            let mut message = String::new();
            message.append("expected an expression at line ");
            let line = i64_to_decimal(place.line);
            message.append(line.as_str());
            message.append(", column ");
            let column = i64_to_decimal(place.column);
            message.append(column.as_str());
            proof {
                assert(message@ =~= "expected an expression at line "@ + dec_int(
                    saturated(spec_line(input@, ws_end(input@, 0))),
                ) + ", column "@ + dec_int(saturated(spec_column(input@, ws_end(input@, 0)))));
            }
            Err(SyntaxError { message })
        },
        Some((e, j)) => {
            let k = scan_ws(input, j);
            if k == n {
                Ok(e)
            } else {
                let place = position_at(input, k);
                let mut message = String::new();
                message.append("unexpected text after the expression at line ");
                let line = i64_to_decimal(place.line);
                message.append(line.as_str());
                message.append(", column ");
                let column = i64_to_decimal(place.column);
                message.append(column.as_str());
                proof {
                    assert(message@ =~= "unexpected text after the expression at line "@
                        + dec_int(saturated(spec_line(input@, ws_end(input@, j as int))))
                        + ", column "@ + dec_int(
                        saturated(spec_column(input@, ws_end(input@, j as int))),
                    ));
                }
                Err(SyntaxError { message })
            }
        },
    }
}

} // verus!
