//! The parameters of a listing, and the grammar of filter expressions:
//!
//! ```text
//! expr   := term ("OR" term)*
//! term   := factor ("AND" factor)*
//! factor := ws filter ws | ws "(" ws expr ws ")" ws
//! filter := ("room_id:" | "owner_id:" | "holders.id:") id
//! ```
//!
//! `ws` is any run of blanks, `id` a canonical identifier text. `AND` binds
//! tighter than `OR`, and both join to the left. An expression is read as
//! far as it goes: what follows it is left over, not an error.

use vstd::prelude::*;
use crate::error::ParseError;
use crate::id::{Id, canonical_value, id_text, is_canonical};
use crate::text::{chars_of, has_at, matches_at, slice_string};

verus! {

/// The parameters of a listing: a filter expression, if one was given.
/// An empty expression counts as none.
#[derive(Clone, Debug, PartialEq, Eq)]
pub struct QueryParameters {
    pub fq: Option<String>,
}

/// The filter expression that counts for the text given as `fq`.
pub open spec fn effective_filter(fq: Option<Seq<char>>) -> Option<Seq<char>> {
    match fq {
        Some(text) if text.len() > 0 => Some(text),
        _ => None,
    }
}

/// The two ways of joining filter expressions.
#[derive(Clone, Copy, Debug, PartialEq, Eq, Structural)]
pub enum Oper {
    Or,
    And,
}

/// A condition on one field.
#[derive(Clone, Copy, Debug, PartialEq, Eq, Structural)]
pub enum Filter {
    RoomId(Id),
    OwnerId(Id),
    HolderId(Id),
}

/// A filter expression.
#[derive(Debug, PartialEq, Eq)]
pub enum Expr {
    Value(Filter),
    Or(Box<Expr>, Box<Expr>),
    And(Box<Expr>, Box<Expr>),
    Parenthesis(Box<Expr>),
}

/// Whether `c` is a blank: a space, a tab, a carriage return or a line feed.
pub open spec fn is_blank(c: char) -> bool {
    c == ' ' || c == '\t' || c == '\r' || c == '\n'
}

/// The first position at or after `i` that holds no blank.
pub open spec fn skip_blanks(s: Seq<char>, i: int) -> int
    decreases s.len() - i,
{
    if 0 <= i < s.len() && is_blank(s[i]) {
        skip_blanks(s, i + 1)
    } else {
        i
    }
}

/// The identifier whose canonical text stands at `i`, and where it ends.
pub open spec fn id_at(s: Seq<char>, i: int) -> Option<(Id, int)> {
    if 0 <= i && i + 36 <= s.len() && is_canonical(s.subrange(i, i + 36)) {
        Some((Id { value: canonical_value(s.subrange(i, i + 36)) as u128 }, i + 36))
    } else {
        None
    }
}

/// The condition that stands at `i`, and where it ends.
pub open spec fn filter_at(s: Seq<char>, i: int) -> Option<(Filter, int)> {
    if has_at(s, i, "room_id:"@) {
        match id_at(s, i + "room_id:"@.len()) {
            Some((id, end)) => Some((Filter::RoomId(id), end)),
            None => None,
        }
    } else if has_at(s, i, "owner_id:"@) {
        match id_at(s, i + "owner_id:"@.len()) {
            Some((id, end)) => Some((Filter::OwnerId(id), end)),
            None => None,
        }
    } else if has_at(s, i, "holders.id:"@) {
        match id_at(s, i + "holders.id:"@.len()) {
            Some((id, end)) => Some((Filter::HolderId(id), end)),
            None => None,
        }
    } else {
        None
    }
}

/// The factor that stands at `i`, and where it ends: a condition between
/// blanks, or else an expression in round brackets between blanks.
pub open spec fn factor_at(s: Seq<char>, i: int) -> Option<(Expr, int)>
    decreases s.len() - i, 0int,
{
    let start = skip_blanks(s, i);
    match filter_at(s, start) {
        Some((filter, end)) => Some((Expr::Value(filter), skip_blanks(s, end))),
        None => {
            let inner = skip_blanks(s, start + 1);
            if has_at(s, start, "("@) && i < inner <= s.len() {
                match expr_at(s, inner) {
                    Some((expr, end)) => {
                        let close = skip_blanks(s, end);
                        if has_at(s, close, ")"@) {
                            Some((Expr::Parenthesis(Box::new(expr)), skip_blanks(s, close + 1)))
                        } else {
                            None
                        }
                    },
                    None => None,
                }
            } else {
                None
            }
        },
    }
}

/// `acc` joined by `AND` with the factors that follow at `i`, each behind
/// the word `AND`, for as long as a factor follows the word.
pub open spec fn and_more(s: Seq<char>, acc: Expr, i: int) -> (Expr, int)
    decreases s.len() - i, 1int,
{
    if has_at(s, i, "AND"@) && "AND"@.len() > 0 {
        match factor_at(s, i + "AND"@.len()) {
            Some((factor, end)) if i < end <= s.len() => and_more(
                s,
                Expr::And(Box::new(acc), Box::new(factor)),
                end,
            ),
            _ => (acc, i),
        }
    } else {
        (acc, i)
    }
}

/// The term that stands at `i`, and where it ends.
pub open spec fn term_at(s: Seq<char>, i: int) -> Option<(Expr, int)>
    decreases s.len() - i, 2int,
{
    match factor_at(s, i) {
        Some((factor, end)) if i <= end <= s.len() => Some(and_more(s, factor, end)),
        _ => None,
    }
}

/// `acc` joined by `OR` with the terms that follow at `i`, each behind the
/// word `OR`, for as long as a term follows the word.
pub open spec fn or_more(s: Seq<char>, acc: Expr, i: int) -> (Expr, int)
    decreases s.len() - i, 3int,
{
    if has_at(s, i, "OR"@) && "OR"@.len() > 0 {
        match term_at(s, i + "OR"@.len()) {
            Some((term, end)) if i < end <= s.len() => or_more(
                s,
                Expr::Or(Box::new(acc), Box::new(term)),
                end,
            ),
            _ => (acc, i),
        }
    } else {
        (acc, i)
    }
}

/// The expression that stands at `i`, and where it ends.
pub open spec fn expr_at(s: Seq<char>, i: int) -> Option<(Expr, int)>
    decreases s.len() - i, 4int,
{
    match term_at(s, i) {
        Some((term, end)) if i <= end <= s.len() => Some(or_more(s, term, end)),
        _ => None,
    }
}

/// `left` and `right` joined by `oper`.
pub open spec fn joined(oper: Oper, left: Expr, right: Expr) -> Expr {
    match oper {
        Oper::Or => Expr::Or(Box::new(left), Box::new(right)),
        Oper::And => Expr::And(Box::new(left), Box::new(right)),
    }
}

/// `initial` joined with the expressions of `remainder`, one after the
/// other, each by its own operator; what is joined first lies deepest.
pub open spec fn folded(initial: Expr, remainder: Seq<(Oper, Expr)>) -> Expr
    decreases remainder.len(),
{
    if remainder.len() == 0 {
        initial
    } else {
        joined(remainder.last().0, folded(initial, remainder.drop_last()), remainder.last().1)
    }
}

/// `initial` joined with the expressions of `remainder`, from the left.
pub fn fold_exprs(initial: Expr, remainder: Vec<(Oper, Expr)>) -> (r: Expr)
    ensures
        r == folded(initial, remainder@),
{
    let ghost all = remainder@;
    let mut acc = initial;
    for pair in it: remainder
        invariant
            it.seq() == all,
            acc == folded(initial, all.take(it.index() as int)),
    {
        proof {
            let next = all.take(it.index() + 1);
            assert(next.drop_last() =~= all.take(it.index() as int));
            assert(next.last() == pair);
        }
        let (oper, expr) = pair;
        acc =
        match oper {
            Oper::Or => Expr::Or(Box::new(acc), Box::new(expr)),
            Oper::And => Expr::And(Box::new(acc), Box::new(expr)),
        };
    }
    proof {
        assert(all.take(all.len() as int) =~= all);
    }
    acc
}

/// Whether `c` is a blank.
pub fn is_blank_char(c: char) -> (r: bool)
    ensures
        r == is_blank(c),
{
    c == ' ' || c == '\t' || c == '\r' || c == '\n'
}

/// The first position at or after `i` that holds no blank.
fn skip_blanks_from(chars: &Vec<char>, i: usize) -> (j: usize)
    requires
        i <= chars.len(),
    ensures
        j == skip_blanks(chars@, i as int),
        i <= j <= chars.len(),
{
    let mut j: usize = i;
    while j < chars.len() && is_blank_char(chars[j])
        invariant
            i <= j <= chars.len(),
            skip_blanks(chars@, j as int) == skip_blanks(chars@, i as int),
        decreases chars.len() - j,
    {
        j += 1;
    }
    j
}

/// The identifier whose canonical text stands at `i`, and where it ends.
fn read_id(text: &str, chars: &Vec<char>, i: usize) -> (r: Option<(Id, usize)>)
    requires
        chars@ == text@,
    ensures
        match r {
            Some((id, end)) => id_at(chars@, i as int) == Some((id, end as int)) && i < end
                <= chars.len(),
            None => id_at(chars@, i as int) is None,
        },
{
    if i > chars.len() || chars.len() - i < 36 {
        return None;
    }
    match Id::parse(text.substring_char(i, i + 36)) {
        Some(id) => Some((id, i + 36)),
        None => None,
    }
}

/// The condition that stands at `i`, and where it ends.
fn read_filter(text: &str, chars: &Vec<char>, i: usize) -> (r: Option<(Filter, usize)>)
    requires
        chars@ == text@,
        i <= chars.len(),
    ensures
        match r {
            Some((filter, end)) => filter_at(chars@, i as int) == Some((filter, end as int))
                && i < end <= chars.len(),
            None => filter_at(chars@, i as int) is None,
        },
{
    if matches_at(chars, i, "room_id:") {
        match read_id(text, chars, i + "room_id:".unicode_len()) {
            Some((id, end)) => Some((Filter::RoomId(id), end)),
            None => None,
        }
    } else if matches_at(chars, i, "owner_id:") {
        match read_id(text, chars, i + "owner_id:".unicode_len()) {
            Some((id, end)) => Some((Filter::OwnerId(id), end)),
            None => None,
        }
    } else if matches_at(chars, i, "holders.id:") {
        match read_id(text, chars, i + "holders.id:".unicode_len()) {
            Some((id, end)) => Some((Filter::HolderId(id), end)),
            None => None,
        }
    } else {
        None
    }
}

/// The factor that stands at `i`, and where it ends.
fn read_factor(text: &str, chars: &Vec<char>, i: usize) -> (r: Option<(Expr, usize)>)
    requires
        chars@ == text@,
        i <= chars.len(),
    ensures
        match r {
            Some((expr, end)) => factor_at(chars@, i as int) == Some((expr, end as int)) && i
                <= end <= chars.len(),
            None => factor_at(chars@, i as int) is None,
        },
    decreases chars.len() - i, 0int,
{
    let start = skip_blanks_from(chars, i);
    match read_filter(text, chars, start) {
        Some((filter, end)) => {
            return Some((Expr::Value(filter), skip_blanks_from(chars, end)));
        },
        None => {},
    }
    if !matches_at(chars, start, "(") || start >= chars.len() {
        proof {
            if has_at(chars@, start as int, "("@) {
                reveal_strlit("(");
            }
        }
        return None;
    }
    let inner = skip_blanks_from(chars, start + 1);
    match read_expr(text, chars, inner) {
        Some((expr, end)) => {
            let close = skip_blanks_from(chars, end);
            if matches_at(chars, close, ")") && close < chars.len() {
                Some((Expr::Parenthesis(Box::new(expr)), skip_blanks_from(chars, close + 1)))
            } else {
                proof {
                    if has_at(chars@, close as int, ")"@) {
                        reveal_strlit(")");
                    }
                }
                None
            }
        },
        None => None,
    }
}

/// The term that stands at `i`, and where it ends.
fn read_term(text: &str, chars: &Vec<char>, i: usize) -> (r: Option<(Expr, usize)>)
    requires
        chars@ == text@,
        i <= chars.len(),
    ensures
        match r {
            Some((expr, end)) => term_at(chars@, i as int) == Some((expr, end as int)) && i
                <= end <= chars.len(),
            None => term_at(chars@, i as int) is None,
        },
    decreases chars.len() - i, 2int,
{
    let (first, start) = match read_factor(text, chars, i) {
        Some(found) => found,
        None => {
            return None;
        },
    };
    let ghost whole = and_more(chars@, first, start as int);
    let mut remainder: Vec<(Oper, Expr)> = Vec::new();
    let mut pos = start;
    let word = "AND".unicode_len();
    loop
        invariant
            chars@ == text@,
            i <= pos <= chars.len(),
            word == "AND"@.len(),
            and_more(chars@, folded(first, remainder@), pos as int) == whole,
        ensures
            i <= pos <= chars.len(),
            whole == (folded(first, remainder@), pos as int),
        decreases chars.len() - pos,
    {
        if word == 0 || !matches_at(chars, pos, "AND") {
            break ;
        }
        match read_factor(text, chars, pos + word) {
            Some((factor, end)) => {
                proof {
                    let next = remainder@.push((Oper::And, factor));
                    assert(next.drop_last() =~= remainder@);
                }
                remainder.push((Oper::And, factor));
                pos = end;
            },
            None => {
                break ;
            },
        }
    }
    Some((fold_exprs(first, remainder), pos))
}

/// The expression that stands at `i`, and where it ends.
fn read_expr(text: &str, chars: &Vec<char>, i: usize) -> (r: Option<(Expr, usize)>)
    requires
        chars@ == text@,
        i <= chars.len(),
    ensures
        match r {
            Some((expr, end)) => expr_at(chars@, i as int) == Some((expr, end as int)) && i
                <= end <= chars.len(),
            None => expr_at(chars@, i as int) is None,
        },
    decreases chars.len() - i, 4int,
{
    let (first, start) = match read_term(text, chars, i) {
        Some(found) => found,
        None => {
            return None;
        },
    };
    let ghost whole = or_more(chars@, first, start as int);
    let mut remainder: Vec<(Oper, Expr)> = Vec::new();
    let mut pos = start;
    let word = "OR".unicode_len();
    loop
        invariant
            chars@ == text@,
            i <= pos <= chars.len(),
            word == "OR"@.len(),
            or_more(chars@, folded(first, remainder@), pos as int) == whole,
        ensures
            i <= pos <= chars.len(),
            whole == (folded(first, remainder@), pos as int),
        decreases chars.len() - pos,
    {
        if word == 0 || !matches_at(chars, pos, "OR") {
            break ;
        }
        match read_term(text, chars, pos + word) {
            Some((term, end)) => {
                proof {
                    let next = remainder@.push((Oper::Or, term));
                    assert(next.drop_last() =~= remainder@);
                }
                remainder.push((Oper::Or, term));
                pos = end;
            },
            None => {
                break ;
            },
        }
    }
    Some((fold_exprs(first, remainder), pos))
}

/// Reads a factor at the start of `text`. The result holds what is left
/// of `text` behind the factor, and the factor; where no factor stands at
/// the start, the text is turned down.
pub fn factor(text: &str) -> (r: Result<(String, Expr), ParseError>)
    ensures
        match r {
            Ok((rest, expr)) => factor_at(text@, 0) matches Some((found, end)) && found == expr
                && rest@ == text@.skip(end),
            Err(e) => factor_at(text@, 0) is None && e == ParseError::NoAlternativeMatched,
        },
{
    let chars = chars_of(text);
    match read_factor(text, &chars, 0) {
        Some((expr, end)) => {
            proof {
                assert(text@.skip(end as int) =~= text@.subrange(end as int, text@.len() as int));
            }
            Ok((slice_string(text, end, chars.len()), expr))
        },
        None => Err(ParseError::NoAlternativeMatched),
    }
}

/// Reads a term at the start of `text`, in the same way as `factor`.
pub fn term(text: &str) -> (r: Result<(String, Expr), ParseError>)
    ensures
        match r {
            Ok((rest, expr)) => term_at(text@, 0) matches Some((found, end)) && found == expr
                && rest@ == text@.skip(end),
            Err(e) => term_at(text@, 0) is None && e == ParseError::NoAlternativeMatched,
        },
{
    let chars = chars_of(text);
    match read_term(text, &chars, 0) {
        Some((expr, end)) => {
            proof {
                assert(text@.skip(end as int) =~= text@.subrange(end as int, text@.len() as int));
            }
            Ok((slice_string(text, end, chars.len()), expr))
        },
        None => Err(ParseError::NoAlternativeMatched),
    }
}

/// Reads an expression at the start of `text`, in the same way as `factor`.
pub fn expr(text: &str) -> (r: Result<(String, Expr), ParseError>)
    ensures
        match r {
            Ok((rest, expr)) => expr_at(text@, 0) matches Some((found, end)) && found == expr
                && rest@ == text@.skip(end),
            Err(e) => expr_at(text@, 0) is None && e == ParseError::NoAlternativeMatched,
        },
{
    let chars = chars_of(text);
    match read_expr(text, &chars, 0) {
        Some((expr, end)) => {
            proof {
                assert(text@.skip(end as int) =~= text@.subrange(end as int, text@.len() as int));
            }
            Ok((slice_string(text, end, chars.len()), expr))
        },
        None => Err(ParseError::NoAlternativeMatched),
    }
}

/// The text of a condition: the field's name, and the identifier in
/// round brackets.
pub open spec fn filter_text(filter: Filter) -> Seq<char> {
    match filter {
        Filter::RoomId(id) => "RoomId("@ + id_text(id.value) + ")"@,
        Filter::OwnerId(id) => "OwnerId("@ + id_text(id.value) + ")"@,
        Filter::HolderId(id) => "HolderId("@ + id_text(id.value) + ")"@,
    }
}

/// The text of an expression, with every joint in round brackets and what
/// was written in round brackets in square ones.
pub open spec fn expr_text(expr: Expr) -> Seq<char>
    decreases expr,
{
    match expr {
        Expr::Value(filter) => filter_text(filter),
        Expr::Or(left, right) => "("@ + expr_text(*left) + " OR "@ + expr_text(*right) + ")"@,
        Expr::And(left, right) => "("@ + expr_text(*left) + " AND "@ + expr_text(*right) + ")"@,
        Expr::Parenthesis(inner) => "["@ + expr_text(*inner) + "]"@,
    }
}

impl Filter {
    /// The text of the condition.
    pub fn to_string(&self) -> (r: String)
        ensures
            r@ == filter_text(*self),
    {
        let (name, id) = match self {
            Filter::RoomId(id) => ("RoomId(", id),
            Filter::OwnerId(id) => ("OwnerId(", id),
            Filter::HolderId(id) => ("HolderId(", id),
        };
        let mut r = String::from_str(name);
        r.append(id.to_string().as_str());
        r.append(")");
        r
    }
}

/// The expression that stands at the start of `s`, if one does.
pub open spec fn expr_of(s: Seq<char>) -> Option<Expr> {
    match expr_at(s, 0) {
        Some((expr, _)) => Some(expr),
        None => None,
    }
}

impl Expr {
    /// The text of the expression.
    pub fn to_string(&self) -> (r: String)
        ensures
            r@ == expr_text(*self),
        decreases *self,
    {
        match self {
            Expr::Value(filter) => filter.to_string(),
            Expr::Or(left, right) => {
                let mut r = String::from_str("(");
                r.append(left.to_string().as_str());
                r.append(" OR ");
                r.append(right.to_string().as_str());
                r.append(")");
                r
            },
            Expr::And(left, right) => {
                let mut r = String::from_str("(");
                r.append(left.to_string().as_str());
                r.append(" AND ");
                r.append(right.to_string().as_str());
                r.append(")");
                r
            },
            Expr::Parenthesis(inner) => {
                let mut r = String::from_str("[");
                r.append(inner.to_string().as_str());
                r.append("]");
                r
            },
        }
    }

    /// Reads the expression at the start of `s`. What follows the
    /// expression is not looked at.
    pub fn from_str(s: &str) -> (r: Result<Expr, ParseError>)
        ensures
            match r {
                Ok(expr) => expr_of(s@) == Some(expr),
                Err(e) => expr_of(s@) is None && e == ParseError::NoAlternativeMatched,
            },
    {
        let chars = chars_of(s);
        match read_expr(s, &chars, 0) {
            Some((expr, _)) => Ok(expr),
            None => Err(ParseError::NoAlternativeMatched),
        }
    }
}

impl QueryParameters {
    /// The parameters for the text given as `fq`, if any was given.
    pub fn new(fq: Option<String>) -> (r: QueryParameters)
        ensures
            match effective_filter(
                match fq {
                    Some(text) => Some(text@),
                    None => None,
                },
            ) {
                Some(text) => r.fq matches Some(kept) && kept@ == text,
                None => r.fq is None,
            },
    {
        match fq {
            Some(text) => {
                if text.as_str().unicode_len() == 0 {
                    QueryParameters { fq: None }
                } else {
                    QueryParameters { fq: Some(text) }
                }
            },
            None => QueryParameters { fq: None },
        }
    }
}

} // verus!
