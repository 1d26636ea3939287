//! A small composable expression language for building search-query strings.
//!
//! Callers build a filter bottom-up out of typed scalar terms, field
//! comparisons ([`Query`]) and boolean combinators ([`And`], [`Or`], [`Not`],
//! [`Wildcard`]), then render it to the single string that becomes the value
//! of the search endpoint's `query` parameter. Construction and rendering are
//! pure and total: no combination of well-typed inputs can fail, and the same
//! expression always renders to the same string.
//!
//! The exact text each construct renders to is stated by the `*_text` spec
//! functions below, and every rendering function is proved against them.

use vstd::prelude::*;
use vstd::string::StrSliceExecFns;
use vstd::string::StringExecFns;

use crate::text::{bool_text, i64_to_string, int_text, u64_to_string};

verus! {

/// How a scalar term renders: its canonical text, wrapped in double quotes
/// when the text contains a space. No other escaping is performed — in
/// particular an embedded quote character is left as it is, a documented
/// limitation kept for wire compatibility with the remote search API.
pub open spec fn term_text(t: Seq<char>) -> Seq<char> {
    if t.contains(' ') {
        seq!['"'] + t + seq!['"']
    } else {
        t
    }
}

/// The symbol a comparison operator renders to.
pub open spec fn op_symbol(op: Operator) -> Seq<char> {
    match op {
        Operator::ExactMatch => seq![':'],
        Operator::Less => seq!['<'],
        Operator::LessOrEqual => seq!['<', '='],
        Operator::Greater => seq!['>'],
        Operator::GreaterOrEqual => seq!['>', '='],
    }
}

/// How a comparison renders: the field name as given, the operator symbol,
/// and the operand's rendering, with nothing added around them.
pub open spec fn comparison_text(field: Seq<char>, op: Operator, operand: Seq<char>) -> Seq<char> {
    field + op_symbol(op) + operand
}

/// How a negation renders: the word `NOT`, a space, and the operand's plain
/// rendering — deliberately without parentheses of its own.
pub open spec fn not_text(inner: Seq<char>) -> Seq<char> {
    seq!['N', 'O', 'T', ' '] + inner
}

/// How a wildcard renders: the operand's rendering with a `*` appended and
/// no separator.
pub open spec fn wildcard_text(inner: Seq<char>) -> Seq<char> {
    inner + seq!['*']
}

/// How a conjunction renders: both operands are always parenthesized,
/// whatever their own shape, so that composition stays unambiguous without a
/// precedence table.
pub open spec fn and_text(left: Seq<char>, right: Seq<char>) -> Seq<char> {
    seq!['('] + left + seq![')', ' ', 'A', 'N', 'D', ' ', '('] + right + seq![')']
}

/// How a disjunction renders, parenthesized exactly as a conjunction is.
pub open spec fn or_text(left: Seq<char>, right: Seq<char>) -> Seq<char> {
    seq!['('] + left + seq![')', ' ', 'O', 'R', ' ', '('] + right + seq![')']
}

/// A fragment of the search-query language.
///
/// Everything the builder produces renders through this one capability:
/// `rendered()` names the fragment's final text, `to_filter` computes exactly
/// that text, and the combinators say how the text of a compound fragment is
/// built from the texts of its parts.
pub trait ToFilter: Sized {
    /// The text this fragment renders to.
    spec fn rendered(&self) -> Seq<char>;

    /// Renders the fragment. Pure: the result is a function of the value
    /// alone, so repeated calls return identical strings.
    fn to_filter(&self) -> (r: String)
        ensures
            r@ == self.rendered(),
    ;
}

/// The boolean combinators of the filter language, available on every
/// fragment.
///
/// They live apart from [`ToFilter`] only so that their signatures, which
/// name the compound types [`And`], [`Or`], [`Not`] and [`Wildcard`], do not
/// refer back into the trait those types implement; the one blanket
/// implementation below puts them on every fragment.
pub trait Combine: ToFilter {
    /// Conjunction with `other`; renders both sides in parentheses, joined
    /// by ` AND `.
    fn and<R: ToFilter>(self, other: R) -> (r: And)
        ensures
            r.rendered() == and_text(self.rendered(), other.rendered()),
    ;

    /// Disjunction with `other`; renders both sides in parentheses, joined
    /// by ` OR `.
    fn or<R: ToFilter>(self, other: R) -> (r: Or)
        ensures
            r.rendered() == or_text(self.rendered(), other.rendered()),
    ;

    /// Negation; the rendering gains a literal `NOT ` prefix and no
    /// parentheses of its own.
    fn not(self) -> (r: Not)
        ensures
            r.rendered() == not_text(self.rendered()),
    ;

    /// Wildcard search; the rendering gains a trailing `*`.
    fn wildcard(self) -> (r: Wildcard)
        ensures
            r.rendered() == wildcard_text(self.rendered()),
    ;
}

impl<T: ToFilter> Combine for T {
    fn and<R: ToFilter>(self, other: R) -> (r: And) {
        And::new(self, other)
    }

    fn or<R: ToFilter>(self, other: R) -> (r: Or) {
        Or::new(self, other)
    }

    fn not(self) -> (r: Not) {
        Not { value: self.to_filter() }
    }

    fn wildcard(self) -> (r: Wildcard) {
        Wildcard { value: self.to_filter() }
    }
}

/// The relational operators a [`Query`] can compare a field with.
#[derive(Debug, Clone, Copy)]
pub enum Operator {
    /// Renders as `:`.
    ExactMatch,
    /// Renders as `<`.
    Less,
    /// Renders as `<=`.
    LessOrEqual,
    /// Renders as `>`.
    Greater,
    /// Renders as `>=`.
    GreaterOrEqual,
}

impl Operator {
    fn as_symbol(&self) -> (r: &'static str)
        ensures
            r@ == op_symbol(*self),
    {
        match self {
            Operator::ExactMatch => {
                let s: &'static str = ":";
                proof {
                    reveal_strlit(":");
                    assert(s@ =~= seq![':']);
                }
                s
            },
            Operator::Less => {
                let s: &'static str = "<";
                proof {
                    reveal_strlit("<");
                    assert(s@ =~= seq!['<']);
                }
                s
            },
            Operator::LessOrEqual => {
                let s: &'static str = "<=";
                proof {
                    reveal_strlit("<=");
                    assert(s@ =~= seq!['<', '=']);
                }
                s
            },
            Operator::Greater => {
                let s: &'static str = ">";
                proof {
                    reveal_strlit(">");
                    assert(s@ =~= seq!['>']);
                }
                s
            },
            Operator::GreaterOrEqual => {
                let s: &'static str = ">=";
                proof {
                    reveal_strlit(">=");
                    assert(s@ =~= seq!['>', '=']);
                }
                s
            },
        }
    }
}

/// A comparison of a field name against a nested filter expression.
///
/// The operand is rendered at construction time and the text kept: rendering
/// is pure, so building the text eagerly cannot be told apart from rendering
/// on demand.
#[derive(Debug)]
pub struct Query {
    field: String,
    operator: Operator,
    filter: String,
}

impl Query {
    fn with_operator(field: String, filter: String, operator: Operator) -> (r: Self)
        ensures
            r.rendered() == comparison_text(field@, operator, filter@),
    {
        Self { field, operator, filter }
    }

    /// Exact-match comparison: renders as `field:operand`.
    pub fn new<F: ToFilter>(field: &str, filter: F) -> (r: Self)
        ensures
            r.rendered() == comparison_text(field@, Operator::ExactMatch, filter.rendered()),
    {
        Self::with_operator(field.to_owned(), filter.to_filter(), Operator::ExactMatch)
    }

    /// Less-than comparison: renders as `field<operand`.
    pub fn less<F: ToFilter>(field: &str, filter: F) -> (r: Self)
        ensures
            r.rendered() == comparison_text(field@, Operator::Less, filter.rendered()),
    {
        Self::with_operator(field.to_owned(), filter.to_filter(), Operator::Less)
    }

    /// Less-or-equal comparison: renders as `field<=operand`.
    pub fn less_or_equal<F: ToFilter>(field: &str, filter: F) -> (r: Self)
        ensures
            r.rendered() == comparison_text(field@, Operator::LessOrEqual, filter.rendered()),
    {
        Self::with_operator(field.to_owned(), filter.to_filter(), Operator::LessOrEqual)
    }

    /// Greater-than comparison: renders as `field>operand`.
    pub fn greater<F: ToFilter>(field: &str, filter: F) -> (r: Self)
        ensures
            r.rendered() == comparison_text(field@, Operator::Greater, filter.rendered()),
    {
        Self::with_operator(field.to_owned(), filter.to_filter(), Operator::Greater)
    }

    /// Greater-or-equal comparison: renders as `field>=operand`.
    pub fn greater_or_equal<F: ToFilter>(field: &str, filter: F) -> (r: Self)
        ensures
            r.rendered() == comparison_text(field@, Operator::GreaterOrEqual, filter.rendered()),
    {
        Self::with_operator(field.to_owned(), filter.to_filter(), Operator::GreaterOrEqual)
    }
}

impl ToFilter for Query {
    closed spec fn rendered(&self) -> Seq<char> {
        comparison_text(self.field@, self.operator, self.filter@)
    }

    fn to_filter(&self) -> (r: String) {
        let mut s = self.field.clone();
        s.append(self.operator.as_symbol());
        s.append(self.filter.as_str());
        s
    }
}

/// A scalar string term; quoted on render when it contains a space.
impl ToFilter for &str {
    open spec fn rendered(&self) -> Seq<char> {
        term_text(self@)
    }

    fn to_filter(&self) -> (r: String) {
        render_term(self)
    }
}

/// A scalar string term; quoted on render when it contains a space.
impl ToFilter for String {
    open spec fn rendered(&self) -> Seq<char> {
        term_text(self@)
    }

    fn to_filter(&self) -> (r: String) {
        render_term(self.as_str())
    }
}

/// A scalar integer term; renders as its decimal text.
impl ToFilter for u64 {
    open spec fn rendered(&self) -> Seq<char> {
        term_text(int_text(*self as int))
    }

    fn to_filter(&self) -> (r: String) {
        let text = u64_to_string(*self);
        render_term(text.as_str())
    }
}

/// A scalar integer term; renders as its decimal text.
impl ToFilter for u32 {
    open spec fn rendered(&self) -> Seq<char> {
        term_text(int_text(*self as int))
    }

    fn to_filter(&self) -> (r: String) {
        let text = u64_to_string(*self as u64);
        render_term(text.as_str())
    }
}

/// A scalar integer term; renders as its decimal text, minus sign included.
impl ToFilter for i64 {
    open spec fn rendered(&self) -> Seq<char> {
        term_text(int_text(*self as int))
    }

    fn to_filter(&self) -> (r: String) {
        let text = i64_to_string(*self);
        render_term(text.as_str())
    }
}

/// A scalar integer term; renders as its decimal text, minus sign included.
impl ToFilter for i32 {
    open spec fn rendered(&self) -> Seq<char> {
        term_text(int_text(*self as int))
    }

    fn to_filter(&self) -> (r: String) {
        let text = i64_to_string(*self as i64);
        render_term(text.as_str())
    }
}

/// A scalar boolean term; renders as `true` or `false`.
impl ToFilter for bool {
    open spec fn rendered(&self) -> Seq<char> {
        term_text(bool_text(*self))
    }

    fn to_filter(&self) -> (r: String) {
        let text: &'static str = if *self {
            "true"
        } else {
            "false"
        };
        proof {
            reveal_strlit("true");
            reveal_strlit("false");
            assert(text@ =~= bool_text(*self));
        }
        render_term(text)
    }
}

/// Whether a space character occurs in the text.
fn contains_space(text: &str) -> (r: bool)
    ensures
        r == text@.contains(' '),
{
    let len: usize = text.unicode_len();
    let mut i: usize = 0;
    while i < len
        invariant
            len == text@.len(),
            i <= len,
            forall|j: int| 0 <= j < i ==> text@[j] != ' ',
        decreases len - i,
    {
        if text.get_char(i) == ' ' {
            assert(text@[i as int] == ' ');
            return true;
        }
        i += 1;
    }
    false
}

/// Renders a scalar's text by the term rule: wrapped in double quotes when it
/// contains a space, unchanged otherwise.
fn render_term(text: &str) -> (r: String)
    ensures
        r@ == term_text(text@),
{
    if contains_space(text) {
        let mut s = String::from_str("\"");
        proof {
            reveal_strlit("\"");
            assert(s@ =~= seq!['"']);
        }
        s.append(text);
        s.append("\"");
        proof {
            reveal_strlit("\"");
            assert(s@ =~= seq!['"'] + text@ + seq!['"']);
        }
        s
    } else {
        text.to_owned()
    }
}

/// A wildcard-suffix filter: its operand's text followed by `*`.
#[derive(Debug)]
pub struct Wildcard {
    value: String,
}

impl ToFilter for Wildcard {
    closed spec fn rendered(&self) -> Seq<char> {
        wildcard_text(self.value@)
    }

    fn to_filter(&self) -> (r: String) {
        let mut s = self.value.clone();
        s.append("*");
        proof {
            reveal_strlit("*");
            assert(s@ =~= wildcard_text(self.value@));
        }
        s
    }
}

/// A negated filter: `NOT ` followed by its operand's unparenthesized text.
#[derive(Debug)]
pub struct Not {
    value: String,
}

impl ToFilter for Not {
    closed spec fn rendered(&self) -> Seq<char> {
        not_text(self.value@)
    }

    fn to_filter(&self) -> (r: String) {
        let mut s = String::from_str("NOT ");
        proof {
            reveal_strlit("NOT ");
            assert(s@ =~= seq!['N', 'O', 'T', ' ']);
        }
        s.append(self.value.as_str());
        s
    }
}

/// A conjunction; renders each operand in parentheses, joined by ` AND `.
#[derive(Debug)]
pub struct And {
    left: String,
    right: String,
}

impl And {
    fn new<L: ToFilter, R: ToFilter>(left: L, right: R) -> (r: Self)
        ensures
            r.rendered() == and_text(left.rendered(), right.rendered()),
    {
        Self { left: left.to_filter(), right: right.to_filter() }
    }
}

impl ToFilter for And {
    closed spec fn rendered(&self) -> Seq<char> {
        and_text(self.left@, self.right@)
    }

    fn to_filter(&self) -> (r: String) {
        let mut s = String::from_str("(");
        s.append(self.left.as_str());
        s.append(") AND (");
        s.append(self.right.as_str());
        s.append(")");
        proof {
            reveal_strlit("(");
            reveal_strlit(") AND (");
            reveal_strlit(")");
            assert("("@ =~= seq!['(']);
            assert(") AND ("@ =~= seq![')', ' ', 'A', 'N', 'D', ' ', '(']);
            assert(")"@ =~= seq![')']);
            assert(s@ == and_text(self.left@, self.right@));
        }
        s
    }
}

/// A disjunction; renders each operand in parentheses, joined by ` OR `.
#[derive(Debug)]
pub struct Or {
    left: String,
    right: String,
}

impl Or {
    fn new<L: ToFilter, R: ToFilter>(left: L, right: R) -> (r: Self)
        ensures
            r.rendered() == or_text(left.rendered(), right.rendered()),
    {
        Self { left: left.to_filter(), right: right.to_filter() }
    }
}

impl ToFilter for Or {
    closed spec fn rendered(&self) -> Seq<char> {
        or_text(self.left@, self.right@)
    }

    fn to_filter(&self) -> (r: String) {
        let mut s = String::from_str("(");
        s.append(self.left.as_str());
        s.append(") OR (");
        s.append(self.right.as_str());
        s.append(")");
        proof {
            reveal_strlit("(");
            reveal_strlit(") OR (");
            reveal_strlit(")");
            assert("("@ =~= seq!['(']);
            assert(") OR ("@ =~= seq![')', ' ', 'O', 'R', ' ', '(']);
            assert(")"@ =~= seq![')']);
            assert(s@ == or_text(self.left@, self.right@));
        }
        s
    }
}

/// Law: a term whose text contains no space renders as the text itself.
pub proof fn lemma_term_text_without_space(t: Seq<char>)
    requires
        !t.contains(' '),
    ensures
        term_text(t) == t,
{
}

/// Law: a term whose text contains a space renders as the text wrapped in
/// double quotes.
pub proof fn lemma_term_text_with_space(t: Seq<char>)
    requires
        t.contains(' '),
    ensures
        term_text(t) == seq!['"'] + t + seq!['"'],
{
}

/// Law: an integer term always renders as its bare decimal text — a number's
/// text never contains a space, so the quoting rule never fires for it.
pub proof fn lemma_integer_term_unquoted(n: int)
    ensures
        term_text(int_text(n)) == int_text(n),
{
    crate::text::lemma_int_text_no_space(n);
}

/// Law: rendering is deterministic. `to_filter` promises a result whose view
/// equals `rendered()`, a function of the expression value alone, so any two
/// renders of one expression are the same string.
pub proof fn lemma_render_deterministic<F: ToFilter>(e: &F, first: Seq<char>, second: Seq<char>)
    requires
        first == e.rendered(),
        second == e.rendered(),
    ensures
        first == second,
{
}

} // verus!
