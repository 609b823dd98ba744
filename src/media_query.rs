//! Media query lists: `[ only | not ]? <type> [ and <condition> ]? | <condition>`, comma separated.

use vstd::prelude::*;
use vstd::utf8::is_ascii_chars;
use crate::tokens::{Token, TokenKind, eq_ci, skip_ws, texts, ident_is, skip_whitespace, join_texts};

verus! {

broadcast use vstd::seq::axiom_seq_index_decreases, vstd::std_specs::vec::axiom_vec_decreases_to_view;

/// A structural parse failure.
#[derive(Clone, Copy, Debug, PartialEq, Eq, Structural)]
pub enum ParseError {
    /// The token at this index (of the sequence being parsed) was not expected.
    UnexpectedToken(usize),
    /// The input ended where a token was required.
    EndOfInput,
}

/// <https://drafts.csswg.org/mediaqueries/#mq-prefix>
#[derive(Clone, Copy, Debug, PartialEq, Eq, Structural)]
pub enum Qualifier {
    /// Hide a media query from legacy UAs.
    Only,
    /// Negate a media query.
    Not,
}

/// A binary `and` or `or` operator.
#[derive(Clone, Copy, Debug, PartialEq, Eq, Structural)]
pub enum Operator {
    And,
    Or,
}

/// The comparison of a media feature expression.
#[derive(Clone, Copy, Debug, PartialEq, Eq, Structural)]
pub enum MediaQueryOperator {
    /// =
    Equal,
    /// >
    GreaterThan,
    /// >=
    GreaterThanEqual,
    /// <
    LessThan,
    /// <=
    LessThanEqual,
}

/// A media type.
#[derive(Clone, Debug, PartialEq)]
pub enum MediaType {
    /// A media type that matches every device.
    All,
    Print,
    Screen,
    /// Any other media type, with its name as written.
    Custom(String),
}

/// A feature test `(name [op value])`.
#[derive(Clone, Debug, PartialEq, Eq)]
pub struct MediaFeatureExpression {
    pub name: String,
    pub operator: Option<MediaQueryOperator>,
    /// The rest of the group after the colon or operator, as written.
    pub value: Option<String>,
}

/// A media condition.
#[derive(Debug)]
pub enum MediaCondition {
    /// A simple media feature expression, implicitly parenthesized.
    Feature(MediaFeatureExpression),
    /// A negation of a condition.
    Not(Box<MediaCondition>),
    /// Two or more conditions joined by one operator.
    Operation(Vec<MediaCondition>, Operator),
    /// A condition wrapped in parenthesis.
    InParens(Box<MediaCondition>),
}

/// A media query.
#[derive(Debug)]
pub struct MediaQuery {
    pub qualifier: Option<Qualifier>,
    pub media_type: MediaType,
    pub condition: Option<MediaCondition>,
}

/// A media query list.
#[derive(Debug)]
pub struct MediaList {
    pub media_queries: Vec<MediaQuery>,
}

/// What a feature expression says, with text as character sequences.
pub struct FeatureModel {
    pub name: Seq<char>,
    pub operator: Option<MediaQueryOperator>,
    pub value: Option<Seq<char>>,
}

/// What a condition says.
pub enum ConditionModel {
    Feature(FeatureModel),
    Not(Box<ConditionModel>),
    Operation(Seq<ConditionModel>, Operator),
    InParens(Box<ConditionModel>),
}

/// What a media type says.
pub enum MediaTypeModel {
    All,
    Print,
    Screen,
    Custom(Seq<char>),
}

/// What a media query says.
pub struct QueryModel {
    pub qualifier: Option<Qualifier>,
    pub media_type: MediaTypeModel,
    pub condition: Option<ConditionModel>,
}

pub open spec fn opt_text(v: Option<String>) -> Option<Seq<char>> {
    match v {
        Some(s) => Some(s@),
        None => None,
    }
}

impl View for MediaFeatureExpression {
    type V = FeatureModel;

    open spec fn view(&self) -> FeatureModel {
        FeatureModel { name: self.name@, operator: self.operator, value: opt_text(self.value) }
    }
}

impl View for MediaType {
    type V = MediaTypeModel;

    open spec fn view(&self) -> MediaTypeModel {
        match self {
            MediaType::All => MediaTypeModel::All,
            MediaType::Print => MediaTypeModel::Print,
            MediaType::Screen => MediaTypeModel::Screen,
            MediaType::Custom(s) => MediaTypeModel::Custom(s@),
        }
    }
}

pub open spec fn view_cond(c: MediaCondition) -> ConditionModel
    decreases c,
{
    match c {
        MediaCondition::Feature(f) => ConditionModel::Feature(f@),
        MediaCondition::Not(b) => ConditionModel::Not(Box::new(view_cond(*b))),
        MediaCondition::Operation(v, op) => ConditionModel::Operation(view_conds(v@), op),
        MediaCondition::InParens(b) => ConditionModel::InParens(Box::new(view_cond(*b))),
    }
}

pub open spec fn view_conds(s: Seq<MediaCondition>) -> Seq<ConditionModel>
    decreases s,
{
    if s.len() == 0 {
        Seq::empty()
    } else {
        view_conds(s.drop_last()).push(view_cond(s.last()))
    }
}

impl View for MediaCondition {
    type V = ConditionModel;

    open spec fn view(&self) -> ConditionModel {
        view_cond(*self)
    }
}

pub open spec fn opt_cond(c: Option<MediaCondition>) -> Option<ConditionModel> {
    match c {
        Some(c) => Some(c@),
        None => None,
    }
}

impl View for MediaQuery {
    type V = QueryModel;

    open spec fn view(&self) -> QueryModel {
        QueryModel { qualifier: self.qualifier, media_type: self.media_type@, condition: opt_cond(self.condition) }
    }
}

impl View for MediaList {
    type V = Seq<QueryModel>;

    open spec fn view(&self) -> Seq<QueryModel> {
        self.media_queries@.map_values(|q: MediaQuery| q@)
    }
}

/// The error for a token expected at index `p` of a sequence that ends at `end`.
pub open spec fn err_at(p: int, end: int) -> ParseError {
    if p < end {
        ParseError::UnexpectedToken(p as usize)
    } else {
        ParseError::EndOfInput
    }
}

/// Token `p` (before `end`) is an identifier equal to `lit`, ASCII case ignored.
pub open spec fn ident_at(t: Seq<Token>, p: int, end: int, lit: Seq<char>) -> bool {
    0 <= p < end && t[p].kind is Ident && eq_ci(t[p].kind->Ident_0@, lit)
}

/// The range `pos..end` of `t` can be parsed in.
pub open spec fn valid_range(t: Seq<Token>, pos: int, end: int) -> bool {
    0 <= pos <= end <= t.len()
}

pub open spec fn qualifier_spec(t: Seq<Token>, pos: int, end: int) -> Result<(Qualifier, int), ParseError> {
    let p = skip_ws(t, pos, end);
    if ident_at(t, p, end, "only"@) {
        Ok((Qualifier::Only, p + 1))
    } else if ident_at(t, p, end, "not"@) {
        Ok((Qualifier::Not, p + 1))
    } else {
        Err(err_at(p, end))
    }
}

pub open spec fn operator_spec(t: Seq<Token>, pos: int, end: int) -> Result<(Operator, int), ParseError> {
    let p = skip_ws(t, pos, end);
    if ident_at(t, p, end, "and"@) {
        Ok((Operator::And, p + 1))
    } else if ident_at(t, p, end, "or"@) {
        Ok((Operator::Or, p + 1))
    } else {
        Err(err_at(p, end))
    }
}

pub open spec fn operator_word(op: Operator) -> Seq<char> {
    match op {
        Operator::And => "and"@,
        Operator::Or => "or"@,
    }
}

pub open spec fn media_type_spec(name: Seq<char>) -> MediaTypeModel {
    if eq_ci(name, "all"@) {
        MediaTypeModel::All
    } else if eq_ci(name, "print"@) {
        MediaTypeModel::Print
    } else if eq_ci(name, "screen"@) {
        MediaTypeModel::Screen
    } else {
        MediaTypeModel::Custom(name)
    }
}

/// `:` or a comparison at the next token: the comparison, if any, and where it ends.
pub open spec fn op_or_colon_spec(t: Seq<Token>, pos: int, end: int) -> Option<(Option<MediaQueryOperator>, int)> {
    let p = skip_ws(t, pos, end);
    if !(0 <= p < end) {
        None
    } else {
        match t[p].kind {
            TokenKind::Colon => Some((None, p + 1)),
            TokenKind::Delim(c) => {
                let q = skip_ws(t, p + 1, end);
                let then_eq = 0 <= q < end && t[q].kind == TokenKind::Delim('=');
                if c == '=' {
                    Some((Some(MediaQueryOperator::Equal), p + 1))
                } else if c == '>' {
                    if then_eq {
                        Some((Some(MediaQueryOperator::GreaterThanEqual), q + 1))
                    } else {
                        Some((Some(MediaQueryOperator::GreaterThan), p + 1))
                    }
                } else if c == '<' {
                    if then_eq {
                        Some((Some(MediaQueryOperator::LessThanEqual), q + 1))
                    } else {
                        Some((Some(MediaQueryOperator::LessThan), p + 1))
                    }
                } else {
                    None
                }
            },
            _ => None,
        }
    }
}

/// A feature expression at `pos`: a name, then nothing, or `:` or a comparison
/// followed by the rest of the range as text (from its first non-whitespace token).
pub open spec fn feature_spec(t: Seq<Token>, pos: int, end: int) -> Result<(FeatureModel, int), ParseError> {
    let p = skip_ws(t, pos, end);
    if !(0 <= p < end && t[p].kind is Ident) {
        Err(err_at(p, end))
    } else {
        let name = t[p].kind->Ident_0@;
        match op_or_colon_spec(t, p + 1, end) {
            None => Ok((FeatureModel { name, operator: None, value: None }, p + 1)),
            Some((operator, q)) => Ok(
                (FeatureModel { name, operator, value: Some(texts(t, skip_ws(t, q, end), end)) }, end),
            ),
        }
    }
}

/// A condition at `pos`: `not <in-parens>`, or a group optionally followed by a
/// chain of groups joined by one repeated operator.
pub open spec fn condition_spec(t: Seq<Token>, pos: int, end: int) -> Result<(ConditionModel, int), ParseError>
    decreases t, end - pos, 2int,
{
    if !valid_range(t, pos, end) {
        Err(ParseError::EndOfInput)
    } else {
        let p = skip_ws(t, pos, end);
        if !(pos <= p < end) {
            Err(ParseError::EndOfInput)
        } else if ident_at(t, p, end, "not"@) {
            match in_parens_spec(t, p + 1, end) {
                Ok((c, q)) => Ok((ConditionModel::Not(Box::new(c)), q)),
                Err(e) => Err(e),
            }
        } else if t[p].kind is ParenBlock {
            match paren_block_spec(t, p, end) {
                Err(e) => Err(e),
                Ok(first) => match operator_spec(t, p + 1, end) {
                    Err(_) => Ok((first, p + 1)),
                    Ok((op, q)) => {
                        if p + 1 <= q <= end {
                            match in_parens_spec(t, q, end) {
                                Err(e) => Err(e),
                                Ok((second, r)) => {
                                    if q < r <= end {
                                        operands_spec(t, r, end, op, seq![first, second])
                                    } else {
                                        Err(ParseError::EndOfInput)
                                    }
                                },
                            }
                        } else {
                            Err(ParseError::EndOfInput)
                        }
                    },
                },
            }
        } else {
            Err(ParseError::UnexpectedToken(p as usize))
        }
    }
}

/// Further operands of an operation: each is the operator's word and a group.
pub open spec fn operands_spec(
    t: Seq<Token>,
    pos: int,
    end: int,
    op: Operator,
    acc: Seq<ConditionModel>,
) -> Result<(ConditionModel, int), ParseError>
    decreases t, end - pos, 3int,
{
    if !valid_range(t, pos, end) {
        Err(ParseError::EndOfInput)
    } else {
        let p = skip_ws(t, pos, end);
        if pos <= p && ident_at(t, p, end, operator_word(op)) {
            match in_parens_spec(t, p + 1, end) {
                Err(e) => Err(e),
                Ok((c, q)) => {
                    if p + 1 < q <= end {
                        operands_spec(t, q, end, op, acc.push(c))
                    } else {
                        Err(ParseError::EndOfInput)
                    }
                },
            }
        } else {
            Ok((ConditionModel::Operation(acc, op), pos))
        }
    }
}

/// A parenthesis group at the next token, read as a condition or a feature.
pub open spec fn in_parens_spec(t: Seq<Token>, pos: int, end: int) -> Result<(ConditionModel, int), ParseError>
    decreases t, end - pos, 1int,
{
    if !valid_range(t, pos, end) {
        Err(ParseError::EndOfInput)
    } else {
        let p = skip_ws(t, pos, end);
        if !(pos <= p < end) {
            Err(ParseError::EndOfInput)
        } else if t[p].kind is ParenBlock {
            match paren_block_spec(t, p, end) {
                Ok(c) => Ok((c, p + 1)),
                Err(e) => Err(e),
            }
        } else {
            Err(ParseError::UnexpectedToken(p as usize))
        }
    }
}

/// The inside of the group at `p`: a whole condition (kept in parentheses), or
/// else a whole feature expression. Any failure inside is reported at `p`.
pub open spec fn paren_block_spec(t: Seq<Token>, p: int, end: int) -> Result<ConditionModel, ParseError>
    decreases t, end - p, 0int,
{
    if !(valid_range(t, p, end) && p < end && t[p].kind is ParenBlock) {
        Err(ParseError::EndOfInput)
    } else {
        let inner = t[p].kind->ParenBlock_0;
        let w = inner@;
        let n = w.len() as int;
        if !t[p].kind->ParenBlock_1 {
            Err(ParseError::UnexpectedToken(p as usize))
        } else {
            match condition_spec(w, 0, n) {
                Ok((c, q)) => {
                    if skip_ws(w, q, n) == n {
                        Ok(ConditionModel::InParens(Box::new(c)))
                    } else {
                        Err(ParseError::UnexpectedToken(p as usize))
                    }
                },
                Err(_) => match feature_spec(w, 0, n) {
                    Ok((f, q)) => {
                        if skip_ws(w, q, n) == n {
                            Ok(ConditionModel::Feature(f))
                        } else {
                            Err(ParseError::UnexpectedToken(p as usize))
                        }
                    },
                    Err(_) => Err(ParseError::UnexpectedToken(p as usize)),
                },
            }
        }
    }
}

/// The range `pos..end`, whitespace aside, ends here.
pub open spec fn finish_spec(t: Seq<Token>, q: int, end: int, m: QueryModel) -> Result<QueryModel, ParseError> {
    let r = skip_ws(t, q, end);
    if r == end {
        Ok(m)
    } else {
        Err(err_at(r, end))
    }
}

/// A whole media query filling `pos..end`.
pub open spec fn query_spec(t: Seq<Token>, pos: int, end: int) -> Result<QueryModel, ParseError> {
    let p = skip_ws(t, pos, end);
    let qualifier = match qualifier_spec(t, pos, end) {
        Ok((q, _)) => Some(q),
        Err(_) => None,
    };
    let after_qualifier = match qualifier_spec(t, pos, end) {
        Ok((_, q)) => q,
        Err(_) => pos,
    };
    let type_at = skip_ws(t, after_qualifier, end);
    if 0 <= type_at < end && t[type_at].kind is Ident {
        let media_type = media_type_spec(t[type_at].kind->Ident_0@);
        let and_at = skip_ws(t, type_at + 1, end);
        if ident_at(t, and_at, end, "and"@) {
            match condition_spec(t, and_at + 1, end) {
                Err(e) => Err(e),
                Ok((c, q)) => finish_spec(t, q, end, QueryModel { qualifier, media_type, condition: Some(c) }),
            }
        } else {
            finish_spec(t, type_at + 1, end, QueryModel { qualifier, media_type, condition: None })
        }
    } else {
        match condition_spec(t, pos, end) {
            Err(e) => Err(e),
            Ok((c, q)) => finish_spec(
                t,
                q,
                end,
                QueryModel { qualifier: None, media_type: MediaTypeModel::All, condition: Some(c) },
            ),
        }
    }
}

/// Index of the first comma token at or after `pos`, or the length of `t`.
pub open spec fn next_comma(t: Seq<Token>, pos: int) -> int
    decreases t.len() - pos,
{
    if pos >= t.len() {
        t.len() as int
    } else if t[pos].kind is Comma {
        pos
    } else {
        next_comma(t, pos + 1)
    }
}

/// The queries of the comma-separated segments from `pos` on; a segment that
/// does not parse contributes nothing.
pub open spec fn list_spec(t: Seq<Token>, pos: int) -> Seq<QueryModel>
    decreases t.len() - pos,
{
    if !(0 <= pos <= t.len()) {
        Seq::empty()
    } else {
        let c = next_comma(t, pos);
        let here = match query_spec(t, pos, c) {
            Ok(q) => seq![q],
            Err(_) => Seq::empty(),
        };
        if pos <= c < t.len() {
            here + list_spec(t, c + 1)
        } else {
            here
        }
    }
}

/// Number of comma-separated segments from `pos` on.
pub open spec fn segment_count(t: Seq<Token>, pos: int) -> nat
    decreases t.len() - pos,
{
    if !(0 <= pos <= t.len()) {
        0
    } else {
        let c = next_comma(t, pos);
        if pos <= c < t.len() {
            1 + segment_count(t, c + 1)
        } else {
            1
        }
    }
}

pub open spec fn indexed<A>(r: Result<(A, usize), ParseError>) -> Result<(A, int), ParseError> {
    match r {
        Ok((a, n)) => Ok((a, n as int)),
        Err(e) => Err(e),
    }
}

pub open spec fn cond_result(r: Result<(MediaCondition, usize), ParseError>) -> Result<(ConditionModel, int), ParseError> {
    match r {
        Ok((c, n)) => Ok((c@, n as int)),
        Err(e) => Err(e),
    }
}

pub open spec fn feature_result(r: Result<(MediaFeatureExpression, usize), ParseError>) -> Result<(FeatureModel, int), ParseError> {
    match r {
        Ok((f, n)) => Ok((f@, n as int)),
        Err(e) => Err(e),
    }
}

pub open spec fn query_result(r: Result<MediaQuery, ParseError>) -> Result<QueryModel, ParseError> {
    match r {
        Ok(q) => Ok(q@),
        Err(e) => Err(e),
    }
}

fn error_at(p: usize, end: usize) -> (e: ParseError)
    ensures
        e == err_at(p as int, end as int),
{
    if p < end {
        ParseError::UnexpectedToken(p)
    } else {
        ParseError::EndOfInput
    }
}

/// Whether token `p` is the identifier `lit`, ASCII case ignored.
fn is_ident(t: &Vec<Token>, p: usize, end: usize, lit: &str) -> (r: bool)
    requires
        end <= t.len(),
        is_ascii_chars(lit@),
    ensures
        r == ident_at(t@, p as int, end as int, lit@),
{
    if p < end {
        if let TokenKind::Ident(s) = &t[p].kind {
            return ident_is(s, lit);
        }
    }
    false
}

impl Qualifier {
    /// `only` or `not`, ASCII case ignored.
    pub fn parse(t: &Vec<Token>, pos: usize, end: usize) -> (r: Result<(Qualifier, usize), ParseError>)
        requires
            pos <= end <= t.len(),
        ensures
            indexed(r) == qualifier_spec(t@, pos as int, end as int),
            r is Ok ==> pos < r->Ok_0.1 <= end,
    {
        let p = skip_whitespace(t, pos, end);
        proof {
            reveal_strlit("only");
            reveal_strlit("not");
        }
        if is_ident(t, p, end, "only") {
            Ok((Qualifier::Only, p + 1))
        } else if is_ident(t, p, end, "not") {
            Ok((Qualifier::Not, p + 1))
        } else {
            Err(error_at(p, end))
        }
    }
}

impl Operator {
    /// `and` or `or`, ASCII case ignored.
    pub fn parse(t: &Vec<Token>, pos: usize, end: usize) -> (r: Result<(Operator, usize), ParseError>)
        requires
            pos <= end <= t.len(),
        ensures
            indexed(r) == operator_spec(t@, pos as int, end as int),
            r is Ok ==> pos < r->Ok_0.1 <= end,
    {
        let p = skip_whitespace(t, pos, end);
        proof {
            reveal_strlit("and");
            reveal_strlit("or");
        }
        if is_ident(t, p, end, "and") {
            Ok((Operator::And, p + 1))
        } else if is_ident(t, p, end, "or") {
            Ok((Operator::Or, p + 1))
        } else {
            Err(error_at(p, end))
        }
    }
}

impl MediaType {
    /// `all`, `print` or `screen`, ASCII case ignored; any other name as written.
    pub fn parse(name: &String) -> (r: MediaType)
        ensures
            r@ == media_type_spec(name@),
    {
        proof {
            reveal_strlit("all");
            reveal_strlit("print");
            reveal_strlit("screen");
        }
        if ident_is(name, "all") {
            MediaType::All
        } else if ident_is(name, "print") {
            MediaType::Print
        } else if ident_is(name, "screen") {
            MediaType::Screen
        } else {
            MediaType::Custom(name.clone())
        }
    }
}

impl MediaFeatureExpression {
    /// An equal copy.
    pub fn duplicate(&self) -> (r: MediaFeatureExpression)
        ensures
            r@ == self@,
    {
        let value = match &self.value {
            Some(v) => Some(v.clone()),
            None => None,
        };
        MediaFeatureExpression { name: self.name.clone(), operator: self.operator, value }
    }
}

impl MediaCondition {
    /// A copy with the same meaning.
    pub fn duplicate(&self) -> (r: MediaCondition)
        ensures
            r@ == self@,
        decreases self,
    {
        match self {
            MediaCondition::Feature(f) => MediaCondition::Feature(f.duplicate()),
            MediaCondition::Not(b) => MediaCondition::Not(Box::new((**b).duplicate())),
            MediaCondition::InParens(b) => MediaCondition::InParens(Box::new((**b).duplicate())),
            MediaCondition::Operation(v, op) => {
                let mut out: Vec<MediaCondition> = Vec::new();
                let mut i: usize = 0;
                while i < v.len()
                    invariant
                        i <= v.len(),
                        *self == MediaCondition::Operation(*v, *op),
                        view_conds(out@) == view_conds(v@.take(i as int)),
                    decreases v.len() - i,
                {
                    proof {
                        assert(self->Operation_0 == *v);
                        assert(decreases_to!(*self => self->Operation_0));
                        assert(decreases_to!(*v => v[i as int]));
                    }
                    let c = v[i].duplicate();
                    let ghost before = out@;
                    out.push(c);
                    proof {
                        assert(out@.drop_last() =~= before);
                        assert(v@.take(i + 1).drop_last() =~= v@.take(i as int));
                    }
                    i = i + 1;
                }
                proof {
                    assert(v@.take(v.len() as int) =~= v@);
                }
                MediaCondition::Operation(out, *op)
            },
        }
    }
}

/// The view of a sequence of conditions is the sequence of their views.
pub proof fn lemma_view_conds(s: Seq<MediaCondition>)
    ensures
        view_conds(s).len() == s.len(),
        forall|i: int| 0 <= i < s.len() ==> #[trigger] view_conds(s)[i] == s[i]@,
    decreases s.len(),
{
    if s.len() > 0 {
        lemma_view_conds(s.drop_last());
    }
}

impl MediaCondition {
    /// Whether the two conditions say the same.
    pub fn same(&self, other: &MediaCondition) -> (r: bool)
        ensures
            r == (self@ == other@),
        decreases self,
    {
        match (self, other) {
            (MediaCondition::Feature(a), MediaCondition::Feature(b)) => {
                let values = match (&a.value, &b.value) {
                    (Some(x), Some(y)) => *x == *y,
                    (None, None) => true,
                    _ => false,
                };
                a.name == b.name && a.operator == b.operator && values
            },
            (MediaCondition::Not(a), MediaCondition::Not(b)) => (**a).same(&**b),
            (MediaCondition::InParens(a), MediaCondition::InParens(b)) => (**a).same(&**b),
            (MediaCondition::Operation(v, o), MediaCondition::Operation(w, q)) => {
                proof {
                    lemma_view_conds(v@);
                    lemma_view_conds(w@);
                }
                if *o != *q || v.len() != w.len() {
                    return false;
                }
                let mut i: usize = 0;
                while i < v.len()
                    invariant
                        i <= v.len(),
                        v.len() == w.len(),
                        *self == MediaCondition::Operation(*v, *o),
                        *other == MediaCondition::Operation(*w, *q),
                        *o == *q,
                        view_conds(v@).len() == v.len(),
                        view_conds(w@).len() == w.len(),
                        forall|k: int| 0 <= k < v.len() ==> #[trigger] view_conds(v@)[k] == v@[k]@,
                        forall|k: int| 0 <= k < w.len() ==> #[trigger] view_conds(w@)[k] == w@[k]@,
                        forall|k: int| 0 <= k < i ==> v@[k]@ == w@[k]@,
                    decreases v.len() - i,
                {
                    proof {
                        assert(self->Operation_0 == *v);
                        assert(decreases_to!(*self => self->Operation_0));
                        assert(decreases_to!(*v => v[i as int]));
                    }
                    if !v[i].same(&w[i]) {
                        assert(view_conds(v@)[i as int] != view_conds(w@)[i as int]);
                        return false;
                    }
                    i = i + 1;
                }
                assert(view_conds(v@) =~= view_conds(w@));
                true
            },
            _ => false,
        }
    }
}

impl PartialEq for MediaCondition {
    fn eq(&self, other: &MediaCondition) -> (r: bool) {
        self.same(other)
    }
}

impl vstd::std_specs::cmp::PartialEqSpecImpl for MediaCondition {
    open spec fn obeys_eq_spec() -> bool {
        true
    }

    open spec fn eq_spec(&self, other: &MediaCondition) -> bool {
        self@ == other@
    }
}

impl Clone for MediaCondition {
    fn clone(&self) -> Self {
        self.duplicate()
    }
}

impl MediaType {
    /// An equal copy.
    pub fn duplicate(&self) -> (r: MediaType)
        ensures
            r@ == self@,
    {
        match self {
            MediaType::All => MediaType::All,
            MediaType::Print => MediaType::Print,
            MediaType::Screen => MediaType::Screen,
            MediaType::Custom(s) => MediaType::Custom(s.clone()),
        }
    }
}

impl MediaQuery {
    /// A copy with the same meaning.
    pub fn duplicate(&self) -> (r: MediaQuery)
        ensures
            r@ == self@,
    {
        let condition = match &self.condition {
            Some(c) => Some(c.duplicate()),
            None => None,
        };
        MediaQuery { qualifier: self.qualifier, media_type: self.media_type.duplicate(), condition }
    }
}

impl Clone for MediaQuery {
    fn clone(&self) -> Self {
        self.duplicate()
    }
}

impl MediaList {
    /// A copy with the same meaning.
    pub fn duplicate(&self) -> (r: MediaList)
        ensures
            r@ == self@,
    {
        let mut out: Vec<MediaQuery> = Vec::new();
        let mut i: usize = 0;
        while i < self.media_queries.len()
            invariant
                i <= self.media_queries.len(),
                out@.map_values(|q: MediaQuery| q@) == self.media_queries@.take(i as int).map_values(|q: MediaQuery| q@),
            decreases self.media_queries.len() - i,
        {
            let q = self.media_queries[i].duplicate();
            let ghost before = out@;
            out.push(q);
            assert(out@.map_values(|q: MediaQuery| q@) =~= before.map_values(|q: MediaQuery| q@).push(q@));
            assert(self.media_queries@.take(i + 1).map_values(|q: MediaQuery| q@) =~= self.media_queries@.take(
                i as int,
            ).map_values(|q: MediaQuery| q@).push(self.media_queries@[i as int]@));
            assert(out@.map_values(|q: MediaQuery| q@) =~= self.media_queries@.take(i + 1).map_values(|q: MediaQuery| q@));
            i = i + 1;
        }
        assert(self.media_queries@.take(i as int) =~= self.media_queries@);
        MediaList { media_queries: out }
    }
}

impl Clone for MediaList {
    fn clone(&self) -> Self {
        self.duplicate()
    }
}

/// Consumes `:` or a comparison operator.
fn consume_operation_or_colon(t: &Vec<Token>, pos: usize, end: usize) -> (r: Option<(Option<MediaQueryOperator>, usize)>)
    requires
        pos <= end <= t.len(),
    ensures
        match r {
            Some((o, n)) => op_or_colon_spec(t@, pos as int, end as int) == Some((o, n as int)),
            None => op_or_colon_spec(t@, pos as int, end as int) is None,
        },
{
    let p = skip_whitespace(t, pos, end);
    if p >= end {
        return None;
    }
    let c = match &t[p].kind {
        TokenKind::Colon => return Some((None, p + 1)),
        TokenKind::Delim(c) => *c,
        _ => return None,
    };
    let q = skip_whitespace(t, p + 1, end);
    let then_eq = q < end && match &t[q].kind {
        TokenKind::Delim(d) => *d == '=',
        _ => false,
    };
    if c == '=' {
        Some((Some(MediaQueryOperator::Equal), p + 1))
    } else if c == '>' {
        if then_eq {
            Some((Some(MediaQueryOperator::GreaterThanEqual), q + 1))
        } else {
            Some((Some(MediaQueryOperator::GreaterThan), p + 1))
        }
    } else if c == '<' {
        if then_eq {
            Some((Some(MediaQueryOperator::LessThanEqual), q + 1))
        } else {
            Some((Some(MediaQueryOperator::LessThan), p + 1))
        }
    } else {
        None
    }
}

/// The text of the tokens from the first non-whitespace one at or after `pos` to `end`.
fn exhaust(t: &Vec<Token>, pos: usize, end: usize) -> (r: String)
    requires
        pos <= end <= t.len(),
    ensures
        r@ == texts(t@, skip_ws(t@, pos as int, end as int), end as int),
{
    let v = skip_whitespace(t, pos, end);
    join_texts(t, v, end)
}

impl MediaFeatureExpression {
    /// Parses a feature expression from `pos`; the caller checks that nothing follows it.
    pub fn parse_in_parenthesis_block(t: &Vec<Token>, pos: usize, end: usize) -> (r: Result<(Self, usize), ParseError>)
        requires
            pos <= end <= t.len(),
        ensures
            feature_result(r) == feature_spec(t@, pos as int, end as int),
    {
        let p = skip_whitespace(t, pos, end);
        if p >= end {
            return Err(ParseError::EndOfInput);
        }
        let name = match &t[p].kind {
            TokenKind::Ident(s) => s.clone(),
            _ => return Err(ParseError::UnexpectedToken(p)),
        };
        match consume_operation_or_colon(t, p + 1, end) {
            None => Ok((MediaFeatureExpression { name, operator: None, value: None }, p + 1)),
            Some((operator, q)) => {
                let value = exhaust(t, q, end);
                Ok((MediaFeatureExpression { name, operator, value: Some(value) }, end))
            },
        }
    }
}

impl MediaCondition {
    /// Parses a condition from `pos`. `or` is accepted whatever `allow_or` says.
    pub fn parse(t: &Vec<Token>, pos: usize, end: usize, _allow_or: bool) -> (r: Result<(Self, usize), ParseError>)
        requires
            pos <= end <= t.len(),
        ensures
            cond_result(r) == condition_spec(t@, pos as int, end as int),
            r is Ok ==> pos < r->Ok_0.1 <= end,
        decreases t@, end - pos, 2int,
    {
        let p = skip_whitespace(t, pos, end);
        if p >= end {
            return Err(ParseError::EndOfInput);
        }
        proof {
            reveal_strlit("not");
        }
        if is_ident(t, p, end, "not") {
            return match Self::parse_in_parens(t, p + 1, end) {
                Ok((c, q)) => Ok((MediaCondition::Not(Box::new(c)), q)),
                Err(e) => Err(e),
            };
        }
        if !matches!(t[p].kind, TokenKind::ParenBlock(..)) {
            return Err(ParseError::UnexpectedToken(p));
        }
        let first = match Self::parse_paren_block(t, p, end) {
            Ok(c) => c,
            Err(e) => return Err(e),
        };
        let op = match Operator::parse(t, p + 1, end) {
            Ok((op, q)) => (op, q),
            Err(_) => return Ok((first, p + 1)),
        };
        let (op, q) = op;
        let second = match Self::parse_in_parens(t, q, end) {
            Ok(c) => c,
            Err(e) => return Err(e),
        };
        let (second, r) = second;
        let ghost g1 = first;
        let ghost g2 = second;
        let acc = vec![first, second];
        proof {
            assert(acc@.drop_last() =~= seq![g1]);
            assert(seq![g1].drop_last() =~= Seq::<MediaCondition>::empty());
            assert(view_conds(Seq::<MediaCondition>::empty()) =~= Seq::<ConditionModel>::empty());
            assert(seq![g1].last() == g1);
            assert(view_conds(seq![g1]) =~= Seq::<ConditionModel>::empty().push(view_cond(g1)));
            assert(view_conds(seq![g1]) =~= seq![g1@]);
            assert(view_conds(acc@) =~= seq![g1@, g2@]);
        }
        Self::parse_operands(t, r, end, op, acc)
    }

    fn parse_operands(t: &Vec<Token>, pos: usize, end: usize, op: Operator, acc: Vec<MediaCondition>) -> (r: Result<(Self, usize), ParseError>)
        requires
            0 < pos <= end <= t.len(),
        ensures
            cond_result(r) == operands_spec(t@, pos as int, end as int, op, view_conds(acc@)),
            r is Ok ==> pos <= r->Ok_0.1 <= end,
        decreases t@, end - pos, 3int,
    {
        let p = skip_whitespace(t, pos, end);
        let word = match op {
            Operator::And => "and",
            Operator::Or => "or",
        };
        proof {
            reveal_strlit("and");
            reveal_strlit("or");
        }
        if is_ident(t, p, end, word) {
            match Self::parse_in_parens(t, p + 1, end) {
                Err(e) => Err(e),
                Ok((c, q)) => {
                    let mut acc = acc;
                    let ghost before = acc@;
                    acc.push(c);
                    proof {
                        assert(acc@.drop_last() =~= before);
                    }
                    Self::parse_operands(t, q, end, op, acc)
                },
            }
        } else {
            Ok((MediaCondition::Operation(acc, op), pos))
        }
    }

    /// Parses a parenthesis group at the next token.
    pub fn parse_in_parens(t: &Vec<Token>, pos: usize, end: usize) -> (r: Result<(Self, usize), ParseError>)
        requires
            pos <= end <= t.len(),
        ensures
            cond_result(r) == in_parens_spec(t@, pos as int, end as int),
            r is Ok ==> pos < r->Ok_0.1 <= end,
        decreases t@, end - pos, 1int,
    {
        let p = skip_whitespace(t, pos, end);
        if p >= end {
            return Err(ParseError::EndOfInput);
        }
        if !matches!(t[p].kind, TokenKind::ParenBlock(..)) {
            return Err(ParseError::UnexpectedToken(p));
        }
        match Self::parse_paren_block(t, p, end) {
            Ok(c) => Ok((c, p + 1)),
            Err(e) => Err(e),
        }
    }

    /// Parses the inside of the group at `p`.
    fn parse_paren_block(t: &Vec<Token>, p: usize, end: usize) -> (r: Result<Self, ParseError>)
        requires
            p < end <= t.len(),
            t@[p as int].kind is ParenBlock,
        ensures
            match r {
                Ok(c) => paren_block_spec(t@, p as int, end as int) == Ok::<ConditionModel, ParseError>(c@),
                Err(e) => paren_block_spec(t@, p as int, end as int) == Err::<ConditionModel, ParseError>(e),
            },
        decreases t@, end - p, 0int,
    {
        let (inner, closed) = match &t[p].kind {
            TokenKind::ParenBlock(inner, closed) => (inner, *closed),
            _ => return Err(ParseError::EndOfInput),
        };
        if !closed {
            return Err(ParseError::UnexpectedToken(p));
        }
        let n = inner.len();
        proof {
            assert(decreases_to!(t@ => t@[p as int]));
            assert(decreases_to!(t@[p as int] => inner@));
        }
        match Self::parse(inner, 0, n, true) {
            Ok((c, q)) => {
                if skip_whitespace(inner, q, n) == n {
                    Ok(MediaCondition::InParens(Box::new(c)))
                } else {
                    Err(ParseError::UnexpectedToken(p))
                }
            },
            Err(_) => match MediaFeatureExpression::parse_in_parenthesis_block(inner, 0, n) {
                Ok((f, q)) => {
                    if skip_whitespace(inner, q, n) == n {
                        Ok(MediaCondition::Feature(f))
                    } else {
                        Err(ParseError::UnexpectedToken(p))
                    }
                },
                Err(_) => Err(ParseError::UnexpectedToken(p)),
            },
        }
    }
}

/// `m` if only whitespace is left from `q` to `end`.
fn finish(t: &Vec<Token>, q: usize, end: usize, m: MediaQuery) -> (r: Result<MediaQuery, ParseError>)
    requires
        q <= end <= t.len(),
    ensures
        query_result(r) == finish_spec(t@, q as int, end as int, m@),
{
    let r = skip_whitespace(t, q, end);
    if r == end {
        Ok(m)
    } else {
        Err(error_at(r, end))
    }
}

impl MediaQuery {
    /// Parses one media query that fills `pos..end`.
    pub fn parse(t: &Vec<Token>, pos: usize, end: usize) -> (r: Result<Self, ParseError>)
        requires
            pos <= end <= t.len(),
        ensures
            query_result(r) == query_spec(t@, pos as int, end as int),
    {
        let (qualifier, after_qualifier) = match Qualifier::parse(t, pos, end) {
            Ok((q, n)) => (Some(q), n),
            Err(_) => (None, pos),
        };
        let type_at = skip_whitespace(t, after_qualifier, end);
        if type_at < end {
            if let TokenKind::Ident(name) = &t[type_at].kind {
                let media_type = MediaType::parse(name);
                let and_at = skip_whitespace(t, type_at + 1, end);
                proof {
                    reveal_strlit("and");
                }
                if is_ident(t, and_at, end, "and") {
                    return match MediaCondition::parse(t, and_at + 1, end, false) {
                        Err(e) => Err(e),
                        Ok((c, q)) => finish(t, q, end, MediaQuery { qualifier, media_type, condition: Some(c) }),
                    };
                }
                return finish(t, type_at + 1, end, MediaQuery { qualifier, media_type, condition: None });
            }
        }
        match MediaCondition::parse(t, pos, end, true) {
            Err(e) => Err(e),
            Ok((c, q)) => finish(t, q, end, MediaQuery { qualifier: None, media_type: MediaType::All, condition: Some(c) }),
        }
    }
}

/// Index of the first comma token at or after `pos`, or the length of `t`.
fn find_comma(t: &Vec<Token>, pos: usize) -> (c: usize)
    requires
        pos <= t.len(),
    ensures
        c == next_comma(t@, pos as int),
        pos <= c <= t.len(),
{
    let mut i = pos;
    while i < t.len()
        invariant
            pos <= i <= t.len(),
            next_comma(t@, i as int) == next_comma(t@, pos as int),
        decreases t.len() - i,
    {
        if matches!(t[i].kind, TokenKind::Comma) {
            return i;
        }
        i = i + 1;
    }
    i
}

impl MediaList {
    /// Parses a comma-separated list of media queries. Never fails: a segment
    /// that is not a media query is left out.
    pub fn parse(t: &Vec<Token>) -> (r: MediaList)
        ensures
            r@ == list_spec(t@, 0),
    {
        let mut media_queries: Vec<MediaQuery> = Vec::new();
        let mut pos: usize = 0;
        loop
            invariant
                pos <= t.len(),
                media_queries@.map_values(|q: MediaQuery| q@) + list_spec(t@, pos as int) == list_spec(t@, 0),
            decreases t.len() - pos,
        {
            let c = find_comma(t, pos);
            let ghost before = media_queries@;
            match MediaQuery::parse(t, pos, c) {
                Ok(q) => {
                    media_queries.push(q);
                    assert(media_queries@.map_values(|q: MediaQuery| q@) =~= before.map_values(|q: MediaQuery| q@).push(q@));
                },
                Err(_) => {},
            }
            if c < t.len() {
                assert(media_queries@.map_values(|q: MediaQuery| q@) + list_spec(t@, c + 1) =~= list_spec(t@, 0));
                pos = c + 1;
            } else {
                assert(media_queries@.map_values(|q: MediaQuery| q@) =~= list_spec(t@, 0));
                return MediaList { media_queries };
            }
        }
    }
}

/// A media query list never holds more queries than its source has
/// comma-separated segments, counted from `pos`.
pub proof fn lemma_list_len_le_segments(t: Seq<Token>, pos: int)
    ensures
        list_spec(t, pos).len() <= segment_count(t, pos),
    decreases t.len() - pos,
{
    if 0 <= pos <= t.len() {
        let c = next_comma(t, pos);
        if pos <= c < t.len() {
            lemma_list_len_le_segments(t, c + 1);
        }
    }
}

/// Parsing a token sequence as a media query list gives at most one query per
/// top-level comma-separated segment.
pub proof fn law_list_len_le_segments(t: Seq<Token>)
    ensures
        list_spec(t, 0).len() <= segment_count(t, 0),
{
    lemma_list_len_le_segments(t, 0);
}

} // verus!
