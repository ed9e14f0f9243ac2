//! Statements for the relational store: SQL text with `?` placeholders and the
//! values bound to them, in order. No caller-supplied value is ever spliced
//! into the text.

use vstd::prelude::*;

verus! {

/// A value bound to one placeholder of a statement.
#[derive(Debug, Clone, PartialEq, Eq)]
pub enum SqlValue {
    Null,
    Integer(i64),
    Text(String),
}

/// What a bound value stands for.
pub enum SqlValueView {
    Null,
    Integer(int),
    Text(Seq<char>),
}

impl View for SqlValue {
    type V = SqlValueView;

    open spec fn view(&self) -> SqlValueView {
        match self {
            SqlValue::Null => SqlValueView::Null,
            SqlValue::Integer(n) => SqlValueView::Integer(*n as int),
            SqlValue::Text(s) => SqlValueView::Text(s@),
        }
    }
}

impl DeepView for SqlValue {
    type V = SqlValueView;

    open spec fn deep_view(&self) -> SqlValueView {
        self@
    }
}

/// The value bound for an optional integer: `NULL` where there is none.
pub open spec fn optional_integer(n: Option<i64>) -> SqlValueView {
    match n {
        Some(n) => SqlValueView::Integer(n as int),
        None => SqlValueView::Null,
    }
}

impl SqlValue {
    /// Binds a string.
    pub fn text(s: &str) -> (v: SqlValue)
        ensures
            v@ == SqlValueView::Text(s@),
    {
        SqlValue::Text(String::from_str(s))
    }

    /// A second value that stands for the same as this one.
    pub fn duplicate(&self) -> (v: SqlValue)
        ensures
            v@ == self@,
    {
        match self {
            SqlValue::Null => SqlValue::Null,
            SqlValue::Integer(n) => SqlValue::Integer(*n),
            SqlValue::Text(s) => SqlValue::Text(s.clone()),
        }
    }

    /// Binds an optional integer, `NULL` standing for its absence.
    pub fn optional(n: Option<i64>) -> (v: SqlValue)
        ensures
            v@ == optional_integer(n),
    {
        match n {
            Some(n) => SqlValue::Integer(n),
            None => SqlValue::Null,
        }
    }
}

/// A second list of values that stand for the same as those of `values`.
pub fn duplicate_values(values: &Vec<SqlValue>) -> (copy: Vec<SqlValue>)
    ensures
        copy.deep_view() == values.deep_view(),
{
    let mut copy: Vec<SqlValue> = Vec::new();
    let mut i: usize = 0;
    while i < values.len()
        invariant
            i <= values.len(),
            copy.len() == i,
            forall|k: int| 0 <= k < i ==> copy[k]@ == values[k]@,
        decreases values.len() - i,
    {
        copy.push(values[i].duplicate());
        i += 1;
    }
    assert(copy.deep_view() =~= values.deep_view());
    copy
}

/// The number of placeholders `?` in an SQL text.
pub open spec fn placeholders(sql: Seq<char>) -> nat
    decreases sql.len(),
{
    if sql.len() == 0 {
        0
    } else {
        placeholders(sql.drop_last()) + if sql.last() == '?' {
            1nat
        } else {
            0nat
        }
    }
}

/// The number of placeholders among the first `k` characters of an SQL text.
pub open spec fn placeholders_before(sql: Seq<char>, k: int) -> nat
    decreases k,
{
    if k <= 0 {
        0
    } else {
        placeholders_before(sql, k - 1) + if sql[k - 1] == '?' {
            1nat
        } else {
            0nat
        }
    }
}

/// Counting from the left, up to the end, counts every placeholder.
pub proof fn lemma_placeholders_before(sql: Seq<char>, k: int)
    requires
        0 <= k <= sql.len(),
    ensures
        placeholders_before(sql, k) == placeholders(sql.take(k)),
        k == sql.len() ==> placeholders_before(sql, k) == placeholders(sql),
    decreases k,
{
    if k > 0 {
        lemma_placeholders_before(sql, k - 1);
        assert(sql.take(k).drop_last() =~= sql.take(k - 1));
    }
    if k == sql.len() {
        assert(sql.take(k) =~= sql);
    }
}

/// A text put together from two parts has the placeholders of both.
pub proof fn lemma_placeholders_add(a: Seq<char>, b: Seq<char>)
    ensures
        placeholders(a + b) == placeholders(a) + placeholders(b),
    decreases b.len(),
{
    if b.len() == 0 {
        assert(a + b =~= a);
    } else {
        lemma_placeholders_add(a, b.drop_last());
        assert((a + b).drop_last() =~= a + b.drop_last());
    }
}

/// SQL text together with the values for its placeholders.
#[derive(Debug, Clone, PartialEq, Eq)]
pub struct Statement {
    pub sql: String,
    pub params: Vec<SqlValue>,
}

/// What a statement stands for.
pub struct StatementView {
    pub sql: Seq<char>,
    pub params: Seq<SqlValueView>,
}

impl View for Statement {
    type V = StatementView;

    open spec fn view(&self) -> StatementView {
        StatementView { sql: self.sql@, params: self.params.deep_view() }
    }
}

impl DeepView for Statement {
    type V = StatementView;

    open spec fn deep_view(&self) -> StatementView {
        self@
    }
}

impl Statement {
    /// A statement without placeholders.
    pub fn plain(sql: &str) -> (s: Statement)
        ensures
            s@.sql == sql@,
            s@.params == Seq::<SqlValueView>::empty(),
    {
        Statement { sql: String::from_str(sql), params: Vec::new() }
    }

    /// A statement with one placeholder.
    pub fn with_one(sql: &str, first: SqlValue) -> (s: Statement)
        ensures
            s@.sql == sql@,
            s@.params == seq![first@],
    {
        let mut params: Vec<SqlValue> = Vec::new();
        params.push(first);
        assert(params.deep_view() =~= seq![first@]);
        Statement { sql: String::from_str(sql), params }
    }

    /// A statement with two placeholders.
    pub fn with_two(sql: &str, first: SqlValue, second: SqlValue) -> (s: Statement)
        ensures
            s@.sql == sql@,
            s@.params == seq![first@, second@],
    {
        let mut params: Vec<SqlValue> = Vec::new();
        params.push(first);
        params.push(second);
        assert(params.deep_view() =~= seq![first@, second@]);
        Statement { sql: String::from_str(sql), params }
    }

    /// A statement with its values in the order of its placeholders.
    pub fn new(sql: &str, params: Vec<SqlValue>) -> (s: Statement)
        ensures
            s@.sql == sql@,
            s@.params == params.deep_view(),
    {
        Statement { sql: String::from_str(sql), params }
    }
}

} // verus!
