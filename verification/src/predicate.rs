//! The filter of a listing: which rows a request asks for, as a `WHERE`
//! fragment and the values bound to its placeholders.
//!
//! The same fragment and the same values serve the query that counts the
//! matching rows and the query that fetches one page of them, so that both
//! select the same rows.

use vstd::prelude::*;
use crate::decimal::{append_decimal, decimal};
use crate::sql::{
    lemma_placeholders_add, lemma_placeholders_before, placeholders, placeholders_before, SqlValue,
    SqlValueView,
};

verus! {

/// Where the rows to filter live.
#[derive(Debug, Clone, Copy, PartialEq, Eq, Structural)]
pub enum Layout {
    /// Table `favorites` (alias `f`); the tags of a row are JSON text in its
    /// column `tags`.
    Favorites,
    /// Table `bookmarks` (alias `b`); the tags of a row are rows of the join
    /// table `bookmark_tags` (alias `bt`).
    Bookmarks,
}

/// The optional filters of a listing.
#[derive(Debug, Clone, PartialEq, Eq)]
pub struct Filters {
    /// Text that the description must contain. An empty text filters nothing.
    pub search: Option<String>,
    /// Category that the row must belong to.
    pub category_id: Option<i64>,
    /// Tag that the row must carry.
    pub tag_id: Option<i64>,
}

/// What a set of filters stands for.
pub struct FiltersView {
    pub search: Option<Seq<char>>,
    pub category_id: Option<int>,
    pub tag_id: Option<int>,
}

impl View for Filters {
    type V = FiltersView;

    open spec fn view(&self) -> FiltersView {
        FiltersView {
            search: match self.search {
                Some(s) => Some(s@),
                None => None,
            },
            category_id: match self.category_id {
                Some(c) => Some(c as int),
                None => None,
            },
            tag_id: match self.tag_id {
                Some(t) => Some(t as int),
                None => None,
            },
        }
    }
}

/// A `WHERE` fragment (empty, or starting with a blank) and the values for its
/// placeholders, in the order of the placeholders.
#[derive(Debug, Clone, PartialEq, Eq)]
pub struct Predicate {
    pub clause: String,
    pub params: Vec<SqlValue>,
}

/// What a predicate stands for.
pub struct PredicateView {
    pub clause: Seq<char>,
    pub params: Seq<SqlValueView>,
}

impl View for Predicate {
    type V = PredicateView;

    open spec fn view(&self) -> PredicateView {
        PredicateView { clause: self.clause@, params: self.params.deep_view() }
    }
}

pub const WHERE: &'static str = " WHERE ";

pub const AND: &'static str = " AND ";

pub const WILDCARD: &'static str = "%";

pub const TAG_PATTERN_HEAD: &'static str = "%\"";

pub const TAG_PATTERN_TAIL: &'static str = "\":%";

/// The character that takes the special meaning from the one after it in a
/// `LIKE` pattern.
pub const ESCAPE: char = '\\';

pub const FAVORITE_SEARCH: &'static str = "f.text LIKE ? ESCAPE '\\'";

pub const FAVORITE_CATEGORY: &'static str = "f.category_id = ?";

pub const FAVORITE_TAG: &'static str = "f.tags LIKE ?";

pub const BOOKMARK_SEARCH: &'static str = "b.content LIKE ? ESCAPE '\\'";

pub const BOOKMARK_CATEGORY: &'static str = "b.category_id = ?";

pub const BOOKMARK_TAG: &'static str = "bt.tag_id = ?";

/// The condition on the description.
pub open spec fn search_condition(layout: Layout) -> Seq<char> {
    match layout {
        Layout::Favorites => FAVORITE_SEARCH@,
        Layout::Bookmarks => BOOKMARK_SEARCH@,
    }
}

/// The condition on the category.
pub open spec fn category_condition(layout: Layout) -> Seq<char> {
    match layout {
        Layout::Favorites => FAVORITE_CATEGORY@,
        Layout::Bookmarks => BOOKMARK_CATEGORY@,
    }
}

/// The condition on the tag.
pub open spec fn tag_condition(layout: Layout) -> Seq<char> {
    match layout {
        Layout::Favorites => FAVORITE_TAG@,
        Layout::Bookmarks => BOOKMARK_TAG@,
    }
}

/// Whether a character means something else than itself in a `LIKE` pattern:
/// the two wildcards and the escape character.
pub open spec fn is_special(c: char) -> bool {
    c == '%' || c == '_' || c == ESCAPE
}

/// A character as it is written in a `LIKE` pattern to stand for itself:
/// after the escape character where it is special, alone otherwise.
pub open spec fn literal_char(c: char) -> Seq<char> {
    if is_special(c) {
        seq![ESCAPE, c]
    } else {
        seq![c]
    }
}

/// A text as it is written in a `LIKE` pattern to stand for itself: each of
/// its characters as `literal_char` writes it, in their order.
pub open spec fn literal_text(text: Seq<char>) -> Seq<char>
    decreases text.len(),
{
    if text.len() == 0 {
        Seq::empty()
    } else {
        literal_text(text.drop_last()) + literal_char(text.last())
    }
}

/// The `LIKE` pattern of the rows whose text contains `text`: the text,
/// written to stand for itself, between two wildcards. The condition that
/// takes the pattern names `ESCAPE` as its escape character.
pub open spec fn contains_pattern(text: Seq<char>) -> Seq<char> {
    WILDCARD@ + literal_text(text) + WILDCARD@
}

/// A text without special characters is written as it is.
pub proof fn lemma_plain_text_is_its_own_literal(text: Seq<char>)
    requires
        forall|i: int| 0 <= i < text.len() ==> !is_special(#[trigger] text[i]),
    ensures
        literal_text(text) == text,
    decreases text.len(),
{
    if text.len() > 0 {
        lemma_plain_text_is_its_own_literal(text.drop_last());
        assert(!is_special(text.last()));
        assert(text.drop_last() + seq![text.last()] =~= text);
    }
}

/// The `LIKE` pattern that looks for a tag in the JSON text of a row: the
/// decimal identifier in double quotes, followed by a colon, anywhere in the
/// text. The match is textual, not structural.
pub open spec fn tag_pattern(tag_id: int) -> Seq<char> {
    TAG_PATTERN_HEAD@ + decimal(tag_id) + TAG_PATTERN_TAIL@
}

/// The value bound for a tag filter: the pattern over the JSON text for
/// favorites, the identifier itself for bookmarks.
pub open spec fn tag_value(layout: Layout, tag_id: int) -> SqlValueView {
    match layout {
        Layout::Favorites => SqlValueView::Text(tag_pattern(tag_id)),
        Layout::Bookmarks => SqlValueView::Integer(tag_id),
    }
}

impl FiltersView {
    /// Whether the description is filtered: a search text is there and is not
    /// empty.
    pub open spec fn searches(self) -> bool {
        self.search matches Some(s) && s.len() > 0
    }

    /// Whether the category is filtered.
    pub open spec fn categorizes(self) -> bool {
        self.category_id is Some
    }

    /// Whether the tag is filtered.
    pub open spec fn tags(self) -> bool {
        self.tag_id is Some
    }
}

/// What one filter adds to the fragment: nothing where it is not set,
/// else its condition, introduced by `WHERE` where it is the first and joined
/// by `AND` where another one precedes it.
pub open spec fn clause_part(active: bool, preceded: bool, condition: Seq<char>) -> Seq<char> {
    if !active {
        Seq::empty()
    } else if preceded {
        AND@ + condition
    } else {
        WHERE@ + condition
    }
}

/// The fragment for a set of filters: the conditions of those that are set,
/// in the fixed order search, category, tag.
pub open spec fn where_clause(f: FiltersView, layout: Layout) -> Seq<char> {
    clause_part(f.searches(), false, search_condition(layout))
        + clause_part(f.categorizes(), f.searches(), category_condition(layout))
        + clause_part(f.tags(), f.searches() || f.categorizes(), tag_condition(layout))
}

/// The values for the placeholders of `where_clause`, in the same order.
pub open spec fn bound_values(f: FiltersView, layout: Layout) -> Seq<SqlValueView> {
    (if f.searches() {
        seq![SqlValueView::Text(contains_pattern(f.search->0))]
    } else {
        Seq::empty()
    }) + (if f.categorizes() {
        seq![SqlValueView::Integer(f.category_id->0)]
    } else {
        Seq::empty()
    }) + (if f.tags() {
        seq![tag_value(layout, f.tag_id->0)]
    } else {
        Seq::empty()
    })
}

proof fn lemma_joiners_hold_no_placeholder()
    ensures
        placeholders(WHERE@) == 0,
        placeholders(AND@) == 0,
{
    reveal_strlit(" WHERE ");
    reveal_strlit(" AND ");
    reveal_with_fuel(placeholders_before, 8);
    lemma_placeholders_before(WHERE@, 7);
    lemma_placeholders_before(AND@, 5);
}

proof fn lemma_conditions_hold_one_placeholder(layout: Layout)
    ensures
        placeholders(search_condition(layout)) == 1,
        placeholders(category_condition(layout)) == 1,
        placeholders(tag_condition(layout)) == 1,
{
    reveal_strlit("f.text LIKE ? ESCAPE '\\'");
    reveal_strlit("f.category_id = ?");
    reveal_strlit("f.tags LIKE ?");
    reveal_strlit("b.content LIKE ? ESCAPE '\\'");
    reveal_strlit("b.category_id = ?");
    reveal_strlit("bt.tag_id = ?");
    reveal_with_fuel(placeholders_before, 28);
    lemma_placeholders_before(FAVORITE_SEARCH@, 24);
    lemma_placeholders_before(FAVORITE_CATEGORY@, 17);
    lemma_placeholders_before(FAVORITE_TAG@, 13);
    lemma_placeholders_before(BOOKMARK_SEARCH@, 27);
    lemma_placeholders_before(BOOKMARK_CATEGORY@, 17);
    lemma_placeholders_before(BOOKMARK_TAG@, 13);
}

proof fn lemma_part_holds_one_placeholder_if_active(
    active: bool,
    preceded: bool,
    condition: Seq<char>,
)
    requires
        placeholders(condition) == 1,
    ensures
        placeholders(clause_part(active, preceded, condition)) == if active {
            1nat
        } else {
            0nat
        },
{
    lemma_joiners_hold_no_placeholder();
    lemma_placeholders_add(AND@, condition);
    lemma_placeholders_add(WHERE@, condition);
}

/// The text of the fragment does not depend on the values that a request
/// sends, only on which filters it sets: no value is ever part of the text.
pub proof fn lemma_values_stay_out_of_the_text(a: FiltersView, b: FiltersView, layout: Layout)
    requires
        a.searches() == b.searches(),
        a.categorizes() == b.categorizes(),
        a.tags() == b.tags(),
    ensures
        where_clause(a, layout) == where_clause(b, layout),
{
}

/// The fragment has one placeholder for each bound value: as many as there
/// are filters set.
pub proof fn lemma_one_placeholder_for_each_value(f: FiltersView, layout: Layout)
    ensures
        placeholders(where_clause(f, layout)) == bound_values(f, layout).len(),
{
    let search = clause_part(f.searches(), false, search_condition(layout));
    let category = clause_part(f.categorizes(), f.searches(), category_condition(layout));
    let tag = clause_part(f.tags(), f.searches() || f.categorizes(), tag_condition(layout));
    lemma_conditions_hold_one_placeholder(layout);
    lemma_part_holds_one_placeholder_if_active(f.searches(), false, search_condition(layout));
    lemma_part_holds_one_placeholder_if_active(
        f.categorizes(),
        f.searches(),
        category_condition(layout),
    );
    lemma_part_holds_one_placeholder_if_active(
        f.tags(),
        f.searches() || f.categorizes(),
        tag_condition(layout),
    );
    lemma_placeholders_add(search, category);
    lemma_placeholders_add(search + category, tag);
}

/// `String::push` of the standard library: appends one character to the end
/// of the string. Trusted: the string afterwards is the string before with
/// the character after it.
#[verifier::external_body]
fn push_char(out: &mut String, c: char)
    ensures
        final(out)@ == old(out)@.push(c),
{
    out.push(c)
}

/// Appends `text` to `out`, written to stand for itself in a `LIKE` pattern.
pub fn append_literal_text(out: &mut String, text: &str)
    ensures
        final(out)@ == old(out)@ + literal_text(text@),
{
    assert(text@.take(0) =~= Seq::<char>::empty());
    for c in it: text.chars()
        invariant
            it.seq() == text@,
            out@ == old(out)@ + literal_text(text@.take(it.index())),
    {
        let ghost before = out@;
        if c == '%' || c == '_' || c == ESCAPE {
            push_char(out, ESCAPE);
        }
        push_char(out, c);
        proof {
            let taken = text@.take(it.index() + 1);
            assert(taken.drop_last() =~= text@.take(it.index()));
            assert(taken.last() == c);
            assert(out@ =~= before + literal_char(c));
        }
    }
    assert(text@.take(text@.len() as int) =~= text@);
}

/// The pattern for the rows whose text contains `text`: a wildcard in the
/// text finds a wildcard in the row, and nothing else.
pub fn contains_pattern_of(text: &str) -> (pattern: String)
    ensures
        pattern@ == contains_pattern(text@),
{
    let mut pattern = String::from_str(WILDCARD);
    append_literal_text(&mut pattern, text);
    pattern.append(WILDCARD);
    pattern
}

/// The pattern that looks for the tag `tag_id` in the JSON text of a row.
pub fn tag_pattern_of(tag_id: i64) -> (pattern: String)
    ensures
        pattern@ == tag_pattern(tag_id as int),
{
    let mut pattern = String::from_str(TAG_PATTERN_HEAD);
    append_decimal(&mut pattern, tag_id);
    pattern.append(TAG_PATTERN_TAIL);
    pattern
}

fn search_condition_of(layout: Layout) -> (c: &'static str)
    ensures
        c@ == search_condition(layout),
{
    match layout {
        Layout::Favorites => FAVORITE_SEARCH,
        Layout::Bookmarks => BOOKMARK_SEARCH,
    }
}

fn category_condition_of(layout: Layout) -> (c: &'static str)
    ensures
        c@ == category_condition(layout),
{
    match layout {
        Layout::Favorites => FAVORITE_CATEGORY,
        Layout::Bookmarks => BOOKMARK_CATEGORY,
    }
}

fn tag_condition_of(layout: Layout) -> (c: &'static str)
    ensures
        c@ == tag_condition(layout),
{
    match layout {
        Layout::Favorites => FAVORITE_TAG,
        Layout::Bookmarks => BOOKMARK_TAG,
    }
}

fn tag_value_of(layout: Layout, tag_id: i64) -> (v: SqlValue)
    ensures
        v@ == tag_value(layout, tag_id as int),
{
    match layout {
        Layout::Favorites => SqlValue::Text(tag_pattern_of(tag_id)),
        Layout::Bookmarks => SqlValue::Integer(tag_id),
    }
}

fn add_condition(clause: &mut String, preceded: bool, condition: &str)
    ensures
        final(clause)@ == old(clause)@ + clause_part(true, preceded, condition@),
{
    if preceded {
        clause.append(AND);
    } else {
        clause.append(WHERE);
    }
    clause.append(condition);
}

/// Builds the predicate for a set of filters.
///
/// Each filter that is set adds one condition and one bound value, in the
/// order search, category, tag; the conditions are joined by `AND`. With no
/// filter set the fragment and the values are empty. The values of the
/// request reach the store as bound values only.
pub fn build_predicate(filters: &Filters, layout: Layout) -> (p: Predicate)
    ensures
        p@.clause == where_clause(filters@, layout),
        p@.params == bound_values(filters@, layout),
        placeholders(p@.clause) == p@.params.len(),
{
    proof {
        lemma_one_placeholder_for_each_value(filters@, layout);
    }
    let mut clause = String::new();
    let mut params: Vec<SqlValue> = Vec::new();
    let mut preceded = false;
    match &filters.search {
        Some(text) => {
            if !text.as_str().is_empty() {
                add_condition(&mut clause, preceded, search_condition_of(layout));
                params.push(SqlValue::Text(contains_pattern_of(text.as_str())));
                preceded = true;
            }
        },
        None => {},
    }
    assert(clause@ =~= clause_part(filters@.searches(), false, search_condition(layout)));
    assert(preceded == filters@.searches());
    let ghost after_search = params.deep_view();
    assert(after_search =~= (if filters@.searches() {
        seq![SqlValueView::Text(contains_pattern(filters@.search->0))]
    } else {
        Seq::empty()
    }));
    match filters.category_id {
        Some(category_id) => {
            add_condition(&mut clause, preceded, category_condition_of(layout));
            params.push(SqlValue::Integer(category_id));
            preceded = true;
        },
        None => {},
    }
    assert(preceded == (filters@.searches() || filters@.categorizes()));
    let ghost after_category = params.deep_view();
    assert(after_category =~= after_search + (if filters@.categorizes() {
        seq![SqlValueView::Integer(filters@.category_id->0)]
    } else {
        Seq::empty()
    }));
    match filters.tag_id {
        Some(tag_id) => {
            add_condition(&mut clause, preceded, tag_condition_of(layout));
            params.push(tag_value_of(layout, tag_id));
        },
        None => {},
    }
    assert(params.deep_view() =~= after_category + (if filters@.tags() {
        seq![tag_value(layout, filters@.tag_id->0)]
    } else {
        Seq::empty()
    }));
    Predicate { clause, params }
}

} // verus!
