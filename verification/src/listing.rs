//! The pair of queries behind every filtered, paginated listing.
//!
//! A listing asks the store twice: how many rows match the filters, and which
//! rows are on one page of them. The two answers belong together only if both
//! queries select the same rows, so both are built here, from one predicate.

use vstd::prelude::*;
use crate::pagination::PageWindow;
use crate::predicate::{bound_values, build_predicate, where_clause, Filters, FiltersView, Layout};
use crate::sql::{duplicate_values, SqlValue, SqlValueView, Statement};

verus! {

/// The two queries of one listing, and the window that the second one
/// fetches.
#[derive(Debug, Clone, PartialEq, Eq)]
pub struct ListPlan {
    /// Counts the rows that match the filters.
    pub count: Statement,
    /// Fetches the rows of one page among those that match the filters.
    pub page: Statement,
    /// The page that `page` fetches.
    pub window: PageWindow,
}

/// The values bound by the page query: those of the filters, then the page
/// size and the offset.
pub open spec fn page_values(filters: Seq<SqlValueView>, window: PageWindow) -> Seq<SqlValueView> {
    filters + seq![
        SqlValueView::Integer(window.per_page as int),
        SqlValueView::Integer(window.offset as int),
    ]
}

impl ListPlan {
    /// Whether this is the plan of the listing with the given heads, filters
    /// and window: the count query is its head and the `WHERE` fragment of
    /// the filters; the page query is its head, the same fragment and the
    /// tail that orders and cuts; the page query binds what the count query
    /// binds, then the page size and the offset.
    pub open spec fn is_plan_of(
        self,
        count_head: Seq<char>,
        select_head: Seq<char>,
        tail: Seq<char>,
        filters: FiltersView,
        layout: Layout,
        window: PageWindow,
    ) -> bool {
        &&& self.window == window
        &&& self.count@.sql == count_head + where_clause(filters, layout)
        &&& self.count@.params == bound_values(filters, layout)
        &&& self.page@.sql == select_head + where_clause(filters, layout) + tail
        &&& self.page@.params == page_values(bound_values(filters, layout), window)
    }

    /// The statements of a plan share their filter: the page query holds the
    /// text that follows the head of the count query, and binds the values
    /// of the count query first.
    pub proof fn lemma_same_filter(
        self,
        count_head: Seq<char>,
        select_head: Seq<char>,
        tail: Seq<char>,
        filters: FiltersView,
        layout: Layout,
        window: PageWindow,
    )
        requires
            self.is_plan_of(count_head, select_head, tail, filters, layout, window),
        ensures
            self.count@.sql.skip(count_head.len() as int) == self.page@.sql.subrange(
                select_head.len() as int,
                self.page@.sql.len() - tail.len(),
            ),
            self.page@.params.take(self.count@.params.len() as int) == self.count@.params,
            self.page@.params.len() == self.count@.params.len() + 2,
    {
        let clause = where_clause(filters, layout);
        assert(self.count@.sql.skip(count_head.len() as int) =~= clause);
        assert(self.page@.sql.subrange(
            select_head.len() as int,
            self.page@.sql.len() - tail.len(),
        ) =~= clause);
        assert(self.page@.params.take(self.count@.params.len() as int) =~= self.count@.params);
    }
}

/// Plans a listing: builds the predicate of the filters once and puts it
/// into both queries.
pub fn plan_listing(
    count_head: &str,
    select_head: &str,
    tail: &str,
    filters: &Filters,
    layout: Layout,
    window: PageWindow,
) -> (plan: ListPlan)
    ensures
        plan.is_plan_of(count_head@, select_head@, tail@, filters@, layout, window),
{
    let predicate = build_predicate(filters, layout);

    let mut count_sql = String::from_str(count_head);
    count_sql.append(predicate.clause.as_str());
    let count = Statement { sql: count_sql, params: duplicate_values(&predicate.params) };

    let mut page_sql = String::from_str(select_head);
    page_sql.append(predicate.clause.as_str());
    page_sql.append(tail);
    let mut page_params = predicate.params;
    page_params.push(SqlValue::Integer(window.per_page));
    page_params.push(SqlValue::Integer(window.offset));
    let page = Statement { sql: page_sql, params: page_params };
    assert(page@.params =~= page_values(bound_values(filters@, layout), window));
    ListPlan { count, page, window }
}

} // verus!
