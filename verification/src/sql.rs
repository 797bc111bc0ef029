//! The SQL query builder: owns the query's shape, renders it to SQL text with
//! the correct LIMIT/OFFSET, and delegates pagination bookkeeping to the
//! generic paginator.

use vstd::prelude::*;
use std::collections::VecDeque;
use crate::error::Error;
use crate::pager::PageInfo;
use crate::pager::Pager;
use crate::pager::Paginator;
use crate::pager::next_offset;
use crate::pager::prev_offset;
use crate::utils::b64_of;
use crate::utils::dec_chars;
use crate::utils::dec_rep;
use crate::utils::decode_u64;
use crate::utils::decoded_offset;
use crate::utils::encode_u64;
use crate::utils::u64_to_string;

verus! {

/// Page sizes are clamped here before validation, which then rejects anything
/// not strictly below it.
pub const MAX_PAGE_SIZE: u64 = 100;

/// A description of one paged SQL query. `projection` empty means "all
/// columns"; `filter` and `order` are raw clause bodies passed through
/// verbatim; `cursor` is an opaque token from the cursor codec.
#[derive(Debug, Clone, Default, PartialEq, Eq)]
pub struct SqlQuery {
    /// source table or view
    pub source: String,
    /// fields to include in the result
    pub projection: Vec<String>,
    /// filter condition (the WHERE clause)
    pub filter: Option<String>,
    /// sort order (the ORDER BY clause)
    pub order: Option<String>,
    /// previous page cursor, in base64 (the number of rows to skip)
    pub cursor: Option<String>,
    /// page size
    pub page_size: u64,
}

/// The views of an optional string.
pub open spec fn opt_view(o: Option<String>) -> Option<Seq<char>> {
    match o {
        Some(s) => Some(s@),
        None => None,
    }
}

/// The offset this query's cursor stands for: absent when there is no cursor
/// or the token does not decode. A corrupted or foreign cursor degrades to an
/// unfiltered first page rather than aborting the query.
pub open spec fn cursor_offset(q: SqlQuery) -> Option<u64> {
    match q.cursor {
        Some(c) => decoded_offset(c@),
        None => None,
    }
}

/// `page_size` after normalization: zero becomes the default of 10, anything
/// above the maximum is clamped to the maximum.
pub open spec fn normalized_size(ps: u64) -> u64 {
    if ps == 0 {
        10
    } else if ps > MAX_PAGE_SIZE {
        MAX_PAGE_SIZE
    } else {
        ps
    }
}

/// The column expressions joined with `", "`.
pub open spec fn comma_join(cols: Seq<Seq<char>>) -> Seq<char>
    decreases cols.len(),
{
    if cols.len() == 0 {
        Seq::empty()
    } else if cols.len() == 1 {
        cols[0]
    } else {
        comma_join(cols.drop_last()) + ", "@ + cols.last()
    }
}

/// The projection fragment: `*` when no columns are listed.
pub open spec fn proj_text(cols: Seq<Seq<char>>) -> Seq<char> {
    if cols.len() == 0 {
        "*"@
    } else {
        comma_join(cols)
    }
}

/// A fragment prefixed by the single joining space, or nothing when the
/// fragment is empty (an empty fragment is omitted entirely).
pub open spec fn sep(f: Seq<char>) -> Seq<char> {
    if f.len() == 0 {
        Seq::empty()
    } else {
        " "@ + f
    }
}

pub open spec fn where_frag(f: Option<Seq<char>>) -> Seq<char> {
    match f {
        Some(x) => "WHERE "@ + x,
        None => Seq::empty(),
    }
}

pub open spec fn order_frag(f: Option<Seq<char>>) -> Seq<char> {
    match f {
        Some(x) => "ORDER BY "@ + x,
        None => Seq::empty(),
    }
}

/// The rendered LIMIT: one more than the page size for the lookahead row, and
/// one more again when a cursor is present.
pub open spec fn limit_of(q: SqlQuery) -> int {
    q.page_size + (if q.cursor is Some {
        2int
    } else {
        1int
    })
}

/// The rendered OFFSET: the decoded cursor, or zero when absent or
/// undecodable.
pub open spec fn offset_of(q: SqlQuery) -> u64 {
    match cursor_offset(q) {
        Some(v) => v,
        None => 0,
    }
}

/// The full rendered statement: fixed clause order, empty fragments omitted,
/// present fragments joined by single spaces.
pub open spec fn sql_text(q: SqlQuery) -> Seq<char> {
    "SELECT"@ + sep(proj_text(q.projection.deep_view())) + sep("FROM"@) + sep(q.source@) + sep(
        where_frag(opt_view(q.filter)),
    ) + sep(order_frag(opt_view(q.order))) + sep("LIMIT"@) + sep(dec_chars(limit_of(q) as nat))
        + sep("OFFSET"@) + sep(dec_chars(offset_of(q) as nat))
}

fn clone_opt(o: &Option<String>) -> (r: Option<String>)
    ensures
        opt_view(r) == opt_view(*o),
{
    match o {
        Some(s) => Some(s.clone()),
        None => None,
    }
}

fn clone_cols(v: &Vec<String>) -> (r: Vec<String>)
    ensures
        r.deep_view() == v.deep_view(),
{
    let mut out: Vec<String> = Vec::new();
    let mut i: usize = 0;
    while i < v.len()
        invariant
            i <= v@.len(),
            out@.len() == i,
            forall|j: int| 0 <= j < i ==> out@[j]@ == v@[j]@,
        decreases v@.len() - i,
    {
        out.push(v[i].clone());
        i = i + 1;
    }
    proof {
        assert(out.deep_view() =~= v.deep_view());
    }
    out
}

impl SqlQuery {
    /// Renders the query as SQL text, exactly as `sql_text` describes it.
    #[verifier::rlimit(100)]
    pub fn to_sql(&self) -> (r: String)
        requires
            self.page_size + 2 <= u64::MAX,
        ensures
            r@ == sql_text(*self),
    {
        proof {
            reveal_strlit("SELECT");
            reveal_strlit("FROM");
            reveal_strlit("WHERE ");
            reveal_strlit("ORDER BY ");
            reveal_strlit("LIMIT");
            reveal_strlit("OFFSET");
        }
        let middle_plus: u64 = if self.cursor.is_none() {
            0
        } else {
            1
        };
        let limit: u64 = self.page_size + 1 + middle_plus;
        let offset: u64 = match self.get_cursor() {
            Some(v) => v,
            None => 0,
        };

        let ghost cols = self.projection.deep_view();
        let mut out: String = "SELECT".to_owned();
        let proj = self.projection();
        if !proj.as_str().is_empty() {
            out.append(" ");
            out.append(proj.as_str());
        }
        proof {
            assert(out@ =~= "SELECT"@ + sep(proj_text(cols)));
        }
        out.append(" ");
        out.append("FROM");
        if !self.source.as_str().is_empty() {
            out.append(" ");
            out.append(self.source.as_str());
        }
        proof {
            assert(out@ =~= "SELECT"@ + sep(proj_text(cols)) + sep("FROM"@) + sep(self.source@));
        }
        match &self.filter {
            Some(f) => {
                out.append(" ");
                out.append("WHERE ");
                out.append(f.as_str());
            },
            None => {},
        }
        proof {
            assert(out@ =~= "SELECT"@ + sep(proj_text(cols)) + sep("FROM"@) + sep(self.source@)
                + sep(where_frag(opt_view(self.filter))));
        }
        match &self.order {
            Some(o) => {
                out.append(" ");
                out.append("ORDER BY ");
                out.append(o.as_str());
            },
            None => {},
        }
        proof {
            assert(out@ =~= "SELECT"@ + sep(proj_text(cols)) + sep("FROM"@) + sep(self.source@)
                + sep(where_frag(opt_view(self.filter))) + sep(order_frag(opt_view(self.order))));
        }
        out.append(" ");
        out.append("LIMIT");
        out.append(" ");
        let limit_str = u64_to_string(limit);
        out.append(limit_str.as_str());
        out.append(" ");
        out.append("OFFSET");
        out.append(" ");
        let offset_str = u64_to_string(offset);
        out.append(offset_str.as_str());
        proof {
            assert(dec_chars(limit as nat).len() > 0);
            assert(dec_chars(offset as nat).len() > 0);
            assert(out@ =~= sql_text(*self));
        }
        out
    }

    /// Computes the navigation for this query's page from the fetched rows,
    /// which must include the one-row lookahead; pops the lookahead row when a
    /// further page exists.
    pub fn get_pager<T>(&self, data: &mut VecDeque<T>) -> (r: Pager)
        requires
            self.page_size > 0,
            cursor_offset(*self) matches Some(c) ==> c + self.page_size <= u64::MAX,
        ensures
            r.prev == prev_offset(cursor_offset(*self), self.page_size),
            r.total is None,
            old(data)@.len() > self.page_size ==> r.next == Some(
                next_offset(cursor_offset(*self), self.page_size),
            ) && final(data)@.len() == old(data)@.len() - 1,
            old(data)@.len() <= self.page_size ==> r.next is None && final(data)@.len() == old(data)@.len(),
    {
        let page_info = self.page_info();
        page_info.get_pager(data)
    }

    /// Computes the navigation as `get_pager` does, after checking at run time
    /// that the page size is positive and that the decoded cursor offset
    /// leaves room to advance by one page; `None` when either check fails,
    /// with the rows untouched.
    pub fn try_get_pager<T>(&self, data: &mut VecDeque<T>) -> (r: Option<Pager>)
        ensures
            r is Some <==> (self.page_size > 0 && (cursor_offset(*self) matches Some(c) ==> c
                + self.page_size <= u64::MAX)),
            r matches Some(p) ==> p.prev == prev_offset(cursor_offset(*self), self.page_size)
                && p.total is None,
            r matches Some(p) ==> (old(data)@.len() > self.page_size ==> p.next == Some(
                next_offset(cursor_offset(*self), self.page_size),
            ) && final(data)@.len() == old(data)@.len() - 1),
            r matches Some(p) ==> (old(data)@.len() <= self.page_size ==> p.next is None && final(data)@.len() == old(data)@.len()),
            r is None ==> final(data)@ == old(data)@,
    {
        if self.page_size == 0 {
            return None;
        }
        match self.get_cursor() {
            Some(c) => {
                if c > u64::MAX - self.page_size {
                    return None;
                }
            },
            None => {},
        }
        Some(self.get_pager(data))
    }

    /// The offset this query's cursor stands for; a missing or undecodable
    /// cursor yields `None`.
    pub fn get_cursor(&self) -> (r: Option<u64>)
        ensures
            r == cursor_offset(*self),
    {
        match &self.cursor {
            Some(c) => match decode_u64(c.as_str()) {
                Ok(v) => Some(v),
                Err(_) => None,
            },
            None => None,
        }
    }

    /// The query for the following page, if the pager found one: the same
    /// source, projection, filter and order, with the cursor replaced by the
    /// encoding of the next offset.
    pub fn next_page(&self, pager: &Pager) -> (r: Option<SqlQuery>)
        ensures
            r is Some <==> pager.next is Some,
            r matches Some(q) ==> ({
                &&& q.source@ == self.source@
                &&& q.projection.deep_view() == self.projection.deep_view()
                &&& opt_view(q.filter) == opt_view(self.filter)
                &&& opt_view(q.order) == opt_view(self.order)
                &&& q.page_size == self.page_size
                &&& (q.cursor matches Some(c) && c@ == b64_of(dec_rep(pager.next->0 as nat)))
                &&& cursor_offset(q) == pager.next
            }),
    {
        let page_info = self.page_info();
        match page_info.next_page(pager) {
            None => None,
            Some(pi) => {
                let cursor = match pi.cursor {
                    Some(c) => Some(encode_u64(c)),
                    None => None,
                };
                Some(
                    SqlQuery {
                        source: self.source.clone(),
                        projection: clone_cols(&self.projection),
                        filter: clone_opt(&self.filter),
                        order: clone_opt(&self.order),
                        cursor,
                        page_size: pi.page_size,
                    },
                )
            },
        }
    }

    /// This query's page descriptor: the decoded cursor and the page size.
    fn page_info(&self) -> (r: PageInfo)
        ensures
            r.cursor == cursor_offset(*self),
            r.page_size == self.page_size,
    {
        PageInfo { cursor: self.get_cursor(), page_size: self.page_size }
    }

    /// The projection fragment: `*` when no columns are listed, else the
    /// columns joined with `", "`.
    #[verifier::loop_isolation(false)]
    fn projection(&self) -> (r: String)
        ensures
            r@ == proj_text(self.projection.deep_view()),
    {
        if self.projection.len() == 0 {
            return "*".to_owned();
        }
        let ghost cols = self.projection.deep_view();
        let mut out: String = String::new();
        let mut i: usize = 0;
        while i < self.projection.len()
            invariant
                0 < self.projection@.len(),
                i <= self.projection@.len(),
                out@ == comma_join(cols.take(i as int)),
            decreases self.projection@.len() - i,
        {
            if i > 0 {
                out.append(", ");
            }
            out.append(self.projection[i].as_str());
            proof {
                assert(cols.take(i as int + 1).drop_last() =~= cols.take(i as int));
                assert(cols.take(i as int + 1).last() == cols[i as int]);
                if i == 0 {
                    assert(comma_join(cols.take(1)) == cols[0]);
                }
            }
            i = i + 1;
        }
        proof {
            assert(cols.take(self.projection@.len() as int) =~= cols);
        }
        out
    }

    /// Rejects a page size outside `[1, 99]` (after normalization) and an
    /// empty source, in that order.
    fn validate(&self) -> (r: Result<(), Error>)
        ensures
            r is Ok <==> (0 < self.page_size < MAX_PAGE_SIZE && self.source@.len() > 0),
            r matches Err(e) ==> e == (if !(0 < self.page_size < MAX_PAGE_SIZE) {
                (Error::InvalidPageSize { size: self.page_size })
            } else {
                Error::InvalidSource
            }),
    {
        if !(self.page_size > 0 && self.page_size < MAX_PAGE_SIZE) {
            return Err(Error::InvalidPageSize { size: self.page_size });
        }
        if self.source.as_str().is_empty() {
            return Err(Error::InvalidSource);
        }
        Ok(())
    }

    /// Applies the documented normalization: a zero page size becomes the
    /// default of 10; anything above the maximum is clamped to the maximum.
    fn normalize(&mut self)
        ensures
            final(self).page_size == normalized_size(old(self).page_size),
            final(self).source == old(self).source,
            final(self).projection == old(self).projection,
            final(self).filter == old(self).filter,
            final(self).order == old(self).order,
            final(self).cursor == old(self).cursor,
    {
        if self.page_size == 0 {
            self.page_size = 10;
        } else if self.page_size > MAX_PAGE_SIZE {
            self.page_size = MAX_PAGE_SIZE;
        }
    }
}

/// Collects the fields of a `SqlQuery` one at a time; `build` fills in the
/// defaults, normalizes and validates. Every field is optional: an unset
/// source is the empty string (and fails validation), an unset page size is
/// zero (and normalizes to the default).
#[derive(Debug, Clone, PartialEq, Eq)]
pub struct SqlQueryBuilder {
    pub source: Option<String>,
    pub projection: Option<Vec<String>>,
    pub filter: Option<String>,
    pub order: Option<String>,
    pub cursor: Option<String>,
    pub page_size: Option<u64>,
}

impl Default for SqlQueryBuilder {
    /// The builder with nothing set.
    fn default() -> (r: Self)
        ensures
            r.source is None,
            r.projection is None,
            r.filter is None,
            r.order is None,
            r.cursor is None,
            r.page_size is None,
    {
        SqlQueryBuilder {
            source: None,
            projection: None,
            filter: None,
            order: None,
            cursor: None,
            page_size: None,
        }
    }
}

/// The source `build` will use: empty when unset.
pub open spec fn chosen_source(b: SqlQueryBuilder) -> Seq<char> {
    match b.source {
        Some(s) => s@,
        None => Seq::empty(),
    }
}

/// The projection `build` will use: no columns when unset.
pub open spec fn chosen_projection(b: SqlQueryBuilder) -> Seq<Seq<char>> {
    match b.projection {
        Some(v) => v.deep_view(),
        None => Seq::empty(),
    }
}

/// The page size `build` will normalize: zero when unset.
pub open spec fn chosen_page_size(b: SqlQueryBuilder) -> u64 {
    match b.page_size {
        Some(p) => p,
        None => 0,
    }
}

impl SqlQueryBuilder {
    pub fn source(self, value: &str) -> (r: Self)
        ensures
            r.source matches Some(s) && s@ == value@,
            r.projection == self.projection,
            r.filter == self.filter,
            r.order == self.order,
            r.cursor == self.cursor,
            r.page_size == self.page_size,
    {
        SqlQueryBuilder { source: Some(value.to_owned()), ..self }
    }

    pub fn projection(self, value: Vec<String>) -> (r: Self)
        ensures
            r.projection == Some(value),
            r.source == self.source,
            r.filter == self.filter,
            r.order == self.order,
            r.cursor == self.cursor,
            r.page_size == self.page_size,
    {
        SqlQueryBuilder { projection: Some(value), ..self }
    }

    pub fn filter(self, value: &str) -> (r: Self)
        ensures
            r.filter matches Some(s) && s@ == value@,
            r.source == self.source,
            r.projection == self.projection,
            r.order == self.order,
            r.cursor == self.cursor,
            r.page_size == self.page_size,
    {
        SqlQueryBuilder { filter: Some(value.to_owned()), ..self }
    }

    pub fn order(self, value: &str) -> (r: Self)
        ensures
            r.order matches Some(s) && s@ == value@,
            r.source == self.source,
            r.projection == self.projection,
            r.filter == self.filter,
            r.cursor == self.cursor,
            r.page_size == self.page_size,
    {
        SqlQueryBuilder { order: Some(value.to_owned()), ..self }
    }

    pub fn cursor(self, value: &str) -> (r: Self)
        ensures
            r.cursor matches Some(s) && s@ == value@,
            r.source == self.source,
            r.projection == self.projection,
            r.filter == self.filter,
            r.order == self.order,
            r.page_size == self.page_size,
    {
        SqlQueryBuilder { cursor: Some(value.to_owned()), ..self }
    }

    pub fn page_size(self, value: u64) -> (r: Self)
        ensures
            r.page_size == Some(value),
            r.source == self.source,
            r.projection == self.projection,
            r.filter == self.filter,
            r.order == self.order,
            r.cursor == self.cursor,
    {
        SqlQueryBuilder { page_size: Some(value), ..self }
    }

    /// Builds the query: defaults for the unset fields, then normalization,
    /// then validation. Succeeds exactly when the normalized page size lies in
    /// `[1, 99]` and the source is nonempty, and then returns exactly the
    /// collected fields; a clamped page size is reported back in
    /// `InvalidPageSize` as the clamped value, not the requested one.
    pub fn build(&self) -> (r: Result<SqlQuery, Error>)
        ensures
            r is Ok <==> (0 < normalized_size(chosen_page_size(*self)) < MAX_PAGE_SIZE
                && chosen_source(*self).len() > 0),
            r matches Ok(q) ==> ({
                &&& q.source@ == chosen_source(*self)
                &&& q.projection.deep_view() == chosen_projection(*self)
                &&& opt_view(q.filter) == opt_view(self.filter)
                &&& opt_view(q.order) == opt_view(self.order)
                &&& opt_view(q.cursor) == opt_view(self.cursor)
                &&& q.page_size == normalized_size(chosen_page_size(*self))
            }),
            r matches Err(e) ==> e == (if !(0 < normalized_size(chosen_page_size(*self))
                < MAX_PAGE_SIZE) {
                (Error::InvalidPageSize { size: normalized_size(chosen_page_size(*self)) })
            } else {
                Error::InvalidSource
            }),
    {
        let mut data = SqlQuery {
            source: match &self.source {
                Some(s) => s.clone(),
                None => String::new(),
            },
            projection: match &self.projection {
                Some(v) => clone_cols(v),
                None => Vec::new(),
            },
            filter: clone_opt(&self.filter),
            order: clone_opt(&self.order),
            cursor: clone_opt(&self.cursor),
            page_size: match &self.page_size {
                Some(p) => *p,
                None => 0,
            },
        };
        proof {
            if self.projection is None {
                assert(data.projection.deep_view() =~= Seq::<Seq<char>>::empty());
            }
        }
        data.normalize();
        match data.validate() {
            Ok(()) => Ok(data),
            Err(e) => Err(e),
        }
    }
}

} // verus!
