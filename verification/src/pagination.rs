//! Pagination is applied for some domains of the remote REST API, meaning
//! that only a certain number of resources will be returned within each
//! response.
//!
//! [`Pagination`] is an immutable cursor over such a result set: every
//! "setter" consumes the cursor and returns an updated copy, so a cursor can
//! be built by chaining calls and never changes behind a caller's back.

use vstd::prelude::*;

verus! {

/// The pagination query parameters of a paginated request.
///
/// `offset` is the starting point of the result set and `limit` the maximum
/// number of items returned; the remaining fields are optional sorting
/// directives, omitted from the request entirely when absent.
#[derive(Debug, Clone)]
#[non_exhaustive]
pub struct Pagination {
    /// Starting point for the result set.
    pub offset: u32,
    /// Maximum number of items to provide in the result.
    /// The remote API currently caps this value at
    /// [`PAGINATION_MAX_LIMIT`](crate::limits::PAGINATION_MAX_LIMIT),
    /// but the cap is advisory and not enforced here.
    pub limit: u32,
    /// Name of the field that the result set will be sorted by.
    pub sort: Option<String>,
    /// Page direction to apply for the given offset.
    pub direction: Option<Direction>,
    /// Sorting order of the result set.
    pub order: Option<Order>,
}

impl Default for Pagination {
    /// The default cursor: the first page of [`DEFAULT_LIMIT`](Pagination::DEFAULT_LIMIT)
    /// items, with no sorting directives.
    fn default() -> (r: Self)
        ensures
            r.offset == 0,
            r.limit == Pagination::DEFAULT_LIMIT,
            r.sort is None,
            r.direction is None,
            r.order is None,
    {
        Self { offset: 0, limit: Self::DEFAULT_LIMIT, sort: None, direction: None, order: None }
    }
}

impl Pagination {
    /// Limit value used by default, if not set explicitly.
    pub const DEFAULT_LIMIT: u32 = 20;

    /// Creates a new `Pagination` object with default values.
    pub fn new() -> (r: Self)
        ensures
            r.offset == 0,
            r.limit == Pagination::DEFAULT_LIMIT,
            r.sort is None,
            r.direction is None,
            r.order is None,
    {
        Self::default()
    }

    /// Sets the `offset` field.
    pub fn with_offset(self, offset: u32) -> (r: Self)
        ensures
            r.offset == offset,
            r.limit == self.limit,
            r.sort == self.sort,
            r.direction == self.direction,
            r.order == self.order,
    {
        Self { offset, ..self }
    }

    /// Sets the `direction` field.
    pub fn with_direction(self, direction: Direction) -> (r: Self)
        ensures
            r.offset == self.offset,
            r.limit == self.limit,
            r.sort == self.sort,
            r.direction == Some(direction),
            r.order == self.order,
    {
        Self { direction: Some(direction), ..self }
    }

    /// Sets the `limit` field.
    ///
    /// Does not check whether the `limit` value will be accepted by the
    /// remote API.
    /// If interested in a safe maximum limit, use [`Pagination::with_max_limit`].
    pub fn with_limit(self, limit: u32) -> (r: Self)
        ensures
            r.offset == self.offset,
            r.limit == limit,
            r.sort == self.sort,
            r.direction == self.direction,
            r.order == self.order,
    {
        Self { limit, ..self }
    }

    /// Sets the limit to [`PAGINATION_MAX_LIMIT`](crate::limits::PAGINATION_MAX_LIMIT),
    /// whatever it was before; every other field is kept.
    pub fn with_max_limit(self) -> (r: Self)
        ensures
            r.offset == self.offset,
            r.limit == crate::limits::PAGINATION_MAX_LIMIT,
            r.sort == self.sort,
            r.direction == self.direction,
            r.order == self.order,
    {
        Self { limit: crate::limits::PAGINATION_MAX_LIMIT, ..self }
    }

    /// Sets the `sort` field; `None` clears it.
    pub fn with_sort(self, sort: Option<String>) -> (r: Self)
        ensures
            r.offset == self.offset,
            r.limit == self.limit,
            r.sort == sort,
            r.direction == self.direction,
            r.order == self.order,
    {
        Self { sort, ..self }
    }

    /// Sets the `order` field.
    pub fn with_order(self, order: Order) -> (r: Self)
        ensures
            r.offset == self.offset,
            r.limit == self.limit,
            r.sort == self.sort,
            r.direction == self.direction,
            r.order == Some(order),
    {
        Self { order: Some(order), ..self }
    }

    /// Creates an object that represents the next page: the offset moves
    /// forward by exactly the page limit.
    pub fn next(self) -> (r: Self)
        requires
            self.offset + self.limit <= u32::MAX,
        ensures
            r.offset == self.offset + self.limit,
            r.limit == self.limit,
            r.sort == self.sort,
            r.direction == self.direction,
            r.order == self.order,
    {
        Self { offset: self.offset + self.limit, ..self }
    }

    /// Creates an object that represents the previous page: the offset moves
    /// back by exactly the page limit.
    /// Returns `None` if and only if `offset` is less than `limit`, so the
    /// offset can never go negative.
    pub fn prev(self) -> (r: Option<Self>)
        ensures
            self.offset < self.limit ==> r is None,
            self.offset >= self.limit ==> (r matches Some(p)
                && p.offset == self.offset - self.limit
                && p.limit == self.limit
                && p.sort == self.sort
                && p.direction == self.direction
                && p.order == self.order),
    {
        if self.offset < self.limit {
            return None;
        }
        Some(Self { offset: self.offset - self.limit, ..self })
    }
}

/// Page direction to apply for the given offset.
#[derive(Debug, Default, Clone, Copy, PartialEq, Eq)]
pub enum Direction {
    /// Greater than the given offset (default value).
    #[default]
    Next,
    /// Less than the given offset.
    Prev,
}

/// Sorting order of the result set.
#[derive(Debug, Default, Clone, Copy, PartialEq, Eq)]
pub enum Order {
    /// Sort the result set in descending order (default value).
    #[default]
    Desc,
    /// Sort the result set in ascending order.
    Asc,
}

} // verus!
