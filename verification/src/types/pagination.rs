//! Cursor-based pagination: list envelopes and list parameters.

use vstd::prelude::*;

verus! {

/// One page of a list endpoint's results.
#[derive(Debug, Clone, PartialEq, Eq)]
pub struct List<T> {
    pub object: String,
    pub data: Vec<T>,
    pub has_more: bool,
    pub next_page: Option<String>,
    pub total_count: Option<u64>,
}

impl<T> List<T> {
    /// An empty page.
    pub fn empty() -> (r: List<T>)
        ensures
            r.object@ == "list"@,
            r.data@.len() == 0,
            !r.has_more,
            r.next_page is None,
            r.total_count == Some(0u64),
    {
        List {
            object: String::from_str("list"),
            data: Vec::new(),
            has_more: false,
            next_page: None,
            total_count: Some(0),
        }
    }

    /// Whether the page holds no items.
    pub fn is_empty(&self) -> (r: bool)
        ensures
            r == (self.data@.len() == 0),
    {
        self.data.is_empty()
    }

    /// How many items the page holds.
    pub fn len(&self) -> (r: usize)
        ensures
            r == self.data@.len(),
    {
        self.data.len()
    }

    /// The items of the page, taken out of the envelope.
    pub fn into_vec(self) -> (r: Vec<T>)
        ensures
            r == self.data,
    {
        self.data
    }

    /// The items of the page.
    pub fn iter(&self) -> (r: &Vec<T>)
        ensures
            r == &self.data,
    {
        &self.data
    }
}

impl<T> Default for List<T> {
    /// An empty page.
    fn default() -> (r: Self)
        ensures
            r.object@ == "list"@,
            r.data@.len() == 0,
            !r.has_more,
            r.next_page is None,
            r.total_count == Some(0u64),
    {
        List::empty()
    }
}

/// Common query parameters of list endpoints. A requested page size is
/// clamped to the servable range of one to one hundred.
#[derive(Debug, Clone, PartialEq, Eq)]
pub struct ListParams {
    pub limit: Option<u32>,
    pub starting_after: Option<String>,
    pub ending_before: Option<String>,
}

impl ListParams {
    /// Parameters requesting the default page.
    pub fn new() -> (r: Self)
        ensures
            r.limit is None,
            r.starting_after is None,
            r.ending_before is None,
    {
        ListParams { limit: None, starting_after: None, ending_before: None }
    }

    /// Requests a page size, clamped to the servable range.
    pub fn limit(self, limit: u32) -> (r: Self)
        ensures
            r.limit == Some(
                if limit < 1 {
                    1u32
                } else if limit > 100 {
                    100u32
                } else {
                    limit
                },
            ),
            r.starting_after == self.starting_after,
            r.ending_before == self.ending_before,
    {
        let clamped = if limit < 1 {
            1
        } else if limit > 100 {
            100
        } else {
            limit
        };
        ListParams { limit: Some(clamped), ..self }
    }

    /// Requests the page after the object with this id.
    pub fn starting_after(self, id: &str) -> (r: Self)
        ensures
            r.starting_after matches Some(v) && v@ == id@,
            r.limit == self.limit,
            r.ending_before == self.ending_before,
    {
        ListParams { starting_after: Some(id.to_owned()), ..self }
    }

    /// Requests the page before the object with this id.
    pub fn ending_before(self, id: &str) -> (r: Self)
        ensures
            r.ending_before matches Some(v) && v@ == id@,
            r.limit == self.limit,
            r.starting_after == self.starting_after,
    {
        ListParams { ending_before: Some(id.to_owned()), ..self }
    }
}

impl Default for ListParams {
    /// Parameters requesting the default page.
    fn default() -> (r: Self)
        ensures
            r.limit is None,
            r.starting_after is None,
            r.ending_before is None,
    {
        ListParams::new()
    }
}

} // verus!
