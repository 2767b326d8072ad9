//! The requests for the entries of a list, and what the client makes of the
//! answers of the service.
use vstd::prelude::*;
use vstd::string::*;
use crate::error::{Error, ErrorResult};
use crate::json::{empty_object, json_of, object_value, Json, JsonMap};
use crate::records::{OrderBy, SortDirection};
use crate::types::ID;

verus! {

/// Parameters for get_list_entries
#[derive(Debug)]
pub struct GetEntriesRequest {
    /// filter object to filter the response
    pub filter: serde_json::Value,
    /// number of entries that will be returned
    pub limit: usize,
    /// number of entries to skip
    pub skip: usize,
    /// whether to include deprecated entries
    pub allow_deprecated: bool,
    /// sort order
    pub order_by: Vec<OrderBy>,
}

impl GetEntriesRequest {
    /// Whether the request asks for `limit` entries after the first `skip`,
    /// in the given order, with a filter that lets every entry through and
    /// without deprecated entries.
    pub open spec fn asks_for(&self, limit: usize, skip: usize, order_by: Seq<OrderBy>) -> bool {
        &&& json_of(self.filter) == Json::Obj(empty_object())
        &&& self.limit == limit
        &&& self.skip == skip
        &&& !self.allow_deprecated
        &&& self.order_by@ == order_by
    }

    /// The request for `limit` entries after the first `skip`, in the order
    /// of one column, or in no order if none is given.
    pub fn sorted(sort: Option<(&str, SortDirection)>, limit: usize, skip: usize) -> (r: Self)
        ensures
            json_of(r.filter) == Json::Obj(empty_object()),
            r.limit == limit,
            r.skip == skip,
            !r.allow_deprecated,
            match sort {
                Some((column, direction)) => r.order_by@.len() == 1 && r.order_by@[0].direction
                    == direction && (r.order_by@[0].column matches Some(c) && c@ == column@),
                None => r.order_by@.len() == 0,
            },
    {
        let mut order_by: Vec<OrderBy> = Vec::new();
        if let Some((sort_field, sort_dir)) = sort {
            order_by.push(OrderBy { column: Some(String::from_str(sort_field)), direction: sort_dir });
        }
        GetEntriesRequest {
            filter: object_value(JsonMap::new()),
            limit,
            skip,
            allow_deprecated: false,
            order_by,
        }
    }
}

impl Default for GetEntriesRequest {
    fn default() -> (r: Self)
        ensures
            r.asks_for(0, 0, Seq::empty()),
    {
        let r = GetEntriesRequest::sorted(None, 0, 0);
        assert(r.order_by@ =~= Seq::empty());
        r
    }
}

/// Parameters for get_entries_for_list_view
#[derive(Debug)]
pub struct GetEntriesViewRequest {
    /// filter-object to filter the response
    pub filter: serde_json::Value,
    /// optional group_by (for persons and categories)
    pub group_by_element_id: ID,
    /// number of items to return
    pub limit: u64,
    /// starting item number
    pub skip: u64,
    /// Allow deprecated entries to be included in the response.
    pub allow_deprecated: bool,
    /// Divide the entries into two groups, todo and done. This only works
    /// for lists that have the task addon activated.
    pub task_style: bool,
}

impl Default for GetEntriesViewRequest {
    fn default() -> (r: Self)
        ensures
            json_of(r.filter) == Json::Obj(empty_object()),
            r.group_by_element_id == 0,
            r.limit == 0,
            r.skip == 0,
            !r.allow_deprecated,
            !r.task_style,
    {
        GetEntriesViewRequest {
            filter: object_value(JsonMap::new()),
            group_by_element_id: 0,
            limit: 0,
            skip: 0,
            allow_deprecated: false,
            task_style: false,
        }
    }
}

/// The number of entries that one request for the items of a list asks for.
pub const PAGE_SIZE: usize = 500;

/// Where the fetch of all items of a list stands: how many entries came so far.
#[derive(Debug)]
pub struct Pager {
    start_index: usize,
}

impl View for Pager {
    type V = nat;

    closed spec fn view(&self) -> nat {
        self.start_index as nat
    }
}

impl Pager {
    /// Before the first request.
    pub fn new() -> (r: Self)
        ensures
            r@ == 0,
    {
        Pager { start_index: 0 }
    }

    /// The number of entries that came so far.
    pub fn received(&self) -> (r: usize)
        ensures
            r == self@,
    {
        self.start_index
    }

    /// The request for the next page: a page of entries after those that came.
    pub fn request(&self) -> (r: GetEntriesRequest)
        ensures
            r.asks_for(PAGE_SIZE, self@ as usize, Seq::empty()),
    {
        let r = GetEntriesRequest::sorted(None, PAGE_SIZE, self.start_index);
        assert(r.order_by@ =~= Seq::empty());
        r
    }

    /// Takes note of a page of `received` entries, and tells whether to ask
    /// for another: an empty page was the last.
    pub fn advance(&mut self, received: usize) -> (more: bool)
        requires
            old(self)@ + received <= usize::MAX,
        ensures
            more == (received > 0),
            final(self)@ == old(self)@ + received,
    {
        self.start_index = self.start_index + received;
        received > 0
    }
}

/// Whether an HTTP status reports success: it is one of the 200s.
pub open spec fn is_success(status: u16) -> bool {
    200 <= status <= 299
}

/// What the client makes of the status of an answer: nothing of a success,
/// and of any other status an error of the service with that status and with
/// the error details, where the body of the answer held them.
pub fn response_error(status: u16, details: Option<ErrorResult>) -> (r: Option<Error>)
    ensures
        match r {
            None => is_success(status),
            Some(e) => !is_success(status) && (e matches Error::ApiError(s, info) && s == status && info
                == (match details {
                Some(d) => Some(d.error),
                None => None,
            })),
        },
{
    if status >= 200 && status <= 299 {
        None
    } else {
        Some(
            Error::ApiError(
                status,
                match details {
                    Some(d) => Some(d.error),
                    None => None,
                },
            ),
        )
    }
}

} // verus!
