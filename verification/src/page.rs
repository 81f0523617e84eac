//! Paginated results.

use vstd::prelude::*;
use vstd::std_specs::convert::FromSpecImpl;

verus! {

/// One page out of a larger list of results, with the position of the page
/// inside the full list.
#[derive(Debug, Clone)]
pub struct Page<T> {
    /// The items of the page; empty when there are no results.
    pub data: Vec<T>,
    /// Position of the first item inside the full list, normally counted
    /// from zero.
    pub offset: i64,
    /// How many items the page carries. It can be smaller than the size
    /// that was asked for.
    pub page_size: i64,
    /// Size of the full list, the items of this page included, when it
    /// was counted.
    pub total: Option<i64>,
    /// A note for the user that goes along with the results, such as a hint
    /// on how to get more of them.
    pub message: Option<String>,
    /// A warning for the user that goes along with the results, such as the
    /// use of a deprecated source.
    pub warning: Option<String>,
}

/// A length as the `i64` in which a page carries it. Every length up to
/// `i64::MAX` is carried unchanged.
pub open spec fn len_as_size(len: nat) -> i64 {
    len as i64
}

impl<T> Page<T> {
    /// `page_size` tells how many items `data` holds.
    pub open spec fn is_sized(&self) -> bool {
        self.page_size == len_as_size(self.data@.len())
    }

    /// The page has no notes attached.
    pub open spec fn is_plain(&self) -> bool {
        self.message is None && self.warning is None
    }

    /// A page without items, for a list that is known to be empty.
    pub fn empty() -> (page: Page<T>)
        ensures
            page.data@ == Seq::<T>::empty(),
            page.offset == 0,
            page.page_size == 0,
            page.total == Some(0i64),
            page.is_plain(),
            page.is_sized(),
    {
        Page { data: Vec::new(), offset: 0, page_size: 0, total: Some(0), message: None, warning: None }
    }

    /// A page that holds `data`, found at `offset` of a list of `total`
    /// items. The page size is always the length of `data`; `total` and
    /// `offset` are taken as given.
    pub fn with_data(data: Vec<T>, total: Option<i64>, offset: i64) -> (page: Self)
        ensures
            page.data == data,
            page.total == total,
            page.offset == offset,
            page.page_size == len_as_size(data@.len()),
            data@.len() <= i64::MAX ==> page.page_size == data@.len(),
            page.is_plain(),
            page.is_sized(),
    {
        let page_size: i64 = data.len() as i64;
        Page { data, total, offset, page_size, message: None, warning: None }
    }
}

impl<T> From<Vec<T>> for Page<T> {
    /// The only page of a list that is held in full: it starts at zero, and
    /// both `page_size` and `total` are the length of `vec`.
    fn from(vec: Vec<T>) -> (page: Self) {
        let len: i64 = vec.len() as i64;
        Page { data: vec, offset: 0, page_size: len, total: Some(len), message: None, warning: None }
    }
}

impl<T> FromSpecImpl<Vec<T>> for Page<T> {
    open spec fn obeys_from_spec() -> bool {
        true
    }

    open spec fn from_spec(vec: Vec<T>) -> Self {
        Page {
            data: vec,
            offset: 0,
            page_size: len_as_size(vec@.len()),
            total: Some(len_as_size(vec@.len())),
            message: None,
            warning: None,
        }
    }
}

} // verus!
