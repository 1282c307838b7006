//! Request and response shapes, and the paginated entity list.
//!
//! A request's parameters form a mapping with unique keys: adding a
//! parameter under an existing key replaces its value.

use vstd::prelude::*;
use crate::api::Api;
use crate::kvlist::kv_keys_unique;
use crate::kvlist::kv_upsert;
use crate::kvlist::kv_value;

verus! {

// ---------------------------------------------------------------------------
// Parameter lists with unique keys.
// ---------------------------------------------------------------------------

pub open spec fn params_keys_unique(ps: Seq<(String, String)>) -> bool {
    kv_keys_unique(ps)
}

/// The value stored under key `k`, if any, as text.
pub open spec fn param_value(ps: Seq<(String, String)>, k: Seq<char>) -> Option<Seq<char>> {
    match kv_value(ps, k) {
        Some(v) => Some(v@),
        None => None,
    }
}

/// The value that the last occurrence of key `k` carries in an arbitrary
/// (possibly repeating) pair list: later entries win.
pub open spec fn last_param_value(ps: Seq<(String, String)>, k: Seq<char>) -> Option<Seq<char>>
    decreases ps.len(),
{
    if ps.len() == 0 {
        None
    } else if ps.last().0@ == k {
        Some(ps.last().1@)
    } else {
        last_param_value(ps.drop_last(), k)
    }
}

/// As [`last_param_value`], over borrowed string pairs.
pub open spec fn last_param_value_strs(ps: Seq<(&str, &str)>, k: Seq<char>) -> Option<Seq<char>>
    decreases ps.len(),
{
    if ps.len() == 0 {
        None
    } else if ps.last().0@ == k {
        Some(ps.last().1@)
    } else {
        last_param_value_strs(ps.drop_last(), k)
    }
}

// ---------------------------------------------------------------------------
// The request.
// ---------------------------------------------------------------------------

/// One request to the remote service: an endpoint, string parameters with
/// unique keys, and the requested column names. Immutable once sent.
#[derive(Debug, Clone)]
pub struct TushareRequest {
    pub api_name: Api,
    pub params: Vec<(String, String)>,
    pub fields: Vec<String>,
}

impl TushareRequest {
    /// Parameter keys are unique.
    pub open spec fn wf(self) -> bool {
        params_keys_unique(self.params@)
    }

    /// Builds a request; a key given several times keeps its last value.
    pub fn new(api_name: Api, params: Vec<(String, String)>, fields: Vec<String>) -> (r: Self)
        ensures
            r.api_name == api_name,
            r.fields@ == fields@,
            r.wf(),
            forall|k: Seq<char>| param_value(r.params@, k) == last_param_value(params@, k),
    {
        let mut out: Vec<(String, String)> = Vec::new();
        let n = params.len();
        let mut i: usize = 0;
        while i < n
            invariant
                0 <= i <= n,
                n == params@.len(),
                params_keys_unique(out@),
                forall|k: Seq<char>|
                    param_value(out@, k) == last_param_value(
                        params@.subrange(0, i as int),
                        k,
                    ),
            decreases n - i,
        {
            let key = params[i].0.clone();
            let value = params[i].1.clone();
            let ghost gkey = key@;
            let ghost gvalue = value@;
            let ghost prefix = params@.subrange(0, i as int);
            let ghost out_before = out@;
            kv_upsert(&mut out, key, value);
            proof {
                let next = params@.subrange(0, i + 1 as int);
                assert(next.drop_last() =~= prefix);
                assert(next.last() == params@[i as int]);
                assert forall|k: Seq<char>|
                    param_value(out@, k) == last_param_value(next, k) by {
                    if k == gkey {
                        assert(param_value(out@, k) == Some(gvalue));
                    } else {
                        assert(param_value(out@, k) == param_value(out_before, k));
                        assert(param_value(out_before, k) == last_param_value(prefix, k));
                    }
                }
            }
            i = i + 1;
        }
        proof {
            assert(params@.subrange(0, n as int) =~= params@);
        }
        TushareRequest { api_name, params: out, fields }
    }

    /// Builds a request from borrowed string pairs and column names.
    pub fn with_str_params<const N: usize>(
        api_name: Api,
        params: [(&str, &str); N],
        fields: &[&str],
    ) -> (r: Self)
        ensures
            r.api_name == api_name,
            r.wf(),
            forall|k: Seq<char>| param_value(r.params@, k) == last_param_value_strs(params@, k),
            r.fields@.len() == fields@.len(),
            forall|i: int| 0 <= i < fields@.len() ==> (#[trigger] r.fields@[i])@ == fields@[i]@,
    {
        let mut out: Vec<(String, String)> = Vec::new();
        let mut i: usize = 0;
        while i < N
            invariant
                0 <= i <= N,
                params@.len() == N,
                params_keys_unique(out@),
                forall|k: Seq<char>|
                    param_value(out@, k) == last_param_value_strs(
                        params@.subrange(0, i as int),
                        k,
                    ),
            decreases N - i,
        {
            let key = params[i].0.to_owned();
            let value = params[i].1.to_owned();
            let ghost gkey = key@;
            let ghost gvalue = value@;
            let ghost prefix = params@.subrange(0, i as int);
            let ghost out_before = out@;
            kv_upsert(&mut out, key, value);
            proof {
                let next = params@.subrange(0, i + 1 as int);
                assert(next.drop_last() =~= prefix);
                assert(next.last() == params@[i as int]);
                assert forall|k: Seq<char>|
                    param_value(out@, k) == last_param_value_strs(next, k) by {
                    if k == gkey {
                        assert(param_value(out@, k) == Some(gvalue));
                    } else {
                        assert(param_value(out@, k) == param_value(out_before, k));
                        assert(param_value(out_before, k) == last_param_value_strs(prefix, k));
                    }
                }
            }
            i = i + 1;
        }
        proof {
            assert(params@.subrange(0, N as int) =~= params@);
        }
        let mut out_fields: Vec<String> = Vec::new();
        let mut j: usize = 0;
        while j < fields.len()
            invariant
                0 <= j <= fields@.len(),
                out_fields@.len() == j,
                forall|m: int| 0 <= m < j ==> (#[trigger] out_fields@[m])@ == fields@[m]@,
            decreases fields@.len() - j,
        {
            out_fields.push(fields[j].to_owned());
            j = j + 1;
        }
        TushareRequest { api_name, params: out, fields: out_fields }
    }

    /// Adds a parameter, replacing the value under an existing key.
    pub fn add_param(self, key: &str, value: &str) -> (r: Self)
        requires
            self.wf(),
        ensures
            r.wf(),
            r.api_name == self.api_name,
            r.fields@ == self.fields@,
            param_value(r.params@, key@) == Some(value@),
            forall|k: Seq<char>|
                k != key@ ==> param_value(r.params@, k) == param_value(self.params@, k),
    {
        let mut params = self.params;
        kv_upsert(&mut params, key.to_owned(), value.to_owned());
        TushareRequest { api_name: self.api_name, params, fields: self.fields }
    }

    /// Appends a requested column name.
    pub fn add_field(self, field: &str) -> (r: Self)
        ensures
            r.api_name == self.api_name,
            r.params@ == self.params@,
            r.fields@.len() == self.fields@.len() + 1,
            r.fields@.last()@ == field@,
            forall|i: int|
                0 <= i < self.fields@.len() ==> (#[trigger] r.fields@[i]) == self.fields@[i],
    {
        let mut fields = self.fields;
        fields.push(field.to_owned());
        TushareRequest { api_name: self.api_name, params: self.params, fields }
    }
}

// ---------------------------------------------------------------------------
// The response.
// ---------------------------------------------------------------------------

/// One page of response data: column names, rows of cells, and page-level
/// metadata. A well-formed table has one cell per column in every row.
#[derive(Debug, Clone, PartialEq)]
pub struct TushareData {
    pub fields: Vec<String>,
    pub items: Vec<Vec<crate::cell::CellValue>>,
    pub has_more: bool,
    pub count: i64,
}

impl TushareData {
    /// Every row has exactly one cell per column.
    pub open spec fn wf(self) -> bool {
        forall|i: int|
            0 <= i < self.items@.len() ==> (#[trigger] self.items@[i])@.len()
                == self.fields@.len()
    }
}

/// One raw response: a correlation id, a status code (0 is success), an
/// optional message, and an optional table.
#[derive(Debug, Clone, PartialEq)]
pub struct TushareResponse {
    pub request_id: String,
    pub code: i32,
    pub msg: Option<String>,
    pub data: Option<TushareData>,
}

// ---------------------------------------------------------------------------
// The paginated entity list.
// ---------------------------------------------------------------------------

/// A single-page, read-oriented container pairing converted entities with
/// page-level metadata. It never fetches further pages itself.
#[derive(Debug, Clone)]
pub struct TushareEntityList<T> {
    /// The items of this page.
    pub items: Vec<T>,
    /// Whether more pages are available.
    pub has_more: bool,
    /// Total records available across all pages; may exceed `items.len()`.
    pub count: i64,
}

impl<T> TushareEntityList<T> {
    pub fn new(items: Vec<T>, has_more: bool, count: i64) -> (r: Self)
        ensures
            r.items@ == items@,
            r.has_more == has_more,
            r.count == count,
    {
        TushareEntityList { items, has_more, count }
    }

    /// Number of items in this page.
    pub fn len(&self) -> (r: usize)
        ensures
            r == self.items@.len(),
    {
        self.items.len()
    }

    /// Is this page empty?
    pub fn is_empty(&self) -> (r: bool)
        ensures
            r == (self.items@.len() == 0),
    {
        self.items.len() == 0
    }

    /// The items of this page.
    pub fn items(&self) -> (r: &[T])
        ensures
            r@ == self.items@,
    {
        self.items.as_slice()
    }

    /// The items of this page, writable in place.
    pub fn items_mut(&mut self) -> (r: &mut Vec<T>)
        ensures
            *r == old(self).items,
            final(self).items == *final(r),
            final(self).has_more == old(self).has_more,
            final(self).count == old(self).count,
    {
        &mut self.items
    }

    /// Whether more pages are available.
    pub fn has_more(&self) -> (r: bool)
        ensures
            r == self.has_more,
    {
        self.has_more
    }

    /// Total records available across all pages.
    pub fn count(&self) -> (r: i64)
        ensures
            r == self.count,
    {
        self.count
    }

    /// The items of this page, for forward iteration.
    pub fn iter(&self) -> (r: &[T])
        ensures
            r@ == self.items@,
    {
        self.items.as_slice()
    }

    /// The items of this page, for in-place mutation.
    pub fn iter_mut(&mut self) -> (r: &mut Vec<T>)
        ensures
            *r == old(self).items,
            final(self).items == *final(r),
            final(self).has_more == old(self).has_more,
            final(self).count == old(self).count,
    {
        &mut self.items
    }

    /// Consumes the page into its items.
    pub fn into_items(self) -> (r: Vec<T>)
        ensures
            r@ == self.items@,
    {
        self.items
    }
}

impl<T> From<Vec<T>> for TushareEntityList<T> {
    /// A bare item list becomes a single complete page.
    fn from(items: Vec<T>) -> (r: Self) {
        TushareEntityList { items, has_more: false, count: 0 }
    }
}

impl<T> vstd::std_specs::convert::FromSpecImpl<Vec<T>> for TushareEntityList<T> {
    open spec fn obeys_from_spec() -> bool {
        true
    }

    open spec fn from_spec(items: Vec<T>) -> Self {
        TushareEntityList { items, has_more: false, count: 0 }
    }
}

} // verus!
