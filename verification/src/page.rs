//! Page windows over a remote listing that knows a page size but no offset.
//!
//! The delivery service lists the most recent items, newest first, up to a
//! number that the caller names. To show the items `offset .. offset + limit`
//! the client asks for the first `offset + limit` items in one call and cuts
//! the page out of what comes back. The service hands out at most
//! [`MAX_FETCH`] items at once, so what lies behind them cannot be reached.

use vstd::prelude::*;
use resend_rs::list_opts::{ListOptions, TimeNotSpecified};

verus! {

/// Items per page where the caller names none.
pub const DEFAULT_LIMIT: usize = 12;

/// Items skipped where the caller names none.
pub const DEFAULT_OFFSET: usize = 0;

/// The largest number of items the service is asked for in one listing.
pub const MAX_FETCH: usize = 255;

/// The page size asked for, or the default.
pub open spec fn limit_or_default(limit: Option<usize>) -> nat {
    match limit {
        Some(n) => n as nat,
        None => DEFAULT_LIMIT as nat,
    }
}

/// The offset asked for, or the default.
pub open spec fn offset_or_default(offset: Option<usize>) -> nat {
    match offset {
        Some(n) => n as nat,
        None => DEFAULT_OFFSET as nat,
    }
}

/// How many of the most recent items are fetched for the page of `limit`
/// items behind the first `offset`: all of them up to the end of the page,
/// capped at [`MAX_FETCH`].
pub open spec fn fetch_size(limit: nat, offset: nat) -> nat {
    if limit + offset <= MAX_FETCH as nat {
        limit + offset
    } else {
        MAX_FETCH as nat
    }
}

/// The items of `batch` from `offset` on, `limit` of them at most, in the
/// order of `batch`. Past the end of `batch` there is nothing to take.
pub open spec fn window<T>(batch: Seq<T>, limit: nat, offset: nat) -> Seq<T> {
    let len = batch.len() as int;
    let start = if offset <= len { offset as int } else { len };
    let end = if offset + limit <= len { (offset + limit) as int } else { len };
    batch.subrange(start, end)
}

/// What the service returns when asked for `fetch` items of `listing`, its
/// whole listing: the first `fetch`, or all where there are fewer.
pub open spec fn most_recent<T>(listing: Seq<T>, fetch: nat) -> Seq<T> {
    if fetch <= listing.len() {
        listing.take(fetch as int)
    } else {
        listing
    }
}

/// The number of items to ask the service for, for the page that `limit` and
/// `offset` describe. The sum of the two is taken as a number, however large.
pub fn effective_limit(limit: Option<usize>, offset: Option<usize>) -> (fetch: u8)
    ensures
        fetch as nat == fetch_size(limit_or_default(limit), offset_or_default(offset)),
{
    let lim: usize = match limit {
        Some(n) => n,
        None => DEFAULT_LIMIT,
    };
    let off: usize = match offset {
        Some(n) => n,
        None => DEFAULT_OFFSET,
    };
    if lim > MAX_FETCH || off > MAX_FETCH - lim {
        255u8
    } else {
        (lim + off) as u8
    }
}

/// The options type of the service's client for its listings.
#[verifier::external_type_specification]
#[verifier::external_body]
#[verifier::reject_recursive_types(List)]
pub struct ExListOptions<List>(ListOptions<List>);

/// The marker of listing options that name no item to list before or after.
#[verifier::external_type_specification]
#[verifier::external_body]
pub struct ExTimeNotSpecified(TimeNotSpecified);

/// The listing options that ask for `limit` items and for nothing else.
pub uninterp spec fn options_with_limit(limit: u8) -> ListOptions<TimeNotSpecified>;

/// `ListOptions::default()` of the service's client, followed by its
/// `with_limit`: the default options, which filter nothing, with the number
/// of items to retrieve set to `limit`. Nothing but `limit` goes into the
/// result. The client documents limits of 1 to 100; the method takes and
/// stores any `u8`.
#[verifier::external_body]
fn with_limit(limit: u8) -> (options: ListOptions<TimeNotSpecified>)
    ensures
        options == options_with_limit(limit),
{
    ListOptions::default().with_limit(limit)
}

/// The options for the one listing call that covers the page which `limit`
/// and `offset` describe: they ask for [`fetch_size`] items.
pub fn list_options(limit: Option<usize>, offset: Option<usize>) -> (options: ListOptions<
    TimeNotSpecified,
>)
    ensures
        options == options_with_limit(
            fetch_size(limit_or_default(limit), offset_or_default(offset)) as u8,
        ),
{
    with_limit(effective_limit(limit, offset))
}

/// Walking a listing item by item: the window of the first `seen + 1` items
/// is that of the first `seen`, with the next item behind it where its
/// place lies inside the window.
pub proof fn lemma_window_step<T>(batch: Seq<T>, limit: nat, offset: nat, seen: int)
    requires
        0 <= seen < batch.len(),
    ensures
        offset <= seen < offset + limit ==> window(batch.take(seen + 1), limit, offset) == window(
            batch.take(seen),
            limit,
            offset,
        ).push(batch[seen]),
        !(offset <= seen < offset + limit) ==> window(batch.take(seen + 1), limit, offset)
            == window(batch.take(seen), limit, offset),
{
    let before = window(batch.take(seen), limit, offset);
    let after = window(batch.take(seen + 1), limit, offset);
    if offset <= seen < offset + limit {
        assert(after =~= before.push(batch[seen]));
    } else {
        assert(after =~= before);
    }
}

/// The length of a window.
pub open spec fn window_len(len: nat, limit: nat, offset: nat) -> nat {
    if offset >= len {
        0
    } else if offset + limit <= len {
        limit
    } else {
        (len - offset) as nat
    }
}

/// A window holds `limit` items where `batch` has as many behind the first
/// `offset`, else what `batch` has there; each of its items is the one of
/// `batch` that lies `offset` places further on.
pub proof fn lemma_window_items<T>(batch: Seq<T>, limit: nat, offset: nat)
    ensures
        window(batch, limit, offset).len() == window_len(batch.len(), limit, offset),
        forall|i: int|
            0 <= i < window(batch, limit, offset).len() ==> #[trigger] window(
                batch,
                limit,
                offset,
            )[i] == batch[offset + i],
{
}

} // verus!
