//! Emails that were sent before, as the delivery service reports them and as
//! the client shows them.

use vstd::prelude::*;
use crate::page::{
    fetch_size, lemma_window_items, lemma_window_step, limit_or_default, most_recent,
    offset_or_default, window, DEFAULT_LIMIT, DEFAULT_OFFSET, MAX_FETCH,
};
use crate::error::{Error, RemoteCall};
use crate::text::{join, joined};

verus! {

/// One email as the delivery service reports it.
#[derive(Debug, Clone, PartialEq, Eq)]
pub struct RemoteEmail {
    pub id: String,
    pub from: String,
    pub to: Vec<String>,
    pub subject: String,
    pub html: Option<String>,
    pub text: Option<String>,
    pub created_at: String,
    pub cc: Vec<String>,
    pub bcc: Vec<String>,
    pub reply_to: Option<Vec<String>>,
}

/// The mathematical value of a [`RemoteEmail`].
pub struct RemoteEmailView {
    pub id: Seq<char>,
    pub from: Seq<char>,
    pub to: Seq<Seq<char>>,
    pub subject: Seq<char>,
    pub html: Option<Seq<char>>,
    pub text: Option<Seq<char>>,
    pub created_at: Seq<char>,
    pub cc: Seq<Seq<char>>,
    pub bcc: Seq<Seq<char>>,
    pub reply_to: Option<Seq<Seq<char>>>,
}

impl DeepView for RemoteEmail {
    type V = RemoteEmailView;

    open spec fn deep_view(&self) -> RemoteEmailView {
        RemoteEmailView {
            id: self.id@,
            from: self.from@,
            to: self.to.deep_view(),
            subject: self.subject@,
            html: self.html.deep_view(),
            text: self.text.deep_view(),
            created_at: self.created_at@,
            cc: self.cc.deep_view(),
            bcc: self.bcc.deep_view(),
            reply_to: self.reply_to.deep_view(),
        }
    }
}

impl View for RemoteEmail {
    type V = RemoteEmailView;

    open spec fn view(&self) -> RemoteEmailView {
        self.deep_view()
    }
}

/// One sent email as the client shows it. The time of creation is the
/// service's text, taken as it is.
#[derive(Debug, Clone, PartialEq, Eq)]
pub struct SentEmail {
    pub id: String,
    pub from: String,
    pub to: Vec<String>,
    pub subject: String,
    pub html: Option<String>,
    pub created_at: String,
    pub cc: Vec<String>,
    pub bcc: Vec<String>,
    pub reply_to: Option<String>,
}

/// The mathematical value of a [`SentEmail`].
pub struct SentEmailView {
    pub id: Seq<char>,
    pub from: Seq<char>,
    pub to: Seq<Seq<char>>,
    pub subject: Seq<char>,
    pub html: Option<Seq<char>>,
    pub created_at: Seq<char>,
    pub cc: Seq<Seq<char>>,
    pub bcc: Seq<Seq<char>>,
    pub reply_to: Option<Seq<char>>,
}

impl DeepView for SentEmail {
    type V = SentEmailView;

    open spec fn deep_view(&self) -> SentEmailView {
        SentEmailView {
            id: self.id@,
            from: self.from@,
            to: self.to.deep_view(),
            subject: self.subject@,
            html: self.html.deep_view(),
            created_at: self.created_at@,
            cc: self.cc.deep_view(),
            bcc: self.bcc.deep_view(),
            reply_to: self.reply_to.deep_view(),
        }
    }
}

impl View for SentEmail {
    type V = SentEmailView;

    open spec fn view(&self) -> SentEmailView {
        self.deep_view()
    }
}

/// What stands between two reply addresses.
pub open spec fn reply_separator() -> Seq<char> {
    ", "@
}

/// The reply addresses as one text: none where the service names none or an
/// empty list, else the addresses in order, separated by a comma and a space.
pub open spec fn normalized_reply_to(reply_to: Option<Seq<Seq<char>>>) -> Option<Seq<char>> {
    match reply_to {
        Some(addresses) => if addresses.len() == 0 {
            None
        } else {
            Some(joined(addresses, reply_separator()))
        },
        None => None,
    }
}

/// How an email of a listing is shown: every field as reported, the reply
/// addresses as one text. The plain-text body is not shown.
pub open spec fn listed(email: RemoteEmailView) -> SentEmailView {
    SentEmailView {
        id: email.id,
        from: email.from,
        to: email.to,
        subject: email.subject,
        html: email.html,
        created_at: email.created_at,
        cc: email.cc,
        bcc: email.bcc,
        reply_to: normalized_reply_to(email.reply_to),
    }
}

/// The body shown for an email that was retrieved by itself: the HTML body,
/// or the plain-text body where there is no HTML body.
pub open spec fn shown_body(html: Option<Seq<char>>, text: Option<Seq<char>>) -> Option<
    Seq<char>,
> {
    if html is Some {
        html
    } else {
        text
    }
}

/// How an email that was retrieved by itself is shown: as in a listing, but
/// for the body.
pub open spec fn retrieved(email: RemoteEmailView) -> SentEmailView {
    SentEmailView { html: shown_body(email.html, email.text), ..listed(email) }
}

/// The page of a listing: the items of `batch` from `offset` on, `limit` of
/// them at most, in the order of `batch`, each as a listing shows it.
pub open spec fn listed_page(batch: Seq<RemoteEmailView>, limit: nat, offset: nat) -> Seq<
    SentEmailView,
> {
    window(batch, limit, offset).map_values(|email: RemoteEmailView| listed(email))
}

/// Turns the reply addresses that the service reports into the one text
/// that is shown.
pub fn normalize_reply_to(reply_to: &Option<Vec<String>>) -> (shown: Option<String>)
    ensures
        shown.deep_view() == normalized_reply_to(reply_to.deep_view()),
{
    match reply_to {
        Some(addresses) => {
            if addresses.len() == 0 {
                None
            } else {
                Some(join(addresses, ", "))
            }
        },
        None => None,
    }
}

/// Turns one email of a listing into what is shown.
pub fn listed_email(email: RemoteEmail) -> (shown: SentEmail)
    ensures
        shown@ == listed(email@),
{
    let reply_to = normalize_reply_to(&email.reply_to);
    SentEmail {
        id: email.id,
        from: email.from,
        to: email.to,
        subject: email.subject,
        html: email.html,
        created_at: email.created_at,
        cc: email.cc,
        bcc: email.bcc,
        reply_to,
    }
}

/// Turns an email that was retrieved by itself into what is shown.
pub fn retrieved_email(email: RemoteEmail) -> (shown: SentEmail)
    ensures
        shown@ == retrieved(email@),
{
    let reply_to = normalize_reply_to(&email.reply_to);
    let html = match email.html {
        Some(html) => Some(html),
        None => email.text,
    };
    SentEmail {
        id: email.id,
        from: email.from,
        to: email.to,
        subject: email.subject,
        html,
        created_at: email.created_at,
        cc: email.cc,
        bcc: email.bcc,
        reply_to,
    }
}

/// Cuts the page out of `batch`: skips `offset` emails and takes the next
/// `limit`, or what is left of them, in the order of `batch`.
pub fn page_of(batch: Vec<RemoteEmail>, limit: usize, offset: usize) -> (page: Vec<SentEmail>)
    ensures
        page.deep_view() == listed_page(batch.deep_view(), limit as nat, offset as nat),
{
    let ghost items = batch@;
    let ghost whole = batch.deep_view();
    assert(items.len() == batch.len());
    let mut page: Vec<SentEmail> = Vec::new();
    let mut seen: usize = 0;
    for email in it: batch
        invariant
            it.seq() == items,
            items.len() <= usize::MAX,
            whole == Seq::new(items.len(), |i: int| items[i].deep_view()),
            seen == it.index(),
            page.deep_view() == listed_page(whole.take(seen as int), limit as nat, offset as nat),
    {
        proof {
            lemma_window_step(whole, limit as nat, offset as nat, seen as int);
        }
        let ghost before = page.deep_view();
        if seen >= offset && seen - offset < limit {
            page.push(listed_email(email));
            assert(page.deep_view() =~= before.push(listed(whole[seen as int])));
        }
        assert(page.deep_view() =~= listed_page(
            whole.take(seen + 1),
            limit as nat,
            offset as nat,
        ));
        seen = seen + 1;
    }
    assert(whole.take(seen as int) =~= whole);
    page
}

/// The answer to a listing, from what the service gave for the one call
/// with [`crate::page::list_options`]: the most recent emails, newest first,
/// or the client's words on why the call failed. The page skips `offset` of
/// the emails (none by default) and takes the next `limit` (twelve by
/// default), in the service's order; a failed call fails the listing.
pub fn list_sent_emails(
    fetched: Result<Vec<RemoteEmail>, String>,
    limit: Option<usize>,
    offset: Option<usize>,
) -> (result: Result<Vec<SentEmail>, Error>)
    ensures
        match fetched {
            Ok(batch) => result matches Ok(page) && page.deep_view() == listed_page(
                batch.deep_view(),
                limit_or_default(limit),
                offset_or_default(offset),
            ),
            Err(detail) => result == Err::<Vec<SentEmail>, Error>(
                (Error::RemoteFailure { call: RemoteCall::List, detail }),
            ),
        },
{
    let lim: usize = match limit {
        Some(n) => n,
        None => DEFAULT_LIMIT,
    };
    let off: usize = match offset {
        Some(n) => n,
        None => DEFAULT_OFFSET,
    };
    match fetched {
        Ok(batch) => Ok(page_of(batch, lim, off)),
        Err(detail) => Err(Error::RemoteFailure { call: RemoteCall::List, detail }),
    }
}

/// The answer to the retrieval of one email, from what the service gave for
/// its identifier: the email, or the client's words on why the call failed.
/// Where the service reports no HTML body, the plain-text body takes its
/// place; a failed call fails the retrieval.
pub fn get_sent_email(fetched: Result<RemoteEmail, String>) -> (result: Result<SentEmail, Error>)
    ensures
        match fetched {
            Ok(email) => result matches Ok(shown) && shown@ == retrieved(email@),
            Err(detail) => result == Err::<SentEmail, Error>(
                (Error::RemoteFailure { call: RemoteCall::Get, detail }),
            ),
        },
{
    match fetched {
        Ok(email) => Ok(retrieved_email(email)),
        Err(detail) => Err(Error::RemoteFailure { call: RemoteCall::Get, detail }),
    }
}

/// A page that lies within the batch is full, and holds the emails of the
/// batch from `offset` on, in their order.
pub proof fn law_page_within_batch(batch: Seq<RemoteEmailView>, limit: nat, offset: nat)
    requires
        offset + limit <= batch.len(),
    ensures
        listed_page(batch, limit, offset).len() == limit,
        forall|i: int|
            0 <= i < limit ==> #[trigger] listed_page(batch, limit, offset)[i] == listed(
                batch[offset + i],
            ),
{
    lemma_window_items(batch, limit, offset);
}

/// While the end of the page lies within what the service hands out at once,
/// the page cut out of the fetched emails is the page of the whole listing:
/// asking for the first `offset + limit` emails loses nothing.
pub proof fn law_page_of_listing(listing: Seq<RemoteEmailView>, limit: nat, offset: nat)
    requires
        limit + offset <= MAX_FETCH,
    ensures
        listed_page(most_recent(listing, fetch_size(limit, offset)), limit, offset) == listed_page(
            listing,
            limit,
            offset,
        ),
{
    let batch = most_recent(listing, fetch_size(limit, offset));
    assert(window(batch, limit, offset) =~= window(listing, limit, offset));
}

/// Where the end of the page lies behind what the service hands out at
/// once, the fetch is capped there, and a page of one item or more comes out
/// shorter than asked for, whatever the service holds: the emails behind the
/// cap are out of reach.
pub proof fn law_page_beyond_cap_is_short(batch: Seq<RemoteEmailView>, limit: nat, offset: nat)
    requires
        limit + offset > MAX_FETCH,
        limit > 0,
        batch.len() <= fetch_size(limit, offset),
    ensures
        fetch_size(limit, offset) == MAX_FETCH,
        listed_page(batch, limit, offset).len() < limit,
{
    lemma_window_items(batch, limit, offset);
}

/// An email retrieved by itself shows its HTML body, or its plain-text body
/// where the service reports no HTML body, and no body where it reports
/// neither. A listing shows the HTML body only.
pub proof fn law_text_stands_in_for_html(email: RemoteEmailView)
    ensures
        email.html is Some ==> retrieved(email).html == email.html,
        email.html is None ==> retrieved(email).html == email.text,
        email.html is None && email.text is None ==> retrieved(email).html is None,
        listed(email).html == email.html,
{
}

} // verus!
