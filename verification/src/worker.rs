//! Storing queued posts: a post is inserted only when no stored post has
//! its URL.

use vstd::prelude::*;

verus! {

/// What the worker does with a delivered post.
#[derive(Clone, Copy, Debug, PartialEq, Eq, Structural)]
pub enum DeliveryAction {
    /// Insert the post into the `posts` table.
    InsertPost,
    /// A post with this URL is stored already; leave the table as it is.
    KeepExisting,
}

/// A post is inserted when the count of stored posts with its URL is zero.
pub open spec fn inserts(stored_with_url: int) -> bool {
    stored_with_url == 0
}

/// Decides from the count of stored posts with the delivered post's URL.
pub fn delivery_action(stored_with_url: i64) -> (action: DeliveryAction)
    ensures
        (action == DeliveryAction::InsertPost) == inserts(stored_with_url as int),
{
    if stored_with_url == 0 {
        DeliveryAction::InsertPost
    } else {
        DeliveryAction::KeepExisting
    }
}

/// The URL column of the `posts` table, row by row; `None` is SQL `NULL`.
pub type UrlColumn = Seq<Option<Seq<char>>>;

/// What `SELECT COUNT(*) FROM posts WHERE url = ?1` counts: the rows whose URL
/// equals the given one. A `NULL` URL equals no row.
pub open spec fn rows_with_url(table: UrlColumn, url: Option<Seq<char>>) -> nat
    decreases table.len(),
{
    if table.len() == 0 {
        0
    } else {
        rows_with_url(table.drop_last(), url) + if url is Some && table.last() == url {
            1nat
        } else {
            0nat
        }
    }
}

/// The URL column after the worker has handled a delivery with this URL.
pub open spec fn stored_after(table: UrlColumn, url: Option<Seq<char>>) -> UrlColumn {
    if inserts(rows_with_url(table, url) as int) {
        table.push(url)
    } else {
        table
    }
}

/// No two rows hold the same (non-`NULL`) URL.
pub open spec fn distinct_urls(table: UrlColumn) -> bool {
    forall|i: int, j: int|
        0 <= i < j < table.len() && (#[trigger] table[i]) is Some ==> table[i] != #[trigger] table[j]
}

proof fn lemma_rows_with_url_zero(table: UrlColumn, url: Option<Seq<char>>)
    requires
        url is Some,
    ensures
        rows_with_url(table, url) == 0 <==> !table.contains(url),
    decreases table.len(),
{
    if table.len() > 0 {
        let rest = table.drop_last();
        lemma_rows_with_url_zero(rest, url);
        if rest.contains(url) {
            let k = choose|k: int| 0 <= k < rest.len() && rest[k] == url;
            assert(table[k] == url);
        }
        if table.contains(url) {
            let k = choose|k: int| 0 <= k < table.len() && table[k] == url;
            if k < rest.len() {
                assert(rest[k] == url);
            }
        }
        if table.last() == url {
            assert(table[table.len() - 1] == url);
        }
    }
}

/// Handling deliveries never stores a URL twice: a table whose URLs are
/// distinct keeps them distinct, and afterwards it holds the delivered URL.
pub proof fn law_urls_stay_distinct(table: UrlColumn, url: Option<Seq<char>>)
    requires
        distinct_urls(table),
    ensures
        distinct_urls(stored_after(table, url)),
        url is Some ==> stored_after(table, url).contains(url),
{
    if url is Some {
        lemma_rows_with_url_zero(table, url);
        let after = stored_after(table, url);
        if inserts(rows_with_url(table, url) as int) {
            assert(after[table.len() as int] == url);
            assert forall|i: int, j: int|
                0 <= i < j < after.len() && (#[trigger] after[i]) is Some implies after[i]
                != #[trigger] after[j] by {
                if j == table.len() {
                    assert(after[i] == table[i]);
                    if after[i] == url {
                        assert(table.contains(url));
                    }
                } else {
                    assert(after[i] == table[i] && after[j] == table[j]);
                }
            }
        }
    } else {
        let after = stored_after(table, url);
        if after.len() > table.len() {
            assert forall|i: int, j: int|
                0 <= i < j < after.len() && (#[trigger] after[i]) is Some implies after[i]
                != #[trigger] after[j] by {
                if j < table.len() {
                    assert(after[i] == table[i] && after[j] == table[j]);
                } else {
                    assert(after[j] is None);
                }
            }
        }
    }
}

} // verus!
