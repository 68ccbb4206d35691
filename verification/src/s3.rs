//! Object storage: locations, and what the answers of the storage service mean.
//!
//! The requests themselves are made by the caller. This module parses
//! `scheme://bucket/key` locations, and decides from the status code and the data of an
//! answer what the operation returns.

use vstd::prelude::*;
use crate::error::OneIoError;
use crate::error::OneIoErrorView;
use crate::error::not_supported;
use crate::error::result_view;
use crate::error::status_error;
use crate::protocol::Protocol;
use crate::protocol::classify;
use crate::protocol::remainder;
use crate::protocol::spec_classify;
use crate::protocol::spec_remainder;
use crate::protocol::spec_split_authority;
use crate::protocol::split_authority;
use crate::text::option_text;

verus! {

/// Whether a status code reports success: 200 to 299.
pub open spec fn spec_is_success(code: u16) -> bool {
    200 <= code <= 299
}

/// Tells whether a status code reports success.
pub fn is_success(code: u16) -> (r: bool)
    ensures
        r == spec_is_success(code),
{
    200 <= code && code <= 299
}

/// The bucket and the key of an object storage location `s3://bucket/key` or
/// `r2://bucket/key`. The bucket is what stands between the scheme separator and the
/// next `/`, the key is all that follows. A location of any other protocol is not
/// supported.
pub open spec fn spec_s3_url_parse(path: Seq<char>) -> Result<(Seq<char>, Seq<char>), OneIoErrorView> {
    if spec_classify(path) == Protocol::S3 || spec_classify(path) == Protocol::R2 {
        Ok(spec_split_authority(spec_remainder(path)))
    } else {
        Err(not_supported(path))
    }
}

/// Parses an object storage location into bucket and key.
pub fn s3_url_parse(path: &str) -> (r: Result<(String, String), OneIoError>)
    ensures
        result_view(r) == spec_s3_url_parse(path@),
{
    match classify(path) {
        Protocol::S3 | Protocol::R2 => {
            let rest = remainder(path);
            Ok(split_authority(rest.as_str()))
        },
        _ => Err(OneIoError::unsupported(path)),
    }
}

/// What a head-object request tells of an object.
#[derive(Clone, Copy, Debug, PartialEq, Eq, Structural)]
pub struct ObjectStats {
    /// The size of the object in bytes, where the service reports one.
    pub content_length: Option<u64>,
}

impl View for ObjectStats {
    type V = ObjectStats;

    open spec fn view(&self) -> ObjectStats {
        *self
    }
}

/// The result of a head-object request, given what came of it: the metadata of the
/// object and the status code of the answer, or the failure of the request. The
/// metadata counts where the status reports success; any other status is a network
/// error of that status, and a failed request is handed on.
pub open spec fn spec_s3_stats(head: Result<(ObjectStats, u16), OneIoErrorView>) -> Result<
    ObjectStats,
    OneIoErrorView,
> {
    match head {
        Ok((stats, code)) => if spec_is_success(code) {
            Ok(stats)
        } else {
            Err(status_error(code))
        },
        Err(e) => Err(e),
    }
}

/// Judges what came of a head-object request. The failure of the request comes back as
/// it is.
pub fn s3_stats(head: Result<(ObjectStats, u16), OneIoError>) -> (r: Result<ObjectStats, OneIoError>)
    ensures
        result_view(r) == spec_s3_stats(result_view(head)),
        head is Err ==> r is Err && r->Err_0 == head->Err_0,
{
    match head {
        Ok((stats, code)) => if is_success(code) {
            Ok(stats)
        } else {
            Err(OneIoError::status(code))
        },
        Err(e) => Err(e),
    }
}

/// Whether an object exists, given what came of a head-object request: the status code
/// of the answer, or the failure of the request. The object exists on success and does
/// not on 404. Any other status is a network error of that status, not absence, and a
/// failed request is handed on.
pub open spec fn spec_s3_exists(head: Result<u16, OneIoErrorView>) -> Result<bool, OneIoErrorView> {
    match head {
        Ok(code) => if spec_is_success(code) {
            Ok(true)
        } else if code == 404 {
            Ok(false)
        } else {
            Err(status_error(code))
        },
        Err(e) => Err(e),
    }
}

/// Decides from what came of a head-object request whether the object exists. The
/// failure of the request comes back as it is.
pub fn s3_exists(head: Result<u16, OneIoError>) -> (r: Result<bool, OneIoError>)
    ensures
        result_view(r) == spec_s3_exists(result_view(head)),
        head is Err ==> r is Err && r->Err_0 == head->Err_0,
{
    match head {
        Ok(code) => if is_success(code) {
            Ok(true)
        } else if code == 404 {
            Ok(false)
        } else {
            Err(OneIoError::status(code))
        },
        Err(e) => Err(e),
    }
}

/// The result of a get-object request whose body went to a local file, given what came
/// of it: the status code of the answer, or the failure of the request.
pub open spec fn spec_s3_download(answer: Result<u16, OneIoErrorView>) -> Result<(), OneIoErrorView> {
    match answer {
        Ok(code) => if spec_is_success(code) {
            Ok(())
        } else {
            Err(status_error(code))
        },
        Err(e) => Err(e),
    }
}

/// Judges what came of a get-object request whose body went to a local file. The
/// failure of the request comes back as it is.
pub fn s3_download(answer: Result<u16, OneIoError>) -> (r: Result<(), OneIoError>)
    ensures
        result_view(r) == spec_s3_download(result_view(answer)),
        answer is Err ==> r is Err && r->Err_0 == answer->Err_0,
{
    match answer {
        Ok(code) => if is_success(code) {
            Ok(())
        } else {
            Err(OneIoError::status(code))
        },
        Err(e) => Err(e),
    }
}

/// One page of a list-objects answer.
#[derive(Debug)]
pub struct ListPage {
    /// The prefixes that stand for directories, where the answer has any.
    pub common_prefixes: Option<Vec<String>>,
    /// The keys of the objects.
    pub contents: Vec<String>,
}

/// The mathematical value of a [`ListPage`].
pub struct ListPageView {
    pub common_prefixes: Option<Seq<Seq<char>>>,
    pub contents: Seq<Seq<char>>,
}

impl View for ListPage {
    type V = ListPageView;

    open spec fn view(&self) -> ListPageView {
        ListPageView {
            common_prefixes: match self.common_prefixes {
                Some(prefixes) => Some(prefixes.deep_view()),
                None => None,
            },
            contents: self.contents.deep_view(),
        }
    }
}

/// The views of the pages of a listing.
pub open spec fn page_views(pages: Seq<ListPage>) -> Seq<ListPageView> {
    pages.map_values(|page: ListPage| page@)
}

/// The delimiter to list with: a listing of directories needs one, and takes `/` where
/// none is given.
pub open spec fn spec_list_delimiter(delimiter: Option<Seq<char>>, dirs: bool) -> Option<Seq<char>> {
    if dirs && delimiter is None {
        Some("/"@)
    } else {
        delimiter
    }
}

/// Chooses the delimiter of a list-objects request.
pub fn s3_list_delimiter(delimiter: Option<String>, dirs: bool) -> (r: Option<String>)
    ensures
        option_text(r) == spec_list_delimiter(option_text(delimiter), dirs),
{
    match delimiter {
        Some(given) => Some(given),
        None => if dirs {
            Some("/".to_owned())
        } else {
            None
        },
    }
}

/// The entries of one page: its directory prefixes where directories are asked for, else
/// the keys of its objects.
pub open spec fn page_entries(page: ListPageView, dirs: bool) -> Seq<Seq<char>> {
    if dirs {
        match page.common_prefixes {
            Some(prefixes) => prefixes,
            None => Seq::empty(),
        }
    } else {
        page.contents
    }
}

/// The entries of all pages, in the order of the pages.
pub open spec fn spec_s3_list(pages: Seq<ListPageView>, dirs: bool) -> Seq<Seq<char>>
    decreases pages.len(),
{
    if pages.len() == 0 {
        Seq::empty()
    } else {
        spec_s3_list(pages.drop_last(), dirs) + page_entries(pages.last(), dirs)
    }
}

/// Appends copies of the strings of `items` to `out`.
fn extend_with_copies(out: &mut Vec<String>, items: &Vec<String>)
    ensures
        final(out).deep_view() == old(out).deep_view() + items.deep_view(),
{
    let mut i: usize = 0;
    while i < items.len()
        invariant
            i <= items.len(),
            out.deep_view() == old(out).deep_view() + items.deep_view().take(i as int),
        decreases items.len() - i,
    {
        let ghost before = out.deep_view();
        out.push(items[i].clone());
        assert(out.deep_view() =~= before.push(items@[i as int]@));
        i += 1;
    }
}

/// Collects the entries of a list-objects answer: the directory prefixes of every page
/// where `dirs` is set, else the object keys of every page.
pub fn s3_list(pages: &Vec<ListPage>, dirs: bool) -> (r: Vec<String>)
    ensures
        r.deep_view() == spec_s3_list(page_views(pages@), dirs),
{
    let mut result: Vec<String> = Vec::new();
    let mut i: usize = 0;
    while i < pages.len()
        invariant
            i <= pages.len(),
            result.deep_view() == spec_s3_list(page_views(pages@).take(i as int), dirs),
        decreases pages.len() - i,
    {
        let page = &pages[i];
        let ghost before = page_views(pages@).take(i as int);
        let ghost after = page_views(pages@).take(i + 1);
        assert(after.drop_last() =~= before);
        if dirs {
            if let Some(prefixes) = &page.common_prefixes {
                extend_with_copies(&mut result, prefixes);
            }
        } else {
            extend_with_copies(&mut result, &page.contents);
        }
        i += 1;
    }
    assert(page_views(pages@).take(pages.len() as int) =~= page_views(pages@));
    result
}

} // verus!
