//! The query encoder: the pure, deterministic mapping of a validated
//! request onto an ordered list of wire-format name/value pairs.
//!
//! The omission rule: an optional filter is included exactly when it differs
//! from its "unset" sentinel (zero for numbers, empty for lists and text),
//! while the comparison operators, `limit`, `order`, `page` and the three
//! `show_*` toggles are always sent. `order_by` is the one exception among
//! the always-sent group: it is included only when it is not the default
//! `date`. Multi-valued filters become repeated same-named parameters, one
//! per element, in the order given.

use vstd::prelude::*;
use crate::common::operator_wire;
use crate::common::order_wire;
use crate::download_wallpaper::DownloadWallpaperRequest;
use crate::get_wallpaper::GetWallpaperRequest;
use crate::get_wallpapers::GetWallpapersOrderBy;
use crate::get_wallpapers::GetWallpapersRequest;
use crate::get_wallpapers::order_by_wire;
use crate::text::bool_str;
use crate::text::bool_wire;
use crate::text::dec_of;
use crate::text::int_dec_of;
use crate::text::i64_dec;
use crate::text::rating_str;
use crate::text::rating_wire;
use crate::text::u64_dec;

verus! {

broadcast use vstd::seq_lib::group_seq_lib_default;

/// One wire query parameter: a name and a value.
pub type QueryPair = (Seq<char>, Seq<char>);

/// A single unconditional parameter.
pub open spec fn one(k: Seq<char>, v: Seq<char>) -> Seq<QueryPair> {
    seq![(k, v)]
}

/// A parameter sent only when `cond` holds.
pub open spec fn opt(cond: bool, k: Seq<char>, v: Seq<char>) -> Seq<QueryPair> {
    if cond {
        one(k, v)
    } else {
        Seq::empty()
    }
}

/// A repeated parameter: the same name once per value, in order.
pub open spec fn many(k: Seq<char>, vs: Seq<Seq<char>>) -> Seq<QueryPair> {
    vs.map_values(|v: Seq<char>| (k, v))
}

/// The decimal numerals of a list of IDs, in order.
pub open spec fn dec_seq(ids: Seq<u16>) -> Seq<Seq<char>> {
    ids.map_values(|g: u16| dec_of(g as nat))
}

/// The view of an encoded query: each owned pair as its text.
pub open spec fn pairs_view(q: Seq<(String, String)>) -> Seq<QueryPair> {
    q.map_values(|p: (String, String)| (p.0@, p.1@))
}

/// The release-date filters of a listing request: the three date parts when
/// set, and the date operator always.
pub open spec fn wallpapers_date_params(r: GetWallpapersRequest) -> Seq<QueryPair> {
    opt(r.filter_date_day != 0, "filter_date_day"@, dec_of(r.filter_date_day as nat)) + opt(
        r.filter_date_month != 0,
        "filter_date_month"@,
        dec_of(r.filter_date_month as nat),
    ) + opt(r.filter_date_year != 0, "filter_date_year"@, dec_of(r.filter_date_year as nat)) + one(
        "filter_date_operator"@,
        operator_wire(r.filter_date_operator),
    )
}

/// The gallery and rating filters of a listing request: one `filter_gallery`
/// per ID in order, the rating when set, and the rating operator always.
pub open spec fn wallpapers_gallery_rating_params(r: GetWallpapersRequest) -> Seq<QueryPair> {
    many("filter_gallery"@, dec_seq(r.filter_gallery@)) + opt(
        r.filter_rating != 0,
        "filter_rating"@,
        rating_wire(r.filter_rating as nat),
    ) + one("filter_rating_operator"@, operator_wire(r.filter_rating_operator))
}

/// The resolution filters of a listing request: height and width when set,
/// the three resolution operators always.
pub open spec fn wallpapers_resolution_params(r: GetWallpapersRequest) -> Seq<QueryPair> {
    opt(r.filter_res_height != 0, "filter_res_height"@, int_dec_of(r.filter_res_height as int))
        + one("filter_res_operator"@, operator_wire(r.filter_res_operator)) + one(
        "filter_res_operator_height"@,
        operator_wire(r.filter_res_operator_height),
    ) + one("filter_res_operator_width"@, operator_wire(r.filter_res_operator_width)) + opt(
        r.filter_res_width != 0,
        "filter_res_width"@,
        int_dec_of(r.filter_res_width as int),
    )
}

/// The tag filter of a listing request: one `filter_tag` per ID, in order.
pub open spec fn wallpapers_tag_params(r: GetWallpapersRequest) -> Seq<QueryPair> {
    many("filter_tag"@, dec_seq(r.filter_tag@))
}

/// The paging and sorting parameters of a listing request: `limit`, `order`
/// and `page` always, `order_by` only when it is not the default `date`,
/// and the search string when nonempty.
pub open spec fn wallpapers_paging_params(r: GetWallpapersRequest) -> Seq<QueryPair> {
    one("limit"@, dec_of(r.limit as nat)) + one("order"@, order_wire(r.order)) + opt(
        r.order_by != GetWallpapersOrderBy::Date,
        "order_by"@,
        order_by_wire(r.order_by),
    ) + one("page"@, dec_of(r.page as nat)) + opt(r.s@.len() != 0, "s"@, r.s@)
}

/// The display toggles of a listing request, always sent.
pub open spec fn wallpapers_display_params(r: GetWallpapersRequest) -> Seq<QueryPair> {
    one("show_comments"@, bool_wire(r.show_comments)) + one(
        "show_pickle_jar"@,
        bool_wire(r.show_pickle_jar),
    ) + one("show_resolutions"@, bool_wire(r.show_resolutions))
}

/// The encoded form of a listing request, pair by pair.
pub open spec fn wallpapers_query_spec(r: GetWallpapersRequest) -> Seq<QueryPair> {
    wallpapers_date_params(r) + wallpapers_gallery_rating_params(r) + wallpapers_resolution_params(
        r,
    ) + wallpapers_tag_params(r) + wallpapers_paging_params(r) + wallpapers_display_params(r)
}

/// The encoded form of a single-wallpaper request.
pub open spec fn wallpaper_query_spec(r: GetWallpaperRequest) -> Seq<QueryPair> {
    opt(r.filter_res_height != 0, "filter_res_height"@, int_dec_of(r.filter_res_height as int))
        + opt(r.filter_res_width != 0, "filter_res_width"@, int_dec_of(r.filter_res_width as int))
        + one("filter_res_operator"@, operator_wire(r.filter_res_operator)) + one(
        "filter_res_operator_height"@,
        operator_wire(r.filter_res_operator_height),
    ) + one("filter_res_operator_width"@, operator_wire(r.filter_res_operator_width)) + one(
        "show_comments"@,
        bool_wire(r.show_comments),
    ) + one("show_pickle_jar"@, bool_wire(r.show_pickle_jar)) + one(
        "show_resolutions"@,
        bool_wire(r.show_resolutions),
    )
}

/// The encoded form of a download request.
pub open spec fn download_query_spec(r: DownloadWallpaperRequest) -> Seq<QueryPair> {
    one("show_watermark"@, bool_wire(r.show_watermark))
}

fn push_param(q: &mut Vec<(String, String)>, k: &'static str, v: String)
    ensures
        pairs_view(final(q)@) == pairs_view(old(q)@) + one(k@, v@),
{
    let ghost v_view = v@;
    q.push((k.to_owned(), v));
    proof {
        assert(pairs_view(q@) =~= pairs_view(old(q)@) + one(k@, v_view));
    }
}

fn push_date_params(q: &mut Vec<(String, String)>, r: &GetWallpapersRequest)
    ensures
        pairs_view(final(q)@) == pairs_view(old(q)@) + wallpapers_date_params(*r),
{
    let ghost g0 = pairs_view(q@);
    if r.filter_date_day != 0 {
        push_param(q, "filter_date_day", u64_dec(r.filter_date_day as u64));
    }
    proof {
        assert(pairs_view(q@) =~= g0 + opt(
            r.filter_date_day != 0,
            "filter_date_day"@,
            dec_of(r.filter_date_day as nat),
        ));
    }
    let ghost g1 = pairs_view(q@);
    if r.filter_date_month != 0 {
        push_param(q, "filter_date_month", u64_dec(r.filter_date_month as u64));
    }
    proof {
        assert(pairs_view(q@) =~= g1 + opt(
            r.filter_date_month != 0,
            "filter_date_month"@,
            dec_of(r.filter_date_month as nat),
        ));
    }
    let ghost g2 = pairs_view(q@);
    if r.filter_date_year != 0 {
        push_param(q, "filter_date_year", u64_dec(r.filter_date_year as u64));
    }
    proof {
        assert(pairs_view(q@) =~= g2 + opt(
            r.filter_date_year != 0,
            "filter_date_year"@,
            dec_of(r.filter_date_year as nat),
        ));
    }
    push_param(q, "filter_date_operator", r.filter_date_operator.as_str().to_owned());
    proof {
        assert(pairs_view(q@) =~= g0 + wallpapers_date_params(*r));
    }
}

fn push_repeated_ids(q: &mut Vec<(String, String)>, k: &'static str, ids: &Vec<u16>)
    ensures
        pairs_view(final(q)@) == pairs_view(old(q)@) + many(k@, dec_seq(ids@)),
{
    let ghost g0 = pairs_view(q@);
    let mut i: usize = 0;
    proof {
        assert(g0 + many(k@, dec_seq(ids@.take(0))) =~= g0);
    }
    while i < ids.len()
        invariant
            i <= ids.len(),
            pairs_view(q@) == g0 + many(k@, dec_seq(ids@.take(i as int))),
        decreases ids.len() - i,
    {
        let g = ids[i];
        push_param(q, k, u64_dec(g as u64));
        proof {
            assert(dec_seq(ids@.take(i + 1)) =~= dec_seq(ids@.take(i as int)).push(
                dec_of(g as nat),
            ));
            assert(many(k@, dec_seq(ids@.take(i + 1))) =~= many(
                k@,
                dec_seq(ids@.take(i as int)),
            ).push((k@, dec_of(g as nat))));
            assert(pairs_view(q@) =~= g0 + many(k@, dec_seq(ids@.take(i + 1))));
        }
        i = i + 1;
    }
    proof {
        assert(ids@.take(ids@.len() as int) =~= ids@);
    }
}

fn push_gallery_rating_params(q: &mut Vec<(String, String)>, r: &GetWallpapersRequest)
    ensures
        pairs_view(final(q)@) == pairs_view(old(q)@) + wallpapers_gallery_rating_params(*r),
{
    let ghost g0 = pairs_view(q@);
    push_repeated_ids(q, "filter_gallery", &r.filter_gallery);
    let ghost g1 = pairs_view(q@);
    if r.filter_rating != 0 {
        push_param(q, "filter_rating", rating_str(r.filter_rating));
    }
    proof {
        assert(pairs_view(q@) =~= g1 + opt(
            r.filter_rating != 0,
            "filter_rating"@,
            rating_wire(r.filter_rating as nat),
        ));
    }
    push_param(q, "filter_rating_operator", r.filter_rating_operator.as_str().to_owned());
    proof {
        assert(pairs_view(q@) =~= g0 + wallpapers_gallery_rating_params(*r));
    }
}

fn push_resolution_params(q: &mut Vec<(String, String)>, r: &GetWallpapersRequest)
    ensures
        pairs_view(final(q)@) == pairs_view(old(q)@) + wallpapers_resolution_params(*r),
{
    let ghost g0 = pairs_view(q@);
    if r.filter_res_height != 0 {
        push_param(q, "filter_res_height", i64_dec(r.filter_res_height));
    }
    proof {
        assert(pairs_view(q@) =~= g0 + opt(
            r.filter_res_height != 0,
            "filter_res_height"@,
            int_dec_of(r.filter_res_height as int),
        ));
    }
    push_param(q, "filter_res_operator", r.filter_res_operator.as_str().to_owned());
    push_param(q, "filter_res_operator_height", r.filter_res_operator_height.as_str().to_owned());
    push_param(q, "filter_res_operator_width", r.filter_res_operator_width.as_str().to_owned());
    let ghost g1 = pairs_view(q@);
    if r.filter_res_width != 0 {
        push_param(q, "filter_res_width", i64_dec(r.filter_res_width));
    }
    proof {
        assert(pairs_view(q@) =~= g1 + opt(
            r.filter_res_width != 0,
            "filter_res_width"@,
            int_dec_of(r.filter_res_width as int),
        ));
        assert(pairs_view(q@) =~= g0 + wallpapers_resolution_params(*r));
    }
}

fn push_paging_params(q: &mut Vec<(String, String)>, r: &GetWallpapersRequest)
    ensures
        pairs_view(final(q)@) == pairs_view(old(q)@) + wallpapers_paging_params(*r),
{
    let ghost g0 = pairs_view(q@);
    push_param(q, "limit", u64_dec(r.limit as u64));
    push_param(q, "order", r.order.as_str().to_owned());
    let ghost g1 = pairs_view(q@);
    if !(r.order_by == GetWallpapersOrderBy::Date) {
        push_param(q, "order_by", r.order_by.as_str().to_owned());
    }
    proof {
        assert(pairs_view(q@) =~= g1 + opt(
            r.order_by != GetWallpapersOrderBy::Date,
            "order_by"@,
            order_by_wire(r.order_by),
        ));
    }
    push_param(q, "page", u64_dec(r.page as u64));
    let ghost g2 = pairs_view(q@);
    if !r.s.as_str().is_empty() {
        push_param(q, "s", r.s.clone());
    }
    proof {
        assert(pairs_view(q@) =~= g2 + opt(r.s@.len() != 0, "s"@, r.s@));
        assert(pairs_view(q@) =~= g0 + wallpapers_paging_params(*r));
    }
}

fn push_display_params(q: &mut Vec<(String, String)>, r: &GetWallpapersRequest)
    ensures
        pairs_view(final(q)@) == pairs_view(old(q)@) + wallpapers_display_params(*r),
{
    let ghost g0 = pairs_view(q@);
    push_param(q, "show_comments", bool_str(r.show_comments).to_owned());
    push_param(q, "show_pickle_jar", bool_str(r.show_pickle_jar).to_owned());
    push_param(q, "show_resolutions", bool_str(r.show_resolutions).to_owned());
    proof {
        assert(pairs_view(q@) =~= g0 + wallpapers_display_params(*r));
    }
}

/// Encodes a listing request.
pub fn get_wallpapers_query(request: &GetWallpapersRequest) -> (q: Vec<(String, String)>)
    ensures
        pairs_view(q@) == wallpapers_query_spec(*request),
{
    let mut q: Vec<(String, String)> = Vec::new();
    push_date_params(&mut q, request);
    proof {
        assert(pairs_view(q@) =~= wallpapers_date_params(*request));
    }
    push_gallery_rating_params(&mut q, request);
    push_resolution_params(&mut q, request);
    push_repeated_ids(&mut q, "filter_tag", &request.filter_tag);
    push_paging_params(&mut q, request);
    push_display_params(&mut q, request);
    q
}

/// Encodes a single-wallpaper request.
pub fn get_wallpaper_query(request: &GetWallpaperRequest) -> (q: Vec<(String, String)>)
    ensures
        pairs_view(q@) == wallpaper_query_spec(*request),
{
    let r = request;
    let mut q: Vec<(String, String)> = Vec::new();
    if r.filter_res_height != 0 {
        push_param(&mut q, "filter_res_height", i64_dec(r.filter_res_height));
    }
    let ghost p1 = opt(
        r.filter_res_height != 0,
        "filter_res_height"@,
        int_dec_of(r.filter_res_height as int),
    );
    proof {
        assert(pairs_view(q@) =~= p1);
    }
    if r.filter_res_width != 0 {
        push_param(&mut q, "filter_res_width", i64_dec(r.filter_res_width));
    }
    let ghost p2 = p1 + opt(
        r.filter_res_width != 0,
        "filter_res_width"@,
        int_dec_of(r.filter_res_width as int),
    );
    proof {
        assert(pairs_view(q@) =~= p2);
    }
    push_param(&mut q, "filter_res_operator", r.filter_res_operator.as_str().to_owned());
    push_param(
        &mut q,
        "filter_res_operator_height",
        r.filter_res_operator_height.as_str().to_owned(),
    );
    push_param(
        &mut q,
        "filter_res_operator_width",
        r.filter_res_operator_width.as_str().to_owned(),
    );
    push_param(&mut q, "show_comments", bool_str(r.show_comments).to_owned());
    push_param(&mut q, "show_pickle_jar", bool_str(r.show_pickle_jar).to_owned());
    push_param(&mut q, "show_resolutions", bool_str(r.show_resolutions).to_owned());
    proof {
        assert(pairs_view(q@) =~= wallpaper_query_spec(*request));
    }
    q
}

/// Encodes a download request.
pub fn download_query(request: &DownloadWallpaperRequest) -> (q: Vec<(String, String)>)
    ensures
        pairs_view(q@) == download_query_spec(*request),
{
    let mut q: Vec<(String, String)> = Vec::new();
    push_param(&mut q, "show_watermark", bool_str(request.show_watermark).to_owned());
    proof {
        assert(pairs_view(q@) =~= download_query_spec(*request));
    }
    q
}

} // verus!
