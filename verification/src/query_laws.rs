//! What the encoded queries contain, stated per parameter name: an optional
//! filter appears exactly once when set and not at all when left at its
//! sentinel; the unconditional parameters always appear, `order_by` only
//! when it is not the default; a repeated filter appears once per element,
//! in the order supplied.

use vstd::prelude::*;
use crate::common::operator_wire;
use crate::common::order_wire;
use crate::download_wallpaper::DownloadWallpaperRequest;
use crate::get_wallpaper::GetWallpaperRequest;
use crate::get_wallpapers::GetWallpapersOrderBy;
use crate::get_wallpapers::GetWallpapersRequest;
use crate::get_wallpapers::order_by_wire;
use crate::query::QueryPair;
use crate::query::dec_seq;
use crate::query::download_query_spec;
use crate::query::many;
use crate::query::one;
use crate::query::opt;
use crate::query::wallpaper_query_spec;
use crate::query::wallpapers_query_spec;
use crate::text::bool_wire;
use crate::text::dec_of;
use crate::text::int_dec_of;
use crate::text::rating_wire;

verus! {

broadcast use vstd::seq_lib::group_seq_lib_default;

/// The values carried by the parameters named `k` in `q`, in order.
pub open spec fn values_for(q: Seq<QueryPair>, k: Seq<char>) -> Seq<Seq<char>>
    decreases q.len(),
{
    if q.len() == 0 {
        Seq::empty()
    } else {
        let rest = values_for(q.drop_first(), k);
        if q[0].0 == k {
            seq![q[0].1] + rest
        } else {
            rest
        }
    }
}

/// One value when `cond` holds, none otherwise: what an optional parameter
/// contributes under a given name.
pub open spec fn opt_value(cond: bool, v: Seq<char>) -> Seq<Seq<char>> {
    if cond {
        seq![v]
    } else {
        Seq::empty()
    }
}

/// `values_for` distributes over concatenation.
pub broadcast proof fn lemma_values_for_add(a: Seq<QueryPair>, b: Seq<QueryPair>, k: Seq<char>)
    ensures
        #[trigger] values_for(a + b, k) == values_for(a, k) + values_for(b, k),
    decreases a.len(),
{
    if a.len() == 0 {
        assert(a + b =~= b);
        assert(values_for(a, k) + values_for(b, k) =~= values_for(b, k));
    } else {
        assert((a + b).drop_first() =~= a.drop_first() + b);
        lemma_values_for_add(a.drop_first(), b, k);
        if a[0].0 == k {
            assert(seq![a[0].1] + (values_for(a.drop_first(), k) + values_for(b, k)) =~= (seq![
                a[0].1,
            ] + values_for(a.drop_first(), k)) + values_for(b, k));
        }
    }
}

/// An unconditional parameter contributes its value under its own name and
/// nothing under any other.
pub broadcast proof fn lemma_values_for_one(k: Seq<char>, v: Seq<char>, k2: Seq<char>)
    ensures
        #[trigger] values_for(one(k, v), k2) == opt_value(k == k2, v),
{
    let q = one(k, v);
    assert(q.drop_first() =~= Seq::<QueryPair>::empty());
    assert(values_for(Seq::<QueryPair>::empty(), k2) == Seq::<Seq<char>>::empty());
    if k == k2 {
        assert(seq![v] + Seq::<Seq<char>>::empty() =~= seq![v]);
    }
}

/// An optional parameter contributes its value under its own name exactly
/// when its condition holds.
pub broadcast proof fn lemma_values_for_opt(cond: bool, k: Seq<char>, v: Seq<char>, k2: Seq<char>)
    ensures
        #[trigger] values_for(opt(cond, k, v), k2) == opt_value(cond && k == k2, v),
{
    if cond {
        lemma_values_for_one(k, v, k2);
    } else {
        assert(values_for(Seq::<QueryPair>::empty(), k2) == Seq::<Seq<char>>::empty());
    }
}

/// A repeated parameter contributes all its values, in order, under its own
/// name and nothing under any other.
pub broadcast proof fn lemma_values_for_many(k: Seq<char>, vs: Seq<Seq<char>>, k2: Seq<char>)
    ensures
        #[trigger] values_for(many(k, vs), k2) == if k == k2 {
            vs
        } else {
            Seq::<Seq<char>>::empty()
        },
    decreases vs.len(),
{
    let q = many(k, vs);
    if vs.len() == 0 {
        assert(values_for(q, k2) == Seq::<Seq<char>>::empty());
        if k == k2 {
            assert(vs =~= Seq::<Seq<char>>::empty());
        }
    } else {
        assert(q.drop_first() =~= many(k, vs.drop_first()));
        lemma_values_for_many(k, vs.drop_first(), k2);
        if k == k2 {
            assert(seq![vs[0]] + vs.drop_first() =~= vs);
        }
    }
}

/// The parameter names are pairwise distinct: their lengths, and the
/// disequality of the equal-length pairs.
proof fn lemma_query_key_facts()
    ensures
        "filter_date_day"@.len() == 15,
        "filter_date_month"@.len() == 17,
        "filter_date_year"@.len() == 16,
        "filter_date_operator"@.len() == 20,
        "filter_gallery"@.len() == 14,
        "filter_rating"@.len() == 13,
        "filter_rating_operator"@.len() == 22,
        "filter_res_height"@.len() == 17,
        "filter_res_operator"@.len() == 19,
        "filter_res_operator_height"@.len() == 26,
        "filter_res_operator_width"@.len() == 25,
        "filter_res_width"@.len() == 16,
        "filter_tag"@.len() == 10,
        "limit"@.len() == 5,
        "order"@.len() == 5,
        "order_by"@.len() == 8,
        "page"@.len() == 4,
        "s"@.len() == 1,
        "show_comments"@.len() == 13,
        "show_pickle_jar"@.len() == 15,
        "show_resolutions"@.len() == 16,
        "filter_date_day"@ != "show_pickle_jar"@,
        "filter_date_month"@ != "filter_res_height"@,
        "filter_date_year"@ != "filter_res_width"@,
        "filter_date_year"@ != "show_resolutions"@,
        "filter_rating"@ != "show_comments"@,
        "filter_res_width"@ != "show_resolutions"@,
        "limit"@ != "order"@,
{
    reveal_strlit("filter_date_day");
    reveal_strlit("filter_date_month");
    reveal_strlit("filter_date_year");
    reveal_strlit("filter_date_operator");
    reveal_strlit("filter_gallery");
    reveal_strlit("filter_rating");
    reveal_strlit("filter_rating_operator");
    reveal_strlit("filter_res_height");
    reveal_strlit("filter_res_operator");
    reveal_strlit("filter_res_operator_height");
    reveal_strlit("filter_res_operator_width");
    reveal_strlit("filter_res_width");
    reveal_strlit("filter_tag");
    reveal_strlit("limit");
    reveal_strlit("order");
    reveal_strlit("order_by");
    reveal_strlit("page");
    reveal_strlit("s");
    reveal_strlit("show_comments");
    reveal_strlit("show_pickle_jar");
    reveal_strlit("show_resolutions");
    assert("filter_date_day"@[0] != "show_pickle_jar"@[0]);
    assert("filter_date_month"@[7] != "filter_res_height"@[7]);
    assert("filter_date_year"@[7] != "filter_res_width"@[7]);
    assert("filter_date_year"@[0] != "show_resolutions"@[0]);
    assert("filter_rating"@[0] != "show_comments"@[0]);
    assert("filter_res_width"@[0] != "show_resolutions"@[0]);
    assert("limit"@[0] != "order"@[0]);
}

/// Each release-date filter of an encoded listing appears exactly when it is
/// set, once, with its decimal value; the date operator always appears, once.
pub proof fn lemma_wallpapers_query_date_values(r: GetWallpapersRequest)
    ensures
        values_for(wallpapers_query_spec(r), "filter_date_day"@) == opt_value(
            r.filter_date_day != 0,
            dec_of(r.filter_date_day as nat),
        ),
        values_for(wallpapers_query_spec(r), "filter_date_month"@) == opt_value(
            r.filter_date_month != 0,
            dec_of(r.filter_date_month as nat),
        ),
        values_for(wallpapers_query_spec(r), "filter_date_year"@) == opt_value(
            r.filter_date_year != 0,
            dec_of(r.filter_date_year as nat),
        ),
        values_for(wallpapers_query_spec(r), "filter_date_operator"@) == seq![
            operator_wire(r.filter_date_operator),
        ],
{
    broadcast use lemma_values_for_add, lemma_values_for_one, lemma_values_for_opt, lemma_values_for_many;

    lemma_query_key_facts();
}

/// The gallery filter of an encoded listing appears once per gallery ID, in
/// the order supplied; the rating appears exactly when set, with its decimal
/// text; the rating operator always appears, once.
pub proof fn lemma_wallpapers_query_gallery_rating_values(r: GetWallpapersRequest)
    ensures
        values_for(wallpapers_query_spec(r), "filter_gallery"@) == dec_seq(r.filter_gallery@),
        values_for(wallpapers_query_spec(r), "filter_rating"@) == opt_value(
            r.filter_rating != 0,
            rating_wire(r.filter_rating as nat),
        ),
        values_for(wallpapers_query_spec(r), "filter_rating_operator"@) == seq![
            operator_wire(r.filter_rating_operator),
        ],
{
    broadcast use lemma_values_for_add, lemma_values_for_one, lemma_values_for_opt, lemma_values_for_many;

    lemma_query_key_facts();
}

/// Each resolution filter of an encoded listing appears exactly when it is
/// set, with its signed decimal value; the three resolution operators always
/// appear, once each.
pub proof fn lemma_wallpapers_query_resolution_values(r: GetWallpapersRequest)
    ensures
        values_for(wallpapers_query_spec(r), "filter_res_height"@) == opt_value(
            r.filter_res_height != 0,
            int_dec_of(r.filter_res_height as int),
        ),
        values_for(wallpapers_query_spec(r), "filter_res_width"@) == opt_value(
            r.filter_res_width != 0,
            int_dec_of(r.filter_res_width as int),
        ),
        values_for(wallpapers_query_spec(r), "filter_res_operator"@) == seq![
            operator_wire(r.filter_res_operator),
        ],
        values_for(wallpapers_query_spec(r), "filter_res_operator_height"@) == seq![
            operator_wire(r.filter_res_operator_height),
        ],
        values_for(wallpapers_query_spec(r), "filter_res_operator_width"@) == seq![
            operator_wire(r.filter_res_operator_width),
        ],
{
    broadcast use lemma_values_for_add, lemma_values_for_one, lemma_values_for_opt, lemma_values_for_many;

    lemma_query_key_facts();
}

/// The tag filter of an encoded listing appears once per tag ID, in the
/// order supplied.
pub proof fn lemma_wallpapers_query_tag_values(r: GetWallpapersRequest)
    ensures
        values_for(wallpapers_query_spec(r), "filter_tag"@) == dec_seq(r.filter_tag@),
{
    broadcast use lemma_values_for_add, lemma_values_for_one, lemma_values_for_opt, lemma_values_for_many;

    lemma_query_key_facts();
}

/// `limit`, `order` and `page` always appear in an encoded listing, once
/// each; `order_by` appears exactly when it is not the default `date`; the
/// search string appears exactly when nonempty.
pub proof fn lemma_wallpapers_query_paging_values(r: GetWallpapersRequest)
    ensures
        values_for(wallpapers_query_spec(r), "limit"@) == seq![dec_of(r.limit as nat)],
        values_for(wallpapers_query_spec(r), "order"@) == seq![order_wire(r.order)],
        values_for(wallpapers_query_spec(r), "order_by"@) == opt_value(
            r.order_by != GetWallpapersOrderBy::Date,
            order_by_wire(r.order_by),
        ),
        values_for(wallpapers_query_spec(r), "page"@) == seq![dec_of(r.page as nat)],
        values_for(wallpapers_query_spec(r), "s"@) == opt_value(r.s@.len() != 0, r.s@),
{
    broadcast use lemma_values_for_add, lemma_values_for_one, lemma_values_for_opt, lemma_values_for_many;

    lemma_query_key_facts();
}

/// The three display toggles always appear in an encoded listing, once
/// each, as `true` or `false`.
#[verifier::rlimit(60)]
pub proof fn lemma_wallpapers_query_display_values(r: GetWallpapersRequest)
    ensures
        values_for(wallpapers_query_spec(r), "show_comments"@) == seq![
            bool_wire(r.show_comments),
        ],
        values_for(wallpapers_query_spec(r), "show_pickle_jar"@) == seq![
            bool_wire(r.show_pickle_jar),
        ],
        values_for(wallpapers_query_spec(r), "show_resolutions"@) == seq![
            bool_wire(r.show_resolutions),
        ],
{
    broadcast use lemma_values_for_add, lemma_values_for_one, lemma_values_for_opt, lemma_values_for_many;

    lemma_query_key_facts();
}

/// The same statements for an encoded single-wallpaper lookup: resolution
/// filters exactly when set, the three operators and the three display
/// toggles always, once each.
pub proof fn lemma_wallpaper_query_values(r: GetWallpaperRequest)
    ensures
        values_for(wallpaper_query_spec(r), "filter_res_height"@) == opt_value(
            r.filter_res_height != 0,
            int_dec_of(r.filter_res_height as int),
        ),
        values_for(wallpaper_query_spec(r), "filter_res_width"@) == opt_value(
            r.filter_res_width != 0,
            int_dec_of(r.filter_res_width as int),
        ),
        values_for(wallpaper_query_spec(r), "filter_res_operator"@) == seq![
            operator_wire(r.filter_res_operator),
        ],
        values_for(wallpaper_query_spec(r), "filter_res_operator_height"@) == seq![
            operator_wire(r.filter_res_operator_height),
        ],
        values_for(wallpaper_query_spec(r), "filter_res_operator_width"@) == seq![
            operator_wire(r.filter_res_operator_width),
        ],
        values_for(wallpaper_query_spec(r), "show_comments"@) == seq![
            bool_wire(r.show_comments),
        ],
        values_for(wallpaper_query_spec(r), "show_pickle_jar"@) == seq![
            bool_wire(r.show_pickle_jar),
        ],
        values_for(wallpaper_query_spec(r), "show_resolutions"@) == seq![
            bool_wire(r.show_resolutions),
        ],
{
    broadcast use lemma_values_for_add, lemma_values_for_one, lemma_values_for_opt, lemma_values_for_many;

    lemma_query_key_facts();
}

/// The watermark toggle is the one parameter of an encoded download request.
pub proof fn lemma_download_query_values(r: DownloadWallpaperRequest)
    ensures
        values_for(download_query_spec(r), "show_watermark"@) == seq![
            bool_wire(r.show_watermark),
        ],
{
    broadcast use lemma_values_for_one;
}

} // verus!
