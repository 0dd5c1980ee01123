//! A typed client binding for the Digital Blasphemy wallpaper-catalog HTTP
//! API: validated request builders, a deterministic query-string encoder, an
//! error classifier for transport outcomes, and the data contracts of the
//! four catalog operations (account info, list wallpapers, get one
//! wallpaper, download wallpaper).
//!
//! Everything here is pure logic, verified with Verus. The HTTP transport,
//! the JSON codec and the filesystem live outside this crate; they hand the
//! library plain values and take plain values back.

mod client;
mod common;
mod common_response;
mod download_wallpaper;
mod error;
mod get_account_information;
mod get_wallpaper;
mod get_wallpapers;
mod query;
mod query_laws;
mod text;
mod wallpaper;

pub use client::Classified;
pub use client::ClientConfig;
pub use client::FetchOutcome;
pub use client::account_url;
pub use client::account_url_of;
pub use client::bearer_of;
pub use client::classify_outcome;
pub use client::default_base_url;
pub use client::download_url;
pub use client::download_url_of;
pub use client::is_success_status;
pub use client::wallpaper_url;
pub use client::wallpaper_url_of;
pub use client::wallpapers_url;
pub use client::wallpapers_url_of;
pub use common::Operator;
pub use common::Order;
pub use common::WallpaperType;
pub use common::operator_wire;
pub use common::order_wire;
pub use common::unknown_type_message;
pub use common::wallpaper_type_from_wire;
pub use common::wallpaper_type_of;
pub use common::wallpaper_type_wire;
pub use common_response::Endpoints;
pub use download_wallpaper::Download;
pub use download_wallpaper::DownloadWallpaperDBCore;
pub use download_wallpaper::DownloadWallpaperDBCoreRequest;
pub use download_wallpaper::DownloadWallpaperRequest;
pub use download_wallpaper::DownloadWallpaperRequestBuilder;
pub use download_wallpaper::DownloadWallpaperResponse;
pub use download_wallpaper::DownloadWallpaperResponseParams;
pub use error::BuildError;
pub use error::ErrorResponse;
pub use error::build_error_message_of;
pub use error::error_message_of;
pub use error::joined_errors;
pub use error::quoted;
pub use error::string_views;
pub use get_account_information::GetAccountInformationDBCore;
pub use get_account_information::GetAccountInformationResponse;
pub use get_account_information::User;
pub use get_wallpaper::GetWallpaperDBCore;
pub use get_wallpaper::GetWallpaperDBCoreRequest;
pub use get_wallpaper::GetWallpaperRequest;
pub use get_wallpaper::GetWallpaperRequestBuilder;
pub use get_wallpaper::GetWallpaperResponse;
pub use get_wallpaper::GetWallpaperResponseParams;
pub use get_wallpaper::GetWallpaperResponseQuery;
pub use get_wallpapers::GetWallpapersDBCore;
pub use get_wallpapers::GetWallpapersDBCoreRequest;
pub use get_wallpapers::GetWallpapersOrderBy;
pub use get_wallpapers::GetWallpapersRequest;
pub use get_wallpapers::GetWallpapersRequestBuilder;
pub use get_wallpapers::GetWallpapersResponse;
pub use get_wallpapers::GetWallpapersResponseQuery;
pub use get_wallpapers::order_by_wire;
pub use query::QueryPair;
pub use query::dec_seq;
pub use query::download_query;
pub use query::download_query_spec;
pub use query::get_wallpaper_query;
pub use query::get_wallpapers_query;
pub use query::many;
pub use query::one;
pub use query::opt;
pub use query::pairs_view;
pub use query::wallpaper_query_spec;
pub use query::wallpapers_date_params;
pub use query::wallpapers_display_params;
pub use query::wallpapers_gallery_rating_params;
pub use query::wallpapers_paging_params;
pub use query::wallpapers_query_spec;
pub use query::wallpapers_resolution_params;
pub use query::wallpapers_tag_params;
pub use query_laws::lemma_download_query_values;
pub use query_laws::lemma_values_for_add;
pub use query_laws::lemma_values_for_many;
pub use query_laws::lemma_values_for_one;
pub use query_laws::lemma_values_for_opt;
pub use query_laws::lemma_wallpaper_query_values;
pub use query_laws::lemma_wallpapers_query_date_values;
pub use query_laws::lemma_wallpapers_query_display_values;
pub use query_laws::lemma_wallpapers_query_gallery_rating_values;
pub use query_laws::lemma_wallpapers_query_paging_values;
pub use query_laws::lemma_wallpapers_query_resolution_values;
pub use query_laws::lemma_wallpapers_query_tag_values;
pub use query_laws::opt_value;
pub use query_laws::values_for;
pub use text::bool_wire;
pub use text::dec_of;
pub use text::digit_char;
pub use text::int_dec_of;
pub use text::lower_of;
pub use text::rating_wire;
pub use wallpaper::Comment;
pub use wallpaper::Comments;
pub use wallpaper::Paths;
pub use wallpaper::PickleJar;
pub use wallpaper::Resolution;
pub use wallpaper::Resolutions;
pub use wallpaper::Tag;
pub use wallpaper::Wallpaper;
