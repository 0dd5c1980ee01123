//! The single-wallpaper lookup: request, fallible builder, and response
//! shapes.

use vstd::prelude::*;
use crate::common::Operator;
use crate::common_response::Endpoints;
use crate::error::BuildError;
use crate::wallpaper::Wallpaper;

verus! {

/// The response of the single-wallpaper operation. An absent `wallpaper` is
/// the server's way of reporting "not found" inside a successful response.
#[derive(Debug, Clone)]
pub struct GetWallpaperResponse {
    pub db_core: GetWallpaperDBCore,
    pub wallpaper: Option<Wallpaper>,
}

/// The service block of the single-wallpaper response.
#[derive(Debug, Clone)]
pub struct GetWallpaperDBCore {
    pub timestamp: i64,
    pub endpoints: Endpoints,
    pub request: GetWallpaperDBCoreRequest,
}

/// The request echo of the single-wallpaper response.
#[derive(Debug, Clone)]
pub struct GetWallpaperDBCoreRequest {
    pub params: GetWallpaperResponseParams,
    pub query: GetWallpaperResponseQuery,
}

/// The echoed path parameter.
#[derive(Debug, Clone)]
pub struct GetWallpaperResponseParams {
    pub wallpaper_id: i64,
}

/// The echoed query parameters.
#[derive(Debug, Clone)]
pub struct GetWallpaperResponseQuery {
    pub filter_res_height: i64,
    pub filter_res_operator: Operator,
    pub filter_res_operator_height: Option<Operator>,
    pub filter_res_operator_width: Option<Operator>,
    pub filter_res_width: i64,
    pub show_comments: bool,
    pub show_pickle_jar: bool,
    pub show_resolutions: bool,
}

/// A validated single-wallpaper lookup. Zero stands for "not set" in the
/// resolution filters; the wallpaper ID is required and nonzero.
#[derive(Debug, Clone)]
pub struct GetWallpaperRequest {
    pub wallpaper_id: u16,
    pub filter_res_height: i64,
    pub filter_res_operator: Operator,
    pub filter_res_operator_height: Operator,
    pub filter_res_operator_width: Operator,
    pub filter_res_width: i64,
    pub show_comments: bool,
    pub show_pickle_jar: bool,
    pub show_resolutions: bool,
}

impl GetWallpaperRequest {
    /// A builder loaded with the defaults.
    pub fn builder() -> (r: GetWallpaperRequestBuilder)
        ensures
            r == GetWallpaperRequestBuilder::init(),
    {
        GetWallpaperRequestBuilder::new()
    }
}

/// Stepwise configuration of a [`GetWallpaperRequest`].
#[derive(Debug, Clone)]
pub struct GetWallpaperRequestBuilder {
    pub get_wallpaper_request: GetWallpaperRequest,
}

impl GetWallpaperRequestBuilder {
    /// The builder's starting state: every filter unset, operators at
    /// greater-than-or-equal, resolutions shown, everything else hidden.
    pub open spec fn init() -> GetWallpaperRequestBuilder {
        GetWallpaperRequestBuilder {
            get_wallpaper_request: GetWallpaperRequest {
                wallpaper_id: 0,
                filter_res_height: 0,
                filter_res_operator: Operator::GreaterThanOrEqual,
                filter_res_operator_height: Operator::GreaterThanOrEqual,
                filter_res_operator_width: Operator::GreaterThanOrEqual,
                filter_res_width: 0,
                show_comments: false,
                show_pickle_jar: false,
                show_resolutions: true,
            },
        }
    }

    pub(crate) fn new() -> (r: Self)
        ensures
            r == Self::init(),
    {
        GetWallpaperRequestBuilder {
            get_wallpaper_request: GetWallpaperRequest {
                wallpaper_id: 0,
                filter_res_height: 0,
                filter_res_operator: Operator::GreaterThanOrEqual,
                filter_res_operator_height: Operator::GreaterThanOrEqual,
                filter_res_operator_width: Operator::GreaterThanOrEqual,
                filter_res_width: 0,
                show_comments: false,
                show_pickle_jar: false,
                show_resolutions: true,
            },
        }
    }

    /// Finishes the request; the wallpaper ID must have been set.
    pub fn build(self) -> (r: Result<GetWallpaperRequest, BuildError>)
        ensures
            self.get_wallpaper_request.wallpaper_id != 0 ==> r == Ok::<GetWallpaperRequest,
                BuildError,
            >(self.get_wallpaper_request),
            self.get_wallpaper_request.wallpaper_id == 0 ==> r == Err::<GetWallpaperRequest,
                BuildError,
            >(BuildError::WallpaperIdMissing),
    {
        if self.get_wallpaper_request.wallpaper_id == 0 {
            Err(BuildError::WallpaperIdMissing)
        } else {
            Ok(self.get_wallpaper_request)
        }
    }

    pub fn wallpaper_id(self, wallpaper_id: u16) -> (r: Self)
        ensures
            r.get_wallpaper_request == (GetWallpaperRequest {
                wallpaper_id,
                ..self.get_wallpaper_request
            }),
    {
        let mut b = self;
        b.get_wallpaper_request.wallpaper_id = wallpaper_id;
        b
    }

    pub fn filter_res_height(self, filter_res_height: i64) -> (r: Self)
        ensures
            r.get_wallpaper_request == (GetWallpaperRequest {
                filter_res_height,
                ..self.get_wallpaper_request
            }),
    {
        let mut b = self;
        b.get_wallpaper_request.filter_res_height = filter_res_height;
        b
    }

    pub fn filter_res_operator(self, filter_res_operator: Operator) -> (r: Self)
        ensures
            r.get_wallpaper_request == (GetWallpaperRequest {
                filter_res_operator,
                ..self.get_wallpaper_request
            }),
    {
        let mut b = self;
        b.get_wallpaper_request.filter_res_operator = filter_res_operator;
        b
    }

    pub fn filter_res_operator_height(self, filter_res_operator_height: Operator) -> (r: Self)
        ensures
            r.get_wallpaper_request == (GetWallpaperRequest {
                filter_res_operator_height,
                ..self.get_wallpaper_request
            }),
    {
        let mut b = self;
        b.get_wallpaper_request.filter_res_operator_height = filter_res_operator_height;
        b
    }

    pub fn filter_res_operator_width(self, filter_res_operator_width: Operator) -> (r: Self)
        ensures
            r.get_wallpaper_request == (GetWallpaperRequest {
                filter_res_operator_width,
                ..self.get_wallpaper_request
            }),
    {
        let mut b = self;
        b.get_wallpaper_request.filter_res_operator_width = filter_res_operator_width;
        b
    }

    pub fn filter_res_width(self, filter_res_width: i64) -> (r: Self)
        ensures
            r.get_wallpaper_request == (GetWallpaperRequest {
                filter_res_width,
                ..self.get_wallpaper_request
            }),
    {
        let mut b = self;
        b.get_wallpaper_request.filter_res_width = filter_res_width;
        b
    }

    pub fn show_comments(self, show_comments: bool) -> (r: Self)
        ensures
            r.get_wallpaper_request == (GetWallpaperRequest {
                show_comments,
                ..self.get_wallpaper_request
            }),
    {
        let mut b = self;
        b.get_wallpaper_request.show_comments = show_comments;
        b
    }

    pub fn show_pickle_jar(self, show_pickle_jar: bool) -> (r: Self)
        ensures
            r.get_wallpaper_request == (GetWallpaperRequest {
                show_pickle_jar,
                ..self.get_wallpaper_request
            }),
    {
        let mut b = self;
        b.get_wallpaper_request.show_pickle_jar = show_pickle_jar;
        b
    }

    pub fn show_resolutions(self, show_resolutions: bool) -> (r: Self)
        ensures
            r.get_wallpaper_request == (GetWallpaperRequest {
                show_resolutions,
                ..self.get_wallpaper_request
            }),
    {
        let mut b = self;
        b.get_wallpaper_request.show_resolutions = show_resolutions;
        b
    }
}

} // verus!
