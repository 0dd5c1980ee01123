//! The download operation: request, fallible builder with required-field
//! checks, and the response that carries the time-limited download URL.

use vstd::prelude::*;
use crate::common::WallpaperType;
use crate::common_response::Endpoints;
use crate::error::BuildError;

verus! {

/// The response of the download operation.
#[derive(Debug, Clone)]
pub struct DownloadWallpaperResponse {
    pub db_core: DownloadWallpaperDBCore,
    pub download: Download,
}

/// The service block of the download response.
#[derive(Debug, Clone)]
pub struct DownloadWallpaperDBCore {
    pub timestamp: i64,
    pub endpoints: Endpoints,
    pub request: DownloadWallpaperDBCoreRequest,
}

/// The request echo of the download response.
#[derive(Debug, Clone)]
pub struct DownloadWallpaperDBCoreRequest {
    pub params: DownloadWallpaperResponseParams,
}

/// The echoed path parameters.
#[derive(Debug, Clone)]
pub struct DownloadWallpaperResponseParams {
    pub wallpaper_type: WallpaperType,
    pub width: u16,
    pub height: u16,
    pub wallpaper_id: u16,
}

/// The time-limited, self-authorizing URL to fetch the file from, and when
/// it expires.
#[derive(Debug, Clone)]
pub struct Download {
    pub expiration: i64,
    pub url: String,
}

/// A validated download request: the wallpaper type, the wanted size, the
/// wallpaper ID (all required, size and ID nonzero) and the watermark
/// toggle.
#[derive(Debug, Clone)]
pub struct DownloadWallpaperRequest {
    pub wallpaper_type: WallpaperType,
    pub width: u16,
    pub height: u16,
    pub wallpaper_id: u16,
    pub show_watermark: bool,
}

impl DownloadWallpaperRequest {
    /// A builder loaded with the defaults.
    pub fn builder() -> (r: DownloadWallpaperRequestBuilder)
        ensures
            r == DownloadWallpaperRequestBuilder::init(),
    {
        DownloadWallpaperRequestBuilder::new()
    }
}

/// Stepwise configuration of a [`DownloadWallpaperRequest`]. Width, height
/// and wallpaper ID must all be set before `build` succeeds.
#[derive(Debug, Clone)]
pub struct DownloadWallpaperRequestBuilder {
    pub download_wallpaper_request: DownloadWallpaperRequest,
}

impl DownloadWallpaperRequestBuilder {
    /// The builder's starting state: the single-screen type, the watermark
    /// on, and the required fields still unset.
    pub open spec fn init() -> DownloadWallpaperRequestBuilder {
        DownloadWallpaperRequestBuilder {
            download_wallpaper_request: DownloadWallpaperRequest {
                wallpaper_type: WallpaperType::Single,
                width: 0,
                height: 0,
                wallpaper_id: 0,
                show_watermark: true,
            },
        }
    }

    pub(crate) fn new() -> (r: Self)
        ensures
            r == Self::init(),
    {
        DownloadWallpaperRequestBuilder {
            download_wallpaper_request: DownloadWallpaperRequest {
                wallpaper_type: WallpaperType::Single,
                width: 0,
                height: 0,
                wallpaper_id: 0,
                show_watermark: true,
            },
        }
    }

    /// Finishes the request; width, height and wallpaper ID must have been
    /// set, and the first one missing (in that order) is reported.
    pub fn build(self) -> (r: Result<DownloadWallpaperRequest, BuildError>)
        ensures
            self.download_wallpaper_request.width == 0 ==> r == Err::<
                DownloadWallpaperRequest,
                BuildError,
            >(BuildError::WidthMissing),
            self.download_wallpaper_request.width != 0
                && self.download_wallpaper_request.height == 0 ==> r == Err::<
                DownloadWallpaperRequest,
                BuildError,
            >(BuildError::HeightMissing),
            self.download_wallpaper_request.width != 0
                && self.download_wallpaper_request.height != 0
                && self.download_wallpaper_request.wallpaper_id == 0 ==> r == Err::<
                DownloadWallpaperRequest,
                BuildError,
            >(BuildError::WallpaperIdMissing),
            self.download_wallpaper_request.width != 0
                && self.download_wallpaper_request.height != 0
                && self.download_wallpaper_request.wallpaper_id != 0 ==> r == Ok::<
                DownloadWallpaperRequest,
                BuildError,
            >(self.download_wallpaper_request),
    {
        if self.download_wallpaper_request.width == 0 {
            Err(BuildError::WidthMissing)
        } else if self.download_wallpaper_request.height == 0 {
            Err(BuildError::HeightMissing)
        } else if self.download_wallpaper_request.wallpaper_id == 0 {
            Err(BuildError::WallpaperIdMissing)
        } else {
            Ok(self.download_wallpaper_request)
        }
    }

    pub fn wallpaper_type(self, wallpaper_type: WallpaperType) -> (r: Self)
        ensures
            r.download_wallpaper_request == (DownloadWallpaperRequest {
                wallpaper_type,
                ..self.download_wallpaper_request
            }),
    {
        let mut b = self;
        b.download_wallpaper_request.wallpaper_type = wallpaper_type;
        b
    }

    pub fn width(self, width: u16) -> (r: Self)
        ensures
            r.download_wallpaper_request == (DownloadWallpaperRequest {
                width,
                ..self.download_wallpaper_request
            }),
    {
        let mut b = self;
        b.download_wallpaper_request.width = width;
        b
    }

    pub fn height(self, height: u16) -> (r: Self)
        ensures
            r.download_wallpaper_request == (DownloadWallpaperRequest {
                height,
                ..self.download_wallpaper_request
            }),
    {
        let mut b = self;
        b.download_wallpaper_request.height = height;
        b
    }

    pub fn wallpaper_id(self, wallpaper_id: u16) -> (r: Self)
        ensures
            r.download_wallpaper_request == (DownloadWallpaperRequest {
                wallpaper_id,
                ..self.download_wallpaper_request
            }),
    {
        let mut b = self;
        b.download_wallpaper_request.wallpaper_id = wallpaper_id;
        b
    }

    pub fn show_watermark(self, show_watermark: bool) -> (r: Self)
        ensures
            r.download_wallpaper_request == (DownloadWallpaperRequest {
                show_watermark,
                ..self.download_wallpaper_request
            }),
    {
        let mut b = self;
        b.download_wallpaper_request.show_watermark = show_watermark;
        b
    }
}

} // verus!
