//! The wallpaper listing: request, fallible builder with range validation,
//! and response shapes.
//!
//! Zero and empty are the "not set" sentinels of the optional filters: the
//! wire encoding omits a field exactly when it still holds its sentinel.
//! The rating filter is carried in hundredths of a star (`120` stands for
//! 1.2), so that its range check and its wire text stay plain integer work.

use vstd::prelude::*;
use crate::common::Operator;
use crate::common::Order;
use crate::common_response::Endpoints;
use crate::error::BuildError;
use crate::wallpaper::Wallpaper;

verus! {

/// The field a wallpaper listing is sorted by.
#[derive(Debug, Clone, PartialEq, Eq, Structural)]
pub enum GetWallpapersOrderBy {
    Date,
    Name,
}

/// The wire token of a sort field.
pub open spec fn order_by_wire(o: GetWallpapersOrderBy) -> Seq<char> {
    match o {
        GetWallpapersOrderBy::Date => "date"@,
        GetWallpapersOrderBy::Name => "name"@,
    }
}

impl GetWallpapersOrderBy {
    pub fn as_str(&self) -> (r: &'static str)
        ensures
            r@ == order_by_wire(*self),
    {
        match self {
            GetWallpapersOrderBy::Date => "date",
            GetWallpapersOrderBy::Name => "name",
        }
    }
}

/// The response of the listing operation.
#[derive(Debug, Clone)]
pub struct GetWallpapersResponse {
    pub db_core: GetWallpapersDBCore,
}

/// The service block of the listing response. The wallpapers come keyed by
/// their catalog ID, one pair per entry.
#[derive(Debug, Clone)]
pub struct GetWallpapersDBCore {
    pub timestamp: i64,
    pub endpoints: Endpoints,
    pub request: GetWallpapersDBCoreRequest,
    pub total_pages: u16,
    pub wallpapers: Vec<(String, Wallpaper)>,
}

/// The request echo of the listing response.
#[derive(Debug, Clone)]
pub struct GetWallpapersDBCoreRequest {
    pub query: GetWallpapersResponseQuery,
}

/// The echoed query parameters. The rating comes back as its decimal text.
#[derive(Debug, Clone)]
pub struct GetWallpapersResponseQuery {
    pub filter_date_day: Option<u8>,
    pub filter_date_month: Option<u8>,
    pub filter_date_year: Option<u16>,
    pub filter_date_operator: Operator,
    pub filter_gallery: Option<Vec<u16>>,
    pub filter_rating: Option<String>,
    pub filter_rating_operator: Option<Operator>,
    pub filter_res_operator_height: Option<Operator>,
    pub filter_res_operator_width: Option<Operator>,
    pub filter_res_height: i64,
    pub filter_res_operator: Operator,
    pub filter_res_width: i64,
    pub filter_tag: Option<Vec<u16>>,
    pub limit: u16,
    pub order: Order,
    pub order_by: GetWallpapersOrderBy,
    pub page: u16,
    pub s: Option<String>,
    pub show_comments: bool,
    pub show_pickle_jar: bool,
    pub show_resolutions: bool,
}

/// A validated listing request. Zero, the empty string and the empty list
/// are the "not set" sentinels of the optional filters; `filter_rating` is
/// in hundredths of a star.
#[derive(Debug, Clone)]
pub struct GetWallpapersRequest {
    pub filter_date_day: u8,
    pub filter_date_month: u8,
    pub filter_date_year: u16,
    pub filter_date_operator: Operator,
    pub filter_gallery: Vec<u16>,
    pub filter_rating: u16,
    pub filter_rating_operator: Operator,
    pub filter_res_height: i64,
    pub filter_res_operator: Operator,
    pub filter_res_operator_height: Operator,
    pub filter_res_operator_width: Operator,
    pub filter_res_width: i64,
    pub filter_tag: Vec<u16>,
    pub limit: u16,
    pub order: Order,
    pub order_by: GetWallpapersOrderBy,
    pub page: u16,
    pub s: String,
    pub show_comments: bool,
    pub show_pickle_jar: bool,
    pub show_resolutions: bool,
}

impl GetWallpapersRequest {
    /// A builder loaded with the defaults.
    pub fn builder() -> (r: GetWallpapersRequestBuilder)
        ensures
            GetWallpapersRequestBuilder::is_init(r),
    {
        GetWallpapersRequestBuilder::new()
    }
}

/// Stepwise configuration of a [`GetWallpapersRequest`]. Each range-checked
/// setter rejects an out-of-range argument at once, before the request is
/// finished.
#[derive(Debug, Clone)]
pub struct GetWallpapersRequestBuilder {
    pub get_wallpapers_request: GetWallpapersRequest,
}

impl GetWallpapersRequestBuilder {
    /// The builder's starting state: every filter unset, operators at
    /// greater-than-or-equal, ten results of page one in ascending date
    /// order, resolutions shown, everything else hidden.
    pub open spec fn is_init(r: GetWallpapersRequestBuilder) -> bool {
        let q = r.get_wallpapers_request;
        &&& q.filter_date_day == 0
        &&& q.filter_date_month == 0
        &&& q.filter_date_year == 0
        &&& q.filter_date_operator == Operator::GreaterThanOrEqual
        &&& q.filter_gallery@ == Seq::<u16>::empty()
        &&& q.filter_rating == 0
        &&& q.filter_rating_operator == Operator::GreaterThanOrEqual
        &&& q.filter_res_height == 0
        &&& q.filter_res_operator == Operator::GreaterThanOrEqual
        &&& q.filter_res_operator_height == Operator::GreaterThanOrEqual
        &&& q.filter_res_operator_width == Operator::GreaterThanOrEqual
        &&& q.filter_res_width == 0
        &&& q.filter_tag@ == Seq::<u16>::empty()
        &&& q.limit == 10
        &&& q.order == Order::Ascending
        &&& q.order_by == GetWallpapersOrderBy::Date
        &&& q.page == 1
        &&& q.s@ == Seq::<char>::empty()
        &&& q.show_comments == false
        &&& q.show_pickle_jar == false
        &&& q.show_resolutions == true
    }

    pub(crate) fn new() -> (r: Self)
        ensures
            Self::is_init(r),
    {
        let r = GetWallpapersRequestBuilder {
            get_wallpapers_request: GetWallpapersRequest {
                filter_date_day: 0,
                filter_date_month: 0,
                filter_date_year: 0,
                filter_date_operator: Operator::GreaterThanOrEqual,
                filter_gallery: Vec::new(),
                filter_rating: 0,
                filter_rating_operator: Operator::GreaterThanOrEqual,
                filter_res_height: 0,
                filter_res_operator: Operator::GreaterThanOrEqual,
                filter_res_operator_height: Operator::GreaterThanOrEqual,
                filter_res_operator_width: Operator::GreaterThanOrEqual,
                filter_res_width: 0,
                filter_tag: Vec::new(),
                limit: 10,
                order: Order::Ascending,
                order_by: GetWallpapersOrderBy::Date,
                page: 1,
                s: String::new(),
                show_comments: false,
                show_pickle_jar: false,
                show_resolutions: true,
            },
        };
        r
    }

    /// Finishes the request; the listing has no cross-field requirement.
    pub fn build(self) -> (r: GetWallpapersRequest)
        ensures
            r == self.get_wallpapers_request,
    {
        self.get_wallpapers_request
    }

    /// The day of the month a wallpaper was released, 1 to 31.
    pub fn filter_date_day(self, filter_date_day: u8) -> (r: Result<Self, BuildError>)
        ensures
            1 <= filter_date_day <= 31 ==> r == Ok::<Self, BuildError>(
                GetWallpapersRequestBuilder {
                    get_wallpapers_request: GetWallpapersRequest {
                        filter_date_day,
                        ..self.get_wallpapers_request
                    },
                },
            ),
            !(1 <= filter_date_day <= 31) ==> r == Err::<Self, BuildError>(
                BuildError::DateDayOutOfRange,
            ),
    {
        if filter_date_day < 1 || filter_date_day > 31 {
            Err(BuildError::DateDayOutOfRange)
        } else {
            let mut b = self;
            b.get_wallpapers_request.filter_date_day = filter_date_day;
            Ok(b)
        }
    }

    /// The month a wallpaper was released, 1 to 12.
    pub fn filter_date_month(self, filter_date_month: u8) -> (r: Result<Self, BuildError>)
        ensures
            1 <= filter_date_month <= 12 ==> r == Ok::<Self, BuildError>(
                GetWallpapersRequestBuilder {
                    get_wallpapers_request: GetWallpapersRequest {
                        filter_date_month,
                        ..self.get_wallpapers_request
                    },
                },
            ),
            !(1 <= filter_date_month <= 12) ==> r == Err::<Self, BuildError>(
                BuildError::DateMonthOutOfRange,
            ),
    {
        if filter_date_month < 1 || filter_date_month > 12 {
            Err(BuildError::DateMonthOutOfRange)
        } else {
            let mut b = self;
            b.get_wallpapers_request.filter_date_month = filter_date_month;
            Ok(b)
        }
    }

    /// The year a wallpaper was released, 1997 or later.
    pub fn filter_date_year(self, filter_date_year: u16) -> (r: Result<Self, BuildError>)
        ensures
            filter_date_year >= 1997 ==> r == Ok::<Self, BuildError>(
                GetWallpapersRequestBuilder {
                    get_wallpapers_request: GetWallpapersRequest {
                        filter_date_year,
                        ..self.get_wallpapers_request
                    },
                },
            ),
            filter_date_year < 1997 ==> r == Err::<Self, BuildError>(
                BuildError::DateYearOutOfRange,
            ),
    {
        if filter_date_year < 1997 {
            Err(BuildError::DateYearOutOfRange)
        } else {
            let mut b = self;
            b.get_wallpapers_request.filter_date_year = filter_date_year;
            Ok(b)
        }
    }

    pub fn filter_date_operator(self, filter_date_operator: Operator) -> (r: Self)
        ensures
            r.get_wallpapers_request == (GetWallpapersRequest {
                filter_date_operator,
                ..self.get_wallpapers_request
            }),
    {
        let mut b = self;
        b.get_wallpapers_request.filter_date_operator = filter_date_operator;
        b
    }

    pub fn filter_gallery(self, filter_gallery: Vec<u16>) -> (r: Self)
        ensures
            r.get_wallpapers_request == (GetWallpapersRequest {
                filter_gallery,
                ..self.get_wallpapers_request
            }),
    {
        let mut b = self;
        b.get_wallpapers_request.filter_gallery = filter_gallery;
        b
    }

    /// The minimum (or compared) rating, in hundredths of a star: 100 to
    /// 500, standing for 1.0 to 5.0.
    pub fn filter_rating(self, filter_rating: u16) -> (r: Result<Self, BuildError>)
        ensures
            100 <= filter_rating <= 500 ==> r == Ok::<Self, BuildError>(
                GetWallpapersRequestBuilder {
                    get_wallpapers_request: GetWallpapersRequest {
                        filter_rating,
                        ..self.get_wallpapers_request
                    },
                },
            ),
            !(100 <= filter_rating <= 500) ==> r == Err::<Self, BuildError>(
                BuildError::RatingOutOfRange,
            ),
    {
        if filter_rating < 100 || filter_rating > 500 {
            Err(BuildError::RatingOutOfRange)
        } else {
            let mut b = self;
            b.get_wallpapers_request.filter_rating = filter_rating;
            Ok(b)
        }
    }

    pub fn filter_rating_operator(self, filter_rating_operator: Operator) -> (r: Self)
        ensures
            r.get_wallpapers_request == (GetWallpapersRequest {
                filter_rating_operator,
                ..self.get_wallpapers_request
            }),
    {
        let mut b = self;
        b.get_wallpapers_request.filter_rating_operator = filter_rating_operator;
        b
    }

    pub fn filter_res_height(self, filter_res_height: i64) -> (r: Self)
        ensures
            r.get_wallpapers_request == (GetWallpapersRequest {
                filter_res_height,
                ..self.get_wallpapers_request
            }),
    {
        let mut b = self;
        b.get_wallpapers_request.filter_res_height = filter_res_height;
        b
    }

    pub fn filter_res_operator(self, filter_res_operator: Operator) -> (r: Self)
        ensures
            r.get_wallpapers_request == (GetWallpapersRequest {
                filter_res_operator,
                ..self.get_wallpapers_request
            }),
    {
        let mut b = self;
        b.get_wallpapers_request.filter_res_operator = filter_res_operator;
        b
    }

    pub fn filter_res_operator_height(self, filter_res_operator_height: Operator) -> (r: Self)
        ensures
            r.get_wallpapers_request == (GetWallpapersRequest {
                filter_res_operator_height,
                ..self.get_wallpapers_request
            }),
    {
        let mut b = self;
        b.get_wallpapers_request.filter_res_operator_height = filter_res_operator_height;
        b
    }

    pub fn filter_res_operator_width(self, filter_res_operator_width: Operator) -> (r: Self)
        ensures
            r.get_wallpapers_request == (GetWallpapersRequest {
                filter_res_operator_width,
                ..self.get_wallpapers_request
            }),
    {
        let mut b = self;
        b.get_wallpapers_request.filter_res_operator_width = filter_res_operator_width;
        b
    }

    pub fn filter_res_width(self, filter_res_width: i64) -> (r: Self)
        ensures
            r.get_wallpapers_request == (GetWallpapersRequest {
                filter_res_width,
                ..self.get_wallpapers_request
            }),
    {
        let mut b = self;
        b.get_wallpapers_request.filter_res_width = filter_res_width;
        b
    }

    pub fn filter_tag(self, filter_tag: Vec<u16>) -> (r: Self)
        ensures
            r.get_wallpapers_request == (GetWallpapersRequest {
                filter_tag,
                ..self.get_wallpapers_request
            }),
    {
        let mut b = self;
        b.get_wallpapers_request.filter_tag = filter_tag;
        b
    }

    /// How many results to return, 1 to 50.
    pub fn limit(self, limit: u16) -> (r: Result<Self, BuildError>)
        ensures
            1 <= limit <= 50 ==> r == Ok::<Self, BuildError>(
                GetWallpapersRequestBuilder {
                    get_wallpapers_request: GetWallpapersRequest {
                        limit,
                        ..self.get_wallpapers_request
                    },
                },
            ),
            !(1 <= limit <= 50) ==> r == Err::<Self, BuildError>(BuildError::LimitOutOfRange),
    {
        if limit < 1 || limit > 50 {
            Err(BuildError::LimitOutOfRange)
        } else {
            let mut b = self;
            b.get_wallpapers_request.limit = limit;
            Ok(b)
        }
    }

    pub fn order(self, order: Order) -> (r: Self)
        ensures
            r.get_wallpapers_request == (GetWallpapersRequest {
                order,
                ..self.get_wallpapers_request
            }),
    {
        let mut b = self;
        b.get_wallpapers_request.order = order;
        b
    }

    pub fn order_by(self, order_by: GetWallpapersOrderBy) -> (r: Self)
        ensures
            r.get_wallpapers_request == (GetWallpapersRequest {
                order_by,
                ..self.get_wallpapers_request
            }),
    {
        let mut b = self;
        b.get_wallpapers_request.order_by = order_by;
        b
    }

    /// The page to return, 1 or greater.
    pub fn page(self, page: u16) -> (r: Result<Self, BuildError>)
        ensures
            page >= 1 ==> r == Ok::<Self, BuildError>(
                GetWallpapersRequestBuilder {
                    get_wallpapers_request: GetWallpapersRequest {
                        page,
                        ..self.get_wallpapers_request
                    },
                },
            ),
            page < 1 ==> r == Err::<Self, BuildError>(BuildError::PageOutOfRange),
    {
        if page < 1 {
            Err(BuildError::PageOutOfRange)
        } else {
            let mut b = self;
            b.get_wallpapers_request.page = page;
            Ok(b)
        }
    }

    /// The free-text search string.
    pub fn s(self, s: String) -> (r: Self)
        ensures
            r.get_wallpapers_request == (GetWallpapersRequest {
                s,
                ..self.get_wallpapers_request
            }),
    {
        let mut b = self;
        b.get_wallpapers_request.s = s;
        b
    }

    pub fn show_comments(self, show_comments: bool) -> (r: Self)
        ensures
            r.get_wallpapers_request == (GetWallpapersRequest {
                show_comments,
                ..self.get_wallpapers_request
            }),
    {
        let mut b = self;
        b.get_wallpapers_request.show_comments = show_comments;
        b
    }

    pub fn show_pickle_jar(self, show_pickle_jar: bool) -> (r: Self)
        ensures
            r.get_wallpapers_request == (GetWallpapersRequest {
                show_pickle_jar,
                ..self.get_wallpapers_request
            }),
    {
        let mut b = self;
        b.get_wallpapers_request.show_pickle_jar = show_pickle_jar;
        b
    }

    pub fn show_resolutions(self, show_resolutions: bool) -> (r: Self)
        ensures
            r.get_wallpapers_request == (GetWallpapersRequest {
                show_resolutions,
                ..self.get_wallpapers_request
            }),
    {
        let mut b = self;
        b.get_wallpapers_request.show_resolutions = show_resolutions;
        b
    }
}

} // verus!
