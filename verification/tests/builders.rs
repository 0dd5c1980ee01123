use digital_blasphemy::BuildError;
use digital_blasphemy::DownloadWallpaperRequest;
use digital_blasphemy::GetWallpaperRequest;
use digital_blasphemy::GetWallpapersOrderBy;
use digital_blasphemy::GetWallpapersRequest;
use digital_blasphemy::Operator;
use digital_blasphemy::Order;
use digital_blasphemy::WallpaperType;

#[test]
fn test_download_wallpaper_request_builder_sets_defaults() {
    let download_wallpaper_request = DownloadWallpaperRequest::builder()
        .width(1)
        .height(2)
        .wallpaper_id(3)
        .build()
        .unwrap();

    assert_eq!(
        download_wallpaper_request.wallpaper_type,
        WallpaperType::Single
    );
    assert_eq!(download_wallpaper_request.width, 1);
    assert_eq!(download_wallpaper_request.height, 2);
    assert_eq!(download_wallpaper_request.wallpaper_id, 3);
    assert!(download_wallpaper_request.show_watermark);
}

#[test]
fn test_download_wallpaper_request_builder_overrides_all_defaults() {
    let download_wallpaper_request = DownloadWallpaperRequest::builder()
        .wallpaper_type(WallpaperType::Dual)
        .width(4)
        .height(5)
        .wallpaper_id(6)
        .show_watermark(false)
        .build()
        .unwrap();

    assert_eq!(
        download_wallpaper_request.wallpaper_type,
        WallpaperType::Dual
    );
    assert_eq!(download_wallpaper_request.width, 4);
    assert_eq!(download_wallpaper_request.height, 5);
    assert_eq!(download_wallpaper_request.wallpaper_id, 6);
    assert!(!download_wallpaper_request.show_watermark);
}

#[test]
fn test_download_wallpaper_request_query_builder_rejects_build_when_width_not_provided() {
    let error = DownloadWallpaperRequest::builder()
        .height(2)
        .wallpaper_id(3)
        .build()
        .unwrap_err();
    assert_eq!(error, BuildError::WidthMissing);
    assert_eq!(error.message(), "Width must be provided.");
}

#[test]
fn test_download_wallpaper_request_query_builder_rejects_build_when_height_not_provided() {
    let error = DownloadWallpaperRequest::builder()
        .width(1)
        .wallpaper_id(3)
        .build()
        .unwrap_err();
    assert_eq!(error, BuildError::HeightMissing);
    assert_eq!(error.message(), "Height must be provided.");
}

#[test]
fn test_download_wallpaper_request_query_builder_rejects_build_when_wallpaper_id_not_provided() {
    let error = DownloadWallpaperRequest::builder()
        .width(1)
        .height(2)
        .build()
        .unwrap_err();
    assert_eq!(error, BuildError::WallpaperIdMissing);
    assert_eq!(error.message(), "Wallpaper ID must be provided.");
}

#[test]
fn test_get_wallpaper_request_builder_rejects_build_when_wallpaper_id_not_provided() {
    let error = GetWallpaperRequest::builder().build().unwrap_err();
    assert_eq!(error, BuildError::WallpaperIdMissing);
    assert_eq!(error.message(), "Wallpaper ID must be provided.");
}

#[test]
fn test_get_wallpaper_request_builder_sets_defaults() {
    let get_wallpaper_request = GetWallpaperRequest::builder()
        .wallpaper_id(1)
        .build()
        .unwrap();

    assert_eq!(get_wallpaper_request.wallpaper_id, 1);
    assert_eq!(get_wallpaper_request.filter_res_height, 0);
    assert_eq!(
        get_wallpaper_request.filter_res_operator,
        Operator::GreaterThanOrEqual
    );
    assert_eq!(
        get_wallpaper_request.filter_res_operator_height,
        Operator::GreaterThanOrEqual
    );
    assert_eq!(
        get_wallpaper_request.filter_res_operator_width,
        Operator::GreaterThanOrEqual
    );
    assert_eq!(get_wallpaper_request.filter_res_width, 0);
    assert_eq!(get_wallpaper_request.show_comments, false);
    assert_eq!(get_wallpaper_request.show_pickle_jar, false);
    assert_eq!(get_wallpaper_request.show_resolutions, true);
}

#[test]
fn get_wallpaper_test_get_wallpaper_request_builder_overrides_all_defaults() {
    let get_wallpaper_request = GetWallpaperRequest::builder()
        .wallpaper_id(1)
        .filter_res_height(100)
        .filter_res_operator(Operator::LessThan)
        .filter_res_operator_height(Operator::LessThan)
        .filter_res_operator_width(Operator::LessThan)
        .filter_res_width(200)
        .show_comments(true)
        .show_pickle_jar(true)
        .show_resolutions(false)
        .build()
        .unwrap();

    assert_eq!(get_wallpaper_request.wallpaper_id, 1);
    assert_eq!(get_wallpaper_request.filter_res_height, 100);
    assert_eq!(
        get_wallpaper_request.filter_res_operator,
        Operator::LessThan
    );
    assert_eq!(
        get_wallpaper_request.filter_res_operator_height,
        Operator::LessThan
    );
    assert_eq!(
        get_wallpaper_request.filter_res_operator_width,
        Operator::LessThan
    );
    assert_eq!(get_wallpaper_request.filter_res_width, 200);
    assert_eq!(get_wallpaper_request.show_comments, true);
    assert_eq!(get_wallpaper_request.show_pickle_jar, true);
    assert_eq!(get_wallpaper_request.show_resolutions, false);
}

#[test]
fn test_get_wallpapers_order_by_as_str_date() {
    assert_eq!(GetWallpapersOrderBy::Date.as_str(), "date");
}

#[test]
fn test_get_wallpapers_order_by_as_str_name() {
    assert_eq!(GetWallpapersOrderBy::Name.as_str(), "name");
}

#[test]
fn test_get_wallpapers_request_builder_filter_date_day_rejects_less_than_1() {
    let error = GetWallpapersRequest::builder().filter_date_day(0).unwrap_err();
    assert_eq!(error, BuildError::DateDayOutOfRange);
    assert_eq!(error.message(), "Filter date day must be between 1 and 31.");
}

#[test]
fn test_get_wallpapers_request_builder_filter_date_day_rejects_greater_than_31() {
    let error = GetWallpapersRequest::builder().filter_date_day(32).unwrap_err();
    assert_eq!(error, BuildError::DateDayOutOfRange);
}

#[test]
fn test_get_wallpapers_request_builder_filter_date_day_accepts_1() {
    GetWallpapersRequest::builder().filter_date_day(1).unwrap();
}

#[test]
fn test_get_wallpapers_request_builder_filter_date_day_accepts_31() {
    GetWallpapersRequest::builder().filter_date_day(31).unwrap();
}

#[test]
fn test_get_wallpapers_request_builder_filter_date_month_rejects_less_than_1() {
    let error = GetWallpapersRequest::builder()
        .filter_date_month(0)
        .unwrap_err();
    assert_eq!(error, BuildError::DateMonthOutOfRange);
    assert_eq!(
        error.message(),
        "Filter date month must be between 1 and 12."
    );
}

#[test]
fn test_get_wallpapers_request_builder_filter_date_month_rejects_greater_than_12() {
    let error = GetWallpapersRequest::builder()
        .filter_date_month(32)
        .unwrap_err();
    assert_eq!(error, BuildError::DateMonthOutOfRange);
}

#[test]
fn test_get_wallpapers_request_builder_filter_date_month_accepts_1() {
    GetWallpapersRequest::builder().filter_date_month(1).unwrap();
}

#[test]
fn test_get_wallpapers_request_builder_filter_date_month_accepts_31() {
    GetWallpapersRequest::builder().filter_date_month(12).unwrap();
}

#[test]
fn test_get_wallpapers_request_builder_filter_date_year_rejects_less_than_1997() {
    let error = GetWallpapersRequest::builder()
        .filter_date_year(1996)
        .unwrap_err();
    assert_eq!(error, BuildError::DateYearOutOfRange);
    assert_eq!(
        error.message(),
        "Filter date year must be from 1997 inclusive."
    );
}

#[test]
fn test_get_wallpapers_request_builder_filter_date_month_accepts_1997() {
    GetWallpapersRequest::builder().filter_date_year(1997).unwrap();
}

#[test]
fn test_get_wallpapers_request_builder_filter_rating_rejects_less_than_1() {
    let error = GetWallpapersRequest::builder().filter_rating(99).unwrap_err();
    assert_eq!(error, BuildError::RatingOutOfRange);
    assert_eq!(error.message(), "Filter rating must be between 1 and 5.");
}

#[test]
fn test_get_wallpapers_request_builder_filter_rating_rejects_greater_than_5() {
    let error = GetWallpapersRequest::builder().filter_rating(501).unwrap_err();
    assert_eq!(error, BuildError::RatingOutOfRange);
}

#[test]
fn test_get_wallpapers_request_builder_filter_rating_accepts_1() {
    GetWallpapersRequest::builder().filter_rating(100).unwrap();
}

#[test]
fn test_get_wallpapers_request_builder_filter_rating_accepts_5() {
    GetWallpapersRequest::builder().filter_rating(500).unwrap();
}

#[test]
fn test_get_wallpapers_request_builder_limit_rejects_less_than_1() {
    let error = GetWallpapersRequest::builder().limit(0).unwrap_err();
    assert_eq!(error, BuildError::LimitOutOfRange);
    assert_eq!(error.message(), "Limit must be between 1 and 50.");
}

#[test]
fn test_get_wallpapers_request_builder_limit_rejects_greater_than_50() {
    let error = GetWallpapersRequest::builder().limit(51).unwrap_err();
    assert_eq!(error, BuildError::LimitOutOfRange);
}

#[test]
fn test_get_wallpapers_request_builder_limit_accepts_1() {
    GetWallpapersRequest::builder().limit(1).unwrap();
}

#[test]
fn test_get_wallpapers_request_builder_limit_accepts_50() {
    GetWallpapersRequest::builder().limit(50).unwrap();
}

#[test]
fn test_get_wallpapers_request_builder_page_rejects_less_than_1() {
    let error = GetWallpapersRequest::builder().page(0).unwrap_err();
    assert_eq!(error, BuildError::PageOutOfRange);
    assert_eq!(error.message(), "Page must be greater than 0.");
}

#[test]
fn test_get_wallpapers_request_builder_page_accepts_1() {
    GetWallpapersRequest::builder().page(1).unwrap();
}

#[test]
fn test_get_wallpapers_request_builder_sets_defaults() {
    let get_wallpapers_request = GetWallpapersRequest::builder().build();

    assert_eq!(get_wallpapers_request.filter_date_day, 0);
    assert_eq!(get_wallpapers_request.filter_date_month, 0);
    assert_eq!(get_wallpapers_request.filter_date_year, 0);
    assert_eq!(
        get_wallpapers_request.filter_date_operator,
        Operator::GreaterThanOrEqual
    );
    assert_eq!(get_wallpapers_request.filter_gallery, Vec::<u16>::new());
    assert_eq!(get_wallpapers_request.filter_rating, 0);
    assert_eq!(
        get_wallpapers_request.filter_rating_operator,
        Operator::GreaterThanOrEqual
    );
    assert_eq!(get_wallpapers_request.filter_res_height, 0);
    assert_eq!(
        get_wallpapers_request.filter_res_operator,
        Operator::GreaterThanOrEqual
    );
    assert_eq!(
        get_wallpapers_request.filter_res_operator_height,
        Operator::GreaterThanOrEqual
    );
    assert_eq!(
        get_wallpapers_request.filter_res_operator_width,
        Operator::GreaterThanOrEqual
    );
    assert_eq!(get_wallpapers_request.filter_res_width, 0);
    assert_eq!(get_wallpapers_request.filter_tag, Vec::<u16>::new());
    assert_eq!(get_wallpapers_request.limit, 10);
    assert_eq!(get_wallpapers_request.order, Order::Ascending);
    assert_eq!(get_wallpapers_request.order_by, GetWallpapersOrderBy::Date);
    assert_eq!(get_wallpapers_request.page, 1);
    assert_eq!(get_wallpapers_request.s, "".to_string());
    assert_eq!(get_wallpapers_request.show_comments, false);
    assert_eq!(get_wallpapers_request.show_pickle_jar, false);
    assert_eq!(get_wallpapers_request.show_resolutions, true);
}

#[test]
fn test_get_wallpaper_request_builder_overrides_all_defaults() {
    let get_wallpapers_request = GetWallpapersRequest::builder()
        .filter_date_day(1)
        .unwrap()
        .filter_date_month(2)
        .unwrap()
        .filter_date_year(1997)
        .unwrap()
        .filter_date_operator(Operator::LessThan)
        .filter_gallery(vec![4])
        .filter_rating(500)
        .unwrap()
        .filter_rating_operator(Operator::LessThan)
        .filter_res_height(6)
        .filter_res_operator(Operator::LessThan)
        .filter_res_operator_height(Operator::LessThan)
        .filter_res_operator_width(Operator::LessThan)
        .filter_res_width(7)
        .filter_tag(vec![8])
        .limit(9)
        .unwrap()
        .order(Order::Descending)
        .order_by(GetWallpapersOrderBy::Name)
        .page(10)
        .unwrap()
        .s("search".to_string())
        .show_comments(true)
        .show_pickle_jar(true)
        .show_resolutions(false)
        .build();

    assert_eq!(get_wallpapers_request.filter_date_day, 1);
    assert_eq!(get_wallpapers_request.filter_date_month, 2);
    assert_eq!(get_wallpapers_request.filter_date_year, 1997);
    assert_eq!(
        get_wallpapers_request.filter_date_operator,
        Operator::LessThan
    );
    assert_eq!(get_wallpapers_request.filter_gallery, vec![4]);
    assert_eq!(get_wallpapers_request.filter_rating, 500);
    assert_eq!(
        get_wallpapers_request.filter_rating_operator,
        Operator::LessThan
    );
    assert_eq!(get_wallpapers_request.filter_res_height, 6);
    assert_eq!(
        get_wallpapers_request.filter_res_operator,
        Operator::LessThan
    );
    assert_eq!(
        get_wallpapers_request.filter_res_operator_height,
        Operator::LessThan
    );
    assert_eq!(
        get_wallpapers_request.filter_res_operator_width,
        Operator::LessThan
    );
    assert_eq!(get_wallpapers_request.filter_res_width, 7);
    assert_eq!(get_wallpapers_request.filter_tag, vec![8]);
    assert_eq!(get_wallpapers_request.limit, 9);
    assert_eq!(get_wallpapers_request.order, Order::Descending);
    assert_eq!(get_wallpapers_request.order_by, GetWallpapersOrderBy::Name);
    assert_eq!(get_wallpapers_request.page, 10);
    assert_eq!(get_wallpapers_request.s, "search".to_string());
    assert_eq!(get_wallpapers_request.show_comments, true);
    assert_eq!(get_wallpapers_request.show_pickle_jar, true);
    assert_eq!(get_wallpapers_request.show_resolutions, false);
}
