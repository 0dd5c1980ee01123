use digital_blasphemy::DownloadWallpaperRequest;
use digital_blasphemy::GetWallpaperRequest;
use digital_blasphemy::GetWallpapersOrderBy;
use digital_blasphemy::GetWallpapersRequest;
use digital_blasphemy::Operator;
use digital_blasphemy::Order;
use digital_blasphemy::download_query;
use digital_blasphemy::get_wallpaper_query;
use digital_blasphemy::get_wallpapers_query;

fn values_of(query: &[(String, String)], key: &str) -> Vec<String> {
    query
        .iter()
        .filter(|(k, _)| k == key)
        .map(|(_, v)| v.clone())
        .collect()
}

#[test]
fn default_wallpapers_query_sends_only_unconditional_parameters() {
    let request = GetWallpapersRequest::builder().build();
    let query = get_wallpapers_query(&request);
    let expected: Vec<(String, String)> = vec![
        ("filter_date_operator".to_string(), ">=".to_string()),
        ("filter_rating_operator".to_string(), ">=".to_string()),
        ("filter_res_operator".to_string(), ">=".to_string()),
        ("filter_res_operator_height".to_string(), ">=".to_string()),
        ("filter_res_operator_width".to_string(), ">=".to_string()),
        ("limit".to_string(), "10".to_string()),
        ("order".to_string(), "asc".to_string()),
        ("page".to_string(), "1".to_string()),
        ("show_comments".to_string(), "false".to_string()),
        ("show_pickle_jar".to_string(), "false".to_string()),
        ("show_resolutions".to_string(), "true".to_string()),
    ];
    assert_eq!(query, expected);
}

#[test]
fn set_optional_fields_appear_exactly_once_with_wire_value() {
    let request = GetWallpapersRequest::builder()
        .filter_date_day(7)
        .unwrap()
        .filter_date_month(12)
        .unwrap()
        .filter_date_year(1997)
        .unwrap()
        .filter_res_height(1080)
        .filter_res_width(1920)
        .s("search text".to_string())
        .build();
    let query = get_wallpapers_query(&request);
    assert_eq!(values_of(&query, "filter_date_day"), vec!["7"]);
    assert_eq!(values_of(&query, "filter_date_month"), vec!["12"]);
    assert_eq!(values_of(&query, "filter_date_year"), vec!["1997"]);
    assert_eq!(values_of(&query, "filter_res_height"), vec!["1080"]);
    assert_eq!(values_of(&query, "filter_res_width"), vec!["1920"]);
    assert_eq!(values_of(&query, "s"), vec!["search text"]);
}

#[test]
fn unset_optional_fields_are_absent() {
    let request = GetWallpapersRequest::builder().build();
    let query = get_wallpapers_query(&request);
    for key in [
        "filter_date_day",
        "filter_date_month",
        "filter_date_year",
        "filter_gallery",
        "filter_rating",
        "filter_res_height",
        "filter_res_width",
        "filter_tag",
        "order_by",
        "s",
    ] {
        assert!(values_of(&query, key).is_empty(), "{key} should be absent");
    }
}

#[test]
fn order_by_is_sent_iff_not_date() {
    let date_request = GetWallpapersRequest::builder()
        .order_by(GetWallpapersOrderBy::Date)
        .build();
    assert!(values_of(&get_wallpapers_query(&date_request), "order_by").is_empty());

    let name_request = GetWallpapersRequest::builder()
        .order_by(GetWallpapersOrderBy::Name)
        .build();
    assert_eq!(
        values_of(&get_wallpapers_query(&name_request), "order_by"),
        vec!["name"]
    );
}

#[test]
fn repeated_gallery_and_tag_values_keep_their_order() {
    let request = GetWallpapersRequest::builder()
        .filter_gallery(vec![1, 2])
        .filter_tag(vec![9, 3, 9])
        .build();
    let query = get_wallpapers_query(&request);
    assert_eq!(values_of(&query, "filter_gallery"), vec!["1", "2"]);
    assert_eq!(values_of(&query, "filter_tag"), vec!["9", "3", "9"]);
}

#[test]
fn rating_encodes_without_trailing_zeros() {
    let tenths = GetWallpapersRequest::builder().filter_rating(120).unwrap().build();
    assert_eq!(
        values_of(&get_wallpapers_query(&tenths), "filter_rating"),
        vec!["1.2"]
    );

    let hundredths = GetWallpapersRequest::builder().filter_rating(105).unwrap().build();
    assert_eq!(
        values_of(&get_wallpapers_query(&hundredths), "filter_rating"),
        vec!["1.05"]
    );

    let whole = GetWallpapersRequest::builder().filter_rating(500).unwrap().build();
    assert_eq!(
        values_of(&get_wallpapers_query(&whole), "filter_rating"),
        vec!["5"]
    );
}

#[test]
fn operators_encode_their_wire_tokens() {
    let request = GetWallpapersRequest::builder()
        .filter_date_operator(Operator::Equal)
        .filter_rating_operator(Operator::GreaterThan)
        .filter_res_operator(Operator::LessThan)
        .filter_res_operator_height(Operator::LessThanOrEqual)
        .filter_res_operator_width(Operator::GreaterThanOrEqual)
        .order(Order::Descending)
        .build();
    let query = get_wallpapers_query(&request);
    assert_eq!(values_of(&query, "filter_date_operator"), vec!["="]);
    assert_eq!(values_of(&query, "filter_rating_operator"), vec![">"]);
    assert_eq!(values_of(&query, "filter_res_operator"), vec!["<"]);
    assert_eq!(values_of(&query, "filter_res_operator_height"), vec!["<="]);
    assert_eq!(values_of(&query, "filter_res_operator_width"), vec![">="]);
    assert_eq!(values_of(&query, "order"), vec!["desc"]);
}

#[test]
fn negative_resolution_filters_encode_signed_decimals() {
    let request = GetWallpapersRequest::builder()
        .filter_res_height(-5)
        .filter_res_width(-1080)
        .build();
    let query = get_wallpapers_query(&request);
    assert_eq!(values_of(&query, "filter_res_height"), vec!["-5"]);
    assert_eq!(values_of(&query, "filter_res_width"), vec!["-1080"]);
}

#[test]
fn default_wallpaper_query_sends_only_unconditional_parameters() {
    let request = GetWallpaperRequest::builder()
        .wallpaper_id(1)
        .build()
        .unwrap();
    let query = get_wallpaper_query(&request);
    let expected: Vec<(String, String)> = vec![
        ("filter_res_operator".to_string(), ">=".to_string()),
        ("filter_res_operator_height".to_string(), ">=".to_string()),
        ("filter_res_operator_width".to_string(), ">=".to_string()),
        ("show_comments".to_string(), "false".to_string()),
        ("show_pickle_jar".to_string(), "false".to_string()),
        ("show_resolutions".to_string(), "true".to_string()),
    ];
    assert_eq!(query, expected);
}

#[test]
fn wallpaper_query_includes_set_resolution_filters_first() {
    let request = GetWallpaperRequest::builder()
        .wallpaper_id(1)
        .filter_res_height(1440)
        .filter_res_width(2560)
        .show_comments(true)
        .build()
        .unwrap();
    let query = get_wallpaper_query(&request);
    assert_eq!(query[0], ("filter_res_height".to_string(), "1440".to_string()));
    assert_eq!(query[1], ("filter_res_width".to_string(), "2560".to_string()));
    assert_eq!(values_of(&query, "show_comments"), vec!["true"]);
}

#[test]
fn download_query_sends_only_the_watermark_toggle() {
    let with_watermark = DownloadWallpaperRequest::builder()
        .width(1)
        .height(2)
        .wallpaper_id(3)
        .build()
        .unwrap();
    assert_eq!(
        download_query(&with_watermark),
        vec![("show_watermark".to_string(), "true".to_string())]
    );

    let without_watermark = DownloadWallpaperRequest::builder()
        .width(1)
        .height(2)
        .wallpaper_id(3)
        .show_watermark(false)
        .build()
        .unwrap();
    assert_eq!(
        download_query(&without_watermark),
        vec![("show_watermark".to_string(), "false".to_string())]
    );
}
