use torrent_api::chrono_calls::utc_timestamp_or_epoch;
use torrent_api::search::error::{check_status, ErrorKind};
use torrent_api::search::options::{Category, InvalidOptionError, Order, SearchOption, SortColumn};
use torrent_api::search::provider::Provider;
use torrent_api::int_scalar::IntScalar;
use torrent_api::text::{parse_i64, parse_u64, parse_usize, split_nth, str_trim, u64_to_decimal};

#[test]
fn categories_read() {
    assert_eq!(Category::from_str("VIDEO").ok(), Some(Category::Video));
    assert_eq!(Category::from_str("all").ok(), Some(Category::All));
    assert_eq!(Category::from_str("Applications").ok(), Some(Category::Applications));
    let err = Category::from_str("books").err().unwrap();
    assert_eq!(err.option(), &SearchOption::Category);
}

#[test]
fn orders_read() {
    assert_eq!(Order::from_str("A").ok(), Some(Order::Ascending));
    assert_eq!(Order::from_str("descending").ok(), Some(Order::Descending));
    assert_eq!(Order::from_str("up").err().unwrap().option(), &SearchOption::Order);
    assert_eq!(Order::Ascending.to_string(), "asc");
    assert_eq!(Order::default(), Order::Descending);
}

#[test]
fn order_text_reads_back() {
    for o in [Order::Ascending, Order::Descending] {
        assert_eq!(Order::from_str(&o.to_string()).ok(), Some(o));
    }
}

#[test]
fn sort_columns_read() {
    assert_eq!(SortColumn::from_str("Date").ok(), Some(SortColumn::Added));
    assert_eq!(SortColumn::from_str("time").ok(), Some(SortColumn::Added));
    assert_eq!(SortColumn::from_str("leechers").ok(), Some(SortColumn::Leechers));
    assert_eq!(SortColumn::from_str("x").err().unwrap().option(), &SearchOption::Sort);
    assert_eq!(SortColumn::default(), SortColumn::Seeders);
}

#[test]
fn option_names() {
    assert_eq!(SearchOption::Category.to_string(), "category");
    assert_eq!(SearchOption::Order.to_string(), "order");
    assert_eq!(InvalidOptionError::new(SearchOption::Sort).option().to_string(), "sort");
}

#[test]
fn all_providers() {
    assert_eq!(
        Provider::all(),
        vec![Provider::PirateBay, Provider::X1337, Provider::Yts, Provider::BitSearch]
    );
}

#[test]
fn status_errors() {
    let err = check_status("https://httpbin.org/status/404", 404, String::new()).unwrap_err();
    assert_eq!(err.message(), "Request to \"https://httpbin.org/status/404\" failed with 404");
    assert_eq!(err.kind(), &ErrorKind::StatusCodeError(404));
    assert_eq!(check_status("u", 200, "body".into()).unwrap(), "body");
}

#[test]
fn numbers_parse_as_std_does() {
    for s in ["0", "+7", "18446744073709551615", "", "+", "-1", "1a", "18446744073709551616", " 1"] {
        assert_eq!(parse_u64(s), s.parse::<u64>().ok(), "{:?}", s);
        assert_eq!(parse_usize(s), s.parse::<usize>().ok(), "{:?}", s);
    }
    for s in ["0", "-0", "+5", "-9223372036854775808", "9223372036854775807", "9223372036854775808", "-", "--1"] {
        assert_eq!(parse_i64(s), s.parse::<i64>().ok(), "{:?}", s);
    }
}

#[test]
fn text_helpers() {
    assert_eq!(u64_to_decimal(0), "0");
    assert_eq!(u64_to_decimal(18446744073709551615), "18446744073709551615");
    assert_eq!(split_nth("/torrent/5/x/", '/', 2), Some("5".to_string()));
    assert_eq!(split_nth("a", '/', 1), None);
    assert_eq!(str_trim("\u{3000} a b \t"), "a b");
}

#[test]
fn int_scalar_holds_value() {
    let s = IntScalar::from(42u64);
    assert_eq!(*s.get(), 42);
}

#[test]
fn documented_parameter_names_read() {
    for (name, c) in [
        ("All", Category::All),
        ("Applications", Category::Applications),
        ("Audio", Category::Audio),
        ("Games", Category::Games),
        ("Other", Category::Other),
        ("Video", Category::Video),
    ] {
        assert_eq!(Category::from_str(name).ok(), Some(c));
    }
    for (name, s) in [
        ("Added", SortColumn::Added),
        ("Size", SortColumn::Size),
        ("Seeders", SortColumn::Seeders),
        ("Leechers", SortColumn::Leechers),
    ] {
        assert_eq!(SortColumn::from_str(name).ok(), Some(s));
    }
    assert_eq!(Order::from_str("Asc").ok(), Some(Order::Ascending));
    assert_eq!(Order::from_str("Desc").ok(), Some(Order::Descending));
}

#[test]
fn timestamps_kept_within_chrono_range() {
    assert_eq!(utc_timestamp_or_epoch(1431648000), 1431648000);
    assert_eq!(utc_timestamp_or_epoch(-8334601228800), -8334601228800);
    assert_eq!(utc_timestamp_or_epoch(-8334601228801), 0);
    assert_eq!(utc_timestamp_or_epoch(8210266876799), 8210266876799);
    assert_eq!(utc_timestamp_or_epoch(8210266876800), 0);
    assert_eq!(utc_timestamp_or_epoch(i64::MAX), 0);
    assert_eq!(utc_timestamp_or_epoch(i64::MIN), 0);
}
