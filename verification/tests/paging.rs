use vl_api::paging::{div_trunc, page_link_or_default, page_summary};
use vl_api::geofence::{list_summary, list_window, ListParams};
use vl_api::calculated_fields::{tenant_list_summary, PageParams};

#[test]
fn division_rounds_toward_zero() {
    assert_eq!(div_trunc(7, 2), 3);
    assert_eq!(div_trunc(-7, 2), -3);
    assert_eq!(div_trunc(7, -2), -3);
    assert_eq!(div_trunc(-7, -2), 3);
    assert_eq!(div_trunc(i64::MIN, 2), i64::MIN / 2);
}

#[test]
fn page_summary_counts_pages() {
    assert_eq!(page_summary(0, 10, 25), (3, true));
    assert_eq!(page_summary(2, 10, 25), (3, false));
    assert_eq!(page_summary(0, 10, 0), (0, false));
    assert_eq!(page_summary(0, 0, 5), (0, true));
    assert_eq!(page_summary(0, -3, 5), (0, true));
}

#[test]
fn default_page_link() {
    let l = page_link_or_default(None, None, None);
    assert_eq!((l.page, l.page_size), (0, 10));
}

#[test]
fn geofence_pages_clamp_size() {
    assert_eq!(list_window(&ListParams { page_size: 0, page: 2 }), (1, 2));
    assert_eq!(list_window(&ListParams { page_size: 500, page: 1 }), (100, 100));
    assert_eq!(list_summary(&ListParams { page_size: 20, page: 0 }, 41), (3, true));
}

#[test]
fn calculated_field_pages_need_positive_size() {
    assert_eq!(tenant_list_summary(&PageParams { page: 0, page_size: 0 }, 5), (0, true));
    assert_eq!(tenant_list_summary(&PageParams { page: 1, page_size: 2 }, 5), (3, true));
}
