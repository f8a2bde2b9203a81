use nodex_api::api;

#[test]
fn lib_test_napi_true_() {
    assert_eq!(api::true_, 1);
}

