use matched_filter::star::NoneModel;
use matched_filter::star::StarModelType;
use matched_filter::star::parse_model;
use matched_filter::tester::NFDTester;
use matched_filter::tester::NoneTester;
use matched_filter::tester::TartanTester;
use matched_filter::tester::Tester;

#[test]
fn test_star_name_to_len() {
    assert_eq!(TartanTester::star_name_to_len("tl=3,tr=9,len=12"), 12);
    assert_eq!(TartanTester::star_name_to_len("len=128"), 128);
    // the first segment mentioning `len` carries the value
    assert_eq!(TartanTester::star_name_to_len("window_len=5,len=7"), 5);
}

#[test]
fn test_star_name_to_attrs() {
    let attrs = TartanTester::star_name_to_attrs("tl=3,tr=9,len=12");
    assert_eq!(
        attrs,
        vec![
            ("tl".to_string(), "3".to_string()),
            ("tr".to_string(), "9".to_string()),
            ("len".to_string(), "12".to_string()),
        ]
    );
}

#[test]
fn test_tartan_is_true_positive() {
    let tester = TartanTester::new(4, 4);
    assert!(tester.is_valid());
    let name = "tl=10,tr=20,len=4";
    // strictly between the bounds
    assert!(!tester.is_true_positive(name, 10));
    assert!(tester.is_true_positive(name, 11));
    assert!(tester.is_true_positive(name, 19));
    assert!(!tester.is_true_positive(name, 20));
    assert!(!tester.is_true_positive(name, 25));
    assert!(tester.is_false_positive(name, 25));
}

#[test]
fn test_nfd_tester_bounds() {
    let tester = NFDTester {};
    assert!(tester.is_valid());
    assert!(!tester.is_true_positive("any", 40319));
    assert!(tester.is_true_positive("any", 40320));
    assert!(tester.is_true_positive("any", 46080));
    assert!(!tester.is_true_positive("any", 46081));
}

#[test]
fn test_none_tester() {
    let tester = NoneTester {};
    assert!(!tester.is_valid());
    assert!(tester.is_true_positive("any", 0));
    assert!(!tester.is_false_positive("any", 123));
}

#[test]
fn test_parse_model_returns_none_model() {
    let model: NoneModel = parse_model(StarModelType::NoModel, String::new());
    assert!(model.init(Vec::new()).is_ok());
}
