use quick_m3u8::error::UnrecognizedEnumerationError;
use quick_m3u8::tag::hls::enumerated_string::{
    AsStaticCow, EnumeratedString, EnumeratedStringList, EnumeratedValue,
};

#[derive(Debug, Clone, Copy, PartialEq)]
enum TestEnum {
    One,
    Two,
    Three,
}

impl AsStaticCow for TestEnum {
    fn as_cow(&self) -> String {
        match self {
            TestEnum::One => "ONE".to_string(),
            TestEnum::Two => "TWO".to_string(),
            TestEnum::Three => "THREE".to_string(),
        }
    }
}

impl EnumeratedValue for TestEnum {
    fn try_from_str(value: &str) -> Result<Self, UnrecognizedEnumerationError<'_>> {
        match value {
            "ONE" => Ok(Self::One),
            "TWO" => Ok(Self::Two),
            "THREE" => Ok(Self::Three),
            _ => Err(UnrecognizedEnumerationError::new(value)),
        }
    }
}

fn list(s: &str) -> EnumeratedStringList<TestEnum> {
    EnumeratedStringList::from_str(s)
}

#[test]
fn enumerated_string_fmt_correctly() {
    assert_eq!("ONE", EnumeratedString::Known(TestEnum::One).as_cow());
    assert_eq!("TWO", EnumeratedString::Known(TestEnum::Two).as_cow());
    assert_eq!("THREE", EnumeratedString::Known(TestEnum::Three).as_cow());
    assert_eq!("CUSTOM", EnumeratedString::<TestEnum>::Unknown("CUSTOM").as_cow());
}

#[test]
fn enumerated_string_from_any_str() {
    assert_eq!(EnumeratedString::Known(TestEnum::One), EnumeratedString::from_str("ONE"));
    assert_eq!(EnumeratedString::Known(TestEnum::Two), EnumeratedString::from_str("TWO"));
    assert_eq!(EnumeratedString::Known(TestEnum::Three), EnumeratedString::from_str("THREE"));
    assert_eq!(
        EnumeratedString::<TestEnum>::Unknown("CUSTOM"),
        EnumeratedString::from_str("CUSTOM")
    );
}

#[test]
fn enumerated_string_list_contains_true_when_value_in_list() {
    let list = list("ONE,TWO");
    assert!(list.contains(EnumeratedString::Known(TestEnum::One)), "list should contain ONE");
    assert!(list.contains(EnumeratedString::Known(TestEnum::Two)), "list should contain TWO");
}

#[test]
fn enumerated_string_list_contains_false_when_value_not_in_list() {
    let list = list("ONE,TWO");
    assert!(
        !list.contains(EnumeratedString::Known(TestEnum::Three)),
        "list should not contain THREE"
    );
    assert!(!list.contains(EnumeratedString::Unknown("UNKNOWN")));
}

#[test]
fn enumerated_string_list_is_empty_when_no_values_present() {
    let list = list("");
    assert!(list.is_empty(), "list should be empty")
}

#[test]
fn enumerated_string_list_is_not_empty_when_values_present() {
    let list = list("ONE");
    assert!(!list.is_empty(), "list should not be empty")
}

#[test]
fn enumerated_string_iter_provides_all_values() {
    let list = list("ONE,TWO,CUSTOM");
    let mut count = 0;
    for item in list.iter() {
        count += 1;
        match count {
            1 => assert_eq!(EnumeratedString::Known(TestEnum::One), item),
            2 => assert_eq!(EnumeratedString::Known(TestEnum::Two), item),
            3 => assert_eq!(EnumeratedString::Unknown("CUSTOM"), item),
            n => panic!("unexpected item number {n} in iterable"),
        }
    }
}

#[test]
fn enumerated_string_iter_has_count_0_when_list_is_empty() {
    let list = list("");
    assert_eq!(0, list.iter().len());
}

#[test]
fn enumerated_string_list_insert_adds_new_value_and_returns_true_if_not_already_present() {
    let mut list = list("ONE,TWO");
    assert!(list.insert(EnumeratedString::Known(TestEnum::Three)), "should have inserted THREE");
    assert_eq!("ONE,TWO,THREE", list.as_ref());

    let mut list = self::list("");
    assert!(list.insert(EnumeratedString::Known(TestEnum::Three)), "should have inserted THREE");
    assert_eq!("THREE", list.as_ref());
}

#[test]
fn enumerated_string_list_insert_doew_not_add_new_value_and_returns_false_if_already_present() {
    let mut list = list("ONE,TWO");
    assert!(!list.insert(EnumeratedString::Known(TestEnum::Two)), "should not have inserted TWO");
    assert_eq!("ONE,TWO", list.as_ref());
}

#[test]
fn enumerated_string_list_remove_removes_value_and_returns_true_if_present() {
    let mut list = self::list("ONE,TWO");
    assert!(list.remove(EnumeratedString::Known(TestEnum::Two)), "should have removed TWO");
    assert_eq!("ONE", list.as_ref());

    let mut list = self::list("ONE,TWO,THREE");
    assert!(list.remove(EnumeratedString::Known(TestEnum::Two)), "should have removed TWO");
    assert_eq!("ONE,THREE", list.as_ref());

    let mut list = self::list("TWO,THREE");
    assert!(list.remove(EnumeratedString::Known(TestEnum::Two)), "should have removed TWO");
    assert_eq!("THREE", list.as_ref());

    let mut list = self::list("TWO");
    assert!(list.remove(EnumeratedString::Known(TestEnum::Two)), "should have removed TWO");
    assert_eq!("", list.as_ref());
}

#[test]
fn enumerated_string_list_remove_does_not_remove_value_and_returns_false_if_not_present() {
    let mut list = list("ONE,TWO");
    assert!(
        !list.remove(EnumeratedString::Known(TestEnum::Three)),
        "should not have removed THREE"
    );
    assert_eq!("ONE,TWO", list.as_ref());
}

#[test]
fn enumerated_string_list_is_empty_should_be_equal_to_iter_count_0() {
    for inner in [" ", ",", " , ", "", ",,", ", ,"] {
        let list = list(inner);
        let list_iter = list.iter();
        assert_eq!(list.is_empty(), list_iter.len() == 0, "failed for `{inner}`");
    }
}

#[test]
fn insert_then_remove_gives_back_the_list() {
    let mut list = list("ONE,CUSTOM");
    assert!(list.insert(EnumeratedString::Known(TestEnum::Three)));
    assert!(list.contains(EnumeratedString::Known(TestEnum::Three)));
    assert!(list.remove(EnumeratedString::Known(TestEnum::Three)));
    assert!(!list.contains(EnumeratedString::Known(TestEnum::Three)));
    assert_eq!("ONE,CUSTOM", list.as_ref());
}

#[test]
fn remove_of_repeated_first_item_keeps_later_copies() {
    let mut list = list("TWO,ONE,TWO");
    assert!(list.remove(EnumeratedString::Known(TestEnum::Two)));
    assert_eq!("ONE,TWO", list.as_ref());
    let mut list = self::list("ONE,TWO,TWO");
    assert!(list.remove(EnumeratedString::Known(TestEnum::Two)));
    assert_eq!("ONE", list.as_ref());
}

#[test]
fn iter_drops_a_trailing_comma_only() {
    let list = list("ONE,,");
    let items = list.iter();
    assert_eq!(2, items.len());
    assert_eq!(EnumeratedString::Known(TestEnum::One), items[0]);
    assert_eq!(EnumeratedString::Unknown(""), items[1]);
}
