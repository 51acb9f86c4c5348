use option3::option3_box;
use option3::Option3;

#[test]
fn exactly_one_predicate_holds() {
    let values = vec![Option3::Present(1i32), Option3::Null, Option3::Absent];
    for v in values {
        let n = [v.is_some(), v.is_none(), v.is_null()].iter().filter(|b| **b).count();
        assert_eq!(n, 1);
    }
    assert!(Option3::Present(0i32).is_some());
    assert!(Option3::<i32>::Absent.is_none());
    assert!(Option3::<i32>::Null.is_null());
}

#[test]
fn map_applies_only_to_present() {
    assert_eq!(Option3::Present(2i32).map(|x| x * 10), Option3::Present(20i32));
    assert_eq!(Option3::<i32>::Absent.map(|x| x * 10), Option3::Absent);
    assert_eq!(Option3::<i32>::Null.map(|x| x * 10), Option3::Null);
    assert_eq!(Option3::Present(5i32).map(|x| x.to_string()), Option3::Present("5".to_string()));
}

#[test]
fn filter_collapses_to_absent() {
    assert_eq!(Option3::Present(4i32).filter(|x| *x > 3), Option3::Present(4i32));
    assert_eq!(Option3::Present(2i32).filter(|x| *x > 3), Option3::Absent);
    assert_eq!(Option3::<i32>::Null.filter(|_| true), Option3::Absent);
    assert_eq!(Option3::<i32>::Absent.filter(|_| true), Option3::Absent);
}

#[test]
fn flatten_cases() {
    assert_eq!(Option3::Present(Option3::Present(1i32)).flatten(), Option3::Present(1i32));
    assert_eq!(Option3::Present(Option3::<i32>::Absent).flatten(), Option3::Absent);
    assert_eq!(Option3::Present(Option3::<i32>::Null).flatten(), Option3::Null);
    assert_eq!(Option3::<Option3<i32>>::Absent.flatten(), Option3::Absent);
    assert_eq!(Option3::<Option3<i32>>::Null.flatten(), Option3::Null);
}

#[test]
fn unwrap_or_cases() {
    assert_eq!(Option3::<i32>::Absent.unwrap_or(9), 9);
    assert_eq!(Option3::<i32>::Null.unwrap_or(9), 9);
    assert_eq!(Option3::Present(1i32).unwrap_or(9), 1);
}

#[test]
fn unwrap_and_expect_on_present() {
    assert_eq!(Option3::Present("a".to_string()).unwrap(), "a");
    assert_eq!(Option3::Present(8u64).expect("needs a value"), 8u64);
}

#[test]
fn to_option_and_ok_or() {
    assert_eq!(Option3::Present(3i32).to_option(), Some(3i32));
    assert_eq!(Option3::<i32>::Null.to_option(), None);
    assert_eq!(Option3::<i32>::Absent.to_option(), None);
    assert_eq!(Option3::Present(3i32).ok_or("e"), Ok(3i32));
    assert_eq!(Option3::<i32>::Null.ok_or("e"), Err("e"));
    assert_eq!(Option3::<i32>::Absent.ok_or("e"), Err("e"));
}

#[test]
fn as_ref_and_cloned() {
    let s = Option3::Present("x".to_string());
    assert_eq!(s.as_ref(), Option3::Present(&"x".to_string()));
    assert_eq!(s.as_ref().cloned(), s);
    assert_eq!(Option3::<String>::Null.as_ref().cloned(), Option3::Null);
    assert_eq!(Option3::<String>::Absent.as_ref().cloned(), Option3::Absent);
    let mut v = 5u32;
    assert_eq!(Option3::Present(&mut v).cloned(), Option3::Present(5u32));
}

#[test]
fn from_option() {
    let none: Option<String> = None;
    assert_eq!(Option3::from(none), Option3::Absent);
    assert_eq!(Option3::from(Some("x".to_string())), Option3::Present("x".to_string()));
}

#[test]
fn default_is_absent() {
    let d: Option3<u8> = Default::default();
    assert_eq!(d, Option3::Absent);
}

#[test]
fn boxed_is_none() {
    assert!(option3_box::is_none(&Box::new(Option3::<u8>::Absent)));
    assert!(!option3_box::is_none(&Box::new(Option3::<u8>::Null)));
    assert!(!option3_box::is_none(&Box::new(Option3::Present(1u8))));
}

#[test]
fn ordering_follows_declaration() {
    assert!(Option3::<i32>::Absent < Option3::Null);
    assert!(Option3::Null < Option3::Present(i32::MIN));
    assert!(Option3::Present(1i32) < Option3::Present(2i32));
}
