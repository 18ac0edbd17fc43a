use yellowstone_filter::name::{FilterName, FilterNameError, FilterNames};

#[test]
fn test_registry_interns_and_reuses() {
    let mut names = FilterNames::new(8, 2, 10);
    assert_eq!(names.len(), 0);
    assert_eq!(names.get("serum"), Ok(FilterName::new("serum")));
    assert_eq!(names.len(), 1);
    assert_eq!(names.get("serum"), Ok(FilterName::new("serum")));
    assert_eq!(names.len(), 1);
    assert_eq!(names.get("client"), Ok(FilterName::new("client")));
    assert_eq!(names.len(), 2);
}

#[test]
fn test_registry_limits() {
    let mut names = FilterNames::new(8, 2, 10);
    assert_eq!(
        names.get("much-too-long"),
        Err(FilterNameError::NameTooLong {
            limit: 8,
            size: 13
        })
    );
    assert_eq!(names.get("12345678"), Ok(FilterName::new("12345678")));
    // the length is counted in bytes
    assert_eq!(
        names.get("ééééé"),
        Err(FilterNameError::NameTooLong {
            limit: 8,
            size: 10
        })
    );
    assert_eq!(names.get("b"), Ok(FilterName::new("b")));
    assert_eq!(
        names.get("c"),
        Err(FilterNameError::TooManyNames { limit: 2 })
    );
    // a name that is held is handed out even when the registry is full
    assert_eq!(names.get("b"), Ok(FilterName::new("b")));
    // a name that is too long is refused before the count is looked at
    assert_eq!(
        names.get("much-too-long"),
        Err(FilterNameError::NameTooLong {
            limit: 8,
            size: 13
        })
    );
    assert_eq!(names.len(), 2);
}

#[test]
fn test_registry_forgets_after_the_retention_window() {
    let mut names = FilterNames::new(8, 2, 10);
    names.get("old").unwrap();
    names.try_clean(5);
    names.get("new").unwrap();
    assert_eq!(names.len(), 2);
    // at 10 both were asked for within the last 10 units
    names.try_clean(10);
    assert_eq!(names.len(), 2);
    // at 11 the first one was last asked for 11 units ago
    names.try_clean(11);
    assert_eq!(names.len(), 1);
    assert_eq!(names.get("again"), Ok(FilterName::new("again")));
    assert_eq!(
        names.get("old"),
        Err(FilterNameError::TooManyNames { limit: 2 })
    );
    // asking for a name renews it
    names.try_clean(14);
    names.get("new").unwrap();
    names.try_clean(20);
    assert_eq!(names.len(), 2);
    names.try_clean(22);
    assert_eq!(names.len(), 1);
    assert_eq!(names.get("new"), Ok(FilterName::new("new")));
    // the clock never goes back
    names.try_clean(3);
    assert_eq!(names.len(), 1);
    names.try_clean(35);
    assert_eq!(names.len(), 0);
}
