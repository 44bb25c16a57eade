use regmock::utils::{RegisterAccess, RegisterAccessBuilder, RegisterAccessType};

/// Asserts that the two records match, whichever is asked.
fn symmetric_assert_matches(left: &RegisterAccess, right: &RegisterAccess) {
    assert!(left.matches(right));
    assert!(right.matches(left));
}

/// Asserts that the two records do not match, whichever is asked.
fn symmetric_assert_differs(left: &RegisterAccess, right: &RegisterAccess) {
    assert!(!left.matches(right));
    assert!(!right.matches(left));
}

#[test]
fn debug_formatting() {
    let w = RegisterAccessBuilder::default()
        .ty(RegisterAccessType::WRITE)
        .addr(0xDEADC0DEusize)
        .len(8usize)
        .before(0xC0FFEEu64)
        .after(0xDEAD10CCu64)
        .build()
        .unwrap();

    println!("{:?}", w);
    println!("{:x?}", w);
    println!("{:X?}", w);
    assert_eq!(
        w.debug_string(),
        "RegisterAccess { ty: WRITE, addr: 3735929054, len: 8, before: 12648430, after: 3735883980 }"
    );
}

#[test]
fn partial_equality() {
    let access = RegisterAccess::new(RegisterAccessType::READ, 0x1234, 4, 0, 1);
    let mut builder = RegisterAccessBuilder::default();
    builder
        .ty(RegisterAccessType::READ)
        .addr(0x1234usize)
        .len(4usize)
        .before(0u64)
        .after(1u64);

    symmetric_assert_matches(&access, &access);

    symmetric_assert_matches(
        &access,
        &RegisterAccessBuilder::default().ty(RegisterAccessType::READ).build().unwrap(),
    );
    symmetric_assert_differs(
        &access,
        &builder.clone().ty(RegisterAccessType::WRITE).build().unwrap(),
    );

    symmetric_assert_matches(
        &access,
        &RegisterAccessBuilder::default().addr(0x1234usize).build().unwrap(),
    );
    symmetric_assert_differs(&access, &builder.clone().addr(0x4321usize).build().unwrap());

    symmetric_assert_matches(
        &access,
        &RegisterAccessBuilder::default().len(4usize).build().unwrap(),
    );
    symmetric_assert_differs(&access, &builder.clone().len(8usize).build().unwrap());

    symmetric_assert_matches(
        &access,
        &RegisterAccessBuilder::default().before(0u64).build().unwrap(),
    );
    symmetric_assert_differs(&access, &builder.clone().before(1u64).build().unwrap());

    symmetric_assert_matches(
        &access,
        &RegisterAccessBuilder::default().after(1u64).build().unwrap(),
    );
    symmetric_assert_differs(&access, &builder.clone().after(0u64).build().unwrap());
}

#[test]
fn record_with_only_its_kind_matches_every_record_of_that_kind() {
    let only_read = RegisterAccessBuilder::default().ty(RegisterAccessType::READ).build().unwrap();
    let reads = [
        RegisterAccess::new(RegisterAccessType::READ, 0, 1, 0, 0),
        RegisterAccess::new(RegisterAccessType::READ, 0xDEADC0DE, 8, 0, 0xC0FFEE),
        RegisterAccess::new(RegisterAccessType::READ, usize::MAX, usize::MAX, u64::MAX, u64::MAX),
    ];
    for read in reads.iter() {
        symmetric_assert_matches(&only_read, read);
        assert!(!only_read.identical(read));
    }
    let write = RegisterAccess::new(RegisterAccessType::WRITE, 0, 1, 0, 0);
    symmetric_assert_differs(&only_read, &write);
}

#[test]
fn record_without_members_matches_every_record() {
    let empty = RegisterAccess::default();
    assert_eq!(empty.debug_string(), "RegisterAccess");
    symmetric_assert_matches(&empty, &empty);
    symmetric_assert_matches(&empty, &RegisterAccess::new(RegisterAccessType::WRITE, 7, 4, 1, 2));
}

#[test]
fn matches_is_not_transitive() {
    let first = RegisterAccessBuilder::default().addr(1usize).build().unwrap();
    let middle = RegisterAccess::default();
    let last = RegisterAccessBuilder::default().addr(2usize).build().unwrap();
    assert!(first.matches(&middle));
    assert!(middle.matches(&last));
    assert!(!first.matches(&last));
}

#[test]
fn identical_compares_every_member() {
    let access = RegisterAccess::new(RegisterAccessType::READ, 0x1234, 4, 0, 1);
    assert!(access.identical(&access));
    let partial = RegisterAccessBuilder::default().ty(RegisterAccessType::READ).build().unwrap();
    assert!(!access.identical(&partial));
    assert!(partial.identical(&partial));
    assert!(!access.identical(&RegisterAccess::new(RegisterAccessType::READ, 0x1234, 4, 0, 2)));
}

#[test]
fn debug_text_leaves_absent_members_out() {
    let partial = RegisterAccessBuilder::default()
        .ty(RegisterAccessType::READ)
        .after(10u64)
        .build()
        .unwrap();
    assert_eq!(partial.debug_string(), "RegisterAccess { ty: READ, after: 10 }");
    let only_len = RegisterAccessBuilder::default().len(0usize).build().unwrap();
    assert_eq!(only_len.debug_string(), "RegisterAccess { len: 0 }");
}
