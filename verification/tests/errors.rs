use ouch::error::{Error, FinalError, IoCondition};

#[test]
fn not_found_renders_title_and_detail() {
    let e = Error::NotFound {
        error_title: "cannot open archive.zip".to_string(),
    };
    assert_eq!(
        e.render(false),
        "[ERROR] cannot open archive.zip\n - File not found"
    );
}

#[test]
fn accessible_mode_drops_the_brackets() {
    let e = Error::NotFound {
        error_title: "cannot open archive.zip".to_string(),
    };
    assert_eq!(
        e.render(true),
        "ERROR: cannot open archive.zip\n - File not found"
    );
}

#[test]
fn root_folder_guard_renders_hint() {
    let e = Error::CompressingRootFolder;
    assert_eq!(
        e.render(false),
        "[ERROR] It seems you're trying to compress the root folder.\
         \n - This is unadvisable since ouch does compressions in-memory.\
         \n\nhint: Use a more appropriate tool for this, such as rsync."
    );
}

#[test]
fn accessible_mode_prints_hints_header_once() {
    let e = Error::CompressingRootFolder;
    assert_eq!(
        e.render(true),
        "ERROR: It seems you're trying to compress the root folder.\
         \n - This is unadvisable since ouch does compressions in-memory.\
         \n\nhints:\nUse a more appropriate tool for this, such as rsync."
    );
}

#[test]
fn invalid_password_renders_reason() {
    let e = Error::InvalidPassword {
        reason: "secret.txt".to_string(),
    };
    assert_eq!(e.render(false), "[ERROR] Invalid password\n - secret.txt");
}

#[test]
fn final_error_builder_accumulates_lines() {
    let fe = FinalError::with_title("t".to_string())
        .detail("d1".to_string())
        .detail("d2".to_string())
        .hint("h1".to_string())
        .hint("h2".to_string());
    assert_eq!(
        fe.render(false),
        "[ERROR] t\n - d1\n - d2\n\nhint: h1\nhint: h2"
    );
    let fe2 = fe.clone();
    assert_eq!(
        fe2.render(true),
        "ERROR: t\n - d1\n - d2\n\nhints:\nh1\nh2"
    );
}

#[test]
fn io_conditions_refine_into_their_variants() {
    assert!(matches!(
        Error::from_io_parts(IoCondition::NotFound, "a".to_string()),
        Error::NotFound { .. }
    ));
    assert!(matches!(
        Error::from_io_parts(IoCondition::PermissionDenied, "b".to_string()),
        Error::PermissionDenied { .. }
    ));
    assert!(matches!(
        Error::from_io_parts(IoCondition::AlreadyExists, "c".to_string()),
        Error::AlreadyExists { .. }
    ));
    assert!(matches!(
        Error::from_io_parts(IoCondition::Other, "d".to_string()),
        Error::IoError { .. }
    ));
}

#[test]
fn invalid_format_renders_under_its_title() {
    let e = Error::InvalidFormat {
        reason: "the format chain is empty".to_string(),
    };
    assert_eq!(
        e.render(false),
        "[ERROR] Invalid archive format\n - the format chain is empty"
    );
}
