use boltffi_scan::error::ScanError;

#[test]
fn display_messages_are_stable_and_specific() {
    assert_eq!(
        ScanError::UnsupportedType {
            spelling: "Point".to_owned()
        }
        .message(),
        "unsupported source type `Point`"
    );
    assert_eq!(
        ScanError::UnnamedParameter.message(),
        "parameter pattern is not a plain name"
    );
    assert_eq!(
        ScanError::ReceiverOnFreeFunction.message(),
        "free function cannot have a receiver"
    );
    assert_eq!(
        ScanError::TupleOrUnitStruct.message(),
        "tuple and unit structs are not supported as records yet"
    );
}

#[test]
fn marker_and_declaration_messages_name_what_they_reject() {
    assert_eq!(
        ScanError::ConflictingMarkers {
            first: "data".to_owned(),
            second: "error".to_owned()
        }
        .message(),
        "conflicting markers `data` and `error`"
    );
    assert_eq!(
        ScanError::ConflictingDeclarations {
            path: "demo::Engine".to_owned(),
            first: "record".to_owned(),
            second: "class".to_owned()
        }
        .message(),
        "`demo::Engine` is declared as both record and class"
    );
    assert_eq!(
        ScanError::InvalidMarker {
            attribute: "data(foo)".to_owned()
        }
        .message(),
        "invalid marker attribute `#[data(foo)]`"
    );
}
