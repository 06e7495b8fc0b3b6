use android_xdl::error::Error;
use android_xdl::raw::Library;
use android_xdl::{RowPtr, RowPtrMut, Symbol};

#[test]
fn a_null_handle_is_no_library() {
    match Library::new(0) {
        Ok(_) => panic!("null is no handle"),
        Err(e) => {
            assert_eq!(
                e,
                Error::OpeningLibraryError("Cannot create `Library` from null pointer.".to_string())
            );
            assert_eq!(
                e.message(),
                "Could not open library: Cannot create `Library` from null pointer."
            );
        }
    }
    assert_eq!(Library::new(0x7000).unwrap().handle(), 0x7000);
}

#[test]
fn an_empty_library_name_is_refused() {
    assert_eq!(
        Library::check_name(b""),
        Err(Error::OpeningLibraryError("The library name must not be empty.".to_string()))
    );
    assert_eq!(Library::check_name(b"libc.so"), Ok(()));
}

#[test]
fn a_library_that_does_not_open_is_named() {
    assert_eq!(Library::opened(b"libc.so", 0x10).unwrap().handle(), 0x10);
    assert_eq!(
        Library::opened(b"libnone.so", 0).unwrap_err(),
        Error::OpeningLibraryError("`libnone.so`".to_string())
    );
    assert_eq!(
        Library::opened(&[b'l', 0xff], 0).unwrap_err(),
        Error::OpeningLibraryError("`l\u{fffd}`".to_string())
    );
    assert_eq!(
        Library::opened_as("shown", 0).unwrap_err().message(),
        "Could not open library: `shown`"
    );
}

#[test]
fn a_null_address_is_a_symbol_not_found() {
    assert_eq!(Library::symbol(b"puts", 0x1234), Ok(0x1234));
    assert_eq!(Library::symbol(b"puts", 0), Err(Error::SymbolNotFound("puts".to_string())));
    assert_eq!(Library::symbol_as("shown", 0), Err(Error::SymbolNotFound("shown".to_string())));
    assert_eq!(Library::symbol_as("shown", 8), Ok(8));
}

#[test]
fn a_pointer_is_an_address_unless_it_is_null() {
    assert!(RowPtr::new(0).is_null());
    assert_eq!(RowPtr::new(0).into_option(), None);
    assert!(!RowPtr::new(0x1000).is_null());
    assert_eq!(RowPtr::new(0x1000).into_option(), Some(0x1000));
    assert!(RowPtrMut::new(0).is_null());
    assert_eq!(RowPtrMut::new(0).into_option(), None);
    assert_eq!(RowPtrMut::new(0x1000).into_option(), Some(0x1000));
    assert_eq!(RowPtrMut::new(0x1000).into_const().into_option(), Some(0x1000));
    assert!(RowPtrMut::new(0).into_const().is_null());
}

#[test]
fn a_symbol_holds_its_value() {
    let symbol = Symbol::new(41u32);
    assert_eq!(*symbol.get(), 41);
    assert_eq!(symbol.into_inner(), 41);
}
